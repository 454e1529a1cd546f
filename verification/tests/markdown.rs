use konto::markdown::md_to_typst;

#[test]
fn plain_text() {
    assert_eq!(md_to_typst("hello world"), "hello world");
}

#[test]
fn bold() {
    assert_eq!(md_to_typst("some **bold** text"), "some *bold* text");
}

#[test]
fn italic() {
    assert_eq!(md_to_typst("some *italic* text"), "some _italic_ text");
}

#[test]
fn bullet_list() {
    let input = "- item one\n- item two";
    let output = md_to_typst(input);
    assert!(output.contains("- item one"));
    assert!(output.contains("- item two"));
}

#[test]
fn ordered_list() {
    let input = "1. first\n2. second";
    let output = md_to_typst(input);
    assert!(output.contains("+ first"));
    assert!(output.contains("+ second"));
}

#[test]
fn special_chars_escaped() {
    assert_eq!(md_to_typst("price #1 <test>"), "price \\#1 \\<test\\>");
}

#[test]
fn multiline() {
    let input = "line one\nline two";
    let output = md_to_typst(input);
    assert_eq!(output, "line one\\\nline two");
}

#[test]
fn bullet_star_and_escapes_inside_bold() {
    assert_eq!(md_to_typst("* **a#b** @x"), "- *a\\#b* \\@x");
}

#[test]
fn unclosed_double_star_becomes_empty_italic() {
    assert_eq!(md_to_typst("**x"), "__x");
}

#[test]
fn ordered_list_needs_digits() {
    assert_eq!(md_to_typst("a. b"), "a. b");
    assert_eq!(md_to_typst("12. twelve"), "+ twelve");
}

#[test]
fn lines_trimmed_and_trailing_newline() {
    assert_eq!(md_to_typst("  a  \r\nb\n"), "a\\\nb");
    assert_eq!(md_to_typst(""), "");
    assert_eq!(md_to_typst("\n"), "");
    assert_eq!(md_to_typst("a\n\nb"), "a\\\n\\\nb");
}

#[test]
fn backslash_and_dollar_escaped() {
    assert_eq!(md_to_typst("a\\b $5"), "a\\\\b \\$5");
}
