use konto::auth::{has_permission, parse_role, UserRole};
use konto::auth_service::{AuthService, Claims, TokenType};
use konto::error::AppError;

fn unauthorized(r: Result<(), AppError>) -> String {
    match r {
        Err(AppError::Unauthorized(m)) => m,
        _ => panic!("expected unauthorized"),
    }
}

#[test]
fn claims_carry_the_expiry() {
    let c = Claims::issue("u1", "a@b.ch", UserRole::Admin, TokenType::Access, 1000, 900);
    assert_eq!(c.sub, "u1");
    assert_eq!(c.email, "a@b.ch");
    assert_eq!(c.iat, 1000);
    assert_eq!(c.exp, 1900);
    assert_eq!(c.token_type, TokenType::Access);
}

#[test]
fn login_checks() {
    assert_eq!(unauthorized(AuthService::check_login_user(None)), "Invalid credentials");
    assert_eq!(unauthorized(AuthService::check_login_user(Some(false))), "Account is disabled");
    assert!(AuthService::check_login_user(Some(true)).is_ok());
    assert_eq!(unauthorized(AuthService::check_password(false)), "Invalid credentials");
    assert!(AuthService::check_password(true).is_ok());
}

#[test]
fn refresh_checks() {
    let access = Claims::issue("u", "e", UserRole::User, TokenType::Access, 0, 1);
    let refresh = Claims::issue("u", "e", UserRole::User, TokenType::Refresh, 0, 1);
    assert_eq!(unauthorized(AuthService::check_refresh_claims(&access)), "Invalid token type");
    assert!(AuthService::check_refresh_claims(&refresh).is_ok());
    assert_eq!(unauthorized(AuthService::check_refresh_user(None)), "User not found");
    assert_eq!(unauthorized(AuthService::check_refresh_user(Some(false))), "Account is disabled");
}

#[test]
fn profile_changes_keep_only_real_names() {
    let (n, l) = AuthService::profile_changes(Some("  ".to_string()), Some("Deutsch".to_string()));
    assert_eq!(n, None);
    assert_eq!(l.as_deref(), Some("de"));
    let (n, l) = AuthService::profile_changes(Some("Anna Muster".to_string()), None);
    assert_eq!(n.as_deref(), Some("Anna Muster"));
    assert_eq!(l, None);
    assert_eq!(AuthService::language_setting("klingon"), "en");
    assert_eq!(AuthService::language_setting("fr-CH"), "fr");
}

#[test]
fn roles_by_name() {
    assert_eq!(parse_role("admin"), UserRole::Admin);
    assert_eq!(parse_role("accountant"), UserRole::Accountant);
    assert_eq!(parse_role("auditor"), UserRole::Auditor);
    assert_eq!(parse_role("boss"), UserRole::User);
}

#[test]
fn permissions_from_json() {
    assert_eq!(has_permission(r#"{"all": true}"#, "journal.write").ok(), Some(true));
    assert_eq!(has_permission(r#"{"read_all": true}"#, "read_reports").ok(), Some(true));
    assert_eq!(has_permission(r#"{"read_all": true}"#, "write_reports").ok(), Some(false));
    assert_eq!(has_permission(r#"{"x": true, "y": 1}"#, "x").ok(), Some(true));
    assert_eq!(has_permission(r#"{"y": 1}"#, "y").ok(), Some(false));
    assert_eq!(has_permission(r#"[1, 2]"#, "y").ok(), Some(false));
    match has_permission("{oops", "x") {
        Err(AppError::Internal(m)) => assert!(m.starts_with("Invalid permissions JSON: ")),
        _ => panic!(),
    }
}
