//! Text replacement (`str::replace`), used to fill templates.
use vstd::prelude::*;

use crate::text::{chars_of, push_all, string_of};

verus! {

/// `str::replace`: every occurrence of the non-empty `pat`, found from left
/// to right without overlap, replaced by `rep`.
pub open spec fn replace_spec(s: Seq<char>, pat: Seq<char>, rep: Seq<char>) -> Seq<char>
    decreases s.len(),
{
    if pat.len() == 0 || s.len() < pat.len() {
        s
    } else if s.take(pat.len() as int) == pat {
        rep + replace_spec(s.skip(pat.len() as int), pat, rep)
    } else {
        seq![s[0]] + replace_spec(s.skip(1), pat, rep)
    }
}

fn matches_at(v: &Vec<char>, i: usize, p: &Vec<char>) -> (b: bool)
    requires
        i <= v.len(),
    ensures
        b == (p.len() <= v.len() - i && v@.skip(i as int).take(p.len() as int) == p@),
{
    if p.len() > v.len() - i {
        return false;
    }
    let mut j: usize = 0;
    while j < p.len()
        invariant
            j <= p.len() <= v.len() - i,
            forall|k: int| 0 <= k < j ==> v@[i + k] == p@[k],
        decreases p.len() - j,
    {
        if v[i + j] != p[j] {
            assert(v@.skip(i as int).take(p.len() as int)[j as int] != p@[j as int]);
            return false;
        }
        j = j + 1;
    }
    assert(v@.skip(i as int).take(p.len() as int) =~= p@);
    true
}

/// Replaces every occurrence of the non-empty `pat` in `s` by `rep`.
pub fn replace(s: &str, pat: &str, rep: &str) -> (r: String)
    requires
        pat@.len() > 0,
    ensures
        r@ == replace_spec(s@, pat@, rep@),
{
    let v = chars_of(s);
    let p = chars_of(pat);
    let q = chars_of(rep);
    let mut out: Vec<char> = Vec::new();
    let mut i: usize = 0;
    assert(v@.skip(0) =~= v@);
    while i < v.len()
        invariant
            i <= v.len(),
            p@.len() > 0,
            v@ == s@,
            p@ == pat@,
            q@ == rep@,
            replace_spec(s@, pat@, rep@) == out@ + replace_spec(v@.skip(i as int), p@, q@),
        decreases v.len() - i,
    {
        let ghost rest = v@.skip(i as int);
        let ghost before = out@;
        if matches_at(&v, i, &p) {
            push_all(&mut out, &q);
            assert(rest.skip(p@.len() as int) =~= v@.skip(i + p@.len()));
            assert(out@ + replace_spec(v@.skip(i + p@.len()), p@, q@) =~= before + (q@
                + replace_spec(rest.skip(p@.len() as int), p@, q@)));
            i = i + p.len();
        } else {
            out.push(v[i]);
            assert(rest.skip(1) =~= v@.skip(i + 1));
            proof {
                if rest.len() < p@.len() {
                    assert(replace_spec(rest, p@, q@) == rest);
                    assert(rest =~= seq![rest[0]] + rest.skip(1));
                    lemma_replace_short(rest.skip(1), p@, q@);
                }
            }
            assert(out@ + replace_spec(v@.skip(i + 1), p@, q@) =~= before + (seq![v@[i as int]]
                + replace_spec(rest.skip(1), p@, q@)));
            i = i + 1;
        }
    }
    assert(v@.skip(i as int) =~= Seq::<char>::empty());
    assert(out@ =~= replace_spec(s@, pat@, rep@));
    string_of(&out)
}

proof fn lemma_replace_short(s: Seq<char>, pat: Seq<char>, rep: Seq<char>)
    requires
        s.len() < pat.len(),
    ensures
        replace_spec(s, pat, rep) == s,
{
}

} // verus!
