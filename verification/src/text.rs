//! Small string utilities shared by the event and fetch modules.

use vstd::prelude::*;
use vstd::string::StrSliceExecFns;

verus! {

/// Relies on `str`'s `PartialEq` from std: two string slices compare equal
/// exactly when they consist of the same characters.
#[verifier::external_body]
pub(crate) fn str_eq(a: &str, b: &str) -> (r: bool)
    ensures
        r == (a@ == b@),
{
    a == b
}

/// One character of an ASCII-case-insensitive comparison: `a` matches the
/// lower-case pattern character `p` if it is `p` itself or its upper-case form.
pub open spec fn ci_char_eq(a: char, p: char) -> bool {
    a == p || (65 <= a as u32 && a as u32 <= 90 && a as u32 + 32 == p as u32)
}

/// `p` is an ASCII-case-insensitive prefix of `s`, with `p` given lower-case.
pub open spec fn has_ci_prefix(s: Seq<char>, p: Seq<char>) -> bool {
    s.len() >= p.len() && forall|i: int| 0 <= i < p.len() ==> ci_char_eq(s[i], p[i])
}

/// Case-insensitive ASCII prefix test, e.g. for URL scheme recognition.
pub fn ascii_ci_has_prefix(s: &str, p: &str) -> (r: bool)
    ensures
        r == has_ci_prefix(s@, p@),
{
    let s_len = s.unicode_len();
    let p_len = p.unicode_len();
    if s_len < p_len {
        return false;
    }
    let mut i: usize = 0;
    while i < p_len
        invariant
            i <= p_len,
            p_len == p@.len(),
            s@.len() >= p@.len(),
            forall|j: int| 0 <= j < i ==> ci_char_eq(s@[j], p@[j]),
        decreases p_len - i,
    {
        let sc = s.get_char(i);
        let pc = p.get_char(i);
        let scu = sc as u32;
        let pcu = pc as u32;
        let ok = sc == pc || (65 <= scu && scu <= 90 && scu + 32 == pcu);
        if !ok {
            assert(!ci_char_eq(s@[i as int], p@[i as int]));
            return false;
        }
        assert(ci_char_eq(s@[i as int], p@[i as int]));
        i += 1;
    }
    true
}

} // verus!
