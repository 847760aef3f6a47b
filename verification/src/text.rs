//! Small text operations the extraction needs: whitespace trimming (through
//! std) and a verified search for the date separator.
use vstd::prelude::*;
use vstd::string::StrSliceExecFns;

verus! {

/// The characters of `s` with leading and trailing whitespace removed,
/// as `str::trim` removes it.
pub uninterp spec fn trim_of(s: Seq<char>) -> Seq<char>;

/// Relies on `str::trim`: the result is `s` with leading and trailing
/// whitespace removed, so it depends on the characters alone and is never
/// longer than `s`.
#[verifier::external_body]
pub fn trim_str(s: &str) -> (r: &str)
    ensures
        r@ == trim_of(s@),
        r@.len() <= s@.len(),
{
    s.trim()
}

/// Trims a string and owns the result.
pub fn trimmed(s: &String) -> (r: String)
    ensures
        r@ == trim_of(s@),
{
    trim_str(s.as_str()).to_owned()
}

/// Whether the sequence holds a `/`, the separator every header date cell
/// carries.
pub open spec fn has_slash(s: Seq<char>) -> bool {
    exists|i: int| 0 <= i < s.len() && s[i] == '/'
}

/// Whether the string holds a `/`.
pub fn contains_slash(s: &String) -> (r: bool)
    ensures
        r == has_slash(s@),
{
    let st = s.as_str();
    let n = st.unicode_len();
    let mut i: usize = 0;
    while i < n
        invariant
            n == st@.len(),
            st@ == s@,
            i <= n,
            forall|j: int| 0 <= j < i ==> s@[j] != '/',
        decreases n - i,
    {
        if st.get_char(i) == '/' {
            return true;
        }
        i = i + 1;
    }
    false
}

} // verus!
