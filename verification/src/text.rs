//! Character-level helpers on strings.
use vstd::prelude::*;

verus! {

/// Whether `suffix` is a suffix of `s`.
pub open spec fn spec_ends_with(s: Seq<char>, suffix: Seq<char>) -> bool {
    suffix.len() <= s.len() && s.subrange(s.len() - suffix.len(), s.len() as int) == suffix
}

/// Returns whether `suffix` is a suffix of `s`, character by character.
pub fn ends_with(s: &str, suffix: &str) -> (res: bool)
    ensures
        res == spec_ends_with(s@, suffix@),
{
    let n = s.unicode_len();
    let m = suffix.unicode_len();
    if m > n {
        return false;
    }
    let offset = n - m;
    let mut i: usize = 0;
    while i < m
        invariant
            n == s@.len(),
            m == suffix@.len(),
            m <= n,
            offset == n - m,
            i <= m,
            forall|j: int| 0 <= j < i ==> s@[offset + j] == suffix@[j],
        decreases m - i,
    {
        if s.get_char(offset + i) != suffix.get_char(i) {
            assert(s@.subrange(offset as int, n as int)[i as int] != suffix@[i as int]);
            return false;
        }
        i = i + 1;
    }
    assert(s@.subrange(offset as int, n as int) =~= suffix@);
    true
}

/// Whether `prefix` is `bytes` up to, not including, its first zero byte
/// (all of `bytes` when it holds no zero), as a C string ends.
pub open spec fn is_before_nul(bytes: Seq<u8>, prefix: Seq<u8>) -> bool {
    &&& prefix.len() <= bytes.len()
    &&& prefix == bytes.take(prefix.len() as int)
    &&& forall|i: int| 0 <= i < prefix.len() ==> #[trigger] prefix[i] != 0
    &&& prefix.len() < bytes.len() ==> bytes[prefix.len() as int] == 0
}

/// Returns the bytes of `bytes` before its first zero byte.
pub fn before_nul(bytes: &[u8]) -> (res: Vec<u8>)
    ensures
        is_before_nul(bytes@, res@),
{
    let mut res: Vec<u8> = Vec::new();
    let mut i: usize = 0;
    while i < bytes.len() && bytes[i] != 0
        invariant
            i <= bytes.len(),
            res@ == bytes@.take(i as int),
            forall|j: int| 0 <= j < i ==> #[trigger] bytes@[j] != 0,
        decreases bytes.len() - i,
    {
        res.push(bytes[i]);
        i = i + 1;
        assert(res@ =~= bytes@.take(i as int));
    }
    res
}

/// The lowercase equivalent of a string, as Unicode defines it.
pub uninterp spec fn spec_to_lowercase(s: Seq<char>) -> Seq<char>;

/// Returns the lowercase equivalent of `s` (`str::to_lowercase`).
///
/// Trusted: the result is claimed to be the Unicode lowercase mapping of the
/// characters of `s`, a function of `s` alone; the mapping itself is not stated.
#[verifier::external_body]
pub(crate) fn to_lowercase(s: &str) -> (res: String)
    ensures
        res@ == spec_to_lowercase(s@),
{
    s.to_lowercase()
}

} // verus!
