use vstd::prelude::*;
use vstd::string::*;

verus! {

/// Length of a Stellar account address (`G` followed by 55 base32 characters).
pub const ADDRESS_LEN: usize = 56;

/// A character of the RFC 4648 base32 alphabet (`A`-`Z`, `2`-`7`).
pub open spec fn spec_is_base32_char(c: char) -> bool {
    ('A' as u32 <= c as u32 && c as u32 <= 'Z' as u32) || ('2' as u32 <= c as u32 && c as u32
        <= '7' as u32)
}

/// Basic format of a Stellar account address: 56 base32 characters starting with `G`.
pub open spec fn spec_valid_address(s: Seq<char>) -> bool {
    &&& s.len() == ADDRESS_LEN
    &&& s[0] == 'G'
    &&& forall|i: int| 0 <= i < s.len() ==> spec_is_base32_char(#[trigger] s[i])
}

pub fn is_base32_char(c: char) -> (r: bool)
    ensures
        r == spec_is_base32_char(c),
{
    ('A' <= c && c <= 'Z') || ('2' <= c && c <= '7')
}

/// Checks the basic format of a signer address.
pub fn is_valid_address(s: &str) -> (r: bool)
    ensures
        r == spec_valid_address(s@),
{
    let n = s.unicode_len();
    if n != ADDRESS_LEN {
        return false;
    }
    if s.get_char(0) != 'G' {
        return false;
    }
    let mut i: usize = 0;
    while i < n
        invariant
            n == s@.len(),
            i <= n,
            forall|j: int| 0 <= j < i ==> spec_is_base32_char(#[trigger] s@[j]),
        decreases n - i,
    {
        if !is_base32_char(s.get_char(i)) {
            return false;
        }
        i += 1;
    }
    true
}

/// Character-wise equality of two strings.
pub fn str_equal(a: &str, b: &str) -> (r: bool)
    ensures
        r == (a@ == b@),
{
    let n = a.unicode_len();
    if n != b.unicode_len() {
        return false;
    }
    let mut i: usize = 0;
    while i < n
        invariant
            n == a@.len(),
            n == b@.len(),
            i <= n,
            forall|j: int| 0 <= j < i ==> a@[j] == b@[j],
        decreases n - i,
    {
        if a.get_char(i) != b.get_char(i) {
            return false;
        }
        i += 1;
    }
    assert(a@ =~= b@);
    true
}

} // verus!
