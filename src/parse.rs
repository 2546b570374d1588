use vstd::prelude::*;
use vstd::string::*;
use crate::address::str_equal;
use crate::model::{MultisigError, Network, ProposalStatus};

verus! {

/// The network named by a lower-case network name.
pub open spec fn spec_network_of(s: Seq<char>) -> Option<Network> {
    if s == "mainnet"@ {
        Some(Network::Mainnet)
    } else if s == "testnet"@ {
        Some(Network::Testnet)
    } else if s == "futurenet"@ {
        Some(Network::Futurenet)
    } else {
        None
    }
}

/// Reads a network name (`mainnet`, `testnet` or `futurenet`).
pub fn parse_network(s: &str) -> (r: Result<Network, MultisigError>)
    ensures
        match spec_network_of(s@) {
            Some(n) => r == Ok::<Network, MultisigError>(n),
            None => r == Err::<Network, MultisigError>(MultisigError::InvalidNetwork),
        },
{
    if str_equal(s, "mainnet") {
        Ok(Network::Mainnet)
    } else if str_equal(s, "testnet") {
        Ok(Network::Testnet)
    } else if str_equal(s, "futurenet") {
        Ok(Network::Futurenet)
    } else {
        Err(MultisigError::InvalidNetwork)
    }
}

/// The status named by a lower-case status name.
pub open spec fn spec_status_of(s: Seq<char>) -> Option<ProposalStatus> {
    if s == "pending"@ {
        Some(ProposalStatus::Pending)
    } else if s == "approved"@ {
        Some(ProposalStatus::Approved)
    } else if s == "executed"@ {
        Some(ProposalStatus::Executed)
    } else if s == "expired"@ {
        Some(ProposalStatus::Expired)
    } else if s == "rejected"@ {
        Some(ProposalStatus::Rejected)
    } else {
        None
    }
}

/// Reads a status name, as used to filter proposal listings.
pub fn parse_status(s: &str) -> (r: Option<ProposalStatus>)
    ensures
        r == spec_status_of(s@),
{
    if str_equal(s, "pending") {
        Some(ProposalStatus::Pending)
    } else if str_equal(s, "approved") {
        Some(ProposalStatus::Approved)
    } else if str_equal(s, "executed") {
        Some(ProposalStatus::Executed)
    } else if str_equal(s, "expired") {
        Some(ProposalStatus::Expired)
    } else if str_equal(s, "rejected") {
        Some(ProposalStatus::Rejected)
    } else {
        None
    }
}

/// The pieces of `s` between commas, read left to right; a string without commas is one
/// piece.
pub open spec fn split_commas(s: Seq<char>) -> Seq<Seq<char>>
    decreases s.len(),
{
    if s.len() == 0 {
        seq![Seq::empty()]
    } else {
        let init = split_commas(s.drop_last());
        if s.last() == ',' {
            init.push(Seq::empty())
        } else {
            init.update(init.len() - 1, init.last().push(s.last()))
        }
    }
}

/// A character with the Unicode `White_Space` property, as `char::is_whitespace` tests it.
pub open spec fn is_white_space(c: char) -> bool {
    let u = c as u32;
    ||| 0x9 <= u <= 0xD
    ||| u == 0x20 || u == 0x85 || u == 0xA0 || u == 0x1680
    ||| 0x2000 <= u <= 0x200A
    ||| u == 0x2028 || u == 0x2029 || u == 0x202F || u == 0x205F || u == 0x3000
}

/// `s` without its leading white space.
pub open spec fn trim_start(s: Seq<char>) -> Seq<char>
    decreases s.len(),
{
    if s.len() > 0 && is_white_space(s[0]) {
        trim_start(s.drop_first())
    } else {
        s
    }
}

/// `s` without its trailing white space.
pub open spec fn trim_end(s: Seq<char>) -> Seq<char>
    decreases s.len(),
{
    if s.len() > 0 && is_white_space(s.last()) {
        trim_end(s.drop_last())
    } else {
        s
    }
}

/// `s` without its leading and trailing white space.
pub open spec fn trimmed(s: Seq<char>) -> Seq<char> {
    trim_end(trim_start(s))
}

/// Relies on `str::trim`: the string without its leading and trailing characters that
/// have the Unicode `White_Space` property.
#[verifier::external_body]
fn trim_owned(s: &str) -> (r: String)
    ensures
        r@ == trimmed(s@),
{
    s.trim().to_string()
}

/// Splits a comma-separated list and trims each entry, as the command line gives lists of
/// signers and tags.
pub fn split_list(s: &str) -> (r: Vec<String>)
    ensures
        r@.len() == split_commas(s@).len(),
        forall|k: int| 0 <= k < r@.len() ==> (#[trigger] r@[k])@ == trimmed(split_commas(s@)[k]),
{
    let n = s.unicode_len();
    let mut r: Vec<String> = Vec::new();
    let ghost mut pieces: Seq<Seq<char>> = Seq::empty();
    let mut start: usize = 0;
    let mut i: usize = 0;
    assert(s@.subrange(0, 0) =~= Seq::<char>::empty());
    assert(split_commas(Seq::<char>::empty()) =~= pieces.push(Seq::<char>::empty()));
    while i < n
        invariant
            n == s@.len(),
            start <= i <= n,
            split_commas(s@.subrange(0, i as int)) == pieces.push(
                s@.subrange(start as int, i as int),
            ),
            r@.len() == pieces.len(),
            forall|k: int| 0 <= k < r@.len() ==> (#[trigger] r@[k])@ == trimmed(pieces[k]),
        decreases n - i,
    {
        let c = s.get_char(i);
        let ghost prefix = s@.subrange(0, i + 1);
        assert(prefix.drop_last() =~= s@.subrange(0, i as int));
        assert(prefix.last() == c);
        if c == ',' {
            let piece = trim_owned(s.substring_char(start, i));
            proof {
                pieces = pieces.push(s@.subrange(start as int, i as int));
            }
            r.push(piece);
            start = i + 1;
            assert(s@.subrange(start as int, i + 1) =~= Seq::<char>::empty());
        } else {
            assert(s@.subrange(start as int, i + 1) =~= s@.subrange(start as int, i as int).push(c));
        }
        i += 1;
    }
    let last = trim_owned(s.substring_char(start, n));
    proof {
        pieces = pieces.push(s@.subrange(start as int, n as int));
        assert(s@.subrange(0, n as int) =~= s@);
    }
    r.push(last);
    r
}

} // verus!
