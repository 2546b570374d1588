use vstd::prelude::*;
use vstd::string::*;

verus! {

/// The decimal digit of a value below 10.
pub open spec fn decimal_digit(n: nat) -> char {
    seq!['0', '1', '2', '3', '4', '5', '6', '7', '8', '9'][n as int]
}

/// Decimal notation of `n`, without sign or leading zeros.
pub open spec fn decimal(n: nat) -> Seq<char>
    decreases n,
{
    if n < 10 {
        seq![decimal_digit(n)]
    } else {
        decimal(n / 10).push(decimal_digit(n % 10))
    }
}

/// Relies on `usize`'s `Display` (through `to_string`): decimal digits, without sign or
/// leading zeros.
#[verifier::external_body]
fn usize_text(n: usize) -> (r: String)
    ensures
        r@ == decimal(n as nat),
{
    n.to_string()
}

/// The query suffix that restricts a request to a network, if one is given.
pub open spec fn network_suffix(network: Option<Seq<char>>, sep: Seq<char>) -> Seq<char> {
    match network {
        Some(n) => sep + "network="@ + n,
        None => Seq::empty(),
    }
}

/// `{api}/api/contracts?query={query}`, then `&network={network}` and
/// `&verified_only=true` when asked for.
pub open spec fn spec_search_url(
    api: Seq<char>,
    query: Seq<char>,
    network: Option<Seq<char>>,
    verified_only: bool,
) -> Seq<char> {
    api + "/api/contracts?query="@ + query + network_suffix(network, "&"@) + if verified_only {
        "&verified_only=true"@
    } else {
        Seq::empty()
    }
}

fn append_network(url: &mut String, network: Option<&str>, sep: &str)
    ensures
        final(url)@ == old(url)@ + network_suffix(
            match network {
                Some(n) => Some(n@),
                None => None,
            },
            sep@,
        ),
{
    match network {
        Some(n) => {
            url.append(sep);
            url.append("network=");
            url.append(n);
        },
        None => {
            assert(old(url)@ + Seq::<char>::empty() =~= old(url)@);
        },
    }
}

pub open spec fn opt_view(o: Option<&str>) -> Option<Seq<char>> {
    match o {
        Some(s) => Some(s@),
        None => None,
    }
}

/// The request that searches the contract catalogue.
pub fn search_url(api: &str, query: &str, network: Option<&str>, verified_only: bool) -> (r:
    String)
    ensures
        r@ == spec_search_url(api@, query@, opt_view(network), verified_only),
{
    let mut url = String::from_str(api);
    url.append("/api/contracts?query=");
    url.append(query);
    append_network(&mut url, network, "&");
    if verified_only {
        url.append("&verified_only=true");
    } else {
        assert(url@ + Seq::<char>::empty() =~= url@);
    }
    url
}

/// `{api}/api/contracts/{contract_id}`, then `?network={network}` when one is given.
pub fn contract_url(api: &str, contract_id: &str, network: Option<&str>) -> (r: String)
    ensures
        r@ == api@ + "/api/contracts/"@ + contract_id@ + network_suffix(opt_view(network), "?"@),
{
    let mut url = String::from_str(api);
    url.append("/api/contracts/");
    url.append(contract_id);
    append_network(&mut url, network, "?");
    url
}

/// `{api}/api/contracts`: where contracts are published.
pub fn contracts_url(api: &str) -> (r: String)
    ensures
        r@ == api@ + "/api/contracts"@,
{
    let mut url = String::from_str(api);
    url.append("/api/contracts");
    url
}

/// `{api}/api/contracts?page_size={limit}`, then `&network={network}` when one is given.
pub fn list_url(api: &str, limit: usize, network: Option<&str>) -> (r: String)
    ensures
        r@ == api@ + "/api/contracts?page_size="@ + decimal(limit as nat) + network_suffix(
            opt_view(network),
            "&"@,
        ),
{
    let mut url = String::from_str(api);
    url.append("/api/contracts?page_size=");
    let n = usize_text(limit);
    url.append(n.as_str());
    append_network(&mut url, network, "&");
    url
}

/// `{api}/api/migrations`, or `{api}/api/migrations/{id}` for one migration record.
pub fn migrations_url(api: &str, migration_id: Option<&str>) -> (r: String)
    ensures
        r@ == api@ + "/api/migrations"@ + match migration_id {
            Some(id) => "/"@ + id@,
            None => Seq::empty(),
        },
{
    let mut url = String::from_str(api);
    url.append("/api/migrations");
    match migration_id {
        Some(id) => {
            url.append("/");
            url.append(id);
        },
        None => {
            assert(url@ + Seq::<char>::empty() =~= url@);
        },
    }
    url
}

} // verus!
