use vstd::prelude::*;
use vstd::string::*;

verus! {

/// The character of a single decimal digit.
pub open spec fn digit_char(d: nat) -> char {
    if d == 0 {
        '0'
    } else if d == 1 {
        '1'
    } else if d == 2 {
        '2'
    } else if d == 3 {
        '3'
    } else if d == 4 {
        '4'
    } else if d == 5 {
        '5'
    } else if d == 6 {
        '6'
    } else if d == 7 {
        '7'
    } else if d == 8 {
        '8'
    } else {
        '9'
    }
}

/// The decimal notation of `n`, without sign or leading zeros.
pub open spec fn decimal(n: nat) -> Seq<char>
    decreases n,
{
    if n < 10 {
        seq![digit_char(n)]
    } else {
        decimal(n / 10).push(digit_char(n % 10))
    }
}

/// The full URL of an endpoint: the API host, `/v`, the version in decimal,
/// then the endpoint's path.
pub open spec fn endpoint_url(version: u64, path: Seq<char>) -> Seq<char> {
    "https://api.boticord.top/v"@ + decimal(version as nat) + path
}

fn digit_str(d: u64) -> (r: &'static str)
    requires
        d < 10,
    ensures
        r@ == seq![digit_char(d as nat)],
{
    proof {
        reveal_strlit("0");
        reveal_strlit("1");
        reveal_strlit("2");
        reveal_strlit("3");
        reveal_strlit("4");
        reveal_strlit("5");
        reveal_strlit("6");
        reveal_strlit("7");
        reveal_strlit("8");
        reveal_strlit("9");
    }
    let r = if d == 0 {
        "0"
    } else if d == 1 {
        "1"
    } else if d == 2 {
        "2"
    } else if d == 3 {
        "3"
    } else if d == 4 {
        "4"
    } else if d == 5 {
        "5"
    } else if d == 6 {
        "6"
    } else if d == 7 {
        "7"
    } else if d == 8 {
        "8"
    } else {
        "9"
    };
    assert(r@ =~= seq![digit_char(d as nat)]);
    r
}

/// Appends the decimal notation of `n` to `out`.
pub fn push_decimal(out: &mut String, n: u64)
    ensures
        final(out)@ == old(out)@ + decimal(n as nat),
    decreases n,
{
    if n >= 10 {
        push_decimal(out, n / 10);
    }
    out.append(digit_str(n % 10));
    assert(final(out)@ =~= old(out)@ + decimal(n as nat));
}

/// Builds the full URL of the endpoint at `path` for API `version`.
pub fn endpoint(version: u64, path: &str) -> (r: String)
    ensures
        r@ == endpoint_url(version, path@),
{
    let mut r = String::from_str("https://api.boticord.top/v");
    push_decimal(&mut r, version);
    r.append(path);
    assert(r@ =~= endpoint_url(version, path@));
    r
}

/// Requests of one client to two different paths never share a URL: each
/// call addresses its own endpoint.
pub proof fn lemma_endpoint_url_injective(version: u64, p1: Seq<char>, p2: Seq<char>)
    requires
        p1 != p2,
    ensures
        endpoint_url(version, p1) != endpoint_url(version, p2),
{
    let u1 = endpoint_url(version, p1);
    let u2 = endpoint_url(version, p2);
    let k: int = ("https://api.boticord.top/v"@.len() + decimal(version as nat).len()) as int;
    assert(u1.subrange(k, u1.len() as int) =~= p1);
    assert(u2.subrange(k, u2.len() as int) =~= p2);
}

/// Whether `url::Url::parse` accepts the text as an absolute URL.
pub uninterp spec fn url_accepts(s: Seq<char>) -> bool;

/// Relies on `url::Url::parse`: it either accepts the text or names the
/// reason it does not, and which of the two happens depends on the text alone.
#[verifier::external_body]
pub(crate) fn parse_failure(s: &str) -> (r: Option<url::ParseError>)
    ensures
        r is None <==> url_accepts(s@),
{
    url::Url::parse(s).err()
}

} // verus!
