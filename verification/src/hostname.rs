use vstd::prelude::*;

verus! {

/// What parsing `s` as an absolute URL gives: `None` when the parser refuses
/// it, `Some(None)` when the URL has no host, `Some(Some(h))` for host `h`.
pub uninterp spec fn parsed_url_host(s: Seq<char>) -> Option<Option<Seq<char>>>;

/// The view of a doubly optional string.
pub open spec fn opt_opt_view(o: Option<Option<String>>) -> Option<Option<Seq<char>>> {
    match o {
        Some(Some(h)) => Some(Some(h@)),
        Some(None) => Some(None),
        None => None,
    }
}

/// Parses `s` with `url::Url::parse` and, when that succeeds, reads its host
/// with `Url::host_str`. The contract only names the outcome: it is a function
/// of the text alone, `parsed_url_host`, whose values this library does not state.
#[verifier::external_body]
fn url_host(s: &str) -> (r: Option<Option<String>>)
    ensures
        opt_opt_view(r) == parsed_url_host(s@),
{
    match url::Url::parse(s) {
        Ok(u) => Some(u.host_str().map(|h| h.to_string())),
        Err(_) => None,
    }
}

/// The text shown for a URL: its host where it parses with one, else the URL itself.
pub open spec fn spec_hostname_or_url(parsed: Option<Option<Seq<char>>>, url: Seq<char>) -> Seq<char> {
    match parsed {
        Some(Some(h)) => h,
        _ => url,
    }
}

/// Picks the host out of the outcome of parsing `url_str`, falling back to
/// the URL text when there is no host.
pub fn hostname_or_url(parsed: Option<Option<String>>, url_str: &str) -> (r: String)
    ensures
        r@ == spec_hostname_or_url(opt_opt_view(parsed), url_str@),
{
    match parsed {
        Some(Some(h)) => h,
        _ => url_str.to_owned(),
    }
}

/// The host of `url_str`, or `url_str` itself where it does not parse as a
/// URL with a host.
pub fn get_hostname(url_str: &str) -> (r: String)
    ensures
        r@ == spec_hostname_or_url(parsed_url_host(url_str@), url_str@),
{
    let parsed = url_host(url_str);
    hostname_or_url(parsed, url_str)
}

} // verus!
