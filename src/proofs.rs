use vstd::prelude::*;

use crate::apresolve::{
    address_or_fallback, first_with_port, required_port, resolved, selected_ap, ApResolveError,
    AP_FALLBACK, DEFAULT_AP_PORT,
};
use crate::uri::uri_port_of;

verus! {

/// Whether `c` is a decimal digit.
pub open spec fn is_digit(c: char) -> bool {
    '0' <= c && c <= '9'
}

/// Whether `s` splits at `i` into a non-empty host, a `:` and a non-empty
/// run of digits.
pub open spec fn host_port_split(s: Seq<char>, i: int) -> bool {
    &&& 0 < i
    &&& i + 1 < s.len()
    &&& s[i] == ':'
    &&& forall|j: int| i < j < s.len() ==> is_digit(#[trigger] s[j])
}

/// Whether `s` has the form `host:port`.
pub open spec fn is_host_port(s: Seq<char>) -> bool {
    exists|i: int| #[trigger] host_port_split(s, i)
}

/// The fallback address has the form `host:port`.
pub proof fn lemma_fallback_is_host_port()
    ensures
        is_host_port(AP_FALLBACK@),
        AP_FALLBACK@.len() > 0,
{
    reveal_strlit("ap.spotify.com:443");
    assert(host_port_split(AP_FALLBACK@, 14));
}

/// The first address with port `port` from `from` on is one of `aps` at or
/// after `from`, and has that port; where there is none, no address from
/// `from` on has it.
pub proof fn lemma_first_with_port(aps: Seq<Seq<char>>, port: u16, from: int)
    requires
        0 <= from,
    ensures
        match first_with_port(aps, port, from) {
            Some(ap) => exists|i: int|
                from <= i < aps.len() && aps[i] == ap && uri_port_of(ap) == Some(port),
            None => forall|i: int| from <= i < aps.len() ==> uri_port_of(aps[i]) != Some(port),
        },
    decreases aps.len() - from,
{
    if from < aps.len() {
        lemma_first_with_port(aps, port, from + 1);
    }
}

/// A successful resolution gives one of the listed addresses, never the
/// fallback unless it is listed; where a port was required, the address has
/// that port.
pub proof fn lemma_resolved_is_listed(
    response: Result<Seq<Seq<char>>, ApResolveError>,
    proxy_set: bool,
    ap_port: Option<u16>,
)
    ensures
        resolved(response, proxy_set, ap_port) is Ok ==> {
            let ap = resolved(response, proxy_set, ap_port)->Ok_0;
            &&& response is Ok
            &&& exists|i: int| 0 <= i < response->Ok_0.len() && response->Ok_0[i] == ap
            &&& required_port(proxy_set, ap_port) is Some ==> uri_port_of(ap)
                == required_port(proxy_set, ap_port)
        },
{
    if let Ok(aps) = response {
        if let Some(p) = required_port(proxy_set, ap_port) {
            lemma_first_with_port(aps, p, 0);
        }
    }
}

/// Whatever the discovery attempt gave, the address a client gets is
/// non-empty and of the form `host:port`, provided every listed address is.
pub proof fn lemma_address_is_host_port(
    response: Result<Seq<Seq<char>>, ApResolveError>,
    proxy_set: bool,
    ap_port: Option<u16>,
)
    requires
        response is Ok ==> forall|i: int|
            0 <= i < response->Ok_0.len() ==> is_host_port(#[trigger] response->Ok_0[i]),
    ensures
        is_host_port(address_or_fallback(resolved(response, proxy_set, ap_port))),
        address_or_fallback(resolved(response, proxy_set, ap_port)).len() > 0,
{
    lemma_fallback_is_host_port();
    lemma_resolved_is_listed(response, proxy_set, ap_port);
    let ap = address_or_fallback(resolved(response, proxy_set, ap_port));
    if resolved(response, proxy_set, ap_port) is Ok {
        let aps = response->Ok_0;
        let i = choose|i: int| 0 <= i < aps.len() && aps[i] == ap;
        assert(is_host_port(aps[i]));
    }
}

/// The fallback is used exactly when the attempt fails: the endpoint could
/// not be reached or its body not parsed, the list is empty, or no address
/// has the required port.
pub proof fn lemma_fallback_on_failure(
    response: Result<Seq<Seq<char>>, ApResolveError>,
    proxy_set: bool,
    ap_port: Option<u16>,
)
    requires
        response is Err || response->Ok_0.len() == 0 || (required_port(proxy_set, ap_port) is Some
            && forall|i: int|
            0 <= i < response->Ok_0.len() ==> uri_port_of(#[trigger] response->Ok_0[i])
                != required_port(proxy_set, ap_port)),
    ensures
        resolved(response, proxy_set, ap_port) is Err,
        address_or_fallback(resolved(response, proxy_set, ap_port)) == AP_FALLBACK@,
{
    lemma_resolved_is_listed(response, proxy_set, ap_port);
}

/// With a proxy in use and no port asked for, selection looks for the
/// default port, as if that port had been asked for, instead of taking the
/// first address.
pub proof fn lemma_proxy_requires_default_port(aps: Seq<Seq<char>>)
    ensures
        selected_ap(aps, true, None) == first_with_port(aps, DEFAULT_AP_PORT, 0),
        selected_ap(aps, true, None) == selected_ap(aps, false, Some(DEFAULT_AP_PORT)),
{
}

} // verus!
