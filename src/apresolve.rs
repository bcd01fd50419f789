use vstd::prelude::*;

use crate::uri::{uri_port, uri_port_of};

verus! {

/// Address handed out whenever discovery does not produce one.
pub const AP_FALLBACK: &'static str = "ap.spotify.com:443";

/// Endpoint that lists the current access points.
pub const APRESOLVE_ENDPOINT: &'static str = "http://apresolve.spotify.com/";

/// Port required of an access point when a proxy is used and the caller
/// asked for none.
pub const DEFAULT_AP_PORT: u16 = 443;

/// The body of a discovery response: candidate addresses, each `host:port`,
/// in the order the endpoint gave them.
#[derive(Clone, Debug)]
pub struct APResolveData {
    pub ap_list: Vec<String>,
}

impl View for APResolveData {
    type V = Seq<Seq<char>>;

    open spec fn view(&self) -> Seq<Seq<char>> {
        self.ap_list@.map_values(|s: String| s@)
    }
}

/// Why a discovery attempt gave no address.
#[derive(Clone, Copy, Debug, PartialEq, Eq, Structural)]
pub enum ApResolveError {
    /// The request to the endpoint could not be built.
    RequestBuild,
    /// The request could not be sent, or no successful response came back.
    Transport,
    /// The body is not a JSON object with a list of strings under `ap_list`.
    Parse,
    /// The list is empty, or no address in it has the required port.
    EmptyApList,
}

/// The port an address must have, if any: the one asked for, else the
/// default one when a proxy is used, else none.
pub open spec fn required_port(proxy_set: bool, ap_port: Option<u16>) -> Option<u16> {
    match ap_port {
        Some(p) => Some(p),
        None => if proxy_set {
            Some(DEFAULT_AP_PORT)
        } else {
            None
        },
    }
}

/// The first address of `aps`, at `from` or after, that parses as a URI
/// with port `port`.
pub open spec fn first_with_port(aps: Seq<Seq<char>>, port: u16, from: int) -> Option<Seq<char>>
    decreases aps.len() - from,
{
    if from < 0 || from >= aps.len() {
        None
    } else if uri_port_of(aps[from]) == Some(port) {
        Some(aps[from])
    } else {
        first_with_port(aps, port, from + 1)
    }
}

/// The address chosen from `aps`: the first with the required port, or the
/// first of all where no port is required.
pub open spec fn selected_ap(aps: Seq<Seq<char>>, proxy_set: bool, ap_port: Option<u16>) -> Option<
    Seq<char>,
> {
    match required_port(proxy_set, ap_port) {
        Some(p) => first_with_port(aps, p, 0),
        None => if aps.len() > 0 {
            Some(aps[0])
        } else {
            None
        },
    }
}

/// Picks the address to use from a discovery response. With a port given,
/// or with a proxy in use, it is the first address that parses as a URI with
/// the required port; otherwise it is the first address. Fails with
/// `EmptyApList` where there is none.
pub fn select_ap(data: &APResolveData, proxy_set: bool, ap_port: Option<u16>) -> (r: Result<
    String,
    ApResolveError,
>)
    ensures
        match selected_ap(data@, proxy_set, ap_port) {
            Some(ap) => r is Ok && r->Ok_0@ == ap,
            None => r == Err::<String, ApResolveError>(ApResolveError::EmptyApList),
        },
{
    let list = &data.ap_list;
    if ap_port.is_some() || proxy_set {
        let port: u16 = match ap_port {
            Some(p) => p,
            None => DEFAULT_AP_PORT,
        };
        let mut i: usize = 0;
        while i < list.len()
            invariant
                0 <= i <= list@.len(),
                data@.len() == list@.len(),
                list == &data.ap_list,
                required_port(proxy_set, ap_port) == Some(port),
                first_with_port(data@, port, 0) == first_with_port(data@, port, i as int),
            decreases list@.len() - i,
        {
            let found = uri_port(list[i].as_str());
            if found == Some(port) {
                return Ok(list[i].clone());
            }
            i = i + 1;
        }
        Err(ApResolveError::EmptyApList)
    } else if list.len() > 0 {
        Ok(list[0].clone())
    } else {
        Err(ApResolveError::EmptyApList)
    }
}

/// A discovery outcome as values: the addresses listed, or why there are none.
pub open spec fn response_view(response: Result<APResolveData, ApResolveError>) -> Result<
    Seq<Seq<char>>,
    ApResolveError,
> {
    match response {
        Ok(data) => Ok(data@),
        Err(e) => Err(e),
    }
}

/// A resolution result as values.
pub open spec fn result_view(r: Result<String, ApResolveError>) -> Result<Seq<char>, ApResolveError> {
    match r {
        Ok(ap) => Ok(ap@),
        Err(e) => Err(e),
    }
}

/// What one resolution attempt gives: the failure that stopped it, or the
/// selected address, or `EmptyApList` where none was selected.
pub open spec fn resolved(
    response: Result<Seq<Seq<char>>, ApResolveError>,
    proxy_set: bool,
    ap_port: Option<u16>,
) -> Result<Seq<char>, ApResolveError> {
    match response {
        Err(e) => Err(e),
        Ok(aps) => match selected_ap(aps, proxy_set, ap_port) {
            Some(ap) => Ok(ap),
            None => Err(ApResolveError::EmptyApList),
        },
    }
}

/// The address a client uses after a resolution attempt.
pub open spec fn address_or_fallback(r: Result<Seq<char>, ApResolveError>) -> Seq<char> {
    match r {
        Ok(ap) => ap,
        Err(_) => AP_FALLBACK@,
    }
}

fn fallback() -> (r: String)
    ensures
        r@ == AP_FALLBACK@,
{
    AP_FALLBACK.to_owned()
}

/// Finishes a resolution attempt from what the transport and the parser
/// produced: a failure passes through unchanged, a parsed response goes to
/// `select_ap`.
pub fn apresolve_from(
    response: Result<APResolveData, ApResolveError>,
    proxy_set: bool,
    ap_port: Option<u16>,
) -> (r: Result<String, ApResolveError>)
    ensures
        result_view(r) == resolved(response_view(response), proxy_set, ap_port),
{
    match response {
        Ok(data) => select_ap(&data, proxy_set, ap_port),
        Err(e) => Err(e),
    }
}

/// The resolved address, or `AP_FALLBACK` on any failure.
pub fn ap_or_fallback(r: Result<String, ApResolveError>) -> (ap: String)
    ensures
        ap@ == address_or_fallback(result_view(r)),
{
    match r {
        Ok(ap) => ap,
        Err(_) => fallback(),
    }
}

/// The address to connect to, given what the transport and the parser
/// produced: the selected address, or `AP_FALLBACK` where the attempt failed.
/// Never fails.
pub fn apresolve_or_fallback_from(
    response: Result<APResolveData, ApResolveError>,
    proxy_set: bool,
    ap_port: Option<u16>,
) -> (ap: String)
    ensures
        ap@ == address_or_fallback(resolved(response_view(response), proxy_set, ap_port)),
{
    ap_or_fallback(apresolve_from(response, proxy_set, ap_port))
}

} // verus!
