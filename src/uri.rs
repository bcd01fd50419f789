use vstd::prelude::*;

verus! {

/// The port that hyper's URI parser finds in `s`: `None` where `s` is not a
/// URI or names no port.
pub uninterp spec fn uri_port_of(s: Seq<char>) -> Option<u16>;

/// Relies on `hyper::Uri`'s `FromStr` and on `Uri::port_u16`: parsing either
/// fails, or gives a URI whose authority may end in a `u16` port. The result
/// depends on the text alone.
#[verifier::external_body]
pub(crate) fn uri_port(s: &str) -> (r: Option<u16>)
    ensures
        r == uri_port_of(s@),
{
    match s.parse::<hyper::Uri>() {
        Ok(uri) => uri.port_u16(),
        Err(_) => None,
    }
}

} // verus!
