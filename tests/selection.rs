use apresolve::apresolve::{
    ap_or_fallback, apresolve_from, apresolve_or_fallback_from, select_ap, APResolveData,
    ApResolveError,
};
use apresolve::{AP_FALLBACK, APRESOLVE_ENDPOINT, DEFAULT_AP_PORT};

fn data(aps: &[&str]) -> APResolveData {
    APResolveData {
        ap_list: aps.iter().map(|s| s.to_string()).collect(),
    }
}

#[test]
fn no_constraint_takes_first() {
    let d = data(&["a:1", "b:2", "c:3"]);
    assert_eq!(select_ap(&d, false, None), Ok("a:1".to_string()));
}

#[test]
fn no_constraint_takes_first_even_if_malformed() {
    let d = data(&["not-a-uri", "b:2"]);
    assert_eq!(select_ap(&d, false, None), Ok("not-a-uri".to_string()));
}

#[test]
fn port_matching_selection() {
    let d = data(&["a:1", "b:2", "c:3"]);
    assert_eq!(select_ap(&d, false, Some(2)), Ok("b:2".to_string()));
}

#[test]
fn port_matching_takes_first_match() {
    let d = data(&["a:1", "b:2", "c:2"]);
    assert_eq!(select_ap(&d, false, Some(2)), Ok("b:2".to_string()));
}

#[test]
fn port_matching_skips_malformed_entries() {
    let d = data(&["not-a-uri", "b:2"]);
    assert_eq!(select_ap(&d, false, Some(2)), Ok("b:2".to_string()));
}

#[test]
fn port_matching_skips_out_of_range_port() {
    let d = data(&["a:65538", "b:2"]);
    assert_eq!(select_ap(&d, false, Some(2)), Ok("b:2".to_string()));
}

#[test]
fn port_matching_skips_invalid_uri_text() {
    let d = data(&["a b:2", "c:2"]);
    assert_eq!(select_ap(&d, false, Some(2)), Ok("c:2".to_string()));
}

#[test]
fn no_match_found() {
    let d = data(&["a:1"]);
    assert_eq!(
        select_ap(&d, false, Some(9999)),
        Err(ApResolveError::EmptyApList)
    );
    assert_eq!(
        apresolve_or_fallback_from(Ok(d), false, Some(9999)),
        "ap.spotify.com:443"
    );
}

#[test]
fn empty_list_is_an_error() {
    let d = data(&[]);
    assert_eq!(select_ap(&d, false, None), Err(ApResolveError::EmptyApList));
    assert_eq!(select_ap(&d, true, Some(1)), Err(ApResolveError::EmptyApList));
}

#[test]
fn proxy_forces_default_port() {
    let d = data(&["a:1", "b:80", "c:443", "d:443"]);
    assert_eq!(select_ap(&d, true, None), Ok("c:443".to_string()));
    assert_eq!(select_ap(&d, false, None), Ok("a:1".to_string()));
    assert_eq!(select_ap(&d, false, Some(443)), Ok("c:443".to_string()));
}

#[test]
fn proxy_without_default_port_fails() {
    let d = data(&["a:1", "b:2"]);
    assert_eq!(select_ap(&d, true, None), Err(ApResolveError::EmptyApList));
}

#[test]
fn proxy_with_desired_port_uses_desired_port() {
    let d = data(&["a:443", "b:80"]);
    assert_eq!(select_ap(&d, true, Some(80)), Ok("b:80".to_string()));
}

#[test]
fn failures_pass_through() {
    for e in [
        ApResolveError::RequestBuild,
        ApResolveError::Transport,
        ApResolveError::Parse,
    ] {
        assert_eq!(apresolve_from(Err(e), false, None), Err(e));
    }
    assert_eq!(
        apresolve_from(Ok(data(&["a:1"])), false, Some(9999)),
        Err(ApResolveError::EmptyApList)
    );
    assert_eq!(
        apresolve_from(Ok(data(&["a:1", "b:2"])), false, None),
        Ok("a:1".to_string())
    );
}

#[test]
fn fallback_on_unreachable_or_malformed() {
    assert_eq!(
        apresolve_or_fallback_from(Err(ApResolveError::Transport), false, None),
        "ap.spotify.com:443"
    );
    assert_eq!(
        apresolve_or_fallback_from(Err(ApResolveError::Parse), true, Some(4070)),
        "ap.spotify.com:443"
    );
    assert_eq!(
        apresolve_or_fallback_from(Err(ApResolveError::RequestBuild), false, None),
        "ap.spotify.com:443"
    );
}

#[test]
fn fallback_on_empty_list() {
    assert_eq!(
        apresolve_or_fallback_from(Ok(data(&[])), false, None),
        "ap.spotify.com:443"
    );
}

#[test]
fn resolved_address_is_returned_unchanged() {
    assert_eq!(
        apresolve_or_fallback_from(Ok(data(&["x.example:4070", "y:443"])), false, Some(4070)),
        "x.example:4070"
    );
    assert_eq!(ap_or_fallback(Ok("b:2".to_string())), "b:2");
    assert_eq!(ap_or_fallback(Err(ApResolveError::Parse)), AP_FALLBACK);
}

#[test]
fn constants() {
    assert_eq!(AP_FALLBACK, "ap.spotify.com:443");
    assert_eq!(APRESOLVE_ENDPOINT, "http://apresolve.spotify.com/");
    assert_eq!(DEFAULT_AP_PORT, 443);
}
