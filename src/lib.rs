//! Access-point resolution: picks the address that a client connects to from
//! the list that the discovery endpoint returns, and falls back to a fixed
//! address whenever discovery does not produce one.

pub mod apresolve;
pub mod proofs;
pub mod uri;

pub use apresolve::{
    ap_or_fallback, apresolve_from, apresolve_or_fallback_from, select_ap, APResolveData,
    ApResolveError, AP_FALLBACK, APRESOLVE_ENDPOINT, DEFAULT_AP_PORT,
};
