//! Decisions that shape a TLS connector after a named client's fingerprint:
//! profile families and the pre-shared-key allow-list, the ALPN list, the
//! per-connection extensions, HTTP/2 settings and default headers.
use vstd::prelude::*;

pub mod alpn;
pub mod context;
pub mod cronet;
pub mod headers;
pub mod http2;
pub mod profile;

verus! {

} // verus!
