use vstd::prelude::*;

use http::HeaderMap;

use crate::headers::{
    accept_encoding_name, ascii_bytes, create_headers, cronet_accept_encoding, has_room,
    header_entries,
};
use crate::http2::Http2Settings;

verus! {

/// The request-level settings of a profile: HTTP/2 values, default headers and
/// the content encodings it decodes.
pub struct ProfileSettings {
    pub http2: Http2Settings,
    pub headers: HeaderMap,
    pub gzip: bool,
    pub brotli: bool,
}

/// Cronet's HTTP/2 values.
pub open spec fn cronet_http2_settings() -> Http2Settings {
    Http2Settings {
        initial_stream_window_size: Some(6291456),
        initial_connection_window_size: Some(15728640),
        max_concurrent_streams: None,
        max_header_list_size: Some(262144),
        header_table_size: Some(65536),
        enable_push: Some(false),
    }
}

/// The settings of the Cronet profile, over the caller's default headers.
pub fn get_settings(headers: HeaderMap) -> (r: ProfileSettings)
    requires
        has_room(headers),
    ensures
        r.http2 == cronet_http2_settings(),
        header_entries(r.headers) == header_entries(headers).insert(
            accept_encoding_name(),
            seq![ascii_bytes(cronet_accept_encoding())],
        ),
        r.gzip,
        r.brotli,
{
    ProfileSettings {
        http2: Http2Settings {
            initial_stream_window_size: Some(6291456),
            initial_connection_window_size: Some(15728640),
            max_concurrent_streams: None,
            max_header_list_size: Some(262144),
            header_table_size: Some(65536),
            enable_push: Some(false),
        },
        headers: create_headers(headers),
        gzip: true,
        brotli: true,
    }
}

} // verus!
