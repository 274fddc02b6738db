use vstd::prelude::*;

verus! {

/// SETTINGS_HEADER_TABLE_SIZE.
pub const SETTINGS_HEADER_TABLE_SIZE: u16 = 1;

/// SETTINGS_ENABLE_PUSH.
pub const SETTINGS_ENABLE_PUSH: u16 = 2;

/// SETTINGS_MAX_CONCURRENT_STREAMS.
pub const SETTINGS_MAX_CONCURRENT_STREAMS: u16 = 3;

/// SETTINGS_INITIAL_WINDOW_SIZE.
pub const SETTINGS_INITIAL_WINDOW_SIZE: u16 = 4;

/// SETTINGS_MAX_HEADER_LIST_SIZE.
pub const SETTINGS_MAX_HEADER_LIST_SIZE: u16 = 6;

/// The HTTP/2 values of a profile; `None` leaves the transport's default alone.
#[derive(Clone, Copy, Debug, PartialEq, Eq, Structural)]
pub struct Http2Settings {
    pub initial_stream_window_size: Option<u32>,
    pub initial_connection_window_size: Option<u32>,
    pub max_concurrent_streams: Option<u32>,
    pub max_header_list_size: Option<u32>,
    pub header_table_size: Option<u32>,
    pub enable_push: Option<bool>,
}

/// One SETTINGS parameter when the value is set, none otherwise.
pub open spec fn optional_param(id: u16, v: Option<u32>) -> Seq<(u16, u32)> {
    match v {
        Some(x) => seq![(id, x)],
        None => Seq::empty(),
    }
}

pub open spec fn push_value(p: Option<bool>) -> Option<u32> {
    match p {
        Some(b) => Some(if b { 1u32 } else { 0u32 }),
        None => None,
    }
}

/// The value of a record that a SETTINGS identifier carries, if set.
pub open spec fn field_for(s: Http2Settings, id: u16) -> Option<u32> {
    if id == SETTINGS_HEADER_TABLE_SIZE {
        s.header_table_size
    } else if id == SETTINGS_ENABLE_PUSH {
        push_value(s.enable_push)
    } else if id == SETTINGS_MAX_CONCURRENT_STREAMS {
        s.max_concurrent_streams
    } else if id == SETTINGS_INITIAL_WINDOW_SIZE {
        s.initial_stream_window_size
    } else if id == SETTINGS_MAX_HEADER_LIST_SIZE {
        s.max_header_list_size
    } else {
        None
    }
}

/// The SETTINGS parameters a record sends, in identifier order. The connection
/// window is no SETTINGS parameter: it is raised by a WINDOW_UPDATE frame.
pub open spec fn settings_params(s: Http2Settings) -> Seq<(u16, u32)> {
    optional_param(SETTINGS_HEADER_TABLE_SIZE, s.header_table_size)
        + optional_param(SETTINGS_ENABLE_PUSH, push_value(s.enable_push))
        + optional_param(SETTINGS_MAX_CONCURRENT_STREAMS, s.max_concurrent_streams)
        + optional_param(SETTINGS_INITIAL_WINDOW_SIZE, s.initial_stream_window_size)
        + optional_param(SETTINGS_MAX_HEADER_LIST_SIZE, s.max_header_list_size)
}

fn push_optional(out: &mut Vec<(u16, u32)>, id: u16, v: Option<u32>)
    ensures
        final(out)@ == old(out)@ + optional_param(id, v),
{
    match v {
        Some(x) => {
            out.push((id, x));
            assert(final(out)@ =~= old(out)@ + optional_param(id, v));
        },
        None => {
            assert(out@ =~= out@ + optional_param(id, v));
        },
    }
}

impl Http2Settings {
    /// The SETTINGS parameters this record sends: one per set field, none for
    /// an unset one.
    pub fn settings_parameters(&self) -> (r: Vec<(u16, u32)>)
        ensures
            r@ == settings_params(*self),
    {
        let mut out: Vec<(u16, u32)> = Vec::new();
        push_optional(&mut out, SETTINGS_HEADER_TABLE_SIZE, self.header_table_size);
        let push: Option<u32> = match self.enable_push {
            Some(b) => Some(if b { 1u32 } else { 0u32 }),
            None => None,
        };
        push_optional(&mut out, SETTINGS_ENABLE_PUSH, push);
        push_optional(&mut out, SETTINGS_MAX_CONCURRENT_STREAMS, self.max_concurrent_streams);
        push_optional(&mut out, SETTINGS_INITIAL_WINDOW_SIZE, self.initial_stream_window_size);
        push_optional(&mut out, SETTINGS_MAX_HEADER_LIST_SIZE, self.max_header_list_size);
        assert(out@ =~= settings_params(*self));
        out
    }
}

/// Equal records give equal SETTINGS parameters: the mapping depends on the
/// record alone.
pub proof fn lemma_settings_deterministic(a: Http2Settings, b: Http2Settings)
    requires
        a == b,
    ensures
        settings_params(a) == settings_params(b),
{
}

/// A parameter is sent exactly when the record sets its field, and with that
/// field's value: an unset field is never sent, as zero or otherwise.
pub proof fn lemma_settings_sent_iff_set(s: Http2Settings, id: u16, v: u32)
    ensures
        settings_params(s).contains((id, v)) <==> field_for(s, id) == Some(v),
{
    let p = settings_params(s);
    if field_for(s, id) == Some(v) {
        let idx: int = if id == SETTINGS_HEADER_TABLE_SIZE {
            0
        } else if id == SETTINGS_ENABLE_PUSH {
            optional_param(SETTINGS_HEADER_TABLE_SIZE, s.header_table_size).len() as int
        } else if id == SETTINGS_MAX_CONCURRENT_STREAMS {
            (optional_param(SETTINGS_HEADER_TABLE_SIZE, s.header_table_size) + optional_param(
                SETTINGS_ENABLE_PUSH,
                push_value(s.enable_push),
            )).len() as int
        } else if id == SETTINGS_INITIAL_WINDOW_SIZE {
            (optional_param(SETTINGS_HEADER_TABLE_SIZE, s.header_table_size) + optional_param(
                SETTINGS_ENABLE_PUSH,
                push_value(s.enable_push),
            ) + optional_param(SETTINGS_MAX_CONCURRENT_STREAMS, s.max_concurrent_streams)).len() as int
        } else {
            p.len() - 1
        };
        assert(p[idx] == (id, v));
    }
    if p.contains((id, v)) {
        let i = choose|i: int| 0 <= i < p.len() && p[i] == (id, v);
        assert(p[i] == (id, v));
    }
}

} // verus!
