//! Runtime tuning knobs for the WebSocket servers, read from environment
//! variables: a value is used when it parses and lies in range, clamped
//! into range when it parses but lies outside, and the default is used
//! when it is absent or does not parse.

use vstd::prelude::*;

use crate::text::{chars_of, parse_u64, parse_u64_spec};

verus! {

/// Default per-connection outbound queue capacity.
pub const DEFAULT_WS_OUTBOUND_QUEUE_CAPACITY: usize = 1024;

/// Default per-connection limit of concurrent API calls.
pub const DEFAULT_WS_API_MAX_IN_FLIGHT: usize = 64;

/// What `str::parse::<usize>` gives for `s`.
pub open spec fn parse_usize_spec(s: Seq<char>) -> Option<usize> {
    match parse_u64_spec(s) {
        Some(v) => if v <= usize::MAX {
            Some(v as usize)
        } else {
            None
        },
        None => None,
    }
}

/// The value a tuning knob takes for a raw setting: the parsed value
/// clamped into `min..=max`, or the default when absent or unparsable.
pub open spec fn tuning_value(raw: Option<Seq<char>>, default: usize, min: usize, max: usize) -> usize {
    match raw {
        Some(s) => match parse_usize_spec(s) {
            Some(v) => if v < min {
                min
            } else if v > max {
                max
            } else {
                v
            },
            None => default,
        },
        None => default,
    }
}

/// The view of an optional string slice.
pub open spec fn opt_view(raw: Option<&str>) -> Option<Seq<char>> {
    match raw {
        Some(s) => Some(s@),
        None => None,
    }
}

/// Reads a tuning knob from its raw setting.
pub fn parse_env_usize(raw: Option<&str>, default: usize, min: usize, max: usize) -> (r: usize)
    requires
        min <= max,
    ensures
        r == tuning_value(opt_view(raw), default, min, max),
{
    match raw {
        Some(s) => {
            let cs = chars_of(s);
            match parse_u64(cs.as_slice()) {
                Some(v) => {
                    if v > usize::MAX as u64 {
                        default
                    } else {
                        let v = v as usize;
                        if v < min {
                            min
                        } else if v > max {
                            max
                        } else {
                            v
                        }
                    }
                },
                None => default,
            }
        },
        None => default,
    }
}

/// Per-connection outbound queue capacity for WebSocket pushes and
/// responses, from the setting of `FERROQ_WS_OUTBOUND_QUEUE_CAPACITY`
/// (range 64..=65536, default 1024).
pub fn ws_outbound_queue_capacity(raw: Option<&str>) -> (r: usize)
    ensures
        r == tuning_value(opt_view(raw), 1024, 64, 65_536),
{
    parse_env_usize(raw, DEFAULT_WS_OUTBOUND_QUEUE_CAPACITY, 64, 65_536)
}

/// Per-connection limit of concurrent WebSocket API calls, from the
/// setting of `FERROQ_WS_API_MAX_IN_FLIGHT` (range 1..=8192, default 64).
pub fn ws_api_max_in_flight(raw: Option<&str>) -> (r: usize)
    ensures
        r == tuning_value(opt_view(raw), 64, 1, 8_192),
{
    parse_env_usize(raw, DEFAULT_WS_API_MAX_IN_FLIGHT, 1, 8_192)
}

/// A tuning value always lies in its range when the default does.
pub proof fn lemma_tuning_in_range(raw: Option<Seq<char>>, default: usize, min: usize, max: usize)
    requires
        min <= default <= max,
    ensures
        min <= tuning_value(raw, default, min, max) <= max,
{
}

} // verus!
