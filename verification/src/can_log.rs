//! The optional MDF4 recording of decoded CAN frames: where it goes and how
//! its frames are time-stamped.
//!
//! The recorder itself is the caller's; this module decides whether a
//! configured path enables it and what timestamp a frame carries.

use vstd::prelude::*;

verus! {

/// The path a recording is written to, given the value of `CAN_LOG_PATH`:
/// an unset or empty value disables recording.
pub fn log_target(path: Option<String>) -> (target: Option<String>)
    ensures
        match path {
            Some(p) => if p@.len() > 0 {
                target matches Some(t) && t@ == p@
            } else {
                target is None
            },
            None => target is None,
        },
{
    match path {
        Some(p) => {
            if p.as_str().unicode_len() == 0 {
                None
            } else {
                Some(p)
            }
        },
        None => None,
    }
}

/// The timestamp a frame is recorded with: the whole microseconds since
/// the recording started, wrapped to 64 bits.
pub fn log_timestamp_us(elapsed_us: u128) -> (ts: u64)
    ensures
        ts == elapsed_us as u64,
        elapsed_us <= u64::MAX ==> ts == elapsed_us,
{
    elapsed_us as u64
}

} // verus!
