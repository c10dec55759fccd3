//! The meaning of the delta-times.

pub mod fps;

use crate::description::chunk::header::division::fps::{spec_fps, TryFromError, FPS};
use vstd::prelude::*;
use vstd::std_specs::convert::TryFromSpecImpl;

verus! {

/// The unit of the delta-times: the third field of the header chunk.
#[derive(Debug, Clone, Copy, PartialEq, Eq, Structural)]
pub enum Division {
    /// For metrical time: the number of ticks that make up a quarter-note.
    TicksPerQuarterNote(u16),
    /// For time-code-based time: frames per second, and ticks per frame.
    TimeCode { frames_per_second: FPS, ticks_per_frame: u8 },
}

/// The division that two bytes spell.
///
/// If bit 15 is zero, bits 14 through 0 are the number of ticks per
/// quarter-note. If it is one, the first byte is a frame rate, and the second
/// the number of ticks per frame.
pub open spec fn spec_division(bytes: Seq<u8>) -> Result<Division, TryFromError>
    recommends
        bytes.len() == 2,
{
    if bytes[0] < 0x80 {
        Ok(Division::TicksPerQuarterNote((bytes[0] * 0x100 + bytes[1]) as u16))
    } else {
        match spec_fps(bytes[0]) {
            Ok(frames_per_second) => Ok(
                Division::TimeCode { frames_per_second, ticks_per_frame: bytes[1] },
            ),
            Err(error) => Err(error),
        }
    }
}

impl TryFrom<[u8; 2]> for Division {
    type Error = TryFromError;

    fn try_from(value: [u8; 2]) -> (result: Result<Division, TryFromError>) {
        let high: u8 = value[0];
        let low: u8 = value[1];
        if high < 0x80 {
            return Ok(Division::TicksPerQuarterNote(high as u16 * 0x100 + low as u16));
        }
        match FPS::try_from(high) {
            Ok(frames_per_second) => Ok(
                Division::TimeCode { frames_per_second, ticks_per_frame: low },
            ),
            Err(error) => Err(error),
        }
    }
}

impl TryFromSpecImpl<[u8; 2]> for Division {
    open spec fn obeys_try_from_spec() -> bool {
        true
    }

    open spec fn try_from_spec(value: [u8; 2]) -> Result<Division, TryFromError> {
        spec_division(value@)
    }
}

} // verus!
