//! The frame rates of time-code-based time.

use vstd::prelude::*;
use vstd::std_specs::convert::TryFromSpecImpl;

verus! {

/// The number of frames per second, one of the four standard SMPTE and MIDI
/// time code formats. The file holds it as a negative number in a byte.
#[derive(Debug, Clone, Copy, PartialEq, Eq, Structural)]
pub enum FPS {
    /// 24 frames per second, written -24.
    FPS24,
    /// 25 frames per second, written -25.
    FPS25,
    /// 30 frames per second, drop frame, written -29.
    FPS30Drop,
    /// 30 frames per second, written -30.
    FPS30,
}

/// Why a byte is no frame rate.
#[derive(Debug, Clone, Copy, PartialEq, Eq, Structural)]
pub enum TryFromError {
    /// The byte, as a two's-complement number, is none of -24, -25, -29, -30.
    InvalidFPS,
}

/// The number that a byte holds in two's complement.
pub open spec fn twos_complement(byte: u8) -> int {
    if byte >= 0x80 {
        byte - 0x100
    } else {
        byte as int
    }
}

/// The frame rate that a byte holds.
pub open spec fn spec_fps(byte: u8) -> Result<FPS, TryFromError> {
    if twos_complement(byte) == -24 {
        Ok(FPS::FPS24)
    } else if twos_complement(byte) == -25 {
        Ok(FPS::FPS25)
    } else if twos_complement(byte) == -29 {
        Ok(FPS::FPS30Drop)
    } else if twos_complement(byte) == -30 {
        Ok(FPS::FPS30)
    } else {
        Err(TryFromError::InvalidFPS)
    }
}

impl TryFrom<u8> for FPS {
    type Error = TryFromError;

    fn try_from(value: u8) -> (result: Result<FPS, TryFromError>) {
        if value < 0x80 {
            return Err(TryFromError::InvalidFPS);
        }
        let negated: u16 = 0x100 - value as u16;
        if negated == 24 {
            Ok(FPS::FPS24)
        } else if negated == 25 {
            Ok(FPS::FPS25)
        } else if negated == 29 {
            Ok(FPS::FPS30Drop)
        } else if negated == 30 {
            Ok(FPS::FPS30)
        } else {
            Err(TryFromError::InvalidFPS)
        }
    }
}

impl TryFromSpecImpl<u8> for FPS {
    open spec fn obeys_try_from_spec() -> bool {
        true
    }

    open spec fn try_from_spec(value: u8) -> Result<FPS, TryFromError> {
        spec_fps(value)
    }
}

} // verus!
