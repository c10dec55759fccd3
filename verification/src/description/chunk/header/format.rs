//! The overall organization of a file.

use vstd::prelude::*;
use vstd::std_specs::convert::TryFromSpecImpl;

verus! {

/// The format of a file: the first field of the header chunk.
///
/// More formats may be defined later. A program that meets an unknown
/// format may still read the track chunks it finds.
#[derive(Debug, Clone, Copy, PartialEq, Eq, Structural)]
#[non_exhaustive]
pub enum Format {
    /// The file contains a single multi-channel track.
    SingleMultiChannelTrack,
    /// The file contains one or more simultaneous tracks (or MIDI outputs) of a
    /// sequence.
    SimultaneousTracks,
    /// The file contains one or more sequentially independent single-track
    /// patterns.
    SequentiallyIndependentSingleTrackPatterns,
}

/// Why two bytes are no format.
#[derive(Debug, Clone, Copy, PartialEq, Eq, Structural)]
pub enum TryFromError {
    /// The bytes are none of `00 00`, `00 01`, `00 02`.
    UnknownFormatBytes,
}

/// The format that two bytes spell.
pub open spec fn spec_format(bytes: Seq<u8>) -> Result<Format, TryFromError>
    recommends
        bytes.len() == 2,
{
    if bytes[0] == 0x00 && bytes[1] == 0x00 {
        Ok(Format::SingleMultiChannelTrack)
    } else if bytes[0] == 0x00 && bytes[1] == 0x01 {
        Ok(Format::SimultaneousTracks)
    } else if bytes[0] == 0x00 && bytes[1] == 0x02 {
        Ok(Format::SequentiallyIndependentSingleTrackPatterns)
    } else {
        Err(TryFromError::UnknownFormatBytes)
    }
}

impl TryFrom<&[u8; 2]> for Format {
    type Error = TryFromError;

    fn try_from(bytes: &[u8; 2]) -> (result: Result<Format, TryFromError>) {
        if bytes[0] != 0x00 {
            Err(TryFromError::UnknownFormatBytes)
        } else if bytes[1] == 0x00 {
            Ok(Format::SingleMultiChannelTrack)
        } else if bytes[1] == 0x01 {
            Ok(Format::SimultaneousTracks)
        } else if bytes[1] == 0x02 {
            Ok(Format::SequentiallyIndependentSingleTrackPatterns)
        } else {
            Err(TryFromError::UnknownFormatBytes)
        }
    }
}

impl TryFromSpecImpl<&[u8; 2]> for Format {
    open spec fn obeys_try_from_spec() -> bool {
        true
    }

    open spec fn try_from_spec(bytes: &[u8; 2]) -> Result<Format, TryFromError> {
        spec_format(bytes@)
    }
}

} // verus!
