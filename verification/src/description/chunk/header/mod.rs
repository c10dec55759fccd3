//! The header chunk, decoded.

pub mod division;
pub mod format;

use crate::description::chunk::header::division::{spec_division, Division};
use crate::description::chunk::header::format::{spec_format, Format};
use crate::file::chunk::header::HeaderChunkFile;
use crate::big_endian::{be_value, lemma_be_value_2};
use vstd::prelude::*;
use vstd::std_specs::convert::TryFromSpecImpl;

verus! {

/// The header chunk at the beginning of the file specifies some basic
/// information about the data in the file.
#[derive(Debug, Clone, Copy, PartialEq, Eq, Structural)]
pub struct HeaderChunk {
    /// Specifies the overall organization of the file.
    pub format: Format,
    /// The number of track chunks in the file. It is 1 in a file of a single
    /// multi-channel track.
    pub tracks_count: u16,
    /// Specifies the meaning of the delta-times.
    pub division: Division,
}

/// Why the fields of a header chunk could not be decoded.
#[derive(Debug, Clone, Copy, PartialEq, Eq, Structural)]
pub enum TryFromError {
    /// The format is none of the three known ones.
    InvalidFormat,
    /// The division is time-code-based and its frame rate is none of the
    /// four known ones.
    InvalidDivision,
    /// The format is that of a single multi-channel track, and the track
    /// count is not 1.
    InvalidTracksCount,
}

/// The header that the three fields spell, each field two bytes.
///
/// The format is decoded first and the division second. The track count, a
/// big-endian number, is any number; it is held against the format last, so
/// that a count other than 1 in a file of a single track is told apart from
/// a field that is malformed by itself.
pub open spec fn spec_header(format: Seq<u8>, tracks_count: Seq<u8>, division: Seq<u8>) -> Result<
    HeaderChunk,
    TryFromError,
>
    recommends
        format.len() == 2,
        tracks_count.len() == 2,
        division.len() == 2,
{
    match spec_format(format) {
        Err(_) => Err(TryFromError::InvalidFormat),
        Ok(format) => match spec_division(division) {
            Err(_) => Err(TryFromError::InvalidDivision),
            Ok(division) => if format == Format::SingleMultiChannelTrack && be_value(tracks_count)
                != 1 {
                Err(TryFromError::InvalidTracksCount)
            } else {
                Ok(HeaderChunk { format, tracks_count: be_value(tracks_count) as u16, division })
            },
        },
    }
}

impl<'a, 'b> TryFrom<&'b HeaderChunkFile<'a>> for HeaderChunk {
    type Error = TryFromError;

    fn try_from(value: &'b HeaderChunkFile<'a>) -> (result: Result<HeaderChunk, TryFromError>) {
        let format = match Format::try_from(value.format) {
            Ok(format) => format,
            Err(_) => {
                return Err(TryFromError::InvalidFormat);
            },
        };
        proof {
            lemma_be_value_2(value.tracks_count@);
        }
        let tracks_count: u16 = value.tracks_count[0] as u16 * 0x100 + value.tracks_count[1] as u16;
        let division = match Division::try_from(*value.division) {
            Ok(division) => division,
            Err(_) => {
                return Err(TryFromError::InvalidDivision);
            },
        };
        if format == Format::SingleMultiChannelTrack && tracks_count != 1 {
            return Err(TryFromError::InvalidTracksCount);
        }
        Ok(HeaderChunk { format, tracks_count, division })
    }
}

impl<'a, 'b> TryFromSpecImpl<&'b HeaderChunkFile<'a>> for HeaderChunk {
    open spec fn obeys_try_from_spec() -> bool {
        true
    }

    open spec fn try_from_spec(value: &'b HeaderChunkFile<'a>) -> Result<
        HeaderChunk,
        TryFromError,
    > {
        spec_header(value.format@, value.tracks_count@, value.division@)
    }
}

/// A file of a single multi-channel track has exactly one track. Any other
/// count is an error of its own, though the format, the count and the
/// division are each well-formed.
pub proof fn lemma_single_track_has_one_track(tracks_count: Seq<u8>, division: Seq<u8>)
    requires
        tracks_count.len() == 2,
        division.len() == 2,
        spec_division(division) is Ok,
        be_value(tracks_count) != 1,
    ensures
        spec_header(seq![0x00u8, 0x00u8], tracks_count, division) == Err::<
            HeaderChunk,
            TryFromError,
        >(TryFromError::InvalidTracksCount),
{
}

} // verus!
