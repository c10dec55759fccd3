//! The header chunk, cut into its three fields.

use crate::file::chunk::{same_kind, ChunkFile, ChunkModel};
use crate::scanner::Scanner;
use vstd::prelude::*;

verus! {

/// The tag of a header chunk: `MThd`.
pub const HEADER_CHUNK_KIND: [u8; 4] = [0x4D, 0x54, 0x68, 0x64];

/// The length of a header chunk that holds the three known fields and
/// nothing more.
pub const HEADER_CHUNK_LENGTH: u32 = 6;

/// The fields of a header chunk as bytes, not yet interpreted. Each borrows
/// two bytes of the chunk's data.
#[derive(Debug)]
pub struct HeaderChunkFile<'a> {
    pub kind: [u8; 4],
    pub length: u32,
    pub format: &'a [u8; 2],
    pub tracks_count: &'a [u8; 2],
    pub division: &'a [u8; 2],
}

/// Why a chunk could not be read as a header chunk.
#[derive(Debug, Clone, Copy, PartialEq, Eq, Structural)]
pub enum TryFromError {
    /// The tag is not `MThd`.
    InvalidKind,
    /// The data ends before the two bytes of the format.
    CouldNotReadFormat,
    /// The data ends before the two bytes of the track count.
    CouldNotReadTrackCount,
    /// The data ends before the two bytes of the division.
    CouldNotReadDivision,
}

/// What a header chunk's fields hold.
pub struct HeaderFields {
    /// The chunk's tag.
    pub kind: Seq<u8>,
    /// The chunk's length as the file declares it.
    pub length: u32,
    pub format: Seq<u8>,
    pub tracks_count: Seq<u8>,
    pub division: Seq<u8>,
}

/// The fields of a header chunk: the first six bytes of its data, two by
/// two. Bytes after them are not looked at, so that a header longer than six
/// bytes is still read.
pub open spec fn spec_header_fields(chunk: ChunkModel) -> Result<HeaderFields, TryFromError> {
    if chunk.kind != HEADER_CHUNK_KIND@ {
        Err(TryFromError::InvalidKind)
    } else if chunk.data.len() < 2 {
        Err(TryFromError::CouldNotReadFormat)
    } else if chunk.data.len() < 4 {
        Err(TryFromError::CouldNotReadTrackCount)
    } else if chunk.data.len() < 6 {
        Err(TryFromError::CouldNotReadDivision)
    } else {
        Ok(
            HeaderFields {
                kind: chunk.kind,
                length: chunk.length,
                format: chunk.data.subrange(0, 2),
                tracks_count: chunk.data.subrange(2, 4),
                division: chunk.data.subrange(4, 6),
            },
        )
    }
}

impl<'a> View for HeaderChunkFile<'a> {
    type V = HeaderFields;

    open spec fn view(&self) -> HeaderFields {
        HeaderFields {
            kind: self.kind@,
            length: self.length,
            format: self.format@,
            tracks_count: self.tracks_count@,
            division: self.division@,
        }
    }
}

impl<'a> HeaderChunkFile<'a> {
    /// The tag of the chunk that the fields were cut from.
    pub fn kind(&self) -> (kind: &[u8; 4])
        ensures
            kind@ == self@.kind,
    {
        &self.kind
    }

    /// The length that the chunk declares.
    pub fn length(&self) -> (length: &u32)
        ensures
            *length == self@.length,
    {
        &self.length
    }

    /// Cuts the data of a header chunk into format, track count and
    /// division.
    pub fn try_from(value: &ChunkFile<'a>) -> (result: Result<HeaderChunkFile<'a>, TryFromError>)
        ensures
            match spec_header_fields(value@) {
                Ok(fields) => result matches Ok(header) && header@ == fields,
                Err(error) => result matches Err(e) && e == error,
            },
    {
        if !same_kind(&value.kind, &HEADER_CHUNK_KIND) {
            return Err(TryFromError::InvalidKind);
        }
        let mut scanner = Scanner::new(value.data);
        let ghost data = value.data@;
        assert(scanner.remaining() =~= data);
        let format: &'a [u8; 2] = match scanner.eat_bytes::<2>() {
            Some(format) => format,
            None => {
                return Err(TryFromError::CouldNotReadFormat);
            },
        };
        assert(scanner.remaining() =~= data.skip(2));
        let tracks_count: &'a [u8; 2] = match scanner.eat_bytes::<2>() {
            Some(tracks_count) => tracks_count,
            None => {
                return Err(TryFromError::CouldNotReadTrackCount);
            },
        };
        assert(scanner.remaining() =~= data.skip(4));
        let division: &'a [u8; 2] = match scanner.eat_bytes::<2>() {
            Some(division) => division,
            None => {
                return Err(TryFromError::CouldNotReadDivision);
            },
        };
        proof {
            assert(format@ =~= data.subrange(0, 2));
            assert(tracks_count@ =~= data.subrange(2, 4));
            assert(division@ =~= data.subrange(4, 6));
        }
        Ok(
            HeaderChunkFile {
                kind: value.kind,
                length: value.length,
                format,
                tracks_count,
                division,
            },
        )
    }
}

} // verus!
