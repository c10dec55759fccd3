//! Chunks, decoded.

pub mod header;
pub mod track;

use crate::description::chunk::header::{spec_header, HeaderChunk};
use crate::description::chunk::track::TrackChunk;
use crate::file::chunk::header::{spec_header_fields, HeaderChunkFile, HEADER_CHUNK_KIND};
use crate::file::chunk::track::{spec_track_bytes, TrackChunkFile, TRACK_CHUNK_KIND};
use crate::file::chunk::{same_kind, ChunkFile, ChunkModel};
use crate::file::event::track::{spec_track_events, TrackEventModel};
use vstd::prelude::*;
use vstd::slice::slice_to_vec;

verus! {

/// A file contains three types of chunk: a header chunk with the file's
/// metadata, track chunks with its events, and chunks of types that this
/// library does not know.
#[derive(Debug)]
pub enum Chunk {
    /// Provides a minimal amount of information pertaining to the entire
    /// file.
    Header(HeaderChunk),
    /// Contains a sequential stream of MIDI data which may contain information
    /// for up to 16 MIDI channels.
    Track(TrackChunk),
    /// Your programs should expect alien chunks and treat them as if they
    /// weren't there.
    Alien(AlienChunk),
}

/// An unrecognized chunk type, which your program should ignore: the chunk
/// as it was in the file, with a copy of the data.
#[derive(Debug, Clone, PartialEq, Eq)]
pub struct AlienChunk {
    pub kind: [u8; 4],
    pub length: u32,
    pub data: Vec<u8>,
}

impl View for AlienChunk {
    type V = ChunkModel;

    open spec fn view(&self) -> ChunkModel {
        ChunkModel { kind: self.kind@, length: self.length, data: self.data@ }
    }
}

impl AlienChunk {
    /// Keeps a chunk as it is: tag, length and a copy of the data.
    pub fn from(value: ChunkFile) -> (chunk: AlienChunk)
        ensures
            chunk@ == value@,
    {
        AlienChunk { kind: value.kind, length: value.length, data: slice_to_vec(value.data) }
    }
}

/// What a decoded chunk holds.
pub enum ChunkDescription {
    Header(HeaderChunk),
    Track(Seq<TrackEventModel>),
    Alien(ChunkModel),
}

impl View for Chunk {
    type V = ChunkDescription;

    open spec fn view(&self) -> ChunkDescription {
        match *self {
            Chunk::Header(header) => ChunkDescription::Header(header),
            Chunk::Track(track) => ChunkDescription::Track(track@),
            Chunk::Alien(alien) => ChunkDescription::Alien(alien@),
        }
    }
}

/// Why a chunk could not be decoded.
#[derive(Debug, Clone, Copy, PartialEq, Eq, Structural)]
pub enum TryFromError {
    /// The data of a header chunk ends before its three fields do.
    ChunkFileToHeaderChunkFile(crate::file::chunk::header::TryFromError),
    /// The fields of a header chunk are not valid.
    HeaderChunkFileToHeaderChunk(crate::description::chunk::header::TryFromError),
    /// The data of a track chunk is not as long as the chunk declares.
    ChunkFileToTrackChunkFile(crate::file::chunk::track::TryFromError),
    /// The events of a track chunk could not be decoded.
    TrackChunkFileToTrackChunk(crate::description::chunk::track::TryFromError),
}

/// The chunk that a chunk of the file decodes to.
///
/// The tag decides: a header chunk is cut into its fields and the fields are
/// decoded; a track chunk is decoded into its events; a chunk with any other
/// tag is kept as it is, whatever its length and its data.
pub open spec fn spec_chunk(chunk: ChunkModel) -> Result<ChunkDescription, TryFromError> {
    if chunk.kind == HEADER_CHUNK_KIND@ {
        match spec_header_fields(chunk) {
            Err(error) => Err(TryFromError::ChunkFileToHeaderChunkFile(error)),
            Ok(fields) => match spec_header(fields.format, fields.tracks_count, fields.division) {
                Err(error) => Err(TryFromError::HeaderChunkFileToHeaderChunk(error)),
                Ok(header) => Ok(ChunkDescription::Header(header)),
            },
        }
    } else if chunk.kind == TRACK_CHUNK_KIND@ {
        match spec_track_bytes(chunk) {
            Err(error) => Err(TryFromError::ChunkFileToTrackChunkFile(error)),
            Ok(track) => match spec_track_events(track.track_events, None) {
                Err(error) => Err(
                    TryFromError::TrackChunkFileToTrackChunk(
                        crate::description::chunk::track::TryFromError::of(error),
                    ),
                ),
                Ok(events) => Ok(ChunkDescription::Track(events)),
            },
        }
    } else {
        Ok(ChunkDescription::Alien(chunk))
    }
}

impl Chunk {
    /// Decodes a chunk of the file according to its tag.
    pub fn try_from(value: &ChunkFile) -> (result: Result<Chunk, TryFromError>)
        ensures
            match spec_chunk(value@) {
                Ok(description) => result matches Ok(chunk) && chunk@ == description,
                Err(error) => result matches Err(e) && e == error,
            },
    {
        if same_kind(&value.kind, &HEADER_CHUNK_KIND) {
            let chunk_file = match HeaderChunkFile::try_from(value) {
                Ok(chunk_file) => chunk_file,
                Err(error) => {
                    return Err(TryFromError::ChunkFileToHeaderChunkFile(error));
                },
            };
            match HeaderChunk::try_from(&chunk_file) {
                Ok(header_chunk) => Ok(Chunk::Header(header_chunk)),
                Err(error) => Err(TryFromError::HeaderChunkFileToHeaderChunk(error)),
            }
        } else if same_kind(&value.kind, &TRACK_CHUNK_KIND) {
            let chunk_file = match TrackChunkFile::try_from(value) {
                Ok(chunk_file) => chunk_file,
                Err(error) => {
                    return Err(TryFromError::ChunkFileToTrackChunkFile(error));
                },
            };
            match TrackChunk::try_from(&chunk_file) {
                Ok(track_chunk) => Ok(Chunk::Track(track_chunk)),
                Err(error) => Err(TryFromError::TrackChunkFileToTrackChunk(error)),
            }
        } else {
            Ok(Chunk::Alien(AlienChunk::from(*value)))
        }
    }
}

/// A chunk whose tag is neither `MThd` nor `MTrk` is no error, whatever its
/// length and its data: it is kept as an alien chunk, with its tag, its
/// length and its data as they were.
pub proof fn lemma_unknown_chunk_is_kept(chunk: ChunkModel)
    requires
        chunk.kind != HEADER_CHUNK_KIND@,
        chunk.kind != TRACK_CHUNK_KIND@,
    ensures
        spec_chunk(chunk) == Ok::<ChunkDescription, TryFromError>(ChunkDescription::Alien(chunk)),
{
}

} // verus!
