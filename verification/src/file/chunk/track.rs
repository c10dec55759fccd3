//! The track chunk, as the bytes of its events.

use crate::file::chunk::{same_kind, ChunkFile, ChunkModel};
use vstd::prelude::*;

verus! {

/// The tag of a track chunk: `MTrk`.
pub const TRACK_CHUNK_KIND: [u8; 4] = [0x4D, 0x54, 0x72, 0x6B];

/// A track chunk: the bytes of its events, borrowed from the chunk's data.
#[derive(Debug)]
pub struct TrackChunkFile<'a> {
    pub kind: [u8; 4],
    pub length: u32,
    pub track_events: &'a [u8],
}

/// Why a chunk could not be read as a track chunk.
#[derive(Debug, Clone, Copy, PartialEq, Eq, Structural)]
pub enum TryFromError {
    /// The tag is not `MTrk`.
    InvalidKind,
    /// The data holds fewer bytes than the length declares.
    CouldNotReadTrackEvents,
    /// The data holds more bytes than the length declares.
    ScannerNotDone,
}

/// What a track chunk holds.
pub struct TrackBytes {
    /// The chunk's tag.
    pub kind: Seq<u8>,
    /// The chunk's length as the file declares it.
    pub length: u32,
    /// The delta-times and events, one after another.
    pub track_events: Seq<u8>,
}

/// The track chunk that a chunk is: its data, where that is exactly as long
/// as the length declares.
pub open spec fn spec_track_bytes(chunk: ChunkModel) -> Result<TrackBytes, TryFromError> {
    if chunk.kind != TRACK_CHUNK_KIND@ {
        Err(TryFromError::InvalidKind)
    } else if chunk.data.len() < chunk.length {
        Err(TryFromError::CouldNotReadTrackEvents)
    } else if chunk.data.len() > chunk.length {
        Err(TryFromError::ScannerNotDone)
    } else {
        Ok(TrackBytes { kind: chunk.kind, length: chunk.length, track_events: chunk.data })
    }
}

impl<'a> View for TrackChunkFile<'a> {
    type V = TrackBytes;

    open spec fn view(&self) -> TrackBytes {
        TrackBytes { kind: self.kind@, length: self.length, track_events: self.track_events@ }
    }
}

impl<'a> TrackChunkFile<'a> {
    /// The tag of the chunk.
    pub fn kind(&self) -> (kind: &[u8; 4])
        ensures
            kind@ == self@.kind,
    {
        &self.kind
    }

    /// The length that the chunk declares.
    pub fn length(&self) -> (length: u32)
        ensures
            length == self@.length,
    {
        self.length
    }

    /// Reads a chunk as a track chunk.
    pub fn try_from(value: &ChunkFile<'a>) -> (result: Result<TrackChunkFile<'a>, TryFromError>)
        ensures
            match spec_track_bytes(value@) {
                Ok(track) => result matches Ok(track_chunk) && track_chunk@ == track,
                Err(error) => result matches Err(e) && e == error,
            },
    {
        if !same_kind(&value.kind, &TRACK_CHUNK_KIND) {
            return Err(TryFromError::InvalidKind);
        }
        let track_events: &'a [u8] = value.data;
        if track_events.len() < value.length as usize {
            return Err(TryFromError::CouldNotReadTrackEvents);
        }
        if track_events.len() > value.length as usize {
            return Err(TryFromError::ScannerNotDone);
        }
        Ok(TrackChunkFile { kind: value.kind, length: value.length, track_events })
    }
}

} // verus!
