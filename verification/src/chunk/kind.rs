//! The kind of a chunk, told from its tag.

use crate::file::chunk::header::HEADER_CHUNK_KIND;
use crate::file::chunk::same_kind;
use crate::file::chunk::track::TRACK_CHUNK_KIND;
use vstd::prelude::*;
use vstd::std_specs::convert::FromSpecImpl;

verus! {

/// MIDI files contain two kinds of chunk, header chunks and track chunks.
/// Every other tag is kept as it is: a program is to expect chunks that it
/// does not know, and to treat them as if they were not there.
#[derive(Debug, Clone, Copy)]
pub enum ChunkKind {
    /// A header chunk: the tag is `MThd`.
    Header([u8; 4]),
    /// A track chunk: the tag is `MTrk`.
    Track([u8; 4]),
    /// Any other chunk, with its tag.
    Alien([u8; 4]),
}

impl ChunkKind {
    /// The tag that the kind was told from.
    pub open spec fn tag(self) -> [u8; 4] {
        match self {
            ChunkKind::Header(bytes) => bytes,
            ChunkKind::Track(bytes) => bytes,
            ChunkKind::Alien(bytes) => bytes,
        }
    }

    /// The kind of the chunk that carries the tag `bytes`.
    pub open spec fn of(bytes: [u8; 4]) -> ChunkKind {
        if bytes@ == HEADER_CHUNK_KIND@ {
            ChunkKind::Header(bytes)
        } else if bytes@ == TRACK_CHUNK_KIND@ {
            ChunkKind::Track(bytes)
        } else {
            ChunkKind::Alien(bytes)
        }
    }
}

impl From<[u8; 4]> for ChunkKind {
    fn from(bytes: [u8; 4]) -> (kind: ChunkKind) {
        if same_kind(&bytes, &HEADER_CHUNK_KIND) {
            ChunkKind::Header(bytes)
        } else if same_kind(&bytes, &TRACK_CHUNK_KIND) {
            ChunkKind::Track(bytes)
        } else {
            ChunkKind::Alien(bytes)
        }
    }
}

impl FromSpecImpl<[u8; 4]> for ChunkKind {
    open spec fn obeys_from_spec() -> bool {
        true
    }

    open spec fn from_spec(bytes: [u8; 4]) -> ChunkKind {
        ChunkKind::of(bytes)
    }
}

impl From<ChunkKind> for [u8; 4] {
    fn from(val: ChunkKind) -> (bytes: [u8; 4]) {
        match val {
            ChunkKind::Header(bytes) => bytes,
            ChunkKind::Track(bytes) => bytes,
            ChunkKind::Alien(bytes) => bytes,
        }
    }
}

impl FromSpecImpl<ChunkKind> for [u8; 4] {
    open spec fn obeys_from_spec() -> bool {
        true
    }

    open spec fn from_spec(val: ChunkKind) -> [u8; 4] {
        val.tag()
    }
}

/// A tag is kept whatever its kind: telling the kind of a tag and taking the
/// tag back gives the same four bytes.
pub proof fn lemma_kind_keeps_tag(bytes: [u8; 4])
    ensures
        ChunkKind::of(bytes).tag() == bytes,
{
}

/// A tag that is neither `MThd` nor `MTrk` is no error: its chunk is an
/// alien chunk, which carries the tag.
pub proof fn lemma_unknown_tag_is_alien(bytes: [u8; 4])
    requires
        bytes@ != HEADER_CHUNK_KIND@,
        bytes@ != TRACK_CHUNK_KIND@,
    ensures
        ChunkKind::of(bytes) == ChunkKind::Alien(bytes),
{
}

} // verus!
