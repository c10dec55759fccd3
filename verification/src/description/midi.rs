//! The whole file, decoded.

use crate::description::chunk::{spec_chunk, Chunk, ChunkDescription};
use crate::file::chunk::{chunk_models, spec_chunks, ChunkFile, ChunkModel, ChunksFile};
use crate::file::midi::MIDIFile;
use crate::sequence::prepend;
use vstd::prelude::*;

verus! {

/// What each of `chunks` holds.
pub open spec fn chunk_descriptions(chunks: Seq<Chunk>) -> Seq<ChunkDescription> {
    chunks.map_values(|chunk: Chunk| chunk@)
}

/// A decoded file: a series of chunks.
#[derive(Debug)]
pub struct MIDI(Vec<Chunk>);

impl View for MIDI {
    type V = Seq<ChunkDescription>;

    closed spec fn view(&self) -> Seq<ChunkDescription> {
        chunk_descriptions(self.0@)
    }
}

impl core::ops::Deref for MIDI {
    type Target = Vec<Chunk>;

    fn deref(&self) -> (chunks: &Vec<Chunk>)
        ensures
            chunk_descriptions(chunks@) == self@,
    {
        &self.0
    }
}

/// Why a file could not be decoded.
#[derive(Debug, Clone, Copy, PartialEq, Eq, Structural)]
pub enum TryFromError {
    /// The file could not be cut into chunks.
    MIDIFileToChunksFile(crate::file::chunk::TryFromError),
    /// One of the chunks could not be decoded.
    ChunkFileToChunk(crate::description::chunk::TryFromError),
}

/// What the chunks decode to, one after another: all of them, or the error
/// of the first that cannot be decoded.
pub open spec fn spec_descriptions(chunks: Seq<ChunkModel>) -> Result<
    Seq<ChunkDescription>,
    TryFromError,
>
    decreases chunks.len(),
{
    if chunks.len() == 0 {
        Ok(Seq::empty())
    } else {
        match spec_chunk(chunks[0]) {
            Err(error) => Err(TryFromError::ChunkFileToChunk(error)),
            Ok(description) => prepend(seq![description], spec_descriptions(chunks.skip(1))),
        }
    }
}

/// What the bytes of a file decode to. The file is first cut into chunks as
/// a whole; then each chunk is decoded.
pub open spec fn spec_midi(bytes: Seq<u8>) -> Result<Seq<ChunkDescription>, TryFromError> {
    match spec_chunks(bytes) {
        Err(error) => Err(TryFromError::MIDIFileToChunksFile(error)),
        Ok(chunks) => spec_descriptions(chunks),
    }
}

impl MIDI {
    /// Decodes a file: its chunks, and in each chunk what it holds.
    pub fn try_from(value: &MIDIFile) -> (result: Result<MIDI, TryFromError>)
        ensures
            match spec_midi(value@) {
                Ok(descriptions) => result matches Ok(midi) && midi@ == descriptions,
                Err(error) => result matches Err(e) && e == error,
            },
    {
        let mut chunks: Vec<Chunk> = Vec::new();
        let chunks_file = match ChunksFile::try_from(value) {
            Ok(chunks_file) => chunks_file,
            Err(error) => {
                return Err(TryFromError::MIDIFileToChunksFile(error));
            },
        };
        let files: &Vec<ChunkFile> = &chunks_file;
        let ghost models = chunk_models(files@);
        let mut i: usize = 0;
        proof {
            assert(models.skip(0) =~= models);
            if spec_descriptions(models) is Ok {
                assert(chunk_descriptions(chunks@) + spec_descriptions(models)->Ok_0
                    =~= spec_descriptions(models)->Ok_0);
            }
        }
        while i < files.len()
            invariant
                i <= files@.len(),
                models == chunk_models(files@),
                spec_chunks(value@) == Ok::<Seq<ChunkModel>, crate::file::chunk::TryFromError>(
                    models,
                ),
                spec_descriptions(models) == prepend(
                    chunk_descriptions(chunks@),
                    spec_descriptions(models.skip(i as int)),
                ),
            decreases files@.len() - i,
        {
            let ghost done = chunk_descriptions(chunks@);
            assert(models.skip(i as int)[0] == files@[i as int]@);
            let chunk = match Chunk::try_from(&files[i]) {
                Ok(chunk) => chunk,
                Err(error) => {
                    return Err(TryFromError::ChunkFileToChunk(error));
                },
            };
            chunks.push(chunk);
            proof {
                let description = spec_chunk(models[i as int]).unwrap();
                assert(models.skip(i as int)[0] == models[i as int]);
                assert(models.skip(i as int).skip(1) =~= models.skip(i + 1));
                assert(chunk_descriptions(chunks@) =~= done + seq![description]);
                let rest = spec_descriptions(models.skip(i + 1));
                if rest is Ok {
                    assert((done + seq![description]) + rest->Ok_0 =~= done + (seq![description]
                        + rest->Ok_0));
                }
            }
            i += 1;
        }
        proof {
            assert(chunk_descriptions(chunks@) + Seq::<ChunkDescription>::empty()
                =~= chunk_descriptions(chunks@));
        }
        Ok(MIDI(chunks))
    }
}

} // verus!
