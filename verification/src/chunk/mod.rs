//! Chunks that own their data.

pub mod kind;

use crate::chunk::kind::ChunkKind;
use crate::file::chunk::{chunk_models, spec_chunks, ChunkFile, ChunkModel, ChunksFile};
use crate::file::midi::{MIDIFile, TryFromMIDIFileError};
use vstd::prelude::*;
use vstd::slice::slice_to_vec;

verus! {

/// Each chunk has a 4-character type and a 32-bit length, which is the
/// number of bytes in the chunk. This structure allows future chunk types to
/// be designed which may easily be ignored if encountered by a program
/// written before the chunk type is introduced.
///
/// Unlike a `ChunkFile`, a `Chunk` owns a copy of its data, and so may
/// outlive the buffer that it was cut from.
#[derive(Debug)]
pub struct Chunk {
    /// Each chunk begins with a 4-character ASCII type.
    pub kind: ChunkKind,
    /// The number of bytes of data which follow: the eight bytes of type
    /// and length are not included.
    pub length: u32,
    pub data: Vec<u8>,
}

impl View for Chunk {
    type V = ChunkModel;

    open spec fn view(&self) -> ChunkModel {
        ChunkModel { kind: self.kind.tag()@, length: self.length, data: self.data@ }
    }
}

impl Chunk {
    /// The kind is the kind of the tag that it carries, and the data is as
    /// long as the length says.
    pub open spec fn wf(&self) -> bool {
        &&& self.kind == ChunkKind::of(self.kind.tag())
        &&& self.data@.len() == self.length
    }
}

/// What each of `chunks` holds.
pub open spec fn owned_chunk_models(chunks: Seq<Chunk>) -> Seq<ChunkModel> {
    chunks.map_values(|chunk: Chunk| chunk@)
}

impl MIDIFile {
    /// Cuts the file into its chunks, each with a copy of its data.
    ///
    /// A file that ends inside the eight bytes of a tag and a length has an
    /// incomplete chunk prefix; one that ends inside the data that a length
    /// declares has truncated chunk data.
    pub fn chunks(&self) -> (result: Result<Vec<Chunk>, TryFromMIDIFileError>)
        ensures
            match spec_chunks(self@) {
                Ok(chunks) => result matches Ok(owned) && owned_chunk_models(owned@) == chunks
                    && forall|i: int| 0 <= i < owned@.len() ==> (#[trigger] owned@[i]).wf(),
                Err(error) => result matches Err(e) && e == TryFromMIDIFileError::of(error),
            },
    {
        let chunks_file = match ChunksFile::try_from(self) {
            Ok(chunks_file) => chunks_file,
            Err(error) => {
                return Err(TryFromMIDIFileError::from(error));
            },
        };
        let files: &Vec<ChunkFile> = &chunks_file;
        let mut chunks: Vec<Chunk> = Vec::new();
        let mut i: usize = 0;
        while i < files.len()
            invariant
                i <= files@.len(),
                chunks@.len() == i,
                forall|j: int| 0 <= j < files@.len() ==> (#[trigger] files@[j]).wf(),
                forall|j: int|
                    0 <= j < i ==> (#[trigger] chunks@[j])@ == files@[j]@ && chunks@[j].wf(),
            decreases files@.len() - i,
        {
            let chunk_file = &files[i];
            let chunk = Chunk {
                kind: ChunkKind::from(chunk_file.kind),
                length: chunk_file.length,
                data: slice_to_vec(chunk_file.data),
            };
            chunks.push(chunk);
            i += 1;
        }
        assert(owned_chunk_models(chunks@) =~= chunk_models(files@));
        Ok(chunks)
    }
}

} // verus!
