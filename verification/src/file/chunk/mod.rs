//! Chunks: the file's top-level units, each a four-byte tag, a 32-bit
//! big-endian length and that many bytes of data.

pub mod header;
pub mod track;

use crate::file::midi::MIDIFile;
use crate::big_endian::{
    be_bytes_u32, be_value, lemma_be_bytes_u32_value, lemma_be_value_bytes_u32,
};
use crate::scanner::Scanner;
use crate::sequence::prepend;
use vstd::prelude::*;

verus! {

/// What a chunk holds, whoever owns its bytes.
pub struct ChunkModel {
    /// The four bytes of the tag.
    pub kind: Seq<u8>,
    /// The length as the file declares it.
    pub length: u32,
    /// The bytes that follow the length.
    pub data: Seq<u8>,
}

/// A chunk whose data is borrowed from the file's buffer.
#[derive(Debug, Clone, Copy)]
pub struct ChunkFile<'a> {
    pub kind: [u8; 4],
    pub length: u32,
    pub data: &'a [u8],
}

impl<'a> View for ChunkFile<'a> {
    type V = ChunkModel;

    open spec fn view(&self) -> ChunkModel {
        ChunkModel { kind: self.kind@, length: self.length, data: self.data@ }
    }
}

impl<'a> ChunkFile<'a> {
    /// The data is as long as the length says.
    pub open spec fn wf(&self) -> bool {
        self.data@.len() == self.length
    }
}

/// Whether two tags are the same four bytes.
pub fn same_kind(left: &[u8; 4], right: &[u8; 4]) -> (same: bool)
    ensures
        same == (left@ == right@),
{
    let same: bool = left[0] == right[0] && left[1] == right[1] && left[2] == right[2] && left[3]
        == right[3];
    proof {
        if same {
            assert(left@ =~= right@);
        }
    }
    same
}

/// What each of `chunks` holds.
pub open spec fn chunk_models<'a>(chunks: Seq<ChunkFile<'a>>) -> Seq<ChunkModel> {
    chunks.map_values(|chunk: ChunkFile<'a>| chunk@)
}

/// The chunks of a file, in the order in which they lie in it. Each has
/// data as long as its length says.
#[derive(Debug)]
pub struct ChunksFile<'a>(Vec<ChunkFile<'a>>);

impl<'a> View for ChunksFile<'a> {
    type V = Seq<ChunkModel>;

    closed spec fn view(&self) -> Seq<ChunkModel> {
        chunk_models(self.0@)
    }
}

impl<'a> ChunksFile<'a> {
    #[verifier::type_invariant]
    closed spec fn every_chunk_wf(self) -> bool {
        forall|i: int| 0 <= i < self.0@.len() ==> (#[trigger] self.0@[i]).wf()
    }
}

impl<'a> core::ops::Deref for ChunksFile<'a> {
    type Target = Vec<ChunkFile<'a>>;

    fn deref(&self) -> (chunks: &Vec<ChunkFile<'a>>)
        ensures
            chunk_models(chunks@) == self@,
            forall|i: int| 0 <= i < chunks@.len() ==> (#[trigger] chunks@[i]).wf(),
    {
        proof {
            use_type_invariant(self);
        }
        &self.0
    }
}

/// Why a buffer could not be cut into chunks.
#[derive(Debug, Clone, Copy, PartialEq, Eq, Structural)]
pub enum TryFromError {
    /// Fewer than four bytes were left for a tag.
    CouldNotReadKind,
    /// Fewer than four bytes were left for a length.
    CouldNotReadLength,
    /// Fewer bytes were left than the length declares.
    CouldNotReadData,
}

/// The chunks that `bytes` are made of: none for an empty buffer; else the
/// chunk at the head, then the chunks of what follows it. Cutting stops at
/// the first chunk that is not wholly there.
pub open spec fn spec_chunks(bytes: Seq<u8>) -> Result<Seq<ChunkModel>, TryFromError>
    decreases bytes.len(),
{
    if bytes.len() == 0 {
        Ok(Seq::empty())
    } else if bytes.len() < 4 {
        Err(TryFromError::CouldNotReadKind)
    } else if bytes.len() < 8 {
        Err(TryFromError::CouldNotReadLength)
    } else {
        let length = be_value(bytes.subrange(4, 8)) as int;
        if bytes.len() - 8 < length {
            Err(TryFromError::CouldNotReadData)
        } else {
            let chunk = ChunkModel {
                kind: bytes.subrange(0, 4),
                length: length as u32,
                data: bytes.subrange(8, 8 + length),
            };
            prepend(seq![chunk], spec_chunks(bytes.skip(8 + length)))
        }
    }
}

impl<'a> ChunksFile<'a> {
    /// Cuts the file into its chunks. Nothing is copied: each chunk borrows
    /// its data from the file.
    pub fn try_from(value: &'a MIDIFile) -> (result: Result<ChunksFile<'a>, TryFromError>)
        ensures
            match spec_chunks(value@) {
                Ok(chunks) => result matches Ok(chunks_file) && chunks_file@ == chunks,
                Err(error) => result matches Err(e) && e == error,
            },
    {
        let mut chunk_files: Vec<ChunkFile<'a>> = Vec::new();
        let mut scanner = Scanner::new(value.as_slice());
        let ghost whole = value@;
        proof {
            assert(scanner.remaining() =~= whole);
            if spec_chunks(whole) is Ok {
                assert(chunk_models(chunk_files@) + spec_chunks(whole)->Ok_0 =~= spec_chunks(
                    whole,
                )->Ok_0);
            }
        }
        while !scanner.done()
            invariant
                whole == value@,
                scanner.source() == whole,
                scanner.consumed() <= whole.len(),
                spec_chunks(whole) == prepend(
                    chunk_models(chunk_files@),
                    spec_chunks(scanner.remaining()),
                ),
                forall|i: int| 0 <= i < chunk_files.len() ==> (#[trigger] chunk_files[i]).wf(),
            decreases whole.len() - scanner.consumed(),
        {
            let ghost left = scanner.remaining();
            let ghost done = chunk_models(chunk_files@);
            let kind: [u8; 4] = match scanner.eat_bytes::<4>() {
                Some(kind) => *kind,
                None => {
                    return Err(TryFromError::CouldNotReadKind);
                },
            };
            assert(scanner.remaining() =~= left.skip(4));
            let length: u32 = match scanner.eat_u32_be() {
                Some(length) => length,
                None => {
                    return Err(TryFromError::CouldNotReadLength);
                },
            };
            assert(left.skip(4).take(4) =~= left.subrange(4, 8));
            assert(scanner.remaining() =~= left.skip(8));
            let data: &'a [u8] = match scanner.eat_slice(length as usize) {
                Some(data) => data,
                None => {
                    return Err(TryFromError::CouldNotReadData);
                },
            };
            let chunk = ChunkFile { kind, length, data };
            chunk_files.push(chunk);
            proof {
                assert(kind@ =~= left.subrange(0, 4));
                assert(data@ =~= left.subrange(8, 8 + length));
                assert(scanner.remaining() =~= left.skip(8 + length));
                assert(chunk_models(chunk_files@) =~= done + seq![
                    chunk@,
                ]);
                let rest = spec_chunks(left.skip(8 + length));
                if rest is Ok {
                    assert((done + seq![chunk@]) + rest->Ok_0 =~= done + (seq![chunk@]
                        + rest->Ok_0));
                }
            }
        }
        proof {
            let done = chunk_models(chunk_files@);
            assert(done + Seq::<ChunkModel>::empty() =~= done);
        }
        Ok(ChunksFile(chunk_files))
    }
}

impl ChunkModel {
    /// The tag has four bytes, and the data is as long as the length says.
    pub open spec fn wf(self) -> bool {
        &&& self.kind.len() == 4
        &&& self.data.len() == self.length
    }

    /// The bytes of the chunk as it lies in a file: tag, length, data.
    pub open spec fn bytes(self) -> Seq<u8> {
        self.kind + be_bytes_u32(self.length) + self.data
    }
}

/// The bytes of all of `chunks`, one chunk after another.
pub open spec fn spec_chunks_bytes(chunks: Seq<ChunkModel>) -> Seq<u8>
    decreases chunks.len(),
{
    if chunks.len() == 0 {
        Seq::empty()
    } else {
        chunks[0].bytes() + spec_chunks_bytes(chunks.skip(1))
    }
}

/// A buffer that begins with a whole chunk is cut into that chunk and the
/// chunks of what follows it. An empty chunk, of declared length 0, is one
/// such.
pub proof fn lemma_chunk_at_head(chunk: ChunkModel, rest: Seq<u8>)
    requires
        chunk.wf(),
    ensures
        spec_chunks(chunk.bytes() + rest) == prepend(seq![chunk], spec_chunks(rest)),
{
    let bytes = chunk.bytes() + rest;
    lemma_be_bytes_u32_value(chunk.length);
    assert(bytes.subrange(0, 4) =~= chunk.kind);
    assert(bytes.subrange(4, 8) =~= be_bytes_u32(chunk.length));
    assert(bytes.subrange(8, 8 + chunk.length) =~= chunk.data);
    assert(bytes.skip(8 + chunk.length) =~= rest);
}

/// A buffer that ends inside the data that a chunk declares is not cut:
/// whatever the tag, fewer bytes of data than the declared length are an
/// error.
pub proof fn lemma_truncated_chunk(kind: Seq<u8>, length: u32, data: Seq<u8>)
    requires
        kind.len() == 4,
        data.len() < length,
    ensures
        spec_chunks(kind + be_bytes_u32(length) + data) == Err::<Seq<ChunkModel>, TryFromError>(
            TryFromError::CouldNotReadData,
        ),
{
    let bytes = kind + be_bytes_u32(length) + data;
    lemma_be_bytes_u32_value(length);
    assert(bytes.subrange(4, 8) =~= be_bytes_u32(length));
}

/// Chunk boundaries are byte-exact. The chunks that a buffer is cut into are
/// well-formed, and written one after another they are the buffer again: no
/// byte is left out and none belongs to two chunks.
pub proof fn lemma_chunks_exact(bytes: Seq<u8>)
    ensures
        spec_chunks(bytes) matches Ok(chunks) ==> spec_chunks_bytes(chunks) == bytes && forall|
            i: int,
        |
            0 <= i < chunks.len() ==> (#[trigger] chunks[i]).wf(),
    decreases bytes.len(),
{
    if bytes.len() >= 8 {
        let length = be_value(bytes.subrange(4, 8)) as int;
        if bytes.len() - 8 >= length {
            let rest = bytes.skip(8 + length);
            lemma_chunks_exact(rest);
            if spec_chunks(rest) is Ok {
                let chunk = ChunkModel {
                    kind: bytes.subrange(0, 4),
                    length: length as u32,
                    data: bytes.subrange(8, 8 + length),
                };
                let tail = spec_chunks(rest)->Ok_0;
                let chunks = seq![chunk] + tail;
                lemma_be_value_bytes_u32(bytes.subrange(4, 8));
                assert(chunks.skip(1) =~= tail);
                assert(chunk.bytes() + rest =~= bytes);
            }
        }
    }
}

/// Cutting is the inverse of writing: well-formed chunks written one after
/// another are cut into the same chunks.
pub proof fn lemma_chunks_round_trip(chunks: Seq<ChunkModel>)
    requires
        forall|i: int| 0 <= i < chunks.len() ==> (#[trigger] chunks[i]).wf(),
    ensures
        spec_chunks(spec_chunks_bytes(chunks)) == Ok::<Seq<ChunkModel>, TryFromError>(chunks),
    decreases chunks.len(),
{
    if chunks.len() > 0 {
        let rest = chunks.skip(1);
        assert(forall|i: int| 0 <= i < rest.len() ==> (#[trigger] rest[i]) == chunks[i + 1]);
        lemma_chunks_round_trip(rest);
        lemma_chunk_at_head(chunks[0], spec_chunks_bytes(rest));
        assert(seq![chunks[0]] + rest =~= chunks);
    } else {
        assert(chunks =~= Seq::<ChunkModel>::empty());
    }
}

} // verus!
