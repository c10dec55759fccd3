//! The whole file, as bytes.

use crate::file::chunk::TryFromError;
use vstd::prelude::*;
use vstd::std_specs::convert::FromSpecImpl;

verus! {

/// To any file system, a MIDI file is simply a series of 8-bit bytes.
#[derive(Debug, Clone)]
pub struct MIDIFile(Vec<u8>);

impl View for MIDIFile {
    type V = Seq<u8>;

    closed spec fn view(&self) -> Seq<u8> {
        self.0@
    }
}

impl From<Vec<u8>> for MIDIFile {
    fn from(bytes: Vec<u8>) -> (file: MIDIFile)
        ensures
            file@ == bytes@,
    {
        MIDIFile(bytes)
    }
}

impl FromSpecImpl<Vec<u8>> for MIDIFile {
    open spec fn obeys_from_spec() -> bool {
        true
    }

    closed spec fn from_spec(bytes: Vec<u8>) -> MIDIFile {
        MIDIFile(bytes)
    }
}

impl core::ops::Deref for MIDIFile {
    type Target = Vec<u8>;

    fn deref(&self) -> (bytes: &Vec<u8>)
        ensures
            bytes@ == self@,
    {
        &self.0
    }
}

/// Why a file could not be cut into chunks.
#[derive(Debug, Clone, Copy, PartialEq, Eq, Structural)]
pub enum TryFromMIDIFileError {
    /// The file ended before the eight bytes of a chunk's tag and length.
    IncompleteChunkPrefix,
    /// The length that a chunk declares exceeds what is left of the file.
    TruncatedChunkData,
}

impl TryFromMIDIFileError {
    /// The error that a failure to cut the buffer comes to.
    pub open spec fn of(error: TryFromError) -> TryFromMIDIFileError {
        match error {
            TryFromError::CouldNotReadKind => TryFromMIDIFileError::IncompleteChunkPrefix,
            TryFromError::CouldNotReadLength => TryFromMIDIFileError::IncompleteChunkPrefix,
            TryFromError::CouldNotReadData => TryFromMIDIFileError::TruncatedChunkData,
        }
    }
}

impl From<TryFromError> for TryFromMIDIFileError {
    fn from(error: TryFromError) -> (e: TryFromMIDIFileError) {
        match error {
            TryFromError::CouldNotReadKind => TryFromMIDIFileError::IncompleteChunkPrefix,
            TryFromError::CouldNotReadLength => TryFromMIDIFileError::IncompleteChunkPrefix,
            TryFromError::CouldNotReadData => TryFromMIDIFileError::TruncatedChunkData,
        }
    }
}

impl FromSpecImpl<TryFromError> for TryFromMIDIFileError {
    open spec fn obeys_from_spec() -> bool {
        true
    }

    open spec fn from_spec(error: TryFromError) -> TryFromMIDIFileError {
        TryFromMIDIFileError::of(error)
    }
}

/// The text that `pretty_hex::simple_hex` gives for these bytes.
pub uninterp spec fn simple_hex_text(bytes: Seq<u8>) -> Seq<char>;

/// The text that `pretty_hex::pretty_hex` gives for these bytes.
pub uninterp spec fn pretty_hex_text(bytes: Seq<u8>) -> Seq<char>;

/// `pretty_hex::simple_hex`: the bytes as hexadecimal digits on one line,
/// without a header and without a column of characters. The text depends on
/// the bytes alone.
#[verifier::external_body]
fn simple_hex(bytes: &Vec<u8>) -> (text: String)
    ensures
        text@ == simple_hex_text(bytes@),
{
    pretty_hex::simple_hex(bytes)
}

/// `pretty_hex::pretty_hex`: the bytes as a dump of several lines, with a
/// header that gives their number, an address before each line and a column
/// of characters after it. The text depends on the bytes alone.
#[verifier::external_body]
fn pretty_hex(bytes: &Vec<u8>) -> (text: String)
    ensures
        text@ == pretty_hex_text(bytes@),
{
    pretty_hex::pretty_hex(bytes)
}

impl MIDIFile {
    /// The file on one line, as hexadecimal digits.
    pub fn to_simple_hex(&self) -> (text: String)
        ensures
            text@ == simple_hex_text(self@),
    {
        simple_hex(&self.0)
    }

    /// The file as a hexadecimal dump of several lines.
    pub fn to_pretty_hex(&self) -> (text: String)
        ensures
            text@ == pretty_hex_text(self@),
    {
        pretty_hex(&self.0)
    }
}

} // verus!
