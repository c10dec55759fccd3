//! Decoding of Standard MIDI Files.
//!
//! A file is one byte buffer, read in a single pass. [`scanner`] is the
//! bounds-checked cursor everything else reads through; [`big_endian`] and
//! [`vlq`] are the two ways in which the format writes a number, the second
//! being the variable-length quantity of delta-times and lengths.
//!
//! [`file`] frames the bytes without copying them: chunks, the fields of a
//! header, the events of a track. [`description`] says what those bytes mean,
//! in values that own what they hold. [`chunk`] has the chunks of a file as
//! values of their own, for a caller that lets go of the buffer.
//!
//! Every decoder is held to a function on sequences of bytes that says what
//! the format is; [`sequence`] has what those functions share.

pub mod big_endian;
pub mod chunk;
pub mod description;
pub mod file;
pub mod scanner;
pub mod sequence;
pub mod vlq;
