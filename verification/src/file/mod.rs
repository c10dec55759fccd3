//! The file as it lies in the buffer: views that borrow its bytes.

pub mod chunk;
pub mod event;
pub mod midi;
