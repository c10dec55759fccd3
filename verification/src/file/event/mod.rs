//! The events of a track, as they lie in the buffer.

pub mod running_status;
pub mod track;
