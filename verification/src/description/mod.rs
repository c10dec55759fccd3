//! What the bytes of a file mean: values that own what they hold.

pub mod chunk;
pub mod event;
pub mod midi;
