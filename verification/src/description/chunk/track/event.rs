//! The events of a track, each with a copy of its data.

use crate::file::event::track::{
    EventModel, TrackEventModel, TRACK_EVENT_STATUS_F0_SOX, TRACK_EVENT_STATUS_F7_EOX,
};
use vstd::prelude::*;

verus! {

/// An event of a track and the time that it waits.
#[derive(Debug, Clone, PartialEq, Eq)]
pub struct TrackEvent {
    /// Represents the amount of time before the following event, stored as a
    /// variable-length quantity.
    ///
    /// If the first event in a track occurs at the very beginning of a track,
    /// or if two events occur simultaneously, a delta-time of zero is used.
    /// Delta-times are always present.
    ///
    /// Delta-time is in ticks as specified in the header chunk.
    pub delta_time: u32,
    pub kind: TrackEventKind,
}

/// The three kinds of event that a track holds.
#[derive(Debug, Clone, PartialEq, Eq)]
pub enum TrackEventKind {
    /// A meta event: `status` is its type byte.
    Meta { status: u8, data: Vec<u8> },
    /// A System Exclusive event.
    SystemExclusive { kind: SystemExclusiveEventKind, data: Vec<u8> },
    /// A channel-voice event: `status` is its status byte, written in the
    /// file or carried over from the event before.
    MIDI { status: u8, data: Vec<u8> },
}

/// Which of the two status bytes a System Exclusive event began with.
#[derive(Debug, Clone, Copy, PartialEq, Eq, Structural)]
pub enum SystemExclusiveEventKind {
    /// `0xF0`: the start of a message.
    F0,
    /// `0xF7`: a continuation, or a message sent as it is.
    F7,
}

impl SystemExclusiveEventKind {
    /// The status byte that stands for the kind.
    pub open spec fn status(self) -> u8 {
        match self {
            SystemExclusiveEventKind::F0 => TRACK_EVENT_STATUS_F0_SOX,
            SystemExclusiveEventKind::F7 => TRACK_EVENT_STATUS_F7_EOX,
        }
    }
}

impl View for TrackEventKind {
    type V = EventModel;

    open spec fn view(&self) -> EventModel {
        match *self {
            TrackEventKind::Meta { status, data } => EventModel::Meta { kind: status, data: data@ },
            TrackEventKind::SystemExclusive { kind, data } => EventModel::SysEx {
                status: kind.status(),
                data: data@,
            },
            TrackEventKind::MIDI { status, data } => EventModel::Midi { status, data: data@ },
        }
    }
}

impl View for TrackEvent {
    type V = TrackEventModel;

    open spec fn view(&self) -> TrackEventModel {
        TrackEventModel { delta_time: self.delta_time, event: self.kind@ }
    }
}

} // verus!
