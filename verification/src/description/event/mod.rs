//! Events, decoded further than their framing.

pub mod meta;

use crate::description::event::meta::{spec_meta, MetaEvent};
use crate::file::event::track::EventFile;
use vstd::pervasive::unreached;
use vstd::prelude::*;

verus! {

/// An event whose data has been interpreted. Only meta events are
/// interpreted; the data of the other two kinds is for a synthesizer.
#[derive(Debug)]
pub enum Event {
    Meta(MetaEvent),
}

/// Why an event could not be interpreted.
#[derive(Debug, Clone, Copy, PartialEq, Eq, Structural)]
pub enum TryFromError {
    /// The event is a meta event, and its type or data is not valid.
    MetaEventFileToMetaEvent(meta::TryFromError),
}

impl Event {
    /// Interprets a meta event. The other two kinds of event have nothing
    /// to interpret, and are not taken.
    pub fn try_from(value: &EventFile) -> (result: Result<Event, TryFromError>)
        requires
            value is Meta,
        ensures
            match spec_meta(value->Meta_0.kind, value->Meta_0.data@) {
                Ok(meta) => result matches Ok(Event::Meta(event)) && event@ == meta,
                Err(error) => result matches Err(TryFromError::MetaEventFileToMetaEvent(e)) && e
                    == error,
            },
    {
        match value {
            EventFile::Meta(meta_event_file) => {
                match MetaEvent::try_from(meta_event_file) {
                    Ok(meta_event) => Ok(Event::Meta(meta_event)),
                    Err(error) => Err(TryFromError::MetaEventFileToMetaEvent(error)),
                }
            },
            _ => unreached(),
        }
    }
}

} // verus!
