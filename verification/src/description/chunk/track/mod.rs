//! The track chunk, decoded into events that own their data.

pub mod event;

use crate::description::chunk::track::event::{SystemExclusiveEventKind, TrackEvent, TrackEventKind};
use crate::file::chunk::track::TrackChunkFile;
use crate::file::event::track::{
    lemma_track_event_len, spec_meta_event, spec_midi_event, spec_sys_ex_event, spec_track_event,
    spec_track_events, TrackEventModel,
};
use crate::file::event::track::TryFromError as FileError;
use crate::scanner::Scanner;
use crate::sequence::prepend;
use crate::vlq::vlq_decode;
use vstd::prelude::*;

verus! {

/// What each of `events` holds.
pub open spec fn owned_event_models(events: Seq<TrackEvent>) -> Seq<TrackEventModel> {
    events.map_values(|event: TrackEvent| event@)
}

/// The track chunks (type MTrk) are where actual song data is stored. Each
/// track chunk is simply a stream of MIDI events (and non-MIDI events),
/// preceded by delta-time values.
#[derive(Debug)]
pub struct TrackChunk(Vec<TrackEvent>);

impl View for TrackChunk {
    type V = Seq<TrackEventModel>;

    closed spec fn view(&self) -> Seq<TrackEventModel> {
        owned_event_models(self.0@)
    }
}

impl core::ops::Deref for TrackChunk {
    type Target = Vec<TrackEvent>;

    fn deref(&self) -> (events: &Vec<TrackEvent>)
        ensures
            owned_event_models(events@) == self@,
    {
        &self.0
    }
}

/// Why the bytes of a track could not be decoded.
#[derive(Debug, Clone, Copy, PartialEq, Eq, Structural)]
pub enum TryFromError {
    /// A delta-time or a length is no variable-length quantity.
    InvalidVLQ,
    /// The bytes end where a status byte or a meta type byte is due, or the
    /// byte there is one from `0xF1` to `0xFE` other than `0xF7`.
    InvalidStatusByte,
    /// Fewer bytes are left than the event's data takes.
    InvalidData,
    /// A data byte stands where an event begins, and there is no running
    /// status to go with it.
    InvalidRunningStatus,
}

impl TryFromError {
    /// The error that a failure to frame the bytes comes to.
    pub open spec fn of(error: FileError) -> TryFromError {
        match error {
            FileError::InvalidStatusByte => TryFromError::InvalidStatusByte,
            FileError::CouldNotReadStatus => TryFromError::InvalidStatusByte,
            FileError::CouldNotReadVLQ => TryFromError::InvalidVLQ,
            FileError::CouldNotReadData => TryFromError::InvalidData,
            FileError::RunningStatusNotSet => TryFromError::InvalidRunningStatus,
        }
    }
}

impl TrackChunk {
    /// Decodes the events of a track chunk, from its first byte to its
    /// last, with no running status to begin with. The chunk is decoded as a
    /// whole: at the first byte that cannot be decoded the result is that
    /// error, and no event.
    pub fn try_from(value: &TrackChunkFile) -> (result: Result<TrackChunk, TryFromError>)
        ensures
            match spec_track_events(value.track_events@, None) {
                Ok(events) => result matches Ok(track_chunk) && track_chunk@ == events,
                Err(error) => result matches Err(e) && e == TryFromError::of(error),
            },
    {
        let mut events: Vec<TrackEvent> = Vec::new();
        let mut scanner = Scanner::new(value.track_events);
        // Running status is used: status bytes of MIDI events may be
        // omitted if the preceding event is a MIDI event with the
        // same status.
        let mut running_status: Option<u8> = None;
        let ghost whole = value.track_events@;
        proof {
            assert(scanner.remaining() =~= whole);
            if spec_track_events(whole, None) is Ok {
                assert(owned_event_models(events@) + spec_track_events(whole, None)->Ok_0
                    =~= spec_track_events(whole, None)->Ok_0);
            }
        }
        while !scanner.done()
            invariant
                whole == value.track_events@,
                scanner.source() == whole,
                scanner.consumed() <= whole.len(),
                spec_track_events(whole, None) == prepend(
                    owned_event_models(events@),
                    spec_track_events(scanner.remaining(), running_status),
                ),
            decreases whole.len() - scanner.consumed(),
        {
            let ghost left = scanner.remaining();
            let ghost done = owned_event_models(events@);
            let ghost before = running_status;
            let event = parse_event(&mut scanner, &mut running_status)?;
            events.push(event);
            proof {
                let decoded = spec_track_event(left, before).unwrap();
                lemma_track_event_len(left, before);
                assert(scanner.remaining() =~= left.skip(decoded.len as int));
                assert(owned_event_models(events@) =~= done + seq![decoded.item]);
                let rest = spec_track_events(left.skip(decoded.len as int), decoded.running_status);
                if rest is Ok {
                    assert((done + seq![decoded.item]) + rest->Ok_0 =~= done + (seq![decoded.item]
                        + rest->Ok_0));
                }
            }
        }
        proof {
            assert(owned_event_models(events@) + Seq::<TrackEventModel>::empty()
                =~= owned_event_models(events@));
        }
        Ok(TrackChunk(events))
    }
}

/// Parses a single track event from the scanner, including delta time and
/// event data, and updates the running status as the kind of event asks.
///
/// After an error, where the scanner stands and what the running status
/// holds is not told: the track is not decoded further.
pub fn parse_event(scanner: &mut Scanner, running_status: &mut Option<u8>) -> (result: Result<
    TrackEvent,
    TryFromError,
>)
    ensures
        final(scanner).source() == old(scanner).source(),
        final(scanner).consumed() <= final(scanner).source().len(),
        match spec_track_event(old(scanner).remaining(), *old(running_status)) {
            Ok(decoded) => {
                &&& result matches Ok(event)
                &&& event@ == decoded.item
                &&& final(scanner).consumed() == old(scanner).consumed() + decoded.len
                &&& *final(running_status) == decoded.running_status
            },
            Err(error) => result matches Err(e) && e == TryFromError::of(error),
        },
{
    let ghost left = scanner.remaining();
    let delta_time: u32 = match scanner.eat_variable_length_quantity() {
        Some(delta_time) => delta_time,
        None => {
            return Err(TryFromError::InvalidVLQ);
        },
    };
    let ghost n = vlq_decode(left).unwrap().1 as int;
    let ghost after = left.skip(n);
    assert(scanner.remaining() =~= after);
    let kind_byte: u8 = match scanner.peek() {
        Some(kind_byte) => *kind_byte,
        None => {
            return Err(TryFromError::InvalidStatusByte);
        },
    };
    let kind = if kind_byte == 0xFF {
        scanner.eat();
        *running_status = None;
        assert(scanner.remaining() =~= after.skip(1));
        parse_meta_event(scanner)?
    } else if kind_byte == 0xF0 {
        scanner.eat();
        *running_status = None;
        assert(scanner.remaining() =~= after.skip(1));
        parse_system_exclusive_event(scanner, SystemExclusiveEventKind::F0)?
    } else if kind_byte == 0xF7 {
        scanner.eat();
        *running_status = None;
        assert(scanner.remaining() =~= after.skip(1));
        parse_system_exclusive_event(scanner, SystemExclusiveEventKind::F7)?
    } else if kind_byte > 0xEF {
        return Err(TryFromError::InvalidStatusByte);
    } else if kind_byte >= 0x80 {
        scanner.eat();
        *running_status = Some(kind_byte);
        assert(scanner.remaining() =~= after.skip(1));
        parse_midi_event(scanner, kind_byte)?
    } else {
        let status: u8 = match *running_status {
            Some(status) => status,
            None => {
                return Err(TryFromError::InvalidRunningStatus);
            },
        };
        parse_midi_event(scanner, status)?
    };
    Ok(TrackEvent { delta_time, kind })
}

/// Parses what follows the `FF` of a meta event. A meta event specifies
/// non-MIDI information useful to this format or to sequencers, with this
/// syntax: `FF <type> <length> <bytes>`.
pub fn parse_meta_event(scanner: &mut Scanner) -> (result: Result<TrackEventKind, TryFromError>)
    ensures
        final(scanner).source() == old(scanner).source(),
        final(scanner).consumed() <= final(scanner).source().len(),
        match spec_meta_event(old(scanner).remaining()) {
            Ok((event, n)) => {
                &&& result matches Ok(kind)
                &&& kind@ == event
                &&& final(scanner).consumed() == old(scanner).consumed() + n
            },
            Err(error) => result matches Err(e) && e == TryFromError::of(error),
        },
{
    let ghost left = scanner.remaining();
    let status: u8 = match scanner.eat() {
        Some(status) => *status,
        None => {
            return Err(TryFromError::InvalidStatusByte);
        },
    };
    assert(scanner.remaining() =~= left.skip(1));
    let length: u32 = match scanner.eat_variable_length_quantity() {
        Some(length) => length,
        None => {
            return Err(TryFromError::InvalidVLQ);
        },
    };
    let ghost n = vlq_decode(left.skip(1)).unwrap().1 as int;
    assert(scanner.remaining() =~= left.skip(1).skip(n));
    let data: Vec<u8> = match scanner.eat_vec(length as usize) {
        Some(data) => data,
        None => {
            return Err(TryFromError::InvalidData);
        },
    };
    assert(data@ =~= left.skip(1).subrange(n, n + length));
    Ok(TrackEventKind::Meta { status, data })
}

/// Parses what follows the status byte of a System Exclusive event: a
/// length and that many bytes.
pub fn parse_system_exclusive_event(
    scanner: &mut Scanner,
    kind: SystemExclusiveEventKind,
) -> (result: Result<TrackEventKind, TryFromError>)
    ensures
        final(scanner).source() == old(scanner).source(),
        final(scanner).consumed() <= final(scanner).source().len(),
        match spec_sys_ex_event(kind.status(), old(scanner).remaining()) {
            Ok((event, n)) => {
                &&& result matches Ok(event_kind)
                &&& event_kind@ == event
                &&& final(scanner).consumed() == old(scanner).consumed() + n
            },
            Err(error) => result matches Err(e) && e == TryFromError::of(error),
        },
{
    let ghost left = scanner.remaining();
    let length: u32 = match scanner.eat_variable_length_quantity() {
        Some(length) => length,
        None => {
            return Err(TryFromError::InvalidVLQ);
        },
    };
    let ghost n = vlq_decode(left).unwrap().1 as int;
    assert(scanner.remaining() =~= left.skip(n));
    let data: Vec<u8> = match scanner.eat_vec(length as usize) {
        Some(data) => data,
        None => {
            return Err(TryFromError::InvalidData);
        },
    };
    assert(data@ =~= left.subrange(n, n + length));
    Ok(TrackEventKind::SystemExclusive { kind, data })
}

/// Parses the data bytes of a channel-voice event with the given status:
/// one for Program Change and Channel Pressure, two for every other.
pub fn parse_midi_event(scanner: &mut Scanner, status: u8) -> (result: Result<
    TrackEventKind,
    TryFromError,
>)
    ensures
        final(scanner).source() == old(scanner).source(),
        final(scanner).consumed() <= final(scanner).source().len(),
        match spec_midi_event(status, old(scanner).remaining()) {
            Ok((event, n)) => {
                &&& result matches Ok(kind)
                &&& kind@ == event
                &&& final(scanner).consumed() == old(scanner).consumed() + n
            },
            Err(error) => result matches Err(e) && e == TryFromError::of(error),
        },
{
    assert(status & 0xF0 == 0xC0 || status & 0xF0 == 0xD0 <==> 0xC0 <= status <= 0xDF)
        by (bit_vector);
    let data_len: usize = if status & 0xF0 == 0xC0 || status & 0xF0 == 0xD0 {
        1
    } else {
        2
    };
    match scanner.eat_vec(data_len) {
        Some(data) => Ok(TrackEventKind::MIDI { status, data }),
        None => Err(TryFromError::InvalidData),
    }
}

} // verus!
