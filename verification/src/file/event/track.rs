//! The events of a track chunk: pairs of a delta-time and an event, decoded
//! one after another, with running status carried from each to the next.

use crate::file::chunk::track::TrackChunkFile;
use crate::scanner::Scanner;
use crate::sequence::prepend;
use crate::vlq::vlq_decode;
use vstd::prelude::*;

verus! {

/// The lowest status byte of a channel-voice event.
pub const TRACK_EVENT_STATUS_80_MIN_MIDI: u8 = 0x80;

/// The highest status byte of a channel-voice event.
pub const TRACK_EVENT_STATUS_EF_MAX_MIDI: u8 = 0xEF;

/// Start of System Exclusive.
pub const TRACK_EVENT_STATUS_F0_SOX: u8 = 0xF0;

/// End of System Exclusive, which in a file also starts a continuation.
pub const TRACK_EVENT_STATUS_F7_EOX: u8 = 0xF7;

/// The status byte of a meta event.
pub const TRACK_EVENT_STATUS_FF_META: u8 = 0xFF;

/// What an event holds, whoever owns its bytes.
pub enum EventModel {
    /// A meta event: its type byte and its data.
    Meta { kind: u8, data: Seq<u8> },
    /// A System Exclusive event: `0xF0` or `0xF7`, and its data.
    SysEx { status: u8, data: Seq<u8> },
    /// A channel-voice event: its status, written or carried over, and its
    /// one or two data bytes.
    Midi { status: u8, data: Seq<u8> },
}

/// What a track event holds: the ticks since the event before it, and the
/// event.
pub struct TrackEventModel {
    pub delta_time: u32,
    pub event: EventModel,
}

/// A delta-time and the event that follows it.
#[derive(Debug)]
pub struct TrackEventFile<'a> {
    pub delta_time: u32,
    pub event: EventFile<'a>,
}

/// An event of one of the three kinds that a track holds.
#[derive(Debug)]
pub enum EventFile<'a> {
    Meta(MetaEventFile<'a>),
    SysEx(SysExEventFile<'a>),
    Midi(MIDIEventFile<'a>),
}

/// A meta event: `FF <type> <length> <bytes>`.
#[derive(Debug)]
pub struct MetaEventFile<'a> {
    pub status: u8,
    pub kind: u8,
    pub length: u32,
    pub data: &'a [u8],
}

/// A System Exclusive event: `F0 <length> <bytes>` or `F7 <length> <bytes>`.
#[derive(Debug)]
pub struct SysExEventFile<'a> {
    pub status: u8,
    pub length: u32,
    pub data: &'a [u8],
}

/// A channel-voice event: its status and its data bytes.
#[derive(Debug)]
pub struct MIDIEventFile<'a> {
    pub status: u8,
    pub data: &'a [u8],
}

impl<'a> View for EventFile<'a> {
    type V = EventModel;

    open spec fn view(&self) -> EventModel {
        match *self {
            EventFile::Meta(meta) => EventModel::Meta { kind: meta.kind, data: meta.data@ },
            EventFile::SysEx(sys_ex) => EventModel::SysEx {
                status: sys_ex.status,
                data: sys_ex.data@,
            },
            EventFile::Midi(midi) => EventModel::Midi { status: midi.status, data: midi.data@ },
        }
    }
}

impl<'a> EventFile<'a> {
    /// The fields that repeat what the others say agree with them: a meta
    /// event has status `0xFF`, and a declared length is the length of the
    /// data.
    pub open spec fn wf(&self) -> bool {
        match *self {
            EventFile::Meta(meta) => meta.status == TRACK_EVENT_STATUS_FF_META
                && meta.length == meta.data@.len(),
            EventFile::SysEx(sys_ex) => sys_ex.length == sys_ex.data@.len(),
            EventFile::Midi(_) => true,
        }
    }
}

impl<'a> View for TrackEventFile<'a> {
    type V = TrackEventModel;

    open spec fn view(&self) -> TrackEventModel {
        TrackEventModel { delta_time: self.delta_time, event: self.event@ }
    }
}

/// What each of `events` holds.
pub open spec fn track_event_models<'a>(events: Seq<TrackEventFile<'a>>) -> Seq<TrackEventModel> {
    events.map_values(|event: TrackEventFile<'a>| event@)
}

/// The events of a track, in order. Each is well-formed.
#[derive(Debug)]
pub struct TrackEventsFile<'a>(Vec<TrackEventFile<'a>>);

impl<'a> View for TrackEventsFile<'a> {
    type V = Seq<TrackEventModel>;

    closed spec fn view(&self) -> Seq<TrackEventModel> {
        track_event_models(self.0@)
    }
}

impl<'a> TrackEventsFile<'a> {
    #[verifier::type_invariant]
    closed spec fn every_event_wf(self) -> bool {
        forall|i: int| 0 <= i < self.0@.len() ==> (#[trigger] self.0@[i]).event.wf()
    }
}

impl<'a> core::ops::Deref for TrackEventsFile<'a> {
    type Target = Vec<TrackEventFile<'a>>;

    fn deref(&self) -> (events: &Vec<TrackEventFile<'a>>)
        ensures
            track_event_models(events@) == self@,
            forall|i: int| 0 <= i < events@.len() ==> (#[trigger] events@[i]).event.wf(),
    {
        proof {
            use_type_invariant(self);
        }
        &self.0
    }
}

/// Why the bytes of a track could not be decoded.
#[derive(Debug, Clone, Copy, PartialEq, Eq, Structural)]
pub enum TryFromError {
    /// A byte from `0xF1` to `0xFE`, other than `0xF7`, stands where an
    /// event begins: System Common and System Real-Time messages have no
    /// place in a file.
    InvalidStatusByte,
    /// The bytes end where a status byte or a meta type byte is due.
    CouldNotReadStatus,
    /// A delta-time or a length is no variable-length quantity.
    CouldNotReadVLQ,
    /// Fewer bytes are left than the event's data takes.
    CouldNotReadData,
    /// A data byte stands where an event begins, and no channel-voice event
    /// came before it to take the status from.
    RunningStatusNotSet,
}

/// How many data bytes a channel-voice event with this status has: one for
/// Program Change (`0xC0` to `0xCF`) and Channel Pressure (`0xD0` to `0xDF`),
/// two for all others.
pub open spec fn midi_data_len(status: u8) -> nat {
    if 0xC0 <= status <= 0xDF {
        1
    } else {
        2
    }
}

/// A length-prefixed run of bytes at the head of `bytes`: the length, a
/// variable-length quantity; the data, that many bytes; and the number of
/// bytes that both take.
pub open spec fn spec_payload(bytes: Seq<u8>) -> Result<(u32, Seq<u8>, nat), TryFromError> {
    match vlq_decode(bytes) {
        None => Err(TryFromError::CouldNotReadVLQ),
        Some((length, n)) => if bytes.len() - n < length {
            Err(TryFromError::CouldNotReadData)
        } else {
            Ok((length, bytes.subrange(n as int, n + length), (n + length) as nat))
        },
    }
}

/// The meta event whose bytes after the `0xFF` are at the head of `bytes`,
/// and the number of those bytes.
pub open spec fn spec_meta_event(bytes: Seq<u8>) -> Result<(EventModel, nat), TryFromError> {
    if bytes.len() == 0 {
        Err(TryFromError::CouldNotReadStatus)
    } else {
        match spec_payload(bytes.skip(1)) {
            Err(error) => Err(error),
            Ok((_, data, n)) => Ok((EventModel::Meta { kind: bytes[0], data }, 1 + n)),
        }
    }
}

/// The System Exclusive event whose bytes after the status are at the head
/// of `bytes`, and the number of those bytes.
pub open spec fn spec_sys_ex_event(status: u8, bytes: Seq<u8>) -> Result<
    (EventModel, nat),
    TryFromError,
> {
    match spec_payload(bytes) {
        Err(error) => Err(error),
        Ok((_, data, n)) => Ok((EventModel::SysEx { status, data }, n)),
    }
}

/// The channel-voice event with this status whose data bytes are at the head
/// of `bytes`, and the number of those bytes.
pub open spec fn spec_midi_event(status: u8, bytes: Seq<u8>) -> Result<
    (EventModel, nat),
    TryFromError,
> {
    if bytes.len() < midi_data_len(status) {
        Err(TryFromError::CouldNotReadData)
    } else {
        Ok(
            (
                EventModel::Midi { status, data: bytes.take(midi_data_len(status) as int) },
                midi_data_len(status),
            ),
        )
    }
}

/// What decoding one event gives: the event, the number of bytes it took,
/// and the running status that the next event starts with.
pub struct Decoded<T> {
    pub item: T,
    pub len: nat,
    pub running_status: Option<u8>,
}

/// The event at the head of `bytes`, which come after a delta-time.
///
/// The first byte decides. `0xFF` starts a meta event, `0xF0` and `0xF7` a
/// System Exclusive event: both clear the running status. `0x80` to `0xEF`
/// is the status of a channel-voice event and becomes the running status. A
/// byte below `0x80` is already data: the event takes the running status,
/// and there must be one. Every other byte is refused.
pub open spec fn spec_event(bytes: Seq<u8>, running_status: Option<u8>) -> Result<
    Decoded<EventModel>,
    TryFromError,
> {
    if bytes.len() == 0 {
        Err(TryFromError::CouldNotReadStatus)
    } else if bytes[0] == TRACK_EVENT_STATUS_FF_META {
        match spec_meta_event(bytes.skip(1)) {
            Err(error) => Err(error),
            Ok((item, n)) => Ok(Decoded { item, len: 1 + n, running_status: None }),
        }
    } else if bytes[0] == TRACK_EVENT_STATUS_F0_SOX || bytes[0] == TRACK_EVENT_STATUS_F7_EOX {
        match spec_sys_ex_event(bytes[0], bytes.skip(1)) {
            Err(error) => Err(error),
            Ok((item, n)) => Ok(Decoded { item, len: 1 + n, running_status: None }),
        }
    } else if bytes[0] > TRACK_EVENT_STATUS_EF_MAX_MIDI {
        Err(TryFromError::InvalidStatusByte)
    } else if bytes[0] >= TRACK_EVENT_STATUS_80_MIN_MIDI {
        match spec_midi_event(bytes[0], bytes.skip(1)) {
            Err(error) => Err(error),
            Ok((item, n)) => Ok(Decoded { item, len: 1 + n, running_status: Some(bytes[0]) }),
        }
    } else {
        match running_status {
            None => Err(TryFromError::RunningStatusNotSet),
            Some(status) => match spec_midi_event(status, bytes) {
                Err(error) => Err(error),
                Ok((item, n)) => Ok(Decoded { item, len: n, running_status: Some(status) }),
            },
        }
    }
}

/// The delta-time and event at the head of `bytes`.
pub open spec fn spec_track_event(bytes: Seq<u8>, running_status: Option<u8>) -> Result<
    Decoded<TrackEventModel>,
    TryFromError,
> {
    match vlq_decode(bytes) {
        None => Err(TryFromError::CouldNotReadVLQ),
        Some((delta_time, n)) => match spec_event(bytes.skip(n as int), running_status) {
            Err(error) => Err(error),
            Ok(decoded) => Ok(
                Decoded {
                    item: TrackEventModel { delta_time, event: decoded.item },
                    len: n + decoded.len,
                    running_status: decoded.running_status,
                },
            ),
        },
    }
}

/// All the events that `bytes` hold, decoded from the first byte to the
/// last, or the error at the first place where decoding fails.
pub open spec fn spec_track_events(bytes: Seq<u8>, running_status: Option<u8>) -> Result<
    Seq<TrackEventModel>,
    TryFromError,
>
    decreases bytes.len(),
{
    if bytes.len() == 0 {
        Ok(Seq::empty())
    } else {
        match spec_track_event(bytes, running_status) {
            Err(error) => Err(error),
            Ok(decoded) => prepend(
                seq![decoded.item],
                spec_track_events(bytes.skip(decoded.len as int), decoded.running_status),
            ),
        }
    }
}

/// Consumes a length and the data that it counts.
fn eat_payload<'a>(scanner: &mut Scanner<'a>) -> (result: Result<(u32, &'a [u8]), TryFromError>)
    ensures
        final(scanner).source() == old(scanner).source(),
        final(scanner).consumed() <= final(scanner).source().len(),
        match spec_payload(old(scanner).remaining()) {
            Ok((length, data, n)) => result matches Ok(payload) && payload.0 == length
                && payload.1@ == data && final(scanner).consumed() == old(scanner).consumed() + n,
            Err(error) => result matches Err(e) && e == error,
        },
{
    let ghost left = scanner.remaining();
    let length: u32 = match scanner.eat_variable_length_quantity() {
        Some(length) => length,
        None => {
            return Err(TryFromError::CouldNotReadVLQ);
        },
    };
    let ghost n = vlq_decode(left).unwrap().1 as int;
    assert(scanner.remaining() =~= left.skip(n));
    let data: &'a [u8] = match scanner.eat_slice(length as usize) {
        Some(data) => data,
        None => {
            return Err(TryFromError::CouldNotReadData);
        },
    };
    assert(data@ =~= left.subrange(n, n + length));
    Ok((length, data))
}

/// Consumes a channel-voice event's data bytes.
fn eat_midi_event<'a>(scanner: &mut Scanner<'a>, status: u8) -> (result: Result<
    EventFile<'a>,
    TryFromError,
>)
    ensures
        final(scanner).source() == old(scanner).source(),
        final(scanner).consumed() <= final(scanner).source().len(),
        match spec_midi_event(status, old(scanner).remaining()) {
            Ok((event, n)) => {
                &&& result matches Ok(e)
                &&& e@ == event
                &&& e.wf()
                &&& final(scanner).consumed() == old(scanner).consumed() + n
            },
            Err(error) => result matches Err(e) && e == error,
        },
{
    assert(status & 0xF0 == 0xC0 || status & 0xF0 == 0xD0 <==> 0xC0 <= status <= 0xDF)
        by (bit_vector);
    let data_len: usize = if status & 0xF0 == 0xC0 || status & 0xF0 == 0xD0 {
        1
    } else {
        2
    };
    match scanner.eat_slice(data_len) {
        Some(data) => Ok(EventFile::Midi(MIDIEventFile { status, data })),
        None => Err(TryFromError::CouldNotReadData),
    }
}

/// Consumes one delta-time and the event after it.
fn eat_track_event<'a>(scanner: &mut Scanner<'a>, running_status: &mut Option<u8>) -> (result:
    Result<TrackEventFile<'a>, TryFromError>)
    ensures
        final(scanner).source() == old(scanner).source(),
        final(scanner).consumed() <= final(scanner).source().len(),
        match spec_track_event(old(scanner).remaining(), *old(running_status)) {
            Ok(decoded) => result matches Ok(event) && event@ == decoded.item && event.event.wf()
                && final(scanner).consumed() == old(scanner).consumed() + decoded.len
                && *final(running_status) == decoded.running_status,
            Err(error) => result matches Err(e) && e == error,
        },
{
    let ghost left = scanner.remaining();
    let delta_time: u32 = match scanner.eat_variable_length_quantity() {
        Some(delta_time) => delta_time,
        None => {
            return Err(TryFromError::CouldNotReadVLQ);
        },
    };
    let ghost n = vlq_decode(left).unwrap().1 as int;
    let ghost after = left.skip(n);
    assert(scanner.remaining() =~= after);
    let status_byte: u8 = match scanner.peek() {
        Some(status_byte) => *status_byte,
        None => {
            return Err(TryFromError::CouldNotReadStatus);
        },
    };
    let event = if status_byte == TRACK_EVENT_STATUS_FF_META {
        scanner.eat();
        *running_status = None;
        assert(scanner.remaining() =~= after.skip(1));
        let kind: u8 = match scanner.eat() {
            Some(kind) => *kind,
            None => {
                return Err(TryFromError::CouldNotReadStatus);
            },
        };
        assert(scanner.remaining() =~= after.skip(1).skip(1));
        let (length, data) = eat_payload(scanner)?;
        EventFile::Meta(MetaEventFile { status: TRACK_EVENT_STATUS_FF_META, kind, length, data })
    } else if status_byte == TRACK_EVENT_STATUS_F0_SOX || status_byte
        == TRACK_EVENT_STATUS_F7_EOX {
        scanner.eat();
        *running_status = None;
        assert(scanner.remaining() =~= after.skip(1));
        let (length, data) = eat_payload(scanner)?;
        EventFile::SysEx(SysExEventFile { status: status_byte, length, data })
    } else if status_byte > TRACK_EVENT_STATUS_EF_MAX_MIDI {
        return Err(TryFromError::InvalidStatusByte);
    } else if status_byte >= TRACK_EVENT_STATUS_80_MIN_MIDI {
        scanner.eat();
        *running_status = Some(status_byte);
        assert(scanner.remaining() =~= after.skip(1));
        eat_midi_event(scanner, status_byte)?
    } else {
        let status: u8 = match *running_status {
            Some(status) => status,
            None => {
                return Err(TryFromError::RunningStatusNotSet);
            },
        };
        eat_midi_event(scanner, status)?
    };
    Ok(TrackEventFile { delta_time, event })
}

impl<'a> TrackEventsFile<'a> {
    /// Decodes the events of a track chunk. Nothing is copied: each event
    /// borrows its data from the chunk. The chunk is decoded as a whole: at
    /// the first byte that cannot be decoded the result is that error, and
    /// no event.
    pub fn try_from(value: &TrackChunkFile<'a>) -> (result: Result<
        TrackEventsFile<'a>,
        TryFromError,
    >)
        ensures
            match spec_track_events(value.track_events@, None) {
                Ok(events) => result matches Ok(events_file) && events_file@ == events,
                Err(error) => result matches Err(e) && e == error,
            },
    {
        let mut events: Vec<TrackEventFile<'a>> = Vec::new();
        let mut scanner = Scanner::new(value.track_events);
        let mut running_status: Option<u8> = None;
        let ghost whole = value.track_events@;
        proof {
            assert(scanner.remaining() =~= whole);
            if spec_track_events(whole, None) is Ok {
                assert(track_event_models(events@) + spec_track_events(whole, None)->Ok_0
                    =~= spec_track_events(whole, None)->Ok_0);
            }
        }
        while !scanner.done()
            invariant
                whole == value.track_events@,
                scanner.source() == whole,
                scanner.consumed() <= whole.len(),
                spec_track_events(whole, None) == prepend(
                    track_event_models(events@),
                    spec_track_events(scanner.remaining(), running_status),
                ),
                forall|i: int| 0 <= i < events@.len() ==> (#[trigger] events@[i]).event.wf(),
            decreases whole.len() - scanner.consumed(),
        {
            let ghost left = scanner.remaining();
            let ghost done = track_event_models(events@);
            let ghost before = running_status;
            let event = eat_track_event(&mut scanner, &mut running_status)?;
            events.push(event);
            proof {
                let decoded = spec_track_event(left, before).unwrap();
                lemma_track_event_len(left, before);
                assert(scanner.remaining() =~= left.skip(decoded.len as int));
                assert(track_event_models(events@) =~= done + seq![decoded.item]);
                let rest = spec_track_events(left.skip(decoded.len as int), decoded.running_status);
                if rest is Ok {
                    assert((done + seq![decoded.item]) + rest->Ok_0 =~= done + (seq![decoded.item]
                        + rest->Ok_0));
                }
            }
        }
        proof {
            assert(track_event_models(events@) + Seq::<TrackEventModel>::empty()
                =~= track_event_models(events@));
        }
        Ok(TrackEventsFile(events))
    }
}

/// A decoded event has taken at least two bytes, and no more than there are.
pub proof fn lemma_track_event_len(bytes: Seq<u8>, running_status: Option<u8>)
    ensures
        spec_track_event(bytes, running_status) matches Ok(decoded) ==> 2 <= decoded.len
            <= bytes.len(),
{
}

} // verus!
