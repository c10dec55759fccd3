//! What holds of running status: a channel-voice event may leave out its
//! status byte where the event before it was a channel-voice event too, and
//! then has the status of that event. A meta event or a System Exclusive
//! event in between ends this.

use crate::file::event::track::{
    midi_data_len, spec_event, spec_payload, spec_track_events, Decoded, EventModel,
    TrackEventModel, TryFromError, TRACK_EVENT_STATUS_F0_SOX, TRACK_EVENT_STATUS_F7_EOX,
    TRACK_EVENT_STATUS_FF_META,
};
use crate::sequence::prepend;
use crate::vlq::{lemma_vlq_round_trip, vlq_encode, MAX_VARIABLE_LENGTH_QUANTITY};
use vstd::prelude::*;

verus! {

/// The bytes of a channel-voice event that is written with its status byte,
/// after the delta-time.
pub open spec fn channel_voice_body(status: u8, data: Seq<u8>) -> Seq<u8> {
    seq![status] + data
}

/// The bytes of a meta event after the delta-time.
pub open spec fn meta_body(kind: u8, data: Seq<u8>) -> Seq<u8> {
    seq![TRACK_EVENT_STATUS_FF_META, kind] + (vlq_encode(data.len()) + data)
}

/// The bytes of a System Exclusive event after the delta-time.
pub open spec fn sys_ex_body(status: u8, data: Seq<u8>) -> Seq<u8> {
    seq![status] + (vlq_encode(data.len()) + data)
}

/// The bytes of a channel-voice event that is written with its status byte.
pub open spec fn channel_voice_bytes(delta_time: u32, status: u8, data: Seq<u8>) -> Seq<u8> {
    vlq_encode(delta_time as nat) + channel_voice_body(status, data)
}

/// The bytes of a channel-voice event that leaves its status byte out.
pub open spec fn running_bytes(delta_time: u32, data: Seq<u8>) -> Seq<u8> {
    vlq_encode(delta_time as nat) + data
}

/// The bytes of a meta event.
pub open spec fn meta_bytes(delta_time: u32, kind: u8, data: Seq<u8>) -> Seq<u8> {
    vlq_encode(delta_time as nat) + meta_body(kind, data)
}

/// The bytes of a System Exclusive event.
pub open spec fn sys_ex_bytes(delta_time: u32, status: u8, data: Seq<u8>) -> Seq<u8> {
    vlq_encode(delta_time as nat) + sys_ex_body(status, data)
}

/// A channel-voice event.
pub open spec fn channel_voice_event(
    delta_time: u32,
    status: u8,
    data: Seq<u8>,
) -> TrackEventModel {
    TrackEventModel { delta_time, event: EventModel::Midi { status, data } }
}

/// A length written before its data is read back with the data, whatever
/// follows.
pub proof fn lemma_payload_at_head(data: Seq<u8>, rest: Seq<u8>)
    requires
        data.len() <= MAX_VARIABLE_LENGTH_QUANTITY,
    ensures
        spec_payload((vlq_encode(data.len()) + data) + rest) == Ok::<
            (u32, Seq<u8>, nat),
            TryFromError,
        >((data.len() as u32, data, vlq_encode(data.len()).len() + data.len())),
{
    let length = vlq_encode(data.len());
    let payload = data + rest;
    lemma_vlq_round_trip(data.len(), payload);
    assert((length + data) + rest =~= length + payload);
    assert((length + payload).subrange(length.len() as int, (length.len() + data.len()) as int)
        =~= data);
}

/// A delta-time written before an event is read back with the event: where
/// the bytes after the delta-time begin with an event that takes `body`, the
/// track begins with that event, and goes on with what follows `body`.
pub proof fn lemma_event_at_head(
    delta_time: u32,
    body: Seq<u8>,
    rest: Seq<u8>,
    running_status: Option<u8>,
    decoded: Decoded<EventModel>,
)
    requires
        delta_time <= MAX_VARIABLE_LENGTH_QUANTITY,
        spec_event(body + rest, running_status) == Ok::<Decoded<EventModel>, TryFromError>(
            decoded,
        ),
        decoded.len == body.len(),
    ensures
        spec_track_events((vlq_encode(delta_time as nat) + body) + rest, running_status)
            == prepend(
            seq![TrackEventModel { delta_time, event: decoded.item }],
            spec_track_events(rest, decoded.running_status),
        ),
{
    let code = vlq_encode(delta_time as nat);
    let bytes = (code + body) + rest;
    lemma_vlq_round_trip(delta_time as nat, body + rest);
    assert(bytes =~= code + (body + rest));
    assert(bytes.skip((code.len() + body.len()) as int) =~= rest);
}

/// The bytes of a channel-voice event from its status byte on decode to the
/// event, and make its status the running status.
pub proof fn lemma_channel_voice_decoded(
    status: u8,
    data: Seq<u8>,
    rest: Seq<u8>,
    running_status: Option<u8>,
)
    requires
        0x80 <= status <= 0xEF,
        data.len() == midi_data_len(status),
    ensures
        spec_event(channel_voice_body(status, data) + rest, running_status) == Ok::<
            Decoded<EventModel>,
            TryFromError,
        >(
            Decoded {
                item: EventModel::Midi { status, data },
                len: channel_voice_body(status, data).len(),
                running_status: Some(status),
            },
        ),
{
    let after = channel_voice_body(status, data) + rest;
    assert(after.skip(1).take(data.len() as int) =~= data);
}

/// Data bytes where an event begins decode to a channel-voice event with the
/// running status, and leave the running status as it was.
pub proof fn lemma_running_decoded(data: Seq<u8>, rest: Seq<u8>, status: u8)
    requires
        data.len() == midi_data_len(status),
        data[0] < 0x80,
    ensures
        spec_event(data + rest, Some(status)) == Ok::<Decoded<EventModel>, TryFromError>(
            Decoded {
                item: EventModel::Midi { status, data },
                len: data.len(),
                running_status: Some(status),
            },
        ),
{
    assert((data + rest).take(data.len() as int) =~= data);
}

/// The bytes of a meta event from the `0xFF` on decode to the event, and
/// leave no running status.
pub proof fn lemma_meta_decoded(
    kind: u8,
    data: Seq<u8>,
    rest: Seq<u8>,
    running_status: Option<u8>,
)
    requires
        data.len() <= MAX_VARIABLE_LENGTH_QUANTITY,
    ensures
        spec_event(meta_body(kind, data) + rest, running_status) == Ok::<
            Decoded<EventModel>,
            TryFromError,
        >(
            Decoded {
                item: EventModel::Meta { kind, data },
                len: meta_body(kind, data).len(),
                running_status: None,
            },
        ),
{
    let payload = vlq_encode(data.len()) + data;
    let after = meta_body(kind, data) + rest;
    lemma_payload_at_head(data, rest);
    assert(after.skip(1).skip(1) =~= payload + rest);
}

/// The bytes of a System Exclusive event from its status byte on decode to
/// the event, and leave no running status.
pub proof fn lemma_sys_ex_decoded(
    status: u8,
    data: Seq<u8>,
    rest: Seq<u8>,
    running_status: Option<u8>,
)
    requires
        data.len() <= MAX_VARIABLE_LENGTH_QUANTITY,
        status == TRACK_EVENT_STATUS_F0_SOX || status == TRACK_EVENT_STATUS_F7_EOX,
    ensures
        spec_event(sys_ex_body(status, data) + rest, running_status) == Ok::<
            Decoded<EventModel>,
            TryFromError,
        >(
            Decoded {
                item: EventModel::SysEx { status, data },
                len: sys_ex_body(status, data).len(),
                running_status: None,
            },
        ),
{
    let payload = vlq_encode(data.len()) + data;
    let after = sys_ex_body(status, data) + rest;
    lemma_payload_at_head(data, rest);
    assert(after.skip(1) =~= payload + rest);
}

/// A channel-voice event written with its status byte is decoded whatever
/// the running status was, and its status is the running status after it.
pub proof fn lemma_channel_voice_at_head(
    delta_time: u32,
    status: u8,
    data: Seq<u8>,
    rest: Seq<u8>,
    running_status: Option<u8>,
)
    requires
        delta_time <= MAX_VARIABLE_LENGTH_QUANTITY,
        0x80 <= status <= 0xEF,
        data.len() == midi_data_len(status),
    ensures
        spec_track_events(channel_voice_bytes(delta_time, status, data) + rest, running_status)
            == prepend(
            seq![channel_voice_event(delta_time, status, data)],
            spec_track_events(rest, Some(status)),
        ),
{
    let body = channel_voice_body(status, data);
    let decoded = Decoded {
        item: EventModel::Midi { status, data },
        len: body.len(),
        running_status: Some(status),
    };
    lemma_channel_voice_decoded(status, data, rest, running_status);
    lemma_event_at_head(delta_time, body, rest, running_status, decoded);
}

/// A channel-voice event that leaves its status byte out has the running
/// status as its status, and leaves the running status as it was.
pub proof fn lemma_running_at_head(delta_time: u32, data: Seq<u8>, rest: Seq<u8>, status: u8)
    requires
        delta_time <= MAX_VARIABLE_LENGTH_QUANTITY,
        data.len() == midi_data_len(status),
        data[0] < 0x80,
    ensures
        spec_track_events(running_bytes(delta_time, data) + rest, Some(status)) == prepend(
            seq![channel_voice_event(delta_time, status, data)],
            spec_track_events(rest, Some(status)),
        ),
{
    let decoded = Decoded {
        item: EventModel::Midi { status, data },
        len: data.len(),
        running_status: Some(status),
    };
    lemma_running_decoded(data, rest, status);
    lemma_event_at_head(delta_time, data, rest, Some(status), decoded);
}

/// A meta event is decoded whatever the running status was, and leaves none.
pub proof fn lemma_meta_at_head(
    delta_time: u32,
    kind: u8,
    data: Seq<u8>,
    rest: Seq<u8>,
    running_status: Option<u8>,
)
    requires
        delta_time <= MAX_VARIABLE_LENGTH_QUANTITY,
        data.len() <= MAX_VARIABLE_LENGTH_QUANTITY,
    ensures
        spec_track_events(meta_bytes(delta_time, kind, data) + rest, running_status) == prepend(
            seq![TrackEventModel { delta_time, event: EventModel::Meta { kind, data } }],
            spec_track_events(rest, None),
        ),
{
    let body = meta_body(kind, data);
    let decoded = Decoded {
        item: EventModel::Meta { kind, data },
        len: body.len(),
        running_status: None,
    };
    lemma_meta_decoded(kind, data, rest, running_status);
    lemma_event_at_head(delta_time, body, rest, running_status, decoded);
}

/// A System Exclusive event is decoded whatever the running status was, and
/// leaves none.
pub proof fn lemma_sys_ex_at_head(
    delta_time: u32,
    status: u8,
    data: Seq<u8>,
    rest: Seq<u8>,
    running_status: Option<u8>,
)
    requires
        delta_time <= MAX_VARIABLE_LENGTH_QUANTITY,
        data.len() <= MAX_VARIABLE_LENGTH_QUANTITY,
        status == TRACK_EVENT_STATUS_F0_SOX || status == TRACK_EVENT_STATUS_F7_EOX,
    ensures
        spec_track_events(sys_ex_bytes(delta_time, status, data) + rest, running_status)
            == prepend(
            seq![TrackEventModel { delta_time, event: EventModel::SysEx { status, data } }],
            spec_track_events(rest, None),
        ),
{
    let body = sys_ex_body(status, data);
    let decoded = Decoded {
        item: EventModel::SysEx { status, data },
        len: body.len(),
        running_status: None,
    };
    lemma_sys_ex_decoded(status, data, rest, running_status);
    lemma_event_at_head(delta_time, body, rest, running_status, decoded);
}

/// A data byte where an event begins, with no running status, is an error.
pub proof fn lemma_running_without_status(delta_time: u32, data: Seq<u8>)
    requires
        delta_time <= MAX_VARIABLE_LENGTH_QUANTITY,
        data.len() > 0,
        data[0] < 0x80,
    ensures
        spec_track_events(running_bytes(delta_time, data), None) == Err::<
            Seq<TrackEventModel>,
            TryFromError,
        >(TryFromError::RunningStatusNotSet),
{
    lemma_vlq_round_trip(delta_time as nat, data);
}

/// Two channel-voice events one after the other, the second without its
/// status byte, decode to two events with the status of the first.
pub proof fn lemma_running_status_shared(
    first_delta_time: u32,
    status: u8,
    first_data: Seq<u8>,
    second_delta_time: u32,
    second_data: Seq<u8>,
)
    requires
        first_delta_time <= MAX_VARIABLE_LENGTH_QUANTITY,
        second_delta_time <= MAX_VARIABLE_LENGTH_QUANTITY,
        0x80 <= status <= 0xEF,
        first_data.len() == midi_data_len(status),
        second_data.len() == midi_data_len(status),
        second_data[0] < 0x80,
    ensures
        spec_track_events(
            channel_voice_bytes(first_delta_time, status, first_data) + running_bytes(
                second_delta_time,
                second_data,
            ),
            None,
        ) == Ok::<Seq<TrackEventModel>, TryFromError>(
            seq![
                channel_voice_event(first_delta_time, status, first_data),
                channel_voice_event(second_delta_time, status, second_data),
            ],
        ),
{
    let second = running_bytes(second_delta_time, second_data);
    let empty = Seq::<u8>::empty();
    lemma_channel_voice_at_head(first_delta_time, status, first_data, second, None);
    lemma_running_at_head(second_delta_time, second_data, empty, status);
    assert(second + empty =~= second);
    assert(seq![channel_voice_event(first_delta_time, status, first_data)] + (seq![
        channel_voice_event(second_delta_time, status, second_data),
    ] + Seq::<TrackEventModel>::empty()) =~= seq![
        channel_voice_event(first_delta_time, status, first_data),
        channel_voice_event(second_delta_time, status, second_data),
    ]);
}

/// A meta event after a channel-voice event clears the running status: a
/// channel-voice event without its status byte that comes next, with no
/// status byte written in between, makes the track fail.
pub proof fn lemma_meta_resets_running_status(
    first_delta_time: u32,
    status: u8,
    first_data: Seq<u8>,
    meta_delta_time: u32,
    kind: u8,
    meta_data: Seq<u8>,
    second_delta_time: u32,
    second_data: Seq<u8>,
)
    requires
        first_delta_time <= MAX_VARIABLE_LENGTH_QUANTITY,
        meta_delta_time <= MAX_VARIABLE_LENGTH_QUANTITY,
        second_delta_time <= MAX_VARIABLE_LENGTH_QUANTITY,
        0x80 <= status <= 0xEF,
        first_data.len() == midi_data_len(status),
        meta_data.len() <= MAX_VARIABLE_LENGTH_QUANTITY,
        second_data.len() > 0,
        second_data[0] < 0x80,
    ensures
        spec_track_events(
            channel_voice_bytes(first_delta_time, status, first_data) + (meta_bytes(
                meta_delta_time,
                kind,
                meta_data,
            ) + running_bytes(second_delta_time, second_data)),
            None,
        ) == Err::<Seq<TrackEventModel>, TryFromError>(TryFromError::RunningStatusNotSet),
{
    let last = running_bytes(second_delta_time, second_data);
    let middle = meta_bytes(meta_delta_time, kind, meta_data) + last;
    lemma_channel_voice_at_head(first_delta_time, status, first_data, middle, None);
    lemma_meta_at_head(meta_delta_time, kind, meta_data, last, Some(status));
    lemma_running_without_status(second_delta_time, second_data);
}

/// A System Exclusive event after a channel-voice event clears the running
/// status, as a meta event does.
pub proof fn lemma_sys_ex_resets_running_status(
    first_delta_time: u32,
    status: u8,
    first_data: Seq<u8>,
    sys_ex_delta_time: u32,
    sys_ex_status: u8,
    sys_ex_data: Seq<u8>,
    second_delta_time: u32,
    second_data: Seq<u8>,
)
    requires
        first_delta_time <= MAX_VARIABLE_LENGTH_QUANTITY,
        sys_ex_delta_time <= MAX_VARIABLE_LENGTH_QUANTITY,
        second_delta_time <= MAX_VARIABLE_LENGTH_QUANTITY,
        0x80 <= status <= 0xEF,
        first_data.len() == midi_data_len(status),
        sys_ex_status == TRACK_EVENT_STATUS_F0_SOX || sys_ex_status == TRACK_EVENT_STATUS_F7_EOX,
        sys_ex_data.len() <= MAX_VARIABLE_LENGTH_QUANTITY,
        second_data.len() > 0,
        second_data[0] < 0x80,
    ensures
        spec_track_events(
            channel_voice_bytes(first_delta_time, status, first_data) + (sys_ex_bytes(
                sys_ex_delta_time,
                sys_ex_status,
                sys_ex_data,
            ) + running_bytes(second_delta_time, second_data)),
            None,
        ) == Err::<Seq<TrackEventModel>, TryFromError>(TryFromError::RunningStatusNotSet),
{
    let last = running_bytes(second_delta_time, second_data);
    let middle = sys_ex_bytes(sys_ex_delta_time, sys_ex_status, sys_ex_data) + last;
    lemma_channel_voice_at_head(first_delta_time, status, first_data, middle, None);
    lemma_sys_ex_at_head(sys_ex_delta_time, sys_ex_status, sys_ex_data, last, Some(status));
    lemma_running_without_status(second_delta_time, second_data);
}

} // verus!
