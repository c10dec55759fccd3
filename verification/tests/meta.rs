use relocate_midi::description::event::meta::{MetaEvent, TryFromError};
use relocate_midi::description::event::Event;
use relocate_midi::description::event::TryFromError as EventError;
use relocate_midi::file::event::track::{EventFile, MetaEventFile};

fn decode(kind: u8, data: &[u8]) -> Result<MetaEvent, TryFromError> {
    let file = MetaEventFile { status: 0xFF, kind, length: data.len() as u32, data };
    MetaEvent::try_from(&file)
}

#[test]
fn sequence_number_is_two_bytes_big_endian() {
    assert_eq!(decode(0x00, &[0x01, 0x02]), Ok(MetaEvent::SequenceNumber(0x0102)));
    assert_eq!(decode(0x00, &[0x00, 0x00]), Ok(MetaEvent::SequenceNumber(0)));
    assert_eq!(decode(0x00, &[0xFF, 0xFF]), Ok(MetaEvent::SequenceNumber(0xFFFF)));
    assert_eq!(decode(0x00, &[]), Err(TryFromError::InvalidNumber));
    assert_eq!(decode(0x00, &[0x01]), Err(TryFromError::InvalidNumber));
    assert_eq!(decode(0x00, &[0x01, 0x02, 0x03]), Err(TryFromError::InvalidScannerState));
}

#[test]
fn text_events_hold_their_data_as_text() {
    assert_eq!(decode(0x01, b"hello"), Ok(MetaEvent::TextEvent("hello".to_string())));
    assert_eq!(decode(0x02, b"(C) 1990"), Ok(MetaEvent::CopyrightNotice("(C) 1990".to_string())));
    assert_eq!(decode(0x03, b"Piano"), Ok(MetaEvent::SequenceOrTrackName("Piano".to_string())));
    assert_eq!(decode(0x04, b"Flute"), Ok(MetaEvent::InstrumentName("Flute".to_string())));
    assert_eq!(decode(0x05, b"la"), Ok(MetaEvent::Lyric("la".to_string())));
    assert_eq!(decode(0x06, b"First Verse"), Ok(MetaEvent::Marker("First Verse".to_string())));
    assert_eq!(decode(0x07, b"curtain opens"), Ok(MetaEvent::CuePoint("curtain opens".to_string())));
    assert_eq!(decode(0x03, b""), Ok(MetaEvent::SequenceOrTrackName(String::new())));
}

#[test]
fn text_types_from_eight_to_fifteen_are_plain_text_events() {
    for kind in 0x08u8..=0x0F {
        assert_eq!(decode(kind, b"text"), Ok(MetaEvent::TextEvent("text".to_string())));
    }
    assert_eq!(decode(0x10, b"text"), Err(TryFromError::InvalidStatus(0x10)));
}

#[test]
fn text_that_is_valid_utf8_is_decoded_as_it_is() {
    assert_eq!(
        decode(0x01, "na\u{ef}ve \u{266b}".as_bytes()),
        Ok(MetaEvent::TextEvent("na\u{ef}ve \u{266b}".to_string()))
    );
}

#[test]
fn text_that_is_no_utf8_does_not_fail() {
    assert_eq!(decode(0x01, &[b'a', 0xFF, b'b']), Ok(MetaEvent::TextEvent("a\u{FFFD}b".to_string())));
    assert_eq!(decode(0x05, &[0x80]), Ok(MetaEvent::Lyric("\u{FFFD}".to_string())));
    assert_eq!(
        decode(0x03, &[b'P', 0xE9, b'n']),
        Ok(MetaEvent::SequenceOrTrackName("P\u{FFFD}n".to_string()))
    );
}

#[test]
fn from_text_picks_the_event_by_its_type() {
    assert_eq!(MetaEvent::from_text(0x01, "a".to_string()), Some(MetaEvent::TextEvent("a".to_string())));
    assert_eq!(
        MetaEvent::from_text(0x02, "a".to_string()),
        Some(MetaEvent::CopyrightNotice("a".to_string()))
    );
    assert_eq!(MetaEvent::from_text(0x07, "a".to_string()), Some(MetaEvent::CuePoint("a".to_string())));
    assert_eq!(MetaEvent::from_text(0x0F, "a".to_string()), Some(MetaEvent::TextEvent("a".to_string())));
    assert_eq!(MetaEvent::from_text(0x00, "a".to_string()), None);
    assert_eq!(MetaEvent::from_text(0x10, "a".to_string()), None);
    assert_eq!(MetaEvent::from_text(0x2F, "a".to_string()), None);
}

#[test]
fn channel_prefix_and_port_are_one_byte() {
    assert_eq!(decode(0x20, &[0x05]), Ok(MetaEvent::MIDIChannelPrefix(5)));
    assert_eq!(decode(0x20, &[]), Err(TryFromError::InvalidData));
    assert_eq!(decode(0x20, &[0x01, 0x05]), Err(TryFromError::InvalidScannerState));
    assert_eq!(decode(0x21, &[0x01]), Ok(MetaEvent::MIDIPort(1)));
    assert_eq!(decode(0x21, &[]), Err(TryFromError::InvalidData));
    assert_eq!(decode(0x21, &[0x01, 0x02]), Err(TryFromError::InvalidScannerState));
}

#[test]
fn end_of_track_is_taken_with_or_without_data() {
    assert_eq!(decode(0x2F, &[]), Ok(MetaEvent::EndOfTrack));
    assert_eq!(decode(0x2F, &[0x00]), Ok(MetaEvent::EndOfTrack));
    assert_eq!(decode(0x2F, &[0x01, 0x02, 0x03]), Ok(MetaEvent::EndOfTrack));
}

#[test]
fn set_tempo_is_three_bytes_big_endian() {
    assert_eq!(decode(0x51, &[0x07, 0xA1, 0x20]), Ok(MetaEvent::SetTempo(500_000)));
    assert_eq!(decode(0x51, &[0x00, 0x00, 0x00]), Ok(MetaEvent::SetTempo(0)));
    assert_eq!(decode(0x51, &[0xFF, 0xFF, 0xFF]), Ok(MetaEvent::SetTempo(0xFF_FFFF)));
    assert_eq!(decode(0x51, &[0x07, 0xA1]), Err(TryFromError::InvalidData));
    assert_eq!(decode(0x51, &[]), Err(TryFromError::InvalidData));
    assert_eq!(decode(0x51, &[0x07, 0xA1, 0x20, 0x00]), Err(TryFromError::InvalidScannerState));
}

#[test]
fn smpte_offset_is_five_bytes() {
    assert_eq!(
        decode(0x54, &[1, 2, 3, 4, 5]),
        Ok(MetaEvent::SMPTEOffset {
            hours: 1,
            minutes: 2,
            seconds: 3,
            frames: 4,
            fractional_frames: 5,
        })
    );
    assert_eq!(decode(0x54, &[1, 2, 3, 4]), Err(TryFromError::InvalidData));
    assert_eq!(decode(0x54, &[1, 2, 3, 4, 5, 6]), Err(TryFromError::InvalidScannerState));
}

#[test]
fn time_signature_is_four_bytes() {
    assert_eq!(
        decode(0x58, &[0x06, 0x03, 0x24, 0x08]),
        Ok(MetaEvent::TimeSignature {
            numerator: 6,
            denominator: 3,
            midi_clocks_per_metronome_click: 36,
            thirty_second_notes_per_midi_quarter_note: 8,
        })
    );
    assert_eq!(decode(0x58, &[0x06, 0x03, 0x24]), Err(TryFromError::InvalidData));
    assert_eq!(decode(0x58, &[0x06, 0x03, 0x24, 0x08, 0x00]), Err(TryFromError::InvalidScannerState));
}

#[test]
fn key_signature_is_a_signed_count_and_a_flag() {
    assert_eq!(decode(0x59, &[0x00, 0x00]), Ok(MetaEvent::KeySignature { sharps_flats: 0, major_minor: 0 }));
    assert_eq!(decode(0x59, &[0x07, 0x01]), Ok(MetaEvent::KeySignature { sharps_flats: 7, major_minor: 1 }));
    assert_eq!(decode(0x59, &[0xFD, 0x01]), Ok(MetaEvent::KeySignature { sharps_flats: -3, major_minor: 1 }));
    assert_eq!(decode(0x59, &[0xF9, 0x00]), Ok(MetaEvent::KeySignature { sharps_flats: -7, major_minor: 0 }));
    assert_eq!(decode(0x59, &[0x80, 0x00]), Ok(MetaEvent::KeySignature { sharps_flats: -128, major_minor: 0 }));
    assert_eq!(decode(0x59, &[0x7F, 0xFF]), Ok(MetaEvent::KeySignature { sharps_flats: 127, major_minor: 255 }));
    assert_eq!(decode(0x59, &[]), Err(TryFromError::InvalidData));
    assert_eq!(decode(0x59, &[0x00]), Err(TryFromError::InvalidData));
    assert_eq!(decode(0x59, &[0x00, 0x00, 0x00]), Err(TryFromError::InvalidScannerState));
}

#[test]
fn unknown_meta_type_is_refused_with_its_byte() {
    for kind in [0x10u8, 0x1F, 0x22, 0x2E, 0x30, 0x50, 0x52, 0x55, 0x57, 0x5A, 0x7F, 0x80, 0xFF] {
        assert_eq!(decode(kind, &[]), Err(TryFromError::InvalidStatus(kind)));
        assert_eq!(decode(kind, &[0x00, 0x01]), Err(TryFromError::InvalidStatus(kind)));
    }
}

#[test]
fn meta_event_is_decoded_from_type_and_data_alone() {
    let file = MetaEventFile { status: 0x00, kind: 0x2F, length: 77, data: &[] };
    assert_eq!(MetaEvent::try_from(&file), Ok(MetaEvent::EndOfTrack));
}

#[test]
fn event_of_a_meta_event_is_its_interpretation() {
    let good = EventFile::Meta(MetaEventFile { status: 0xFF, kind: 0x51, length: 3, data: &[0x07, 0xA1, 0x20] });
    assert!(matches!(Event::try_from(&good), Ok(Event::Meta(MetaEvent::SetTempo(500_000)))));
    let bad = EventFile::Meta(MetaEventFile { status: 0xFF, kind: 0x51, length: 1, data: &[0x07] });
    assert!(matches!(
        Event::try_from(&bad),
        Err(EventError::MetaEventFileToMetaEvent(TryFromError::InvalidData))
    ));
}
