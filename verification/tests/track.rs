use relocate_midi::description::chunk::track::event::{
    SystemExclusiveEventKind, TrackEvent, TrackEventKind,
};
use relocate_midi::description::chunk::track::{
    parse_event, parse_meta_event, parse_midi_event, parse_system_exclusive_event, TrackChunk,
    TryFromError,
};
use relocate_midi::file::chunk::track::TryFromError as TrackBytesError;
use relocate_midi::file::chunk::track::{TrackChunkFile, TRACK_CHUNK_KIND};
use relocate_midi::file::chunk::ChunkFile;
use relocate_midi::file::event::track::TryFromError as FramingError;
use relocate_midi::file::event::track::{EventFile, TrackEventsFile};
use relocate_midi::scanner::Scanner;

fn track(bytes: &[u8]) -> TrackChunkFile<'_> {
    let chunk = ChunkFile { kind: *b"MTrk", length: bytes.len() as u32, data: bytes };
    TrackChunkFile::try_from(&chunk).unwrap()
}

fn owned(bytes: &[u8]) -> Result<Vec<TrackEvent>, TryFromError> {
    TrackChunk::try_from(&track(bytes)).map(|chunk| chunk.to_vec())
}

fn framed(bytes: &[u8]) -> Result<Vec<(u32, u8, Vec<u8>)>, FramingError> {
    let track = track(bytes);
    let events = TrackEventsFile::try_from(&track)?;
    Ok(events
        .iter()
        .map(|event| match &event.event {
            EventFile::Meta(meta) => {
                assert_eq!(meta.status, 0xFF);
                assert_eq!(meta.length as usize, meta.data.len());
                (event.delta_time, meta.kind, meta.data.to_vec())
            }
            EventFile::SysEx(sys_ex) => {
                assert_eq!(sys_ex.length as usize, sys_ex.data.len());
                (event.delta_time, sys_ex.status, sys_ex.data.to_vec())
            }
            EventFile::Midi(midi) => (event.delta_time, midi.status, midi.data.to_vec()),
        })
        .collect())
}

fn midi(delta_time: u32, status: u8, data: &[u8]) -> TrackEvent {
    TrackEvent { delta_time, kind: TrackEventKind::MIDI { status, data: data.to_vec() } }
}

fn meta(delta_time: u32, status: u8, data: &[u8]) -> TrackEvent {
    TrackEvent { delta_time, kind: TrackEventKind::Meta { status, data: data.to_vec() } }
}

#[test]
fn track_chunk_file_is_the_data_of_a_track_chunk() {
    assert_eq!(&TRACK_CHUNK_KIND, b"MTrk");
    let chunk = ChunkFile { kind: *b"MTrk", length: 3, data: &[0x00, 0xC0, 0x05] };
    let track = TrackChunkFile::try_from(&chunk).unwrap();
    assert_eq!(track.kind(), b"MTrk");
    assert_eq!(track.length(), 3);
    assert_eq!(track.track_events, &[0x00, 0xC0, 0x05]);
}

#[test]
fn track_chunk_file_refuses_another_tag_and_a_wrong_length() {
    let header = ChunkFile { kind: *b"MThd", length: 2, data: &[0, 0] };
    assert!(matches!(TrackChunkFile::try_from(&header), Err(TrackBytesError::InvalidKind)));
    let short = ChunkFile { kind: *b"MTrk", length: 3, data: &[0, 0] };
    assert!(matches!(
        TrackChunkFile::try_from(&short),
        Err(TrackBytesError::CouldNotReadTrackEvents)
    ));
    let long = ChunkFile { kind: *b"MTrk", length: 1, data: &[0, 0] };
    assert!(matches!(TrackChunkFile::try_from(&long), Err(TrackBytesError::ScannerNotDone)));
}

#[test]
fn empty_track_has_no_events() {
    assert_eq!(owned(&[]), Ok(vec![]));
    assert_eq!(framed(&[]), Ok(vec![]));
}

#[test]
fn running_status_gives_the_second_event_the_status_of_the_first() {
    let bytes = [0x00, 0x90, 0x40, 0x60, 0x00, 0x40, 0x00];
    assert_eq!(
        owned(&bytes),
        Ok(vec![midi(0, 0x90, &[0x40, 0x60]), midi(0, 0x90, &[0x40, 0x00])])
    );
    assert_eq!(
        framed(&bytes),
        Ok(vec![(0, 0x90, vec![0x40, 0x60]), (0, 0x90, vec![0x40, 0x00])])
    );
}

#[test]
fn running_status_lasts_over_several_events() {
    let bytes = [0x00, 0xC5, 0x01, 0x10, 0x02, 0x81, 0x00, 0x03];
    assert_eq!(
        owned(&bytes),
        Ok(vec![midi(0, 0xC5, &[0x01]), midi(0x10, 0xC5, &[0x02]), midi(0x80, 0xC5, &[0x03])])
    );
}

#[test]
fn explicit_status_replaces_the_running_status() {
    let bytes = [0x00, 0x90, 0x40, 0x60, 0x00, 0x80, 0x40, 0x00, 0x00, 0x41, 0x00];
    assert_eq!(
        owned(&bytes),
        Ok(vec![
            midi(0, 0x90, &[0x40, 0x60]),
            midi(0, 0x80, &[0x40, 0x00]),
            midi(0, 0x80, &[0x41, 0x00]),
        ])
    );
}

#[test]
fn meta_event_clears_the_running_status() {
    let bytes = [0x00, 0x90, 0x40, 0x60, 0x00, 0xFF, 0x01, 0x00, 0x00, 0x40, 0x00];
    assert_eq!(owned(&bytes), Err(TryFromError::InvalidRunningStatus));
    assert_eq!(framed(&bytes), Err(FramingError::RunningStatusNotSet));
}

#[test]
fn system_exclusive_event_clears_the_running_status() {
    for status in [0xF0u8, 0xF7] {
        let bytes = [0x00, 0x90, 0x40, 0x60, 0x00, status, 0x01, 0x7E, 0x00, 0x40, 0x00];
        assert_eq!(owned(&bytes), Err(TryFromError::InvalidRunningStatus));
        assert_eq!(framed(&bytes), Err(FramingError::RunningStatusNotSet));
    }
}

#[test]
fn explicit_status_after_a_meta_event_is_decoded() {
    let bytes = [0x00, 0x90, 0x40, 0x60, 0x00, 0xFF, 0x01, 0x00, 0x00, 0x90, 0x40, 0x00];
    assert_eq!(
        owned(&bytes),
        Ok(vec![midi(0, 0x90, &[0x40, 0x60]), meta(0, 0x01, &[]), midi(0, 0x90, &[0x40, 0x00])])
    );
}

#[test]
fn data_byte_at_the_start_of_a_track_has_no_status() {
    assert_eq!(owned(&[0x00, 0x40, 0x00]), Err(TryFromError::InvalidRunningStatus));
    assert_eq!(framed(&[0x00, 0x40, 0x00]), Err(FramingError::RunningStatusNotSet));
    assert_eq!(owned(&[0x00, 0x00]), Err(TryFromError::InvalidRunningStatus));
    assert_eq!(owned(&[0x00, 0x7F]), Err(TryFromError::InvalidRunningStatus));
}

#[test]
fn program_change_and_channel_pressure_have_one_data_byte() {
    let bytes = [0x00, 0xC0, 0x05, 0x00, 0xD3, 0x7F, 0x00, 0xCF, 0x00, 0x00, 0xDF, 0x01];
    assert_eq!(
        owned(&bytes),
        Ok(vec![
            midi(0, 0xC0, &[0x05]),
            midi(0, 0xD3, &[0x7F]),
            midi(0, 0xCF, &[0x00]),
            midi(0, 0xDF, &[0x01]),
        ])
    );
}

#[test]
fn other_channel_voice_events_have_two_data_bytes() {
    for status in [0x80u8, 0x8F, 0x90, 0xA0, 0xB0, 0xBF, 0xE0, 0xEF] {
        assert_eq!(owned(&[0x05, status, 0x01, 0x02]), Ok(vec![midi(5, status, &[0x01, 0x02])]));
        assert_eq!(owned(&[0x05, status, 0x01]), Err(TryFromError::InvalidData));
        assert_eq!(framed(&[0x05, status, 0x01]), Err(FramingError::CouldNotReadData));
    }
    assert_eq!(owned(&[0x05, 0xC0]), Err(TryFromError::InvalidData));
    assert_eq!(owned(&[0x00, 0x90, 0x40, 0x60, 0x00, 0x40]), Err(TryFromError::InvalidData));
    assert_eq!(framed(&[0x00, 0x90, 0x40, 0x60, 0x00, 0x40]), Err(FramingError::CouldNotReadData));
}

#[test]
fn system_common_and_real_time_bytes_are_refused() {
    for status in [0xF1u8, 0xF2, 0xF3, 0xF4, 0xF5, 0xF6, 0xF8, 0xF9, 0xFA, 0xFB, 0xFC, 0xFD, 0xFE] {
        assert_eq!(owned(&[0x00, status, 0x00, 0x00]), Err(TryFromError::InvalidStatusByte));
        assert_eq!(framed(&[0x00, status, 0x00, 0x00]), Err(FramingError::InvalidStatusByte));
        assert_eq!(owned(&[0x00, status]), Err(TryFromError::InvalidStatusByte));
    }
}

#[test]
fn meta_event_is_type_length_and_data() {
    let bytes = [0x00, 0xFF, 0x03, 0x05, b'P', b'i', b'a', b'n', b'o', 0x83, 0x00, 0xFF, 0x2F, 0x00];
    assert_eq!(owned(&bytes), Ok(vec![meta(0, 0x03, b"Piano"), meta(0x180, 0x2F, &[])]));
    assert_eq!(
        framed(&bytes),
        Ok(vec![(0, 0x03, b"Piano".to_vec()), (0x180, 0x2F, vec![])])
    );
}

#[test]
fn meta_event_with_a_two_byte_length() {
    let mut bytes = vec![0x00, 0xFF, 0x01, 0x81, 0x00];
    bytes.extend(std::iter::repeat(b'x').take(128));
    assert_eq!(owned(&bytes), Ok(vec![meta(0, 0x01, &[b'x'; 128])]));
    bytes.pop();
    assert_eq!(owned(&bytes), Err(TryFromError::InvalidData));
    assert_eq!(framed(&bytes), Err(FramingError::CouldNotReadData));
}

#[test]
fn system_exclusive_event_is_length_and_data() {
    let bytes = [0x00, 0xF0, 0x03, 0x43, 0x12, 0xF7, 0x10, 0xF7, 0x02, 0x01, 0x02];
    assert_eq!(
        owned(&bytes),
        Ok(vec![
            TrackEvent {
                delta_time: 0,
                kind: TrackEventKind::SystemExclusive {
                    kind: SystemExclusiveEventKind::F0,
                    data: vec![0x43, 0x12, 0xF7],
                },
            },
            TrackEvent {
                delta_time: 0x10,
                kind: TrackEventKind::SystemExclusive {
                    kind: SystemExclusiveEventKind::F7,
                    data: vec![0x01, 0x02],
                },
            },
        ])
    );
    assert_eq!(
        framed(&bytes),
        Ok(vec![(0, 0xF0, vec![0x43, 0x12, 0xF7]), (0x10, 0xF7, vec![0x01, 0x02])])
    );
}

#[test]
fn truncated_track_names_what_ran_out() {
    assert_eq!(owned(&[0x80]), Err(TryFromError::InvalidVLQ));
    assert_eq!(framed(&[0x80]), Err(FramingError::CouldNotReadVLQ));
    assert_eq!(owned(&[0xFF, 0xFF, 0xFF, 0xFF, 0x00]), Err(TryFromError::InvalidVLQ));
    assert_eq!(owned(&[0x00]), Err(TryFromError::InvalidStatusByte));
    assert_eq!(framed(&[0x00]), Err(FramingError::CouldNotReadStatus));
    assert_eq!(owned(&[0x00, 0xFF]), Err(TryFromError::InvalidStatusByte));
    assert_eq!(framed(&[0x00, 0xFF]), Err(FramingError::CouldNotReadStatus));
    assert_eq!(owned(&[0x00, 0xFF, 0x01]), Err(TryFromError::InvalidVLQ));
    assert_eq!(framed(&[0x00, 0xFF, 0x01]), Err(FramingError::CouldNotReadVLQ));
    assert_eq!(owned(&[0x00, 0xFF, 0x01, 0x81]), Err(TryFromError::InvalidVLQ));
    assert_eq!(owned(&[0x00, 0xFF, 0x01, 0x02, 0x41]), Err(TryFromError::InvalidData));
    assert_eq!(framed(&[0x00, 0xFF, 0x01, 0x02, 0x41]), Err(FramingError::CouldNotReadData));
    assert_eq!(owned(&[0x00, 0xF0]), Err(TryFromError::InvalidVLQ));
    assert_eq!(owned(&[0x00, 0xF7, 0x01]), Err(TryFromError::InvalidData));
}

#[test]
fn error_after_good_events_gives_no_events() {
    let bytes = [0x00, 0x90, 0x40, 0x60, 0x00, 0xF8];
    assert_eq!(owned(&bytes), Err(TryFromError::InvalidStatusByte));
    assert_eq!(framed(&bytes), Err(FramingError::InvalidStatusByte));
}

#[test]
fn delta_times_are_kept_with_their_events() {
    let bytes = [0xFF, 0xFF, 0xFF, 0x7F, 0x90, 0x40, 0x60, 0x81, 0x00, 0x40, 0x00];
    assert_eq!(
        owned(&bytes),
        Ok(vec![midi(0x0FFF_FFFF, 0x90, &[0x40, 0x60]), midi(0x80, 0x90, &[0x40, 0x00])])
    );
}

#[test]
fn parse_event_sets_uses_and_clears_the_running_status() {
    let bytes = [0x00, 0x91, 0x40, 0x60, 0x10, 0x41, 0x61, 0x00, 0xFF, 0x2F, 0x00];
    let mut scanner = Scanner::new(&bytes);
    let mut running_status = None;
    assert_eq!(parse_event(&mut scanner, &mut running_status), Ok(midi(0, 0x91, &[0x40, 0x60])));
    assert_eq!(running_status, Some(0x91));
    assert_eq!(scanner.cursor(), 4);
    assert_eq!(parse_event(&mut scanner, &mut running_status), Ok(midi(0x10, 0x91, &[0x41, 0x61])));
    assert_eq!(running_status, Some(0x91));
    assert_eq!(scanner.cursor(), 7);
    assert_eq!(parse_event(&mut scanner, &mut running_status), Ok(meta(0, 0x2F, &[])));
    assert_eq!(running_status, None);
    assert!(scanner.done());
}

#[test]
fn parse_event_takes_a_running_status_from_its_caller() {
    let bytes = [0x00, 0x40, 0x00];
    let mut scanner = Scanner::new(&bytes);
    let mut running_status = Some(0x85);
    assert_eq!(parse_event(&mut scanner, &mut running_status), Ok(midi(0, 0x85, &[0x40, 0x00])));
    assert_eq!(running_status, Some(0x85));
    let mut scanner = Scanner::new(&bytes);
    let mut running_status = None;
    assert_eq!(
        parse_event(&mut scanner, &mut running_status),
        Err(TryFromError::InvalidRunningStatus)
    );
}

#[test]
fn parse_meta_event_reads_type_length_and_data() {
    let mut scanner = Scanner::new(&[0x51, 0x03, 0x07, 0xA1, 0x20, 0x99]);
    assert_eq!(
        parse_meta_event(&mut scanner),
        Ok(TrackEventKind::Meta { status: 0x51, data: vec![0x07, 0xA1, 0x20] })
    );
    assert_eq!(scanner.cursor(), 5);
    assert_eq!(parse_meta_event(&mut Scanner::new(&[])), Err(TryFromError::InvalidStatusByte));
    assert_eq!(parse_meta_event(&mut Scanner::new(&[0x51])), Err(TryFromError::InvalidVLQ));
    assert_eq!(parse_meta_event(&mut Scanner::new(&[0x51, 0x03, 0x07])), Err(TryFromError::InvalidData));
}

#[test]
fn parse_system_exclusive_event_reads_length_and_data() {
    let mut scanner = Scanner::new(&[0x02, 0x7E, 0xF7, 0x00]);
    assert_eq!(
        parse_system_exclusive_event(&mut scanner, SystemExclusiveEventKind::F0),
        Ok(TrackEventKind::SystemExclusive {
            kind: SystemExclusiveEventKind::F0,
            data: vec![0x7E, 0xF7],
        })
    );
    assert_eq!(scanner.cursor(), 3);
    assert_eq!(
        parse_system_exclusive_event(&mut Scanner::new(&[0x00]), SystemExclusiveEventKind::F7),
        Ok(TrackEventKind::SystemExclusive { kind: SystemExclusiveEventKind::F7, data: vec![] })
    );
    assert_eq!(
        parse_system_exclusive_event(&mut Scanner::new(&[0x80]), SystemExclusiveEventKind::F7),
        Err(TryFromError::InvalidVLQ)
    );
    assert_eq!(
        parse_system_exclusive_event(&mut Scanner::new(&[0x02, 0x00]), SystemExclusiveEventKind::F7),
        Err(TryFromError::InvalidData)
    );
}

#[test]
fn parse_midi_event_reads_one_or_two_data_bytes() {
    let mut scanner = Scanner::new(&[0x01, 0x02, 0x03]);
    assert_eq!(
        parse_midi_event(&mut scanner, 0x9A),
        Ok(TrackEventKind::MIDI { status: 0x9A, data: vec![0x01, 0x02] })
    );
    assert_eq!(scanner.cursor(), 2);
    assert_eq!(
        parse_midi_event(&mut scanner, 0xC1),
        Ok(TrackEventKind::MIDI { status: 0xC1, data: vec![0x03] })
    );
    assert!(scanner.done());
    assert_eq!(parse_midi_event(&mut scanner, 0xD1), Err(TryFromError::InvalidData));
    assert_eq!(parse_midi_event(&mut Scanner::new(&[0x01]), 0xE0), Err(TryFromError::InvalidData));
}
