use relocate_midi::description::chunk::header::division::fps::FPS;
use relocate_midi::description::chunk::header::division::fps::TryFromError as FPSError;
use relocate_midi::description::chunk::header::division::Division;
use relocate_midi::description::chunk::header::format::Format;
use relocate_midi::description::chunk::header::format::TryFromError as FormatError;
use relocate_midi::description::chunk::header::HeaderChunk;
use relocate_midi::description::chunk::header::TryFromError as HeaderError;
use relocate_midi::file::chunk::header::TryFromError as FieldsError;
use relocate_midi::file::chunk::header::{HeaderChunkFile, HEADER_CHUNK_KIND, HEADER_CHUNK_LENGTH};
use relocate_midi::file::chunk::ChunkFile;

fn header_chunk(data: &[u8]) -> ChunkFile<'_> {
    ChunkFile { kind: *b"MThd", length: data.len() as u32, data }
}

fn decode(data: &[u8]) -> Result<HeaderChunk, HeaderError> {
    let chunk = header_chunk(data);
    let fields = HeaderChunkFile::try_from(&chunk).unwrap();
    HeaderChunk::try_from(&fields)
}

#[test]
fn header_constants_are_the_tag_and_the_usual_length() {
    assert_eq!(&HEADER_CHUNK_KIND, b"MThd");
    assert_eq!(HEADER_CHUNK_LENGTH, 6);
}

#[test]
fn header_fields_are_the_first_six_bytes_two_by_two() {
    let chunk = header_chunk(&[0x00, 0x01, 0x00, 0x02, 0x01, 0xE0]);
    let fields = HeaderChunkFile::try_from(&chunk).unwrap();
    assert_eq!(fields.kind(), b"MThd");
    assert_eq!(*fields.length(), 6);
    assert_eq!(fields.format, &[0x00, 0x01]);
    assert_eq!(fields.tracks_count, &[0x00, 0x02]);
    assert_eq!(fields.division, &[0x01, 0xE0]);
}

#[test]
fn header_longer_than_six_bytes_is_read() {
    let chunk = header_chunk(&[0x00, 0x01, 0x00, 0x02, 0x01, 0xE0, 0xAA, 0xBB]);
    let fields = HeaderChunkFile::try_from(&chunk).unwrap();
    assert_eq!(*fields.length(), 8);
    assert_eq!(fields.format, &[0x00, 0x01]);
    assert_eq!(fields.tracks_count, &[0x00, 0x02]);
    assert_eq!(fields.division, &[0x01, 0xE0]);
    assert_eq!(
        HeaderChunk::try_from(&fields),
        Ok(HeaderChunk {
            format: Format::SimultaneousTracks,
            tracks_count: 2,
            division: Division::TicksPerQuarterNote(480),
        })
    );
}

#[test]
fn header_with_another_tag_is_refused() {
    let chunk = ChunkFile { kind: *b"MTrk", length: 6, data: &[0, 1, 0, 2, 1, 0xE0] };
    assert!(matches!(HeaderChunkFile::try_from(&chunk), Err(FieldsError::InvalidKind)));
}

#[test]
fn header_that_ends_early_names_the_field_that_ran_out() {
    for data in [&[][..], &[0x00][..]] {
        let chunk = header_chunk(data);
        assert!(matches!(HeaderChunkFile::try_from(&chunk), Err(FieldsError::CouldNotReadFormat)));
    }
    for data in [&[0x00, 0x01][..], &[0x00, 0x01, 0x00][..]] {
        let chunk = header_chunk(data);
        assert!(matches!(
            HeaderChunkFile::try_from(&chunk),
            Err(FieldsError::CouldNotReadTrackCount)
        ));
    }
    for data in [&[0x00, 0x01, 0x00, 0x02][..], &[0x00, 0x01, 0x00, 0x02, 0x01][..]] {
        let chunk = header_chunk(data);
        assert!(matches!(
            HeaderChunkFile::try_from(&chunk),
            Err(FieldsError::CouldNotReadDivision)
        ));
    }
}

#[test]
fn format_is_one_of_three_byte_pairs() {
    assert_eq!(Format::try_from(&[0x00, 0x00]), Ok(Format::SingleMultiChannelTrack));
    assert_eq!(Format::try_from(&[0x00, 0x01]), Ok(Format::SimultaneousTracks));
    assert_eq!(
        Format::try_from(&[0x00, 0x02]),
        Ok(Format::SequentiallyIndependentSingleTrackPatterns)
    );
    for bytes in [[0x00, 0x03], [0x01, 0x00], [0x01, 0x01], [0xFF, 0xFF], [0x02, 0x00]] {
        assert_eq!(Format::try_from(&bytes), Err(FormatError::UnknownFormatBytes));
    }
}

#[test]
fn division_with_clear_high_bit_is_ticks_per_quarter_note() {
    assert_eq!(Division::try_from([0x01, 0xE0]), Ok(Division::TicksPerQuarterNote(480)));
    assert_eq!(Division::try_from([0x00, 0x60]), Ok(Division::TicksPerQuarterNote(96)));
    assert_eq!(Division::try_from([0x00, 0x00]), Ok(Division::TicksPerQuarterNote(0)));
    assert_eq!(Division::try_from([0x7F, 0xFF]), Ok(Division::TicksPerQuarterNote(0x7FFF)));
}

#[test]
fn division_with_set_high_bit_is_time_code() {
    assert_eq!(
        Division::try_from([0xE8, 40]),
        Ok(Division::TimeCode { frames_per_second: FPS::FPS24, ticks_per_frame: 40 })
    );
    assert_eq!(
        Division::try_from([0xE7, 40]),
        Ok(Division::TimeCode { frames_per_second: FPS::FPS25, ticks_per_frame: 40 })
    );
    assert_eq!(
        Division::try_from([0xE3, 0]),
        Ok(Division::TimeCode { frames_per_second: FPS::FPS30Drop, ticks_per_frame: 0 })
    );
    assert_eq!(
        Division::try_from([0xE2, 0xFF]),
        Ok(Division::TimeCode { frames_per_second: FPS::FPS30, ticks_per_frame: 0xFF })
    );
}

#[test]
fn division_with_an_unknown_frame_rate_is_refused() {
    for high in [0x80u8, 0xE1, 0xE4, 0xE9, 0xFF] {
        assert_eq!(Division::try_from([high, 40]), Err(FPSError::InvalidFPS));
    }
}

#[test]
fn header_decodes_format_track_count_and_division() {
    assert_eq!(
        decode(&[0x00, 0x00, 0x00, 0x01, 0x00, 0x60]),
        Ok(HeaderChunk {
            format: Format::SingleMultiChannelTrack,
            tracks_count: 1,
            division: Division::TicksPerQuarterNote(96),
        })
    );
    assert_eq!(
        decode(&[0x00, 0x02, 0x01, 0x02, 0xE7, 0x28]),
        Ok(HeaderChunk {
            format: Format::SequentiallyIndependentSingleTrackPatterns,
            tracks_count: 258,
            division: Division::TimeCode { frames_per_second: FPS::FPS25, ticks_per_frame: 40 },
        })
    );
    assert_eq!(
        decode(&[0x00, 0x01, 0x00, 0x00, 0x01, 0xE0]),
        Ok(HeaderChunk {
            format: Format::SimultaneousTracks,
            tracks_count: 0,
            division: Division::TicksPerQuarterNote(480),
        })
    );
    assert_eq!(
        decode(&[0x00, 0x01, 0xFF, 0xFF, 0x01, 0xE0]).map(|header| header.tracks_count),
        Ok(0xFFFF)
    );
}

#[test]
fn header_of_a_single_track_with_two_tracks_is_refused() {
    assert_eq!(Format::try_from(&[0x00, 0x00]), Ok(Format::SingleMultiChannelTrack));
    assert_eq!(Division::try_from([0x01, 0xE0]), Ok(Division::TicksPerQuarterNote(480)));
    assert_eq!(
        decode(&[0x00, 0x00, 0x00, 0x02, 0x01, 0xE0]),
        Err(HeaderError::InvalidTracksCount)
    );
    assert_eq!(
        decode(&[0x00, 0x00, 0x00, 0x00, 0x01, 0xE0]),
        Err(HeaderError::InvalidTracksCount)
    );
    assert_eq!(
        decode(&[0x00, 0x00, 0x01, 0x01, 0x01, 0xE0]),
        Err(HeaderError::InvalidTracksCount)
    );
}

#[test]
fn header_with_an_unknown_format_is_refused() {
    assert_eq!(decode(&[0x00, 0x03, 0x00, 0x01, 0x01, 0xE0]), Err(HeaderError::InvalidFormat));
    assert_eq!(decode(&[0x01, 0x00, 0x00, 0x01, 0x01, 0xE0]), Err(HeaderError::InvalidFormat));
}

#[test]
fn header_with_an_unknown_frame_rate_is_refused() {
    assert_eq!(decode(&[0x00, 0x01, 0x00, 0x02, 0x80, 0x28]), Err(HeaderError::InvalidDivision));
    assert_eq!(decode(&[0x00, 0x00, 0x00, 0x02, 0xFF, 0x28]), Err(HeaderError::InvalidDivision));
}

#[test]
fn header_format_error_comes_before_the_others() {
    assert_eq!(decode(&[0x00, 0x09, 0x00, 0x02, 0x80, 0x28]), Err(HeaderError::InvalidFormat));
}
