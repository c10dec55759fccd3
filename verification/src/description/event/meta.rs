//! Meta events: what is in a track for the file and the sequencer, not for
//! the synthesizer. Each type of meta event has its own shape of data.

use crate::file::event::track::MetaEventFile;
use crate::big_endian::{be_value, lemma_be_value_3};
use crate::scanner::Scanner;
use vstd::prelude::*;
use vstd::utf8::{decode_utf8, valid_utf8};

verus! {

/// A meta event, interpreted according to its type byte.
///
/// In general, meta events in a track which occur at the same time may occur
/// in any order. Sequence Number and Sequence/Track Name events, if present,
/// must appear at time 0. An end-of-track event must occur as the last event
/// in the track.
#[derive(Debug, Clone, PartialEq, Eq)]
pub enum MetaEvent {
    /// Type `0x00`. This optional event, which must occur at the beginning of
    /// a track, before any nonzero delta-times, and before any transmittable
    /// MIDI events, specifies the number of a sequence.
    SequenceNumber(u16),
    /// Types `0x01` and `0x08` to `0x0F`. Any amount of text describing
    /// anything. The text should be printable ASCII characters for maximum
    /// interchange; other character codes using the high-order bit may be
    /// used between programs that support an extended character set.
    TextEvent(String),
    /// Type `0x02`. Contains a copyright notice as printable ASCII text.
    CopyrightNotice(String),
    /// Type `0x03`. If in a format 0 track, or the first track in a format 1
    /// file, the name of the sequence. Otherwise, the name of the track.
    SequenceOrTrackName(String),
    /// Type `0x04`. A description of the type of instrumentation to be used
    /// in that track.
    InstrumentName(String),
    /// Type `0x05`. A lyric to be sung. Generally, each syllable will be a
    /// separate lyric event which begins at the event's time.
    Lyric(String),
    /// Type `0x06`. The name of that point in the sequence, such as a
    /// rehearsal letter or section name.
    Marker(String),
    /// Type `0x07`. A description of something happening on a film or video
    /// screen or stage at that point in the musical score.
    CuePoint(String),
    /// Type `0x20`. The MIDI channel (0-15) contained in this event may be
    /// used to associate a MIDI channel with all events which follow,
    /// including System Exclusive and meta events.
    MIDIChannelPrefix(u8),
    /// Type `0x21`. The MIDI output port on which data within this track
    /// chunk will be transmitted.
    MIDIPort(u8),
    /// Type `0x2F`. This event is not optional. It is included so that an
    /// exact ending point may be specified for the track.
    EndOfTrack,
    /// Type `0x51`. A tempo change, in microseconds per quarter-note.
    SetTempo(u32),
    /// Type `0x54`. The SMPTE time at which the track chunk is supposed to
    /// start. The fractional frames are in hundredths of a frame.
    SMPTEOffset { hours: u8, minutes: u8, seconds: u8, frames: u8, fractional_frames: u8 },
    /// Type `0x58`. The time signature, as four numbers. The denominator is
    /// a negative power of two: 2 represents a quarter-note, 3 represents an
    /// eighth-note.
    TimeSignature {
        numerator: u8,
        denominator: u8,
        midi_clocks_per_metronome_click: u8,
        thirty_second_notes_per_midi_quarter_note: u8,
    },
    /// Type `0x59`. The key signature: the number of sharps, or of flats
    /// where negative, and 0 for a major key or 1 for a minor one.
    KeySignature { sharps_flats: i8, major_minor: u8 },
}

/// What a meta event holds, with its text as a sequence of characters.
pub enum MetaEventModel {
    SequenceNumber(u16),
    TextEvent(Seq<char>),
    CopyrightNotice(Seq<char>),
    SequenceOrTrackName(Seq<char>),
    InstrumentName(Seq<char>),
    Lyric(Seq<char>),
    Marker(Seq<char>),
    CuePoint(Seq<char>),
    MIDIChannelPrefix(u8),
    MIDIPort(u8),
    EndOfTrack,
    SetTempo(u32),
    SMPTEOffset { hours: u8, minutes: u8, seconds: u8, frames: u8, fractional_frames: u8 },
    TimeSignature {
        numerator: u8,
        denominator: u8,
        midi_clocks_per_metronome_click: u8,
        thirty_second_notes_per_midi_quarter_note: u8,
    },
    KeySignature { sharps_flats: i8, major_minor: u8 },
}

impl View for MetaEvent {
    type V = MetaEventModel;

    open spec fn view(&self) -> MetaEventModel {
        match *self {
            MetaEvent::SequenceNumber(number) => MetaEventModel::SequenceNumber(number),
            MetaEvent::TextEvent(text) => MetaEventModel::TextEvent(text@),
            MetaEvent::CopyrightNotice(text) => MetaEventModel::CopyrightNotice(text@),
            MetaEvent::SequenceOrTrackName(text) => MetaEventModel::SequenceOrTrackName(text@),
            MetaEvent::InstrumentName(text) => MetaEventModel::InstrumentName(text@),
            MetaEvent::Lyric(text) => MetaEventModel::Lyric(text@),
            MetaEvent::Marker(text) => MetaEventModel::Marker(text@),
            MetaEvent::CuePoint(text) => MetaEventModel::CuePoint(text@),
            MetaEvent::MIDIChannelPrefix(channel) => MetaEventModel::MIDIChannelPrefix(channel),
            MetaEvent::MIDIPort(port) => MetaEventModel::MIDIPort(port),
            MetaEvent::EndOfTrack => MetaEventModel::EndOfTrack,
            MetaEvent::SetTempo(tempo) => MetaEventModel::SetTempo(tempo),
            MetaEvent::SMPTEOffset {
                hours,
                minutes,
                seconds,
                frames,
                fractional_frames,
            } => MetaEventModel::SMPTEOffset {
                hours,
                minutes,
                seconds,
                frames,
                fractional_frames,
            },
            MetaEvent::TimeSignature {
                numerator,
                denominator,
                midi_clocks_per_metronome_click,
                thirty_second_notes_per_midi_quarter_note,
            } => MetaEventModel::TimeSignature {
                numerator,
                denominator,
                midi_clocks_per_metronome_click,
                thirty_second_notes_per_midi_quarter_note,
            },
            MetaEvent::KeySignature { sharps_flats, major_minor } => MetaEventModel::KeySignature {
                sharps_flats,
                major_minor,
            },
        }
    }
}

/// Why a meta event could not be interpreted.
#[derive(Debug, Clone, Copy, PartialEq, Eq, Structural)]
pub enum TryFromError {
    /// A sequence number has fewer than two bytes of data.
    InvalidNumber,
    /// The data is shorter than the event's type takes.
    InvalidData,
    /// The data is longer than the event's type takes.
    InvalidScannerState,
    /// The type byte, which is given, is that of no known meta event.
    InvalidStatus(u8),
}

/// The text that `String::from_utf8_lossy` reads in these bytes.
pub uninterp spec fn utf8_lossy_text(bytes: Seq<u8>) -> Seq<char>;

/// `String::from_utf8_lossy` of std, with the result as a `String` of its
/// own: the bytes read as UTF-8, each sequence that is not valid UTF-8
/// replaced by U+FFFD. It never fails. The text depends on the bytes alone,
/// and bytes that are valid UTF-8 are decoded as they are.
#[verifier::external_body]
fn from_utf8_lossy(bytes: &[u8]) -> (text: String)
    ensures
        text@ == utf8_lossy_text(bytes@),
        valid_utf8(bytes@) ==> text@ == decode_utf8(bytes@),
{
    String::from_utf8_lossy(bytes).into_owned()
}

/// Whether a type byte is that of an event whose data is text.
pub open spec fn is_text_kind(kind: u8) -> bool {
    0x01 <= kind <= 0x0F
}

/// The text event of the given type. Types `0x02` to `0x07` each have an
/// event of their own; the other text types are plain text events.
pub open spec fn spec_text_event(kind: u8, text: Seq<char>) -> MetaEventModel
    recommends
        is_text_kind(kind),
{
    if kind == 0x02 {
        MetaEventModel::CopyrightNotice(text)
    } else if kind == 0x03 {
        MetaEventModel::SequenceOrTrackName(text)
    } else if kind == 0x04 {
        MetaEventModel::InstrumentName(text)
    } else if kind == 0x05 {
        MetaEventModel::Lyric(text)
    } else if kind == 0x06 {
        MetaEventModel::Marker(text)
    } else if kind == 0x07 {
        MetaEventModel::CuePoint(text)
    } else {
        MetaEventModel::TextEvent(text)
    }
}

/// How many bytes of data an event of the given type has, where the type
/// fixes that number.
pub open spec fn meta_fixed_len(kind: u8) -> Option<nat> {
    if kind == 0x00 {
        Some(2)
    } else if kind == 0x20 || kind == 0x21 {
        Some(1)
    } else if kind == 0x51 {
        Some(3)
    } else if kind == 0x54 {
        Some(5)
    } else if kind == 0x58 {
        Some(4)
    } else if kind == 0x59 {
        Some(2)
    } else {
        None
    }
}

/// The event of a type with a fixed shape, read from data of that shape.
pub open spec fn spec_fixed_event(kind: u8, data: Seq<u8>) -> MetaEventModel
    recommends
        meta_fixed_len(kind) == Some(data.len()),
{
    if kind == 0x00 {
        MetaEventModel::SequenceNumber(be_value(data) as u16)
    } else if kind == 0x20 {
        MetaEventModel::MIDIChannelPrefix(data[0])
    } else if kind == 0x21 {
        MetaEventModel::MIDIPort(data[0])
    } else if kind == 0x51 {
        MetaEventModel::SetTempo(be_value(data) as u32)
    } else if kind == 0x54 {
        MetaEventModel::SMPTEOffset {
            hours: data[0],
            minutes: data[1],
            seconds: data[2],
            frames: data[3],
            fractional_frames: data[4],
        }
    } else if kind == 0x58 {
        MetaEventModel::TimeSignature {
            numerator: data[0],
            denominator: data[1],
            midi_clocks_per_metronome_click: data[2],
            thirty_second_notes_per_midi_quarter_note: data[3],
        }
    } else {
        MetaEventModel::KeySignature {
            sharps_flats: (if data[0] >= 0x80 {
                data[0] - 0x100
            } else {
                data[0] as int
            }) as i8,
            major_minor: data[1],
        }
    }
}

/// The meta event with the given type byte and data.
///
/// Text is any bytes. An end of track is taken with or without data. Every
/// other known type has data of one length; shorter data and longer data are
/// two errors, and both differ from the error for an unknown type.
pub open spec fn spec_meta(kind: u8, data: Seq<u8>) -> Result<MetaEventModel, TryFromError> {
    if is_text_kind(kind) {
        Ok(spec_text_event(kind, utf8_lossy_text(data)))
    } else if kind == 0x2F {
        Ok(MetaEventModel::EndOfTrack)
    } else {
        match meta_fixed_len(kind) {
            None => Err(TryFromError::InvalidStatus(kind)),
            Some(len) => if data.len() < len {
                if kind == 0x00 {
                    Err(TryFromError::InvalidNumber)
                } else {
                    Err(TryFromError::InvalidData)
                }
            } else if data.len() > len {
                Err(TryFromError::InvalidScannerState)
            } else {
                Ok(spec_fixed_event(kind, data))
            },
        }
    }
}

impl MetaEvent {
    /// The text event of the given type that holds `text`; `None` where the
    /// type is not one of text.
    pub fn from_text(kind: u8, text: String) -> (event: Option<MetaEvent>)
        ensures
            is_text_kind(kind) ==> (event matches Some(e) && e@ == spec_text_event(kind, text@)),
            !is_text_kind(kind) ==> event is None,
    {
        if kind == 0x01 || (0x08 <= kind && kind <= 0x0F) {
            Some(MetaEvent::TextEvent(text))
        } else if kind == 0x02 {
            Some(MetaEvent::CopyrightNotice(text))
        } else if kind == 0x03 {
            Some(MetaEvent::SequenceOrTrackName(text))
        } else if kind == 0x04 {
            Some(MetaEvent::InstrumentName(text))
        } else if kind == 0x05 {
            Some(MetaEvent::Lyric(text))
        } else if kind == 0x06 {
            Some(MetaEvent::Marker(text))
        } else if kind == 0x07 {
            Some(MetaEvent::CuePoint(text))
        } else {
            None
        }
    }

    /// Interprets a meta event according to its type byte.
    ///
    /// The text of a text event is read as UTF-8, and bytes that are no
    /// UTF-8 do not make it fail.
    pub fn try_from(value: &MetaEventFile) -> (result: Result<MetaEvent, TryFromError>)
        ensures
            match spec_meta(value.kind, value.data@) {
                Ok(meta) => result matches Ok(event) && event@ == meta,
                Err(error) => result matches Err(e) && e == error,
            },
    {
        let kind: u8 = value.kind;
        let data: &[u8] = value.data;
        let mut scanner = Scanner::new(data);
        assert(scanner.remaining() =~= data@);
        if 0x01 <= kind && kind <= 0x0F {
            match MetaEvent::from_text(kind, from_utf8_lossy(data)) {
                Some(event) => Ok(event),
                None => Err(TryFromError::InvalidStatus(kind)),
            }
        } else if kind == 0x00 {
            let number: u16 = match scanner.eat_u16_be() {
                Some(number) => number,
                None => {
                    return Err(TryFromError::InvalidNumber);
                },
            };
            if !scanner.done() {
                return Err(TryFromError::InvalidScannerState);
            }
            assert(data@.take(2) =~= data@);
            Ok(MetaEvent::SequenceNumber(number))
        } else if kind == 0x20 {
            let channel: u8 = match scanner.eat() {
                Some(channel) => *channel,
                None => {
                    return Err(TryFromError::InvalidData);
                },
            };
            if !scanner.done() {
                return Err(TryFromError::InvalidScannerState);
            }
            Ok(MetaEvent::MIDIChannelPrefix(channel))
        } else if kind == 0x21 {
            let port: u8 = match scanner.eat() {
                Some(port) => *port,
                None => {
                    return Err(TryFromError::InvalidData);
                },
            };
            if !scanner.done() {
                return Err(TryFromError::InvalidScannerState);
            }
            Ok(MetaEvent::MIDIPort(port))
        } else if kind == 0x2F {
            // The data should be empty here. Some files hold a byte there,
            // and both are taken.
            Ok(MetaEvent::EndOfTrack)
        } else if kind == 0x51 {
            let bytes: &[u8; 3] = match scanner.eat_bytes::<3>() {
                Some(bytes) => bytes,
                None => {
                    return Err(TryFromError::InvalidData);
                },
            };
            if !scanner.done() {
                return Err(TryFromError::InvalidScannerState);
            }
            proof {
                assert(data@.take(3) =~= data@);
                lemma_be_value_3(data@);
            }
            let tempo: u32 = bytes[0] as u32 * 0x1_0000 + bytes[1] as u32 * 0x100 + bytes[2] as u32;
            Ok(MetaEvent::SetTempo(tempo))
        } else if kind == 0x54 {
            let bytes: &[u8; 5] = match scanner.eat_bytes::<5>() {
                Some(bytes) => bytes,
                None => {
                    return Err(TryFromError::InvalidData);
                },
            };
            if !scanner.done() {
                return Err(TryFromError::InvalidScannerState);
            }
            assert(data@.take(5) =~= data@);
            Ok(
                MetaEvent::SMPTEOffset {
                    hours: bytes[0],
                    minutes: bytes[1],
                    seconds: bytes[2],
                    frames: bytes[3],
                    fractional_frames: bytes[4],
                },
            )
        } else if kind == 0x58 {
            let bytes: &[u8; 4] = match scanner.eat_bytes::<4>() {
                Some(bytes) => bytes,
                None => {
                    return Err(TryFromError::InvalidData);
                },
            };
            if !scanner.done() {
                return Err(TryFromError::InvalidScannerState);
            }
            assert(data@.take(4) =~= data@);
            Ok(
                MetaEvent::TimeSignature {
                    numerator: bytes[0],
                    denominator: bytes[1],
                    midi_clocks_per_metronome_click: bytes[2],
                    thirty_second_notes_per_midi_quarter_note: bytes[3],
                },
            )
        } else if kind == 0x59 {
            let first: u8 = match scanner.eat() {
                Some(first) => *first,
                None => {
                    return Err(TryFromError::InvalidData);
                },
            };
            let major_minor: u8 = match scanner.eat() {
                Some(major_minor) => *major_minor,
                None => {
                    return Err(TryFromError::InvalidData);
                },
            };
            if !scanner.done() {
                return Err(TryFromError::InvalidScannerState);
            }
            let sharps_flats: i8 = if first >= 0x80 {
                (first as i16 - 0x100) as i8
            } else {
                first as i8
            };
            Ok(MetaEvent::KeySignature { sharps_flats, major_minor })
        } else {
            Err(TryFromError::InvalidStatus(kind))
        }
    }
}

} // verus!
