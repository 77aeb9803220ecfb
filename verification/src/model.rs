//! Pure model of the tape engine.
//!
//! [`TzxView`] is the mathematical state of an engine: the tape bytes, the
//! read position, and every register of the pulse machine.  The spec
//! functions in this module are the transition relation of the engine, one
//! per executable operation; the executable methods of
//! [`crate::engine::Tzx`] are proved to follow them exactly.

use vstd::prelude::*;

use crate::timings::{TapeTimings, TIMING_BOUND, TSTATES_PER_MS};
use crate::TapeLoadError;

verus! {

/// Capacity of the sliding payload window, in bytes.
pub const BUFFER_SIZE: usize = 128;

/// Size of the file header: seven signature bytes, an end-of-text marker and
/// two version bytes.
pub const HEADER_SIZE: usize = 10;

/// Largest block payload size a block header can declare (a 24-bit field).
pub const MAX_BLOCK_SIZE: usize = 0xFF_FFFF;

/// Upper bound on the scheduled delay after any call: one pause of
/// `TIMING_BOUND` milliseconds converted to T-states, plus the largest
/// single edge.
pub const DELAY_BOUND: i64 = 12_950_000_000;

/// States of the pulse machine.  `pulses_left`, masks and delays are carried
/// in the variant so that no allocation happens per edge.
#[derive(Debug, Clone, Copy, PartialEq, Eq, Structural)]
pub enum TapeState {
    /// Freshly constructed; the file header has not been read.
    Init,
    /// Halted; `process_clocks` is a no-op.
    Stop,
    /// Ready to read the next block from the stream.
    Play,
    /// A block has just been read and must be dispatched.
    Process,
    /// Emitting the pilot tone before a data block.
    Pilot { pulses_left: usize },
    /// Emitting an explicit tone block.
    PureTone { pulses_left: usize },
    /// Emitting a sequence of individually timed pulses.
    PulseSequence { pulses_left: usize },
    /// Emitting the first sync pulse; the second is scheduled next.
    Sync,
    /// Fetching the next payload byte.
    NextByte { is_direct_recording_sample: bool },
    /// Emitting the first half-pulse of the bit selected by `mask`.
    NextBit { mask: u8 },
    /// Forcing the output level to the sample bit selected by `mask`.
    NextDirectRecordingBit { mask: u8 },
    /// Emitting the second half-pulse of the current bit.
    BitHalf { half_bit_delay: usize, mask: u8 },
    /// Block finished; emit the trailing pause.
    Pause,
    /// Explicit silence of `length` milliseconds.
    Silence { length: usize },
}

/// Classification of a decoded block, by TZX block ID.
#[derive(Debug, Clone, Copy, PartialEq, Eq, Structural)]
pub enum TzxBlockId {
    Unknown,
    StandardSpeedData,
    TurboSpeedData,
    PureTone,
    PulseSequence,
    PureDataBlock,
    DirectRecording,
    CswRecording,
    GeneralizedData,
    PauseOrSilence,
    GroupStart,
    GroupEnd,
    JumpToBlock,
    LoopStart,
    LoopEnd,
    CallSequence,
    ReturnFromSequence,
    SelectBlock,
    StopIf48k,
    SetSignalLevel,
    TextDescription,
    MessageBlock,
    ArchiveInfo,
    HardwareType,
    EmulationInfo,
    CustomInfo,
    Snapshot,
    Glue,
}

/// The mathematical state of a tape engine.
pub struct TzxView {
    /// The whole byte sequence of the tape.
    pub data: Seq<u8>,
    /// Read position of the byte source.
    pub pos: nat,
    /// Current pulse-machine state.
    pub state: TapeState,
    /// State saved by `stop`, restored by `play`.
    pub prev_state: TapeState,
    /// The sliding payload window, always `BUFFER_SIZE` bytes.
    pub buffer: Seq<u8>,
    /// Offset of the window within the current block payload.
    pub buffer_offset: usize,
    /// Payload bytes of the current block already handed out.
    pub block_bytes_read: usize,
    /// Classification of the block last decoded.
    pub current_block_id: Option<TzxBlockId>,
    /// Payload size of the current block, when one is being streamed.
    pub current_block_size: Option<usize>,
    /// Set once the stream ends; terminal until `rewind`.
    pub tape_ended: bool,
    /// The one-bit ear output.
    pub curr_bit: bool,
    /// Payload byte currently being emitted bit by bit.
    pub curr_byte: u8,
    /// T-states until the next scheduled edge.
    pub delay: i64,
    /// Current pulse timing parameters.
    pub tape_timings: TapeTimings,
    /// How many leading bits of the final payload byte carry data.
    pub used_bits_in_last_byte: usize,
    /// Bits of `curr_byte` still to emit.
    pub bits_to_process_in_byte: usize,
    /// Stream position recorded by a loop-start block.
    pub loop_start_marker: usize,
    /// Loop repetitions still owed, while a loop is open.
    pub num_repetitions: Option<u16>,
    /// Whether the emulated machine is a 48K model.
    pub is_48k_mode: bool,
}

/// Bounds carried by a state's payload, needed so that delay arithmetic
/// stays within `DELAY_BOUND`.
pub open spec fn state_bounds(st: TapeState) -> bool {
    match st {
        TapeState::BitHalf { half_bit_delay, mask: _ } => half_bit_delay <= TIMING_BOUND,
        TapeState::Silence { length } => length <= 0xFFFF,
        _ => true,
    }
}

impl TzxView {
    /// Internal invariant of the engine: established by construction and
    /// preserved by every operation.
    pub open spec fn wf(self) -> bool {
        &&& self.buffer.len() == BUFFER_SIZE
        &&& self.tape_timings.wf()
        &&& -0x7FFF_FFFF_FFFF_FFFE <= self.delay <= DELAY_BOUND
        &&& state_bounds(self.state)
        &&& state_bounds(self.prev_state)
        &&& match self.current_block_size {
            Some(n) => {
                &&& n <= MAX_BLOCK_SIZE
                &&& self.buffer_offset <= self.block_bytes_read <= n
                &&& self.block_bytes_read - self.buffer_offset <= BUFFER_SIZE
            },
            None => self.block_bytes_read == 0,
        }
        &&& (match self.current_block_id {
            Some(TzxBlockId::TurboSpeedData) => self.tape_timings.pilot_tone_length is Some,
            Some(TzxBlockId::PureTone) => self.tape_timings.pilot_tone_length is Some,
            Some(TzxBlockId::PulseSequence) => self.tape_timings.pilot_tone_length is Some,
            _ => true,
        })
    }

    /// The state of a freshly constructed engine bound to a source holding
    /// `data` at position `pos`.
    pub open spec fn initial(data: Seq<u8>, pos: nat, is_48k: bool) -> TzxView {
        TzxView {
            data,
            pos,
            state: TapeState::Init,
            prev_state: TapeState::Stop,
            buffer: Seq::new(BUFFER_SIZE as nat, |i: int| 0u8),
            buffer_offset: 0,
            block_bytes_read: 0,
            current_block_id: None,
            current_block_size: None,
            tape_ended: false,
            curr_bit: false,
            curr_byte: 0,
            delay: 0,
            tape_timings: TapeTimings::spec_default(),
            used_bits_in_last_byte: 8,
            bits_to_process_in_byte: 0,
            loop_start_marker: 0,
            num_repetitions: None,
            is_48k_mode: is_48k,
        }
    }
}

/// Little-endian value of two bytes.
pub open spec fn le16(b0: u8, b1: u8) -> int {
    b0 + 256 * b1
}

/// Little-endian value of three bytes.
pub open spec fn le24(b0: u8, b1: u8, b2: u8) -> int {
    b0 + 256 * b1 + 65536 * b2
}

/// Little-endian value of four bytes.
pub open spec fn le32(b0: u8, b1: u8, b2: u8, b3: u8) -> int {
    b0 + 256 * b1 + 65536 * b2 + 16777216 * b3
}

/// Whether `n` more bytes can be read at the current position.
pub open spec fn can_read(s: TzxView, n: int) -> bool {
    s.pos + n <= s.data.len()
}

/// The next `n` bytes at the current position.
pub open spec fn peek(s: TzxView, n: int) -> Seq<u8> {
    s.data.subrange(s.pos as int, s.pos + n)
}

/// The view after consuming `n` bytes.
pub open spec fn advance(s: TzxView, n: int) -> TzxView {
    TzxView { pos: (s.pos + n) as nat, ..s }
}

/// The view after ending the tape: a failed read outside a payload is
/// absorbed into the `tape_ended` sentinel.
pub open spec fn ended(s: TzxView) -> TzxView {
    TzxView { tape_ended: true, ..s }
}

/// `buf` with its prefix overwritten by `pre`.
pub open spec fn splice_prefix(buf: Seq<u8>, pre: Seq<u8>) -> Seq<u8> {
    Seq::new(buf.len(), |i: int| if i < pre.len() { pre[i] } else { buf[i] })
}

/// The smaller of a declared block size and the window capacity.
pub open spec fn clamp_to_window(size: usize) -> usize {
    if size < BUFFER_SIZE {
        size
    } else {
        BUFFER_SIZE
    }
}

/// One lazy read from the current block's payload: serve a byte from the
/// window, refilling the window from the source when the consumer crosses
/// it; `None` once the block is exhausted.
pub open spec fn spec_next_block_byte(s: TzxView) -> (TzxView, Result<Option<u8>, TapeLoadError>) {
    if s.tape_ended {
        (s, Ok(None))
    } else {
        match s.current_block_size {
            None => (s, Ok(None)),
            Some(block_size) => {
                if s.block_bytes_read >= block_size {
                    (s, Ok(None))
                } else {
                    let pre_read_pos = s.block_bytes_read - s.buffer_offset;
                    let refill = pre_read_pos >= BUFFER_SIZE;
                    let bytes_to_read = if refill {
                        clamp_to_window(
                            (block_size - s.buffer_offset - BUFFER_SIZE) as usize,
                        )
                    } else {
                        0
                    };
                    if refill && !can_read(s, bytes_to_read as int) {
                        (s, Err(TapeLoadError::IoError))
                    } else {
                        let s1 = if refill {
                            TzxView {
                                buffer: splice_prefix(s.buffer, peek(s, bytes_to_read as int)),
                                buffer_offset: (s.buffer_offset + BUFFER_SIZE) as usize,
                                ..advance(s, bytes_to_read as int)
                            }
                        } else {
                            s
                        };
                        let read_pos = if refill {
                            0int
                        } else {
                            pre_read_pos
                        };
                        let result = s1.buffer[read_pos];
                        let new_read = (s1.block_bytes_read + 1) as usize;
                        let bits = if new_read >= block_size {
                            s1.used_bits_in_last_byte
                        } else {
                            8
                        };
                        (
                            TzxView {
                                block_bytes_read: new_read,
                                bits_to_process_in_byte: bits,
                                ..s1
                            },
                            Ok(Some(result)),
                        )
                    }
                }
            },
        }
    }
}

/// The standard-speed data block: reset all timings to the ROM defaults,
/// take the trailing pause and the payload size from the header, and load
/// the first window of payload.
pub open spec fn spec_block_standard(s: TzxView) -> (TzxView, Result<bool, TapeLoadError>) {
    if !can_read(s, 4) {
        (ended(s), Ok(false))
    } else {
        let h = peek(s, 4);
        let s1 = advance(s, 4);
        let s2 = TzxView {
            tape_timings: TapeTimings {
                pause_length: le16(h[0], h[1]) as usize,
                pilot_tone_length: s1.tape_timings.pilot_tone_length,
                ..TapeTimings::spec_default()
            },
            ..s1
        };
        let block_size = le16(h[2], h[3]) as usize;
        let to_read = clamp_to_window(block_size);
        if !can_read(s2, to_read as int) {
            (s2, Err(TapeLoadError::IoError))
        } else {
            (
                TzxView {
                    buffer: splice_prefix(s2.buffer, peek(s2, to_read as int)),
                    current_block_id: Some(TzxBlockId::StandardSpeedData),
                    current_block_size: Some(block_size),
                    ..advance(s2, to_read as int)
                },
                Ok(true),
            )
        }
    }
}

/// The turbo-speed data block: every timing parameter comes from the
/// 18-byte header; load the first window of payload.
pub open spec fn spec_block_turbo(s: TzxView) -> (TzxView, Result<bool, TapeLoadError>) {
    if !can_read(s, 18) {
        (ended(s), Ok(false))
    } else {
        let h = peek(s, 18);
        let s1 = advance(s, 18);
        let s2 = TzxView {
            tape_timings: TapeTimings {
                pilot_length: le16(h[0], h[1]) as usize,
                sync1_length: le16(h[2], h[3]) as usize,
                sync2_length: le16(h[4], h[5]) as usize,
                bit_0_length: le16(h[6], h[7]) as usize,
                bit_1_length: le16(h[8], h[9]) as usize,
                pilot_tone_length: Some(le16(h[10], h[11]) as usize),
                pause_length: le16(h[13], h[14]) as usize,
                ..s1.tape_timings
            },
            used_bits_in_last_byte: h[12] as usize,
            ..s1
        };
        let block_size = le24(h[15], h[16], h[17]) as usize;
        let to_read = clamp_to_window(block_size);
        if !can_read(s2, to_read as int) {
            (s2, Err(TapeLoadError::IoError))
        } else {
            (
                TzxView {
                    buffer: splice_prefix(s2.buffer, peek(s2, to_read as int)),
                    current_block_id: Some(TzxBlockId::TurboSpeedData),
                    current_block_size: Some(block_size),
                    ..advance(s2, to_read as int)
                },
                Ok(true),
            )
        }
    }
}

/// The pure-tone block: pilot width and pulse count from the header, no
/// payload.
pub open spec fn spec_block_pure_tone(s: TzxView) -> (TzxView, Result<bool, TapeLoadError>) {
    if !can_read(s, 4) {
        (ended(s), Ok(false))
    } else {
        let h = peek(s, 4);
        let s1 = advance(s, 4);
        (
            TzxView {
                tape_timings: TapeTimings {
                    pilot_length: le16(h[0], h[1]) as usize,
                    pilot_tone_length: Some(le16(h[2], h[3]) as usize),
                    ..s1.tape_timings
                },
                current_block_id: Some(TzxBlockId::PureTone),
                ..s1
            },
            Ok(true),
        )
    }
}

/// The pulse-sequence block: a count byte, then that many 16-bit pulse
/// widths as payload; load the first window of them.
pub open spec fn spec_block_pulse_sequence(s: TzxView) -> (TzxView, Result<bool, TapeLoadError>) {
    if !can_read(s, 1) {
        (ended(s), Ok(false))
    } else {
        let count = peek(s, 1)[0];
        let s1 = TzxView {
            tape_timings: TapeTimings {
                pilot_tone_length: Some(count as usize),
                ..s.tape_timings
            },
            ..advance(s, 1)
        };
        let block_size = (count * 2) as usize;
        let to_read = clamp_to_window(block_size);
        if !can_read(s1, to_read as int) {
            (s1, Err(TapeLoadError::IoError))
        } else {
            (
                TzxView {
                    buffer: splice_prefix(s1.buffer, peek(s1, to_read as int)),
                    current_block_size: Some(block_size),
                    current_block_id: Some(TzxBlockId::PulseSequence),
                    ..advance(s1, to_read as int)
                },
                Ok(true),
            )
        }
    }
}

/// The pure-data block: bit timings from the header, no pilot tone; load
/// the first window of payload.
pub open spec fn spec_block_pure_data(s: TzxView) -> (TzxView, Result<bool, TapeLoadError>) {
    if !can_read(s, 10) {
        (ended(s), Ok(false))
    } else {
        let h = peek(s, 10);
        let s1 = advance(s, 10);
        let s2 = TzxView {
            tape_timings: TapeTimings {
                bit_0_length: le16(h[0], h[1]) as usize,
                bit_1_length: le16(h[2], h[3]) as usize,
                pause_length: le16(h[5], h[6]) as usize,
                ..s1.tape_timings
            },
            used_bits_in_last_byte: h[4] as usize,
            ..s1
        };
        let block_size = le24(h[7], h[8], h[9]) as usize;
        let to_read = clamp_to_window(block_size);
        if !can_read(s2, to_read as int) {
            (s2, Err(TapeLoadError::IoError))
        } else {
            (
                TzxView {
                    buffer: splice_prefix(s2.buffer, peek(s2, to_read as int)),
                    tape_timings: TapeTimings {
                        pilot_tone_length: None,
                        ..s2.tape_timings
                    },
                    current_block_id: Some(TzxBlockId::PureDataBlock),
                    current_block_size: Some(block_size),
                    ..advance(s2, to_read as int)
                },
                Ok(true),
            )
        }
    }
}

/// The direct-recording block: the sample width goes into the zero-bit
/// timing; a failed payload read ends the tape instead of surfacing.
pub open spec fn spec_block_direct_recording(s: TzxView) -> (TzxView, Result<bool, TapeLoadError>) {
    if !can_read(s, 8) {
        (ended(s), Ok(false))
    } else {
        let h = peek(s, 8);
        let s1 = advance(s, 8);
        let s2 = TzxView {
            tape_timings: TapeTimings {
                bit_0_length: le16(h[0], h[1]) as usize,
                pause_length: le16(h[2], h[3]) as usize,
                ..s1.tape_timings
            },
            used_bits_in_last_byte: h[4] as usize,
            ..s1
        };
        let block_size = le24(h[5], h[6], h[7]) as usize;
        let to_read = clamp_to_window(block_size);
        if !can_read(s2, to_read as int) {
            (ended(s2), Ok(false))
        } else {
            (
                TzxView {
                    buffer: splice_prefix(s2.buffer, peek(s2, to_read as int)),
                    current_block_id: Some(TzxBlockId::DirectRecording),
                    current_block_size: Some(block_size),
                    ..advance(s2, to_read as int)
                },
                Ok(true),
            )
        }
    }
}

/// An unsupported block with a 32-bit size field: skip its payload.
pub open spec fn spec_block_skip32(s: TzxView) -> (TzxView, Result<bool, TapeLoadError>) {
    if !can_read(s, 4) {
        (ended(s), Ok(false))
    } else {
        let h = peek(s, 4);
        let s1 = advance(s, 4);
        let skip = le32(h[0], h[1], h[2], h[3]);
        if s1.pos + skip > usize::MAX {
            (s1, Err(TapeLoadError::IoError))
        } else {
            (
                TzxView {
                    current_block_id: Some(TzxBlockId::Unknown),
                    ..advance(s1, skip)
                },
                Ok(true),
            )
        }
    }
}

/// A select or archive-info block: a 16-bit size field, payload skipped.
pub open spec fn spec_block_skip16(s: TzxView) -> (TzxView, Result<bool, TapeLoadError>) {
    if !can_read(s, 2) {
        (ended(s), Ok(false))
    } else {
        let h = peek(s, 2);
        let s1 = advance(s, 2);
        let skip = le16(h[0], h[1]);
        if s1.pos + skip > usize::MAX {
            (s1, Err(TapeLoadError::IoError))
        } else {
            (
                TzxView {
                    current_block_id: Some(TzxBlockId::Unknown),
                    ..advance(s1, skip)
                },
                Ok(true),
            )
        }
    }
}

/// The pause-or-stop block: a zero value stops the tape at once, any other
/// is buffered for the pulse machine to play as silence.
pub open spec fn spec_block_pause(s: TzxView) -> (TzxView, Result<bool, TapeLoadError>) {
    if !can_read(s, 2) {
        (ended(s), Ok(false))
    } else {
        let h = peek(s, 2);
        let s1 = advance(s, 2);
        if le16(h[0], h[1]) == 0 {
            (TzxView { delay: 0, ..s1 }, Ok(false))
        } else {
            (
                TzxView {
                    buffer: splice_prefix(s1.buffer, h),
                    current_block_id: Some(TzxBlockId::PauseOrSilence),
                    ..s1
                },
                Ok(true),
            )
        }
    }
}

/// A group-start or text-description block: a length byte and that many
/// text bytes, loaded into the window.
pub open spec fn spec_block_text(s: TzxView, id: TzxBlockId, set_size: bool) -> (
    TzxView,
    Result<bool, TapeLoadError>,
) {
    if !can_read(s, 1) {
        (ended(s), Ok(false))
    } else {
        let num_chars = peek(s, 1)[0];
        let s1 = advance(s, 1);
        if !can_read(s1, num_chars as int) {
            (ended(s1), Ok(false))
        } else {
            (
                TzxView {
                    buffer: splice_prefix(s1.buffer, peek(s1, num_chars as int)),
                    current_block_id: Some(id),
                    current_block_size: if set_size {
                        Some(num_chars as usize)
                    } else {
                        s1.current_block_size
                    },
                    ..advance(s1, num_chars as int)
                },
                Ok(true),
            )
        }
    }
}

/// The loop-start block: record the repetition count and the stream
/// position to return to.
pub open spec fn spec_block_loop_start(s: TzxView) -> (TzxView, Result<bool, TapeLoadError>) {
    if !can_read(s, 2) {
        (ended(s), Ok(false))
    } else {
        let h = peek(s, 2);
        let s1 = advance(s, 2);
        let s2 = TzxView { num_repetitions: Some(le16(h[0], h[1]) as u16), ..s1 };
        if s2.pos > usize::MAX {
            (s2, Err(TapeLoadError::IoError))
        } else {
            (TzxView { loop_start_marker: s2.pos as usize, ..s2 }, Ok(true))
        }
    }
}

/// The loop-end block: while repetitions remain, count one down and seek
/// back to the recorded marker; otherwise close the loop.
pub open spec fn spec_block_loop_end(s: TzxView) -> (TzxView, Result<bool, TapeLoadError>) {
    let s1 = TzxView { current_block_id: Some(TzxBlockId::LoopEnd), ..s };
    match s1.num_repetitions {
        Some(n) => {
            if n > 0 {
                (
                    TzxView {
                        num_repetitions: Some((n - 1) as u16),
                        pos: s1.loop_start_marker as nat,
                        ..s1
                    },
                    Ok(true),
                )
            } else {
                (TzxView { num_repetitions: None, ..s1 }, Ok(true))
            }
        },
        None => (TzxView { num_repetitions: None, ..s1 }, Ok(true)),
    }
}

/// The stop-if-48K block: on a 48K machine the tape stops; otherwise the
/// block is recorded and ignored.
pub open spec fn spec_block_stop_48k(s: TzxView) -> (TzxView, Result<bool, TapeLoadError>) {
    if !can_read(s, 4) {
        (ended(s), Ok(false))
    } else {
        let s1 = advance(s, 4);
        if s1.is_48k_mode {
            (s1, Ok(false))
        } else {
            (TzxView { current_block_id: Some(TzxBlockId::StopIf48k), ..s1 }, Ok(true))
        }
    }
}

/// Read and decode the next block header at the current position.  `false`
/// means the tape should stop: an explicit stop block or the end of the
/// stream.
pub open spec fn spec_next_block(s: TzxView) -> (TzxView, Result<bool, TapeLoadError>) {
    if s.tape_ended {
        (s, Ok(false))
    } else if !can_read(s, 1) {
        (ended(s), Ok(false))
    } else {
        let id = peek(s, 1)[0];
        let s1 = TzxView { buffer_offset: 0, block_bytes_read: 0, ..advance(s, 1) };
        if id == 0x10 {
            spec_block_standard(s1)
        } else if id == 0x11 {
            spec_block_turbo(s1)
        } else if id == 0x12 {
            spec_block_pure_tone(s1)
        } else if id == 0x13 {
            spec_block_pulse_sequence(s1)
        } else if id == 0x14 {
            spec_block_pure_data(s1)
        } else if id == 0x15 {
            spec_block_direct_recording(s1)
        } else if id == 0x16 || id == 0x17 || id == 0x18 || id == 0x19 || id == 0x2b {
            spec_block_skip32(s1)
        } else if id == 0x34 || id == 0x35 || id == 0x40 {
            (s1, Ok(true))
        } else if id == 0x20 {
            spec_block_pause(s1)
        } else if id == 0x21 {
            spec_block_text(s1, TzxBlockId::GroupStart, false)
        } else if id == 0x22 {
            (TzxView { current_block_id: Some(TzxBlockId::GroupEnd), ..s1 }, Ok(true))
        } else if id == 0x24 {
            spec_block_loop_start(s1)
        } else if id == 0x25 {
            spec_block_loop_end(s1)
        } else if id == 0x28 {
            spec_block_skip16(s1)
        } else if id == 0x2a {
            spec_block_stop_48k(s1)
        } else if id == 0x30 {
            spec_block_text(s1, TzxBlockId::TextDescription, true)
        } else if id == 0x32 {
            spec_block_skip16(s1)
        } else {
            (s1, Ok(true))
        }
    }
}

/// Result of reading one payload byte that must exist: the machine needs it
/// to prime a block.
pub open spec fn spec_required_byte(s: TzxView) -> (TzxView, Result<u8, TapeLoadError>) {
    let (s1, r) = spec_next_block_byte(s);
    match r {
        Err(e) => (s1, Err(e)),
        Ok(None) => (s1, Err(TapeLoadError::InvalidTzxFile)),
        Ok(Some(b)) => (s1, Ok(b)),
    }
}

/// Prime a standard or turbo data block: the first payload byte selects (or
/// the header supplied) the pilot pulse count; schedule the first pilot
/// edge.
pub open spec fn spec_dispatch_pilot(s: TzxView, turbo: bool) -> (
    TzxView,
    Result<(), TapeLoadError>,
) {
    let (s1, r) = spec_required_byte(s);
    match r {
        Err(e) => (s1, Err(e)),
        Ok(first_byte) => {
            let pulses_left = if turbo {
                s1.tape_timings.pilot_tone_length.unwrap()
            } else if first_byte == 0 {
                s1.tape_timings.pilot_pulses_header
            } else {
                s1.tape_timings.pilot_pulses_data
            };
            (
                TzxView {
                    curr_byte: first_byte,
                    delay: (s1.delay + s1.tape_timings.pilot_length) as i64,
                    state: TapeState::Pilot { pulses_left },
                    ..s1
                },
                Ok(()),
            )
        },
    }
}

/// Prime a pure-data or direct-recording block: fetch the first payload
/// byte, toggle the output, and start emitting bits at once.
pub open spec fn spec_dispatch_bits(s: TzxView, direct: bool) -> (
    TzxView,
    Result<(), TapeLoadError>,
) {
    let (s1, r) = spec_required_byte(s);
    match r {
        Err(e) => (s1, Err(e)),
        Ok(first_byte) => (
            TzxView {
                curr_byte: first_byte,
                curr_bit: !s1.curr_bit,
                state: if direct {
                    TapeState::NextDirectRecordingBit { mask: 0x80 }
                } else {
                    TapeState::NextBit { mask: 0x80 }
                },
                ..s1
            },
            Ok(()),
        ),
    }
}

/// Prime a pure-tone block: the recorded tone length gives the pulse count.
pub open spec fn spec_dispatch_pure_tone(s: TzxView) -> (TzxView, Result<(), TapeLoadError>) {
    (
        TzxView {
            delay: (s.delay + s.tape_timings.pilot_length) as i64,
            state: TapeState::PureTone { pulses_left: s.tape_timings.pilot_tone_length.unwrap() },
            ..s
        },
        Ok(()),
    )
}

/// Prime a pulse-sequence block: read the first pulse width from the
/// payload and schedule it.
pub open spec fn spec_dispatch_pulse_sequence(s: TzxView) -> (TzxView, Result<(), TapeLoadError>) {
    let (s1, r1) = spec_required_byte(s);
    match r1 {
        Err(e) => (s1, Err(e)),
        Ok(b1) => {
            let (s2, r2) = spec_required_byte(s1);
            match r2 {
                Err(e) => (s2, Err(e)),
                Ok(b2) => (
                    TzxView {
                        delay: (s2.delay + le16(b1, b2)) as i64,
                        state: TapeState::PulseSequence {
                            pulses_left: s2.tape_timings.pilot_tone_length.unwrap(),
                        },
                        ..s2
                    },
                    Ok(()),
                ),
            }
        },
    }
}

/// Prime a pause block: finish the trailing edge, then play the buffered
/// number of milliseconds as silence.
pub open spec fn spec_dispatch_silence(s: TzxView) -> (TzxView, Result<(), TapeLoadError>) {
    let (s1, r1) = spec_required_byte(s);
    match r1 {
        Err(e) => (s1, Err(e)),
        Ok(b1) => {
            let (s2, r2) = spec_required_byte(s1);
            match r2 {
                Err(e) => (s2, Err(e)),
                Ok(b2) => (
                    TzxView {
                        delay: (s2.delay + TSTATES_PER_MS) as i64,
                        state: TapeState::Silence { length: le16(b1, b2) as usize },
                        ..s2
                    },
                    Ok(()),
                ),
            }
        },
    }
}

/// Skipped blocks: drain any remaining payload and go back to reading
/// blocks.
pub open spec fn spec_dispatch_skip(s: TzxView) -> (TzxView, Result<(), TapeLoadError>) {
    let (s1, r) = spec_drain(s, drain_fuel(s));
    match r {
        Err(e) => (s1, Err(e)),
        Ok(_) => (TzxView { state: TapeState::Play, ..s1 }, Ok(())),
    }
}

/// Dispatch the block just decoded: prime the byte and timing registers and
/// pick the first pulse-machine state of the block.
pub open spec fn spec_process_current_block(s: TzxView) -> (TzxView, Result<(), TapeLoadError>) {
    match s.current_block_id {
        None => (TzxView { state: TapeState::Play, ..s }, Ok(())),
        Some(id) => match id {
            TzxBlockId::StandardSpeedData => spec_dispatch_pilot(s, false),
            TzxBlockId::TurboSpeedData => spec_dispatch_pilot(s, true),
            TzxBlockId::DirectRecording => spec_dispatch_bits(s, true),
            TzxBlockId::PureTone => spec_dispatch_pure_tone(s),
            TzxBlockId::PulseSequence => spec_dispatch_pulse_sequence(s),
            TzxBlockId::PureDataBlock => spec_dispatch_bits(s, false),
            TzxBlockId::PauseOrSilence => spec_dispatch_silence(s),
            TzxBlockId::LoopEnd => (TzxView { delay: 0, state: TapeState::Play, ..s }, Ok(())),
            TzxBlockId::GroupStart => (TzxView { delay: 0, state: TapeState::Play, ..s }, Ok(())),
            TzxBlockId::GroupEnd => (TzxView { delay: 0, state: TapeState::Play, ..s }, Ok(())),
            TzxBlockId::Unknown => (TzxView { state: TapeState::Play, ..s }, Ok(())),
            TzxBlockId::StopIf48k => (TzxView { state: TapeState::Play, ..s }, Ok(())),
            _ => spec_dispatch_skip(s),
        },
    }
}

/// Payload bytes still to be served from the current block: an upper bound
/// on the lazy reads a drain can perform.
pub open spec fn drain_fuel(s: TzxView) -> nat {
    match s.current_block_size {
        Some(n) => (n - s.block_bytes_read) as nat,
        None => 0,
    }
}

/// Drain the remaining payload of the current block, one lazy read at a
/// time, as the dispatcher does for blocks it only skips.
pub open spec fn spec_drain(s: TzxView, fuel: nat) -> (TzxView, Result<(), TapeLoadError>)
    decreases fuel,
{
    let (s1, r) = spec_next_block_byte(s);
    match r {
        Err(e) => (s1, Err(e)),
        Ok(None) => (s1, Ok(())),
        Ok(Some(_)) => {
            if fuel == 0 {
                (s1, Ok(()))
            } else {
                spec_drain(s1, (fuel - 1) as nat)
            }
        },
    }
}

/// How a machine-loop iteration continues.
pub enum StepFlow {
    /// Fall through to the next state in the same call.
    Cont,
    /// A future edge has been scheduled (or the machine stopped): return to
    /// the host.
    Brk,
    /// A structural failure surfaces to the caller.
    Fail(TapeLoadError),
}

/// Decrement with a floor of zero, as the pulse counters are consumed.
pub open spec fn dec_sat(n: usize) -> usize {
    if n > 0 {
        (n - 1) as usize
    } else {
        0
    }
}

/// One iteration of the pulse-machine loop: the transition of the state the
/// machine currently sits in.
pub open spec fn spec_step(s: TzxView) -> (TzxView, StepFlow) {
    match s.state {
        TapeState::Init => {
            let s0 = TzxView { pos: 0, ..s };
            if s0.data.len() >= HEADER_SIZE {
                (
                    TzxView { state: TapeState::Play, ..advance(s0, HEADER_SIZE as int) },
                    StepFlow::Cont,
                )
            } else {
                (s0, StepFlow::Fail(TapeLoadError::InvalidTapFile))
            }
        },
        TapeState::Stop => (s, StepFlow::Brk),
        TapeState::Play => {
            let (s1, r) = spec_next_block(s);
            match r {
                Err(e) => (s1, StepFlow::Fail(e)),
                Ok(keep_going) => (
                    TzxView {
                        state: if keep_going {
                            TapeState::Process
                        } else {
                            TapeState::Stop
                        },
                        ..s1
                    },
                    StepFlow::Cont,
                ),
            }
        },
        TapeState::Process => {
            let (s1, r) = spec_process_current_block(s);
            match r {
                Err(e) => (s1, StepFlow::Fail(e)),
                Ok(_) => (s1, StepFlow::Brk),
            }
        },
        TapeState::Pilot { pulses_left } => {
            let left = dec_sat(pulses_left);
            let s1 = TzxView { curr_bit: !s.curr_bit, ..s };
            if left == 0 {
                (
                    TzxView {
                        delay: (s1.delay + s1.tape_timings.sync1_length) as i64,
                        state: TapeState::Sync,
                        ..s1
                    },
                    StepFlow::Brk,
                )
            } else {
                (
                    TzxView {
                        delay: (s1.delay + s1.tape_timings.pilot_length) as i64,
                        state: TapeState::Pilot { pulses_left: left },
                        ..s1
                    },
                    StepFlow::Brk,
                )
            }
        },
        TapeState::PureTone { pulses_left } => {
            let left = dec_sat(pulses_left);
            let s1 = TzxView { curr_bit: !s.curr_bit, ..s };
            if left == 0 {
                (TzxView { state: TapeState::Play, ..s1 }, StepFlow::Brk)
            } else {
                (
                    TzxView {
                        delay: (s1.delay + s1.tape_timings.pilot_length) as i64,
                        state: TapeState::PureTone { pulses_left: left },
                        ..s1
                    },
                    StepFlow::Brk,
                )
            }
        },
        TapeState::PulseSequence { pulses_left } => {
            let left = dec_sat(pulses_left);
            let s1 = TzxView { curr_bit: !s.curr_bit, ..s };
            if left == 0 {
                (TzxView { state: TapeState::Play, ..s1 }, StepFlow::Brk)
            } else {
                let (s2, r1) = spec_required_byte(s1);
                match r1 {
                    Err(e) => (s2, StepFlow::Fail(e)),
                    Ok(b1) => {
                        let (s3, r2) = spec_required_byte(s2);
                        match r2 {
                            Err(e) => (s3, StepFlow::Fail(e)),
                            Ok(b2) => (
                                TzxView {
                                    delay: (s3.delay + le16(b1, b2)) as i64,
                                    state: TapeState::PulseSequence { pulses_left: left },
                                    ..s3
                                },
                                StepFlow::Brk,
                            ),
                        }
                    },
                }
            }
        },
        TapeState::Sync => (
            TzxView {
                curr_bit: !s.curr_bit,
                delay: (s.delay + s.tape_timings.sync2_length) as i64,
                state: TapeState::NextBit { mask: 0x80 },
                ..s
            },
            StepFlow::Brk,
        ),
        TapeState::NextByte { is_direct_recording_sample } => {
            let (s1, r) = spec_next_block_byte(s);
            match r {
                Err(e) => (s1, StepFlow::Fail(e)),
                Ok(Some(byte)) => (
                    TzxView {
                        curr_byte: byte,
                        state: if is_direct_recording_sample {
                            TapeState::NextDirectRecordingBit { mask: 0x80 }
                        } else {
                            TapeState::NextBit { mask: 0x80 }
                        },
                        ..s1
                    },
                    StepFlow::Cont,
                ),
                Ok(None) => (TzxView { state: TapeState::Pause, ..s1 }, StepFlow::Cont),
            }
        },
        TapeState::NextBit { mask } => {
            let s1 = TzxView { curr_bit: !s.curr_bit, ..s };
            let width = if s1.curr_byte & mask == 0 {
                s1.tape_timings.bit_0_length
            } else {
                s1.tape_timings.bit_1_length
            };
            (
                TzxView {
                    delay: (s1.delay + width) as i64,
                    state: TapeState::BitHalf { half_bit_delay: width, mask },
                    ..s1
                },
                StepFlow::Brk,
            )
        },
        TapeState::NextDirectRecordingBit { mask } => {
            let sample_low = s.curr_byte & mask == 0;
            let new_bit = if sample_low != s.curr_bit {
                !s.curr_bit
            } else {
                s.curr_bit
            };
            let new_mask = mask >> 1;
            let bits = dec_sat(s.bits_to_process_in_byte);
            (
                TzxView {
                    delay: (s.delay + s.tape_timings.bit_0_length) as i64,
                    curr_bit: new_bit,
                    bits_to_process_in_byte: bits,
                    state: if new_mask == 0 || bits == 0 {
                        TapeState::NextByte { is_direct_recording_sample: true }
                    } else {
                        TapeState::NextDirectRecordingBit { mask: new_mask }
                    },
                    ..s
                },
                StepFlow::Brk,
            )
        },
        TapeState::BitHalf { half_bit_delay, mask } => {
            let new_mask = mask >> 1;
            let bits = dec_sat(s.bits_to_process_in_byte);
            (
                TzxView {
                    curr_bit: !s.curr_bit,
                    delay: (s.delay + half_bit_delay) as i64,
                    bits_to_process_in_byte: bits,
                    state: if new_mask == 0 || bits == 0 {
                        TapeState::NextByte { is_direct_recording_sample: false }
                    } else {
                        TapeState::NextBit { mask: new_mask }
                    },
                    ..s
                },
                StepFlow::Brk,
            )
        },
        TapeState::Pause => {
            let new_delay = (s.delay + s.tape_timings.pause_length * TSTATES_PER_MS) as i64;
            let s1 = TzxView {
                delay: new_delay,
                state: TapeState::Play,
                curr_bit: !s.curr_bit,
                ..s
            };
            if new_delay > 0 {
                (s1, StepFlow::Brk)
            } else {
                (s1, StepFlow::Cont)
            }
        },
        TapeState::Silence { length } => (
            TzxView {
                curr_bit: !s.curr_bit,
                delay: (s.delay + length * TSTATES_PER_MS) as i64,
                state: TapeState::Play,
                ..s
            },
            StepFlow::Brk,
        ),
    }
}

/// Rank of a state in the zero-delay chase: every transition that falls
/// through strictly decreases it, so the machine loop terminates.
pub open spec fn rank(st: TapeState) -> nat {
    match st {
        TapeState::Init => 5,
        TapeState::NextByte { .. } => 4,
        TapeState::Pause => 3,
        TapeState::Play => 2,
        TapeState::Process => 1,
        _ => 0,
    }
}

/// Run the pulse machine from `s` until it schedules a future edge, stops,
/// or fails: the chase through zero-cost states inside one host call.
pub open spec fn spec_chase(s: TzxView) -> (TzxView, Result<(), TapeLoadError>)
    decreases rank(s.state),
{
    let (s1, flow) = spec_step(s);
    match flow {
        StepFlow::Fail(e) => (s1, Err(e)),
        StepFlow::Brk => (s1, Ok(())),
        StepFlow::Cont => {
            if rank(s1.state) < rank(s.state) {
                spec_chase(s1)
            } else {
                (s1, Ok(()))
            }
        },
    }
}

/// The whole of one host call: consume `clocks` T-states from the pending
/// delay and, once it has elapsed, chase the machine to the next edge.
pub open spec fn spec_process_clocks(s: TzxView, clocks: int) -> (
    TzxView,
    Result<(), TapeLoadError>,
) {
    if s.state is Stop {
        (s, Ok(()))
    } else {
        let s1 = if s.delay > 0 {
            TzxView { delay: (s.delay - clocks) as i64, ..s }
        } else {
            s
        };
        if s1.delay > 0 {
            (s1, Ok(()))
        } else {
            spec_chase(s1)
        }
    }
}

/// `s` with its saved resume state replaced by `p`.
pub open spec fn with_prev(s: TzxView, p: TapeState) -> TzxView {
    TzxView { prev_state: p, ..s }
}

/// The observable output of a run: the ear bit after each call of a clock
/// schedule.
pub open spec fn bit_trace(s: TzxView, schedule: Seq<int>) -> Seq<bool>
    decreases schedule.len(),
{
    if schedule.len() == 0 {
        Seq::empty()
    } else {
        let (s2, r) = spec_process_clocks(s, schedule[0]);
        seq![s2.curr_bit] + bit_trace(s2, schedule.skip(1))
    }
}

/// `stop`: remember the running state and halt.
pub open spec fn spec_stop(s: TzxView) -> TzxView {
    TzxView { prev_state: s.state, state: TapeState::Stop, ..s }
}

/// `play`: resume the remembered state, or start from `Play` when there is
/// nothing to resume.
pub open spec fn spec_play(s: TzxView) -> TzxView {
    if s.state is Stop {
        if s.prev_state is Stop {
            TzxView { state: TapeState::Play, ..s }
        } else {
            TzxView { state: s.prev_state, ..s }
        }
    } else {
        s
    }
}

/// `rewind`: clear the stream bookkeeping and the output bit and return the
/// source to the start of the data.
pub open spec fn spec_rewind(s: TzxView) -> TzxView {
    TzxView {
        curr_bit: false,
        curr_byte: 0,
        block_bytes_read: 0,
        buffer_offset: 0,
        current_block_size: None,
        delay: 0,
        pos: 0,
        tape_ended: false,
        ..s
    }
}

} // verus!
