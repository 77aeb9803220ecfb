//! The executable tape engine.
//!
//! Every mutating method is proved to transform the engine's view exactly as
//! the corresponding spec function of [`crate::model`] says, and to preserve
//! the engine invariant [`Tzx::wf`].

use vstd::prelude::*;

use crate::asset::{SeekFrom, TapeAsset};
use crate::model::{
    drain_fuel, le16, le24, rank, spec_block_direct_recording, spec_block_loop_end,
    spec_block_loop_start, spec_block_pause, spec_block_pulse_sequence, spec_block_pure_data,
    spec_block_pure_tone, spec_block_skip16, spec_block_skip32, spec_block_standard,
    spec_block_stop_48k, spec_block_text, spec_block_turbo, spec_chase, spec_dispatch_bits,
    spec_dispatch_pilot, spec_dispatch_pulse_sequence, spec_dispatch_pure_tone,
    spec_dispatch_silence, spec_drain,
    spec_next_block, spec_next_block_byte, spec_play, spec_process_clocks,
    spec_process_current_block, spec_required_byte, spec_rewind, spec_step, spec_stop,
    splice_prefix, StepFlow, TapeState, TzxView, BUFFER_SIZE, HEADER_SIZE,
};
use crate::timings::TapeTimings;
use crate::TapeLoadError;

pub use crate::model::TzxBlockId;

verus! {

/// A TZX tape bound to a byte source, playing through a pulse state machine.
pub struct Tzx<A: TapeAsset> {
    asset: A,
    state: TapeState,
    prev_state: TapeState,
    buffer: Vec<u8>,
    buffer_offset: usize,
    block_bytes_read: usize,
    current_block_id: Option<TzxBlockId>,
    current_block_size: Option<usize>,
    tape_ended: bool,
    curr_bit: bool,
    curr_byte: u8,
    delay: i64,
    tape_timings: TapeTimings,
    used_bits_in_last_byte: usize,
    bits_to_process_in_byte: usize,
    loop_start_marker: usize,
    num_repetitions: Option<u16>,
    is_48k_mode: bool,
}

impl<A: TapeAsset> View for Tzx<A> {
    type V = TzxView;

    closed spec fn view(&self) -> TzxView {
        TzxView {
            data: self.asset.data(),
            pos: self.asset.pos(),
            state: self.state,
            prev_state: self.prev_state,
            buffer: self.buffer@,
            buffer_offset: self.buffer_offset,
            block_bytes_read: self.block_bytes_read,
            current_block_id: self.current_block_id,
            current_block_size: self.current_block_size,
            tape_ended: self.tape_ended,
            curr_bit: self.curr_bit,
            curr_byte: self.curr_byte,
            delay: self.delay,
            tape_timings: self.tape_timings,
            used_bits_in_last_byte: self.used_bits_in_last_byte,
            bits_to_process_in_byte: self.bits_to_process_in_byte,
            loop_start_marker: self.loop_start_marker,
            num_repetitions: self.num_repetitions,
            is_48k_mode: self.is_48k_mode,
        }
    }
}

/// Overwrite the prefix of `buffer` with `bytes`, leaving the rest; bytes
/// beyond the buffer's capacity are dropped.
fn fill_prefix(buffer: &mut Vec<u8>, bytes: &Vec<u8>)
    ensures
        final(buffer)@ == splice_prefix(old(buffer)@, bytes@),
{
    let n = if bytes.len() < buffer.len() {
        bytes.len()
    } else {
        buffer.len()
    };
    let mut i: usize = 0;
    while i < n
        invariant
            i <= n <= buffer@.len(),
            n <= bytes@.len(),
            buffer@.len() == old(buffer)@.len(),
            forall|j: int| 0 <= j < i ==> buffer@[j] == bytes@[j],
            forall|j: int| i <= j < buffer@.len() ==> buffer@[j] == old(buffer)@[j],
        decreases n - i,
    {
        buffer[i] = bytes[i];
        i = i + 1;
    }
    proof {
        assert(buffer@ =~= splice_prefix(old(buffer)@, bytes@));
    }
}

/// The little-endian value of two bytes, as a `usize`.
fn le16_usize(b0: u8, b1: u8) -> (r: usize)
    ensures
        r == le16(b0, b1),
{
    b0 as usize + 256 * (b1 as usize)
}

/// The little-endian value of three bytes, as a `usize`.
fn le24_usize(b0: u8, b1: u8, b2: u8) -> (r: usize)
    ensures
        r == le24(b0, b1, b2),
{
    b0 as usize + 256 * (b1 as usize) + 65536 * (b2 as usize)
}

impl<A: TapeAsset> Tzx<A> {
    /// The engine invariant, stated on the view.
    pub open spec fn wf(&self) -> bool {
        self@.wf()
    }

    /// Bind a byte source to a fresh engine.  The source is left at its
    /// current position; the file header is read on the first clock.
    pub fn from_asset(asset: A, is48k: bool) -> (r: Result<Self, TapeLoadError>)
        ensures
            r matches Ok(t) && t@ == TzxView::initial(asset.data(), asset.pos(), is48k),
            r matches Ok(t) ==> t.wf(),
    {
        let mut buffer: Vec<u8> = Vec::new();
        let mut i: usize = 0;
        while i < BUFFER_SIZE
            invariant
                i <= BUFFER_SIZE,
                buffer@.len() == i,
                forall|j: int| 0 <= j < i ==> buffer@[j] == 0u8,
            decreases BUFFER_SIZE - i,
        {
            buffer.push(0u8);
            i = i + 1;
        }
        proof {
            assert(buffer@ =~= Seq::new(BUFFER_SIZE as nat, |j: int| 0u8));
        }
        let tzx = Tzx {
            prev_state: TapeState::Stop,
            state: TapeState::Init,
            curr_bit: false,
            curr_byte: 0x00,
            buffer,
            buffer_offset: 0,
            block_bytes_read: 0,
            current_block_id: None,
            current_block_size: None,
            delay: 0,
            asset,
            tape_ended: false,
            tape_timings: TapeTimings::default(),
            used_bits_in_last_byte: 8,
            bits_to_process_in_byte: 0,
            loop_start_marker: 0,
            num_repetitions: None,
            is_48k_mode: is48k,
        };
        Ok(tzx)
    }

    /// Whether a ROM-trap fast load could take over: true exactly when the
    /// machine is stopped.
    pub fn can_fast_load(&self) -> (r: bool)
        ensures
            r == (self@.state is Stop),
    {
        self.state == TapeState::Stop
    }

    /// The one-bit ear output, toggled on every half-pulse edge.
    pub fn current_bit(&self) -> (r: bool)
        ensures
            r == self@.curr_bit,
    {
        self.curr_bit
    }

    /// Halt the tape, remembering the running state for `play`.
    pub fn stop(&mut self)
        requires
            old(self).wf(),
        ensures
            final(self).wf(),
            final(self)@ == spec_stop(old(self)@),
    {
        let state = self.state;
        self.prev_state = state;
        self.state = TapeState::Stop;
    }

    /// Resume the state remembered by `stop`, or start playing when there
    /// is nothing to resume.
    pub fn play(&mut self)
        requires
            old(self).wf(),
        ensures
            final(self).wf(),
            final(self)@ == spec_play(old(self)@),
    {
        if self.state == TapeState::Stop {
            if self.prev_state == TapeState::Stop {
                self.state = TapeState::Play;
            } else {
                self.state = self.prev_state;
            }
        }
    }

    /// Return the source to the start of the data and clear the stream
    /// bookkeeping and the output bit.
    pub fn rewind(&mut self) -> (r: Result<(), TapeLoadError>)
        requires
            old(self).wf(),
        ensures
            final(self).wf(),
            final(self)@ == spec_rewind(old(self)@),
            r is Ok,
    {
        self.curr_bit = false;
        self.curr_byte = 0x00;
        self.block_bytes_read = 0;
        self.buffer_offset = 0;
        self.current_block_size = None;
        self.delay = 0;
        match self.asset.seek(SeekFrom::Start(0)) {
            Ok(_) => {},
            Err(_) => {
                proof {
                    assert(false);
                }
            },
        }
        self.tape_ended = false;
        Ok(())
    }

    /// One lazy read from the current block's payload, refilling the
    /// sliding window from the source when the consumer crosses it.
    /// `None` once the block is exhausted.
    pub fn next_block_byte(&mut self) -> (r: Result<Option<u8>, TapeLoadError>)
        requires
            old(self).wf(),
        ensures
            final(self).wf(),
            ({
                let (v, rr) = spec_next_block_byte(old(self)@);
                final(self)@ == v && r == rr
            }),
            final(self)@.delay == old(self)@.delay,
    {
        if self.tape_ended {
            return Ok(None);
        }
        let block_size = match self.current_block_size {
            Some(n) => n,
            None => {
                return Ok(None);
            },
        };
        if self.block_bytes_read >= block_size {
            return Ok(None);
        }

        let mut buffer_read_pos = self.block_bytes_read - self.buffer_offset;

        if buffer_read_pos >= BUFFER_SIZE {
            let remaining = block_size - self.buffer_offset - BUFFER_SIZE;
            let bytes_to_read = if remaining < BUFFER_SIZE {
                remaining
            } else {
                BUFFER_SIZE
            };
            match self.asset.read_exact(bytes_to_read) {
                Ok(bytes) => {
                    fill_prefix(&mut self.buffer, &bytes);
                    self.buffer_offset = self.buffer_offset + BUFFER_SIZE;
                    buffer_read_pos = 0;
                },
                Err(_) => {
                    return Err(TapeLoadError::IoError);
                },
            }
        }

        let result = self.buffer[buffer_read_pos];
        self.block_bytes_read = self.block_bytes_read + 1;

        if self.block_bytes_read >= block_size {
            self.bits_to_process_in_byte = self.used_bits_in_last_byte;
        } else {
            self.bits_to_process_in_byte = 8;
        }
        Ok(Some(result))
    }

    /// Standard-speed data: reset every timing to the ROM defaults, take
    /// pause and size from the header, load the first payload window.
    fn read_standard_speed_data(&mut self) -> (r: Result<bool, TapeLoadError>)
        requires
            old(self).wf(),
            old(self)@.block_bytes_read == 0,
            old(self)@.buffer_offset == 0,
        ensures
            final(self).wf(),
            ({
                let (v, rr) = spec_block_standard(old(self)@);
                final(self)@ == v && r == rr
            }),
    {
        let h = match self.asset.read_exact(4) {
            Ok(v) => v,
            Err(_) => {
                self.tape_ended = true;
                return Ok(false);
            },
        };
        self.tape_timings.pilot_length = crate::timings::STD_PILOT_LENGTH;
        self.tape_timings.sync1_length = crate::timings::STD_SYNC1_LENGTH;
        self.tape_timings.sync2_length = crate::timings::STD_SYNC2_LENGTH;
        self.tape_timings.pilot_pulses_header = crate::timings::STD_PILOT_PULSES_HEADER;
        self.tape_timings.pilot_pulses_data = crate::timings::STD_PILOT_PULSES_DATA;
        self.tape_timings.bit_0_length = crate::timings::STD_BIT_ZERO_LENGTH;
        self.tape_timings.bit_1_length = crate::timings::STD_BIT_ONE_LENGTH;
        self.tape_timings.pause_length = le16_usize(h[0], h[1]);
        let block_size = le16_usize(h[2], h[3]);
        let to_read = if block_size < BUFFER_SIZE {
            block_size
        } else {
            BUFFER_SIZE
        };
        let bytes = match self.asset.read_exact(to_read) {
            Ok(v) => v,
            Err(_) => {
                return Err(TapeLoadError::IoError);
            },
        };
        fill_prefix(&mut self.buffer, &bytes);
        self.current_block_id = Some(TzxBlockId::StandardSpeedData);
        self.current_block_size = Some(block_size);
        Ok(true)
    }

    /// Turbo-speed data: every timing parameter comes from the 18-byte
    /// header; load the first payload window.
    fn read_turbo_speed_data(&mut self) -> (r: Result<bool, TapeLoadError>)
        requires
            old(self).wf(),
            old(self)@.block_bytes_read == 0,
            old(self)@.buffer_offset == 0,
        ensures
            final(self).wf(),
            ({
                let (v, rr) = spec_block_turbo(old(self)@);
                final(self)@ == v && r == rr
            }),
    {
        let h = match self.asset.read_exact(18) {
            Ok(v) => v,
            Err(_) => {
                self.tape_ended = true;
                return Ok(false);
            },
        };
        self.tape_timings.pilot_length = le16_usize(h[0], h[1]);
        self.tape_timings.sync1_length = le16_usize(h[2], h[3]);
        self.tape_timings.sync2_length = le16_usize(h[4], h[5]);
        self.tape_timings.bit_0_length = le16_usize(h[6], h[7]);
        self.tape_timings.bit_1_length = le16_usize(h[8], h[9]);
        self.tape_timings.pilot_tone_length = Some(le16_usize(h[10], h[11]));
        self.used_bits_in_last_byte = h[12] as usize;
        self.tape_timings.pause_length = le16_usize(h[13], h[14]);
        let block_size = le24_usize(h[15], h[16], h[17]);
        let to_read = if block_size < BUFFER_SIZE {
            block_size
        } else {
            BUFFER_SIZE
        };
        let bytes = match self.asset.read_exact(to_read) {
            Ok(v) => v,
            Err(_) => {
                return Err(TapeLoadError::IoError);
            },
        };
        fill_prefix(&mut self.buffer, &bytes);
        self.current_block_id = Some(TzxBlockId::TurboSpeedData);
        self.current_block_size = Some(block_size);
        Ok(true)
    }

    /// Pure tone: pilot width and pulse count, no payload.
    fn read_pure_tone(&mut self) -> (r: Result<bool, TapeLoadError>)
        requires
            old(self).wf(),
        ensures
            final(self).wf(),
            ({
                let (v, rr) = spec_block_pure_tone(old(self)@);
                final(self)@ == v && r == rr
            }),
    {
        let h = match self.asset.read_exact(4) {
            Ok(v) => v,
            Err(_) => {
                self.tape_ended = true;
                return Ok(false);
            },
        };
        self.tape_timings.pilot_length = le16_usize(h[0], h[1]);
        self.tape_timings.pilot_tone_length = Some(le16_usize(h[2], h[3]));
        self.current_block_id = Some(TzxBlockId::PureTone);
        Ok(true)
    }

    /// Pulse sequence: a count byte, then that many 16-bit pulse widths as
    /// payload.
    fn read_pulse_sequence(&mut self) -> (r: Result<bool, TapeLoadError>)
        requires
            old(self).wf(),
            old(self)@.block_bytes_read == 0,
            old(self)@.buffer_offset == 0,
        ensures
            final(self).wf(),
            ({
                let (v, rr) = spec_block_pulse_sequence(old(self)@);
                final(self)@ == v && r == rr
            }),
    {
        let h = match self.asset.read_exact(1) {
            Ok(v) => v,
            Err(_) => {
                self.tape_ended = true;
                return Ok(false);
            },
        };
        let count = h[0];
        self.tape_timings.pilot_tone_length = Some(count as usize);
        let block_size = (count as usize) * 2;
        let to_read = if block_size < BUFFER_SIZE {
            block_size
        } else {
            BUFFER_SIZE
        };
        let bytes = match self.asset.read_exact(to_read) {
            Ok(v) => v,
            Err(_) => {
                return Err(TapeLoadError::IoError);
            },
        };
        fill_prefix(&mut self.buffer, &bytes);
        self.current_block_size = Some(block_size);
        self.current_block_id = Some(TzxBlockId::PulseSequence);
        Ok(true)
    }

    /// Pure data: bit timings from the header, no pilot tone.
    fn read_pure_data(&mut self) -> (r: Result<bool, TapeLoadError>)
        requires
            old(self).wf(),
            old(self)@.block_bytes_read == 0,
            old(self)@.buffer_offset == 0,
        ensures
            final(self).wf(),
            ({
                let (v, rr) = spec_block_pure_data(old(self)@);
                final(self)@ == v && r == rr
            }),
    {
        let h = match self.asset.read_exact(10) {
            Ok(v) => v,
            Err(_) => {
                self.tape_ended = true;
                return Ok(false);
            },
        };
        self.tape_timings.bit_0_length = le16_usize(h[0], h[1]);
        self.tape_timings.bit_1_length = le16_usize(h[2], h[3]);
        self.used_bits_in_last_byte = h[4] as usize;
        self.tape_timings.pause_length = le16_usize(h[5], h[6]);
        let block_size = le24_usize(h[7], h[8], h[9]);
        let to_read = if block_size < BUFFER_SIZE {
            block_size
        } else {
            BUFFER_SIZE
        };
        let bytes = match self.asset.read_exact(to_read) {
            Ok(v) => v,
            Err(_) => {
                return Err(TapeLoadError::IoError);
            },
        };
        fill_prefix(&mut self.buffer, &bytes);
        self.tape_timings.pilot_tone_length = None;
        self.current_block_id = Some(TzxBlockId::PureDataBlock);
        self.current_block_size = Some(block_size);
        Ok(true)
    }

    /// Direct recording: the sample width goes into the zero-bit timing; a
    /// failed payload read ends the tape instead of surfacing.
    fn read_direct_recording(&mut self) -> (r: Result<bool, TapeLoadError>)
        requires
            old(self).wf(),
            old(self)@.block_bytes_read == 0,
            old(self)@.buffer_offset == 0,
        ensures
            final(self).wf(),
            ({
                let (v, rr) = spec_block_direct_recording(old(self)@);
                final(self)@ == v && r == rr
            }),
    {
        let h = match self.asset.read_exact(8) {
            Ok(v) => v,
            Err(_) => {
                self.tape_ended = true;
                return Ok(false);
            },
        };
        self.tape_timings.bit_0_length = le16_usize(h[0], h[1]);
        self.tape_timings.pause_length = le16_usize(h[2], h[3]);
        self.used_bits_in_last_byte = h[4] as usize;
        let block_size = le24_usize(h[5], h[6], h[7]);
        let to_read = if block_size < BUFFER_SIZE {
            block_size
        } else {
            BUFFER_SIZE
        };
        let bytes = match self.asset.read_exact(to_read) {
            Ok(v) => v,
            Err(_) => {
                self.tape_ended = true;
                return Ok(false);
            },
        };
        fill_prefix(&mut self.buffer, &bytes);
        self.current_block_id = Some(TzxBlockId::DirectRecording);
        self.current_block_size = Some(block_size);
        Ok(true)
    }

    /// An unsupported block with a 32-bit size field: skip its payload.
    fn skip_block_32(&mut self) -> (r: Result<bool, TapeLoadError>)
        requires
            old(self).wf(),
        ensures
            final(self).wf(),
            ({
                let (v, rr) = spec_block_skip32(old(self)@);
                final(self)@ == v && r == rr
            }),
    {
        let h = match self.asset.read_exact(4) {
            Ok(v) => v,
            Err(_) => {
                self.tape_ended = true;
                return Ok(false);
            },
        };
        let skip: i64 = h[0] as i64 + 256 * (h[1] as i64) + 65536 * (h[2] as i64) + 16777216 * (
        h[3] as i64);
        match self.asset.seek(SeekFrom::Current(skip)) {
            Ok(_) => {},
            Err(_) => {
                return Err(TapeLoadError::IoError);
            },
        }
        self.current_block_id = Some(TzxBlockId::Unknown);
        Ok(true)
    }

    /// A select or archive-info block: a 16-bit size field, payload
    /// skipped.
    fn skip_block_16(&mut self) -> (r: Result<bool, TapeLoadError>)
        requires
            old(self).wf(),
        ensures
            final(self).wf(),
            ({
                let (v, rr) = spec_block_skip16(old(self)@);
                final(self)@ == v && r == rr
            }),
    {
        let h = match self.asset.read_exact(2) {
            Ok(v) => v,
            Err(_) => {
                self.tape_ended = true;
                return Ok(false);
            },
        };
        let skip: i64 = h[0] as i64 + 256 * (h[1] as i64);
        match self.asset.seek(SeekFrom::Current(skip)) {
            Ok(_) => {},
            Err(_) => {
                return Err(TapeLoadError::IoError);
            },
        }
        self.current_block_id = Some(TzxBlockId::Unknown);
        Ok(true)
    }

    /// Pause or stop: a zero value stops the tape at once, any other is
    /// buffered for the pulse machine to play as silence.
    fn read_pause_or_stop(&mut self) -> (r: Result<bool, TapeLoadError>)
        requires
            old(self).wf(),
        ensures
            final(self).wf(),
            ({
                let (v, rr) = spec_block_pause(old(self)@);
                final(self)@ == v && r == rr
            }),
    {
        let h = match self.asset.read_exact(2) {
            Ok(v) => v,
            Err(_) => {
                self.tape_ended = true;
                return Ok(false);
            },
        };
        let val = le16_usize(h[0], h[1]);
        if val == 0 {
            self.delay = 0;
            return Ok(false);
        }
        fill_prefix(&mut self.buffer, &h);
        self.current_block_id = Some(TzxBlockId::PauseOrSilence);
        Ok(true)
    }

    /// A group-start or text-description block: a length byte and that many
    /// text bytes, loaded into the window.
    fn read_text_block(&mut self, id: TzxBlockId, set_size: bool) -> (r: Result<
        bool,
        TapeLoadError,
    >)
        requires
            old(self).wf(),
            old(self)@.block_bytes_read == 0,
            old(self)@.buffer_offset == 0,
            id is GroupStart || id is TextDescription,
        ensures
            final(self).wf(),
            ({
                let (v, rr) = spec_block_text(old(self)@, id, set_size);
                final(self)@ == v && r == rr
            }),
    {
        let h = match self.asset.read_exact(1) {
            Ok(v) => v,
            Err(_) => {
                self.tape_ended = true;
                return Ok(false);
            },
        };
        let num_chars = h[0];
        let text = match self.asset.read_exact(num_chars as usize) {
            Ok(v) => v,
            Err(_) => {
                self.tape_ended = true;
                return Ok(false);
            },
        };
        fill_prefix(&mut self.buffer, &text);
        self.current_block_id = Some(id);
        if set_size {
            self.current_block_size = Some(num_chars as usize);
        }
        Ok(true)
    }

    /// Loop start: record the repetition count and the stream position to
    /// return to.
    fn read_loop_start(&mut self) -> (r: Result<bool, TapeLoadError>)
        requires
            old(self).wf(),
        ensures
            final(self).wf(),
            ({
                let (v, rr) = spec_block_loop_start(old(self)@);
                final(self)@ == v && r == rr
            }),
    {
        let h = match self.asset.read_exact(2) {
            Ok(v) => v,
            Err(_) => {
                self.tape_ended = true;
                return Ok(false);
            },
        };
        let reps: u16 = h[0] as u16 + 256 * (h[1] as u16);
        self.num_repetitions = Some(reps);
        match self.asset.seek(SeekFrom::Current(0)) {
            Ok(p) => {
                self.loop_start_marker = p;
                Ok(true)
            },
            Err(_) => Err(TapeLoadError::IoError),
        }
    }

    /// Loop end: while repetitions remain, count one down and seek back to
    /// the recorded marker; otherwise close the loop.
    fn read_loop_end(&mut self) -> (r: Result<bool, TapeLoadError>)
        requires
            old(self).wf(),
        ensures
            final(self).wf(),
            ({
                let (v, rr) = spec_block_loop_end(old(self)@);
                final(self)@ == v && r == rr
            }),
    {
        self.current_block_id = Some(TzxBlockId::LoopEnd);
        match self.num_repetitions {
            Some(n) => {
                if n > 0 {
                    self.num_repetitions = Some(n - 1);
                    match self.asset.seek(SeekFrom::Start(self.loop_start_marker)) {
                        Ok(_) => {},
                        Err(_) => {
                            proof {
                                assert(false);
                            }
                        },
                    }
                    Ok(true)
                } else {
                    self.num_repetitions = None;
                    Ok(true)
                }
            },
            None => {
                self.num_repetitions = None;
                Ok(true)
            },
        }
    }

    /// Stop-if-48K: on a 48K machine the tape stops; otherwise the block is
    /// recorded and ignored.
    fn read_stop_if_48k(&mut self) -> (r: Result<bool, TapeLoadError>)
        requires
            old(self).wf(),
        ensures
            final(self).wf(),
            ({
                let (v, rr) = spec_block_stop_48k(old(self)@);
                final(self)@ == v && r == rr
            }),
    {
        match self.asset.read_exact(4) {
            Ok(_header) => {},
            Err(_) => {
                self.tape_ended = true;
                return Ok(false);
            },
        }
        if self.is_48k_mode {
            return Ok(false);
        }
        self.current_block_id = Some(TzxBlockId::StopIf48k);
        Ok(true)
    }

    /// Read and decode the next block header at the current position.
    /// `Ok(false)` means the tape should stop: an explicit stop block or
    /// the end of the stream.
    pub fn next_block(&mut self) -> (r: Result<bool, TapeLoadError>)
        requires
            old(self).wf(),
        ensures
            final(self).wf(),
            ({
                let (v, rr) = spec_next_block(old(self)@);
                final(self)@ == v && r == rr
            }),
            final(self)@.delay == old(self)@.delay || final(self)@.delay == 0,
    {
        if self.tape_ended {
            return Ok(false);
        }
        let id_bytes = match self.asset.read_exact(1) {
            Ok(v) => v,
            Err(_) => {
                self.tape_ended = true;
                return Ok(false);
            },
        };
        let block_id = id_bytes[0];
        self.buffer_offset = 0;
        self.block_bytes_read = 0;
        if block_id == 0x10 {
            self.read_standard_speed_data()
        } else if block_id == 0x11 {
            self.read_turbo_speed_data()
        } else if block_id == 0x12 {
            self.read_pure_tone()
        } else if block_id == 0x13 {
            self.read_pulse_sequence()
        } else if block_id == 0x14 {
            self.read_pure_data()
        } else if block_id == 0x15 {
            self.read_direct_recording()
        } else if block_id == 0x16 || block_id == 0x17 || block_id == 0x18 || block_id == 0x19
            || block_id == 0x2b {
            self.skip_block_32()
        } else if block_id == 0x34 || block_id == 0x35 || block_id == 0x40 {
            Ok(true)
        } else if block_id == 0x20 {
            self.read_pause_or_stop()
        } else if block_id == 0x21 {
            self.read_text_block(TzxBlockId::GroupStart, false)
        } else if block_id == 0x22 {
            self.current_block_id = Some(TzxBlockId::GroupEnd);
            Ok(true)
        } else if block_id == 0x24 {
            self.read_loop_start()
        } else if block_id == 0x25 {
            self.read_loop_end()
        } else if block_id == 0x28 {
            self.skip_block_16()
        } else if block_id == 0x2a {
            self.read_stop_if_48k()
        } else if block_id == 0x30 {
            self.read_text_block(TzxBlockId::TextDescription, true)
        } else if block_id == 0x32 {
            self.skip_block_16()
        } else {
            Ok(true)
        }
    }

    /// One payload byte that must exist: its absence is a structural fault
    /// of the stream.
    fn required_block_byte(&mut self) -> (r: Result<u8, TapeLoadError>)
        requires
            old(self).wf(),
        ensures
            final(self).wf(),
            ({
                let (v, rr) = spec_required_byte(old(self)@);
                final(self)@ == v && r == rr
            }),
    {
        match self.next_block_byte() {
            Err(e) => Err(e),
            Ok(None) => Err(TapeLoadError::InvalidTzxFile),
            Ok(Some(b)) => Ok(b),
        }
    }

    /// Prime a standard or turbo data block: the first payload byte selects
    /// (or the header supplied) the pilot pulse count; schedule the first
    /// pilot edge.
    fn dispatch_pilot(&mut self, turbo: bool) -> (r: Result<(), TapeLoadError>)
        requires
            old(self).wf(),
            old(self)@.delay <= 0,
            turbo ==> old(self)@.tape_timings.pilot_tone_length is Some,
        ensures
            final(self).wf(),
            ({
                let (v, rr) = spec_dispatch_pilot(old(self)@, turbo);
                final(self)@ == v && r == rr
            }),
    {
        let first_byte = match self.required_block_byte() {
            Ok(b) => b,
            Err(e) => {
                return Err(e);
            },
        };
        let pulses_left = if turbo {
            match self.tape_timings.pilot_tone_length {
                Some(n) => n,
                None => {
                    proof {
                        assert(false);
                    }
                    0
                },
            }
        } else if first_byte == 0x00 {
            self.tape_timings.pilot_pulses_header
        } else {
            self.tape_timings.pilot_pulses_data
        };
        self.curr_byte = first_byte;
        self.delay = self.delay + self.tape_timings.pilot_length as i64;
        self.state = TapeState::Pilot { pulses_left };
        Ok(())
    }

    /// Prime a pure-data or direct-recording block: fetch the first payload
    /// byte, toggle the output, and start emitting bits at once.
    fn dispatch_bits(&mut self, direct: bool) -> (r: Result<(), TapeLoadError>)
        requires
            old(self).wf(),
        ensures
            final(self).wf(),
            ({
                let (v, rr) = spec_dispatch_bits(old(self)@, direct);
                final(self)@ == v && r == rr
            }),
    {
        let first_byte = match self.required_block_byte() {
            Ok(b) => b,
            Err(e) => {
                return Err(e);
            },
        };
        self.curr_byte = first_byte;
        self.curr_bit = !self.curr_bit;
        if direct {
            self.state = TapeState::NextDirectRecordingBit { mask: 0x80 };
        } else {
            self.state = TapeState::NextBit { mask: 0x80 };
        }
        Ok(())
    }

    /// Prime a pure-tone block: the recorded tone length gives the pulse
    /// count.
    fn dispatch_pure_tone(&mut self) -> (r: Result<(), TapeLoadError>)
        requires
            old(self).wf(),
            old(self)@.delay <= 0,
            old(self)@.tape_timings.pilot_tone_length is Some,
        ensures
            final(self).wf(),
            ({
                let (v, rr) = spec_dispatch_pure_tone(old(self)@);
                final(self)@ == v && r == rr
            }),
    {
        let pulses_left = match self.tape_timings.pilot_tone_length {
            Some(n) => n,
            None => {
                proof {
                    assert(false);
                }
                0
            },
        };
        self.delay = self.delay + self.tape_timings.pilot_length as i64;
        self.state = TapeState::PureTone { pulses_left };
        Ok(())
    }

    /// Prime a pulse-sequence block: read the first pulse width from the
    /// payload and schedule it.
    fn dispatch_pulse_sequence(&mut self) -> (r: Result<(), TapeLoadError>)
        requires
            old(self).wf(),
            old(self)@.delay <= 0,
            old(self)@.tape_timings.pilot_tone_length is Some,
        ensures
            final(self).wf(),
            ({
                let (v, rr) = spec_dispatch_pulse_sequence(old(self)@);
                final(self)@ == v && r == rr
            }),
    {
        let byte1 = match self.required_block_byte() {
            Ok(b) => b,
            Err(e) => {
                return Err(e);
            },
        };
        let byte2 = match self.required_block_byte() {
            Ok(b) => b,
            Err(e) => {
                return Err(e);
            },
        };
        let pulses_left = match self.tape_timings.pilot_tone_length {
            Some(n) => n,
            None => {
                proof {
                    assert(false);
                }
                0
            },
        };
        self.delay = self.delay + le16_usize(byte1, byte2) as i64;
        self.state = TapeState::PulseSequence { pulses_left };
        Ok(())
    }

    /// Prime a pause block: finish the trailing edge, then play the
    /// buffered number of milliseconds as silence.
    fn dispatch_silence(&mut self) -> (r: Result<(), TapeLoadError>)
        requires
            old(self).wf(),
            old(self)@.delay <= 0,
        ensures
            final(self).wf(),
            ({
                let (v, rr) = spec_dispatch_silence(old(self)@);
                final(self)@ == v && r == rr
            }),
    {
        let byte1 = match self.required_block_byte() {
            Ok(b) => b,
            Err(e) => {
                return Err(e);
            },
        };
        let byte2 = match self.required_block_byte() {
            Ok(b) => b,
            Err(e) => {
                return Err(e);
            },
        };
        let length = le16_usize(byte1, byte2);
        self.delay = self.delay + 3500;
        self.state = TapeState::Silence { length };
        Ok(())
    }

    /// Dispatch the block just decoded: prime the byte and timing registers
    /// and pick the first pulse-machine state of the block.
    fn process_current_block(&mut self) -> (r: Result<(), TapeLoadError>)
        requires
            old(self).wf(),
            old(self)@.delay <= 0,
        ensures
            final(self).wf(),
            ({
                let (v, rr) = spec_process_current_block(old(self)@);
                final(self)@ == v && r == rr
            }),
    {
        let block_id = match self.current_block_id {
            Some(id) => id,
            None => {
                self.state = TapeState::Play;
                return Ok(());
            },
        };
        match block_id {
            TzxBlockId::StandardSpeedData => self.dispatch_pilot(false),
            TzxBlockId::TurboSpeedData => self.dispatch_pilot(true),
            TzxBlockId::DirectRecording => self.dispatch_bits(true),
            TzxBlockId::PureTone => self.dispatch_pure_tone(),
            TzxBlockId::PulseSequence => self.dispatch_pulse_sequence(),
            TzxBlockId::PureDataBlock => self.dispatch_bits(false),
            TzxBlockId::PauseOrSilence => self.dispatch_silence(),
            TzxBlockId::LoopEnd => {
                self.delay = 0;
                self.state = TapeState::Play;
                Ok(())
            },
            TzxBlockId::GroupStart => {
                self.delay = 0;
                self.state = TapeState::Play;
                Ok(())
            },
            TzxBlockId::GroupEnd => {
                self.delay = 0;
                self.state = TapeState::Play;
                Ok(())
            },
            TzxBlockId::Unknown => {
                self.state = TapeState::Play;
                Ok(())
            },
            TzxBlockId::StopIf48k => {
                self.state = TapeState::Play;
                Ok(())
            },
            _ => {
                match self.drain_block_bytes() {
                    Err(e) => Err(e),
                    Ok(_) => {
                        self.state = TapeState::Play;
                        Ok(())
                    },
                }
            },
        }
    }

    /// Drain the remaining payload of the current block, one lazy read at a
    /// time, as the dispatcher does for blocks it only skips.
    fn drain_block_bytes(&mut self) -> (r: Result<(), TapeLoadError>)
        requires
            old(self).wf(),
        ensures
            final(self).wf(),
            ({
                let (v, rr) = spec_drain(old(self)@, drain_fuel(old(self)@));
                final(self)@ == v && r == rr
            }),
    {
        let ghost s_arm = self@;
        loop
            invariant_except_break
                self.wf(),
                s_arm == old(self)@,
                spec_drain(s_arm, drain_fuel(s_arm)) == spec_drain(self@, drain_fuel(self@)),
            ensures
                self.wf(),
                spec_drain(s_arm, drain_fuel(s_arm)) == (self@, Ok::<(), TapeLoadError>(())),
            decreases drain_fuel(self@),
        {
            match self.next_block_byte() {
                Err(e) => {
                    proof {
                        assert(spec_drain(s_arm, drain_fuel(s_arm)) == (
                            self@,
                            Err::<(), TapeLoadError>(e),
                        ));
                    }
                    return Err(e);
                },
                Ok(None) => {
                    break;
                },
                Ok(Some(_)) => {},
            }
        }
        Ok(())
    }

    /// One iteration of the pulse-machine loop: the transition of the state
    /// the machine currently sits in.
    #[verifier::rlimit(100)]
    fn machine_step(&mut self) -> (r: StepFlow)
        requires
            old(self).wf(),
            old(self)@.delay <= 0,
        ensures
            final(self).wf(),
            ({
                let (v, f) = spec_step(old(self)@);
                final(self)@ == v && r == f
            }),
            r is Cont ==> final(self)@.delay <= 0 && rank(final(self)@.state) < rank(
                old(self)@.state,
            ),
    {
        match self.state {
            TapeState::Init => {
                match self.asset.seek(SeekFrom::Start(0)) {
                    Ok(_) => {},
                    Err(_) => {
                        proof {
                            assert(false);
                        }
                    },
                }
                match self.asset.read_exact(HEADER_SIZE) {
                    Ok(_header) => {
                        self.state = TapeState::Play;
                        StepFlow::Cont
                    },
                    Err(_) => StepFlow::Fail(TapeLoadError::InvalidTapFile),
                }
            },
            TapeState::Stop => StepFlow::Brk,
            TapeState::Play => {
                match self.next_block() {
                    Err(e) => StepFlow::Fail(e),
                    Ok(keep_going) => {
                        if keep_going {
                            self.state = TapeState::Process;
                        } else {
                            self.state = TapeState::Stop;
                        }
                        StepFlow::Cont
                    },
                }
            },
            TapeState::Process => {
                match self.process_current_block() {
                    Err(e) => StepFlow::Fail(e),
                    Ok(_) => StepFlow::Brk,
                }
            },
            TapeState::Pilot { pulses_left } => {
                self.curr_bit = !self.curr_bit;
                let left = if pulses_left > 0 {
                    pulses_left - 1
                } else {
                    0
                };
                if left == 0 {
                    self.delay = self.delay + self.tape_timings.sync1_length as i64;
                    self.state = TapeState::Sync;
                } else {
                    self.delay = self.delay + self.tape_timings.pilot_length as i64;
                    self.state = TapeState::Pilot { pulses_left: left };
                }
                StepFlow::Brk
            },
            TapeState::PureTone { pulses_left } => {
                self.curr_bit = !self.curr_bit;
                let left = if pulses_left > 0 {
                    pulses_left - 1
                } else {
                    0
                };
                if left == 0 {
                    self.state = TapeState::Play;
                } else {
                    self.delay = self.delay + self.tape_timings.pilot_length as i64;
                    self.state = TapeState::PureTone { pulses_left: left };
                }
                StepFlow::Brk
            },
            TapeState::PulseSequence { pulses_left } => {
                self.curr_bit = !self.curr_bit;
                let left = if pulses_left > 0 {
                    pulses_left - 1
                } else {
                    0
                };
                if left == 0 {
                    self.state = TapeState::Play;
                    return StepFlow::Brk;
                }
                let byte1 = match self.required_block_byte() {
                    Ok(b) => b,
                    Err(e) => {
                        return StepFlow::Fail(e);
                    },
                };
                let byte2 = match self.required_block_byte() {
                    Ok(b) => b,
                    Err(e) => {
                        return StepFlow::Fail(e);
                    },
                };
                self.delay = self.delay + le16_usize(byte1, byte2) as i64;
                self.state = TapeState::PulseSequence { pulses_left: left };
                StepFlow::Brk
            },
            TapeState::Sync => {
                self.curr_bit = !self.curr_bit;
                self.delay = self.delay + self.tape_timings.sync2_length as i64;
                self.state = TapeState::NextBit { mask: 0x80 };
                StepFlow::Brk
            },
            TapeState::NextByte { is_direct_recording_sample } => {
                match self.next_block_byte() {
                    Err(e) => StepFlow::Fail(e),
                    Ok(Some(byte)) => {
                        self.curr_byte = byte;
                        if is_direct_recording_sample {
                            self.state = TapeState::NextDirectRecordingBit { mask: 0x80 };
                        } else {
                            self.state = TapeState::NextBit { mask: 0x80 };
                        }
                        StepFlow::Cont
                    },
                    Ok(None) => {
                        self.state = TapeState::Pause;
                        StepFlow::Cont
                    },
                }
            },
            TapeState::NextBit { mask } => {
                self.curr_bit = !self.curr_bit;
                if self.curr_byte & mask == 0 {
                    self.delay = self.delay + self.tape_timings.bit_0_length as i64;
                    self.state = TapeState::BitHalf {
                        half_bit_delay: self.tape_timings.bit_0_length,
                        mask,
                    };
                } else {
                    self.delay = self.delay + self.tape_timings.bit_1_length as i64;
                    self.state = TapeState::BitHalf {
                        half_bit_delay: self.tape_timings.bit_1_length,
                        mask,
                    };
                }
                StepFlow::Brk
            },
            TapeState::NextDirectRecordingBit { mask } => {
                let sample_low = self.curr_byte & mask == 0;
                self.delay = self.delay + self.tape_timings.bit_0_length as i64;
                if sample_low != self.curr_bit {
                    self.curr_bit = !self.curr_bit;
                }
                let new_mask = mask >> 1;
                let bits = if self.bits_to_process_in_byte > 0 {
                    self.bits_to_process_in_byte - 1
                } else {
                    0
                };
                self.bits_to_process_in_byte = bits;
                if new_mask == 0 || bits == 0 {
                    self.state = TapeState::NextByte { is_direct_recording_sample: true };
                } else {
                    self.state = TapeState::NextDirectRecordingBit { mask: new_mask };
                }
                StepFlow::Brk
            },
            TapeState::BitHalf { half_bit_delay, mask } => {
                self.curr_bit = !self.curr_bit;
                self.delay = self.delay + half_bit_delay as i64;
                let new_mask = mask >> 1;
                let bits = if self.bits_to_process_in_byte > 0 {
                    self.bits_to_process_in_byte - 1
                } else {
                    0
                };
                self.bits_to_process_in_byte = bits;
                if new_mask == 0 || bits == 0 {
                    self.state = TapeState::NextByte { is_direct_recording_sample: false };
                } else {
                    self.state = TapeState::NextBit { mask: new_mask };
                }
                StepFlow::Brk
            },
            TapeState::Pause => {
                self.delay = self.delay + self.tape_timings.pause_length as i64 * 3500;
                self.state = TapeState::Play;
                self.curr_bit = !self.curr_bit;
                if self.delay > 0 {
                    StepFlow::Brk
                } else {
                    StepFlow::Cont
                }
            },
            TapeState::Silence { length } => {
                self.curr_bit = !self.curr_bit;
                self.delay = self.delay + length as i64 * 3500;
                self.state = TapeState::Play;
                StepFlow::Brk
            },
        }
    }

    /// Consume `clocks` T-states.  While the scheduled delay has not yet
    /// elapsed this only counts down; once it has, the machine chases
    /// through its states until the next edge is scheduled, the tape stops,
    /// or a structural fault surfaces.
    #[verifier::rlimit(100)]
    pub fn process_clocks(&mut self, clocks: usize) -> (r: Result<(), TapeLoadError>)
        requires
            old(self).wf(),
            clocks <= 0x7FFF_FFFF_FFFF_FFFF,
        ensures
            final(self).wf(),
            ({
                let (v, rr) = spec_process_clocks(old(self)@, clocks as int);
                final(self)@ == v && r == rr
            }),
    {
        if self.state == TapeState::Stop {
            return Ok(());
        }

        if self.delay > 0 {
            self.delay = self.delay - clocks as i64;
            if self.delay > 0 {
                return Ok(());
            }
        }

        let ghost s_entry = self@;
        loop
            invariant_except_break
                self.wf(),
                self@.delay <= 0,
                spec_process_clocks(old(self)@, clocks as int) == spec_chase(s_entry),
                spec_chase(s_entry) == spec_chase(self@),
            ensures
                self.wf(),
                spec_process_clocks(old(self)@, clocks as int) == spec_chase(s_entry),
                spec_chase(s_entry) == (self@, Ok::<(), TapeLoadError>(())),
            decreases rank(self@.state),
        {
            let ghost s_pre = self@;
            match self.machine_step() {
                StepFlow::Fail(e) => {
                    proof {
                        assert(spec_chase(s_pre) == (self@, Err::<(), TapeLoadError>(e)));
                    }
                    return Err(e);
                },
                StepFlow::Brk => {
                    break;
                },
                StepFlow::Cont => {},
            }
        }
        Ok(())
    }
}

} // verus!
