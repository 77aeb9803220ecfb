//! Pulse-timing parameters of the tape signal, in T-states
//! (one T-state is one clock cycle of the emulated 3.5 MHz Z80).

use vstd::prelude::*;

verus! {

/// Duration of one pilot half-pulse in the standard ROM encoding.
pub const STD_PILOT_LENGTH: usize = 2168;
/// Pilot half-pulses before a header block (leading byte 0x00).
pub const STD_PILOT_PULSES_HEADER: usize = 8063;
/// Pilot half-pulses before a data block (leading byte >= 0x80).
pub const STD_PILOT_PULSES_DATA: usize = 3223;
/// First sync half-pulse.
pub const STD_SYNC1_LENGTH: usize = 667;
/// Second sync half-pulse.
pub const STD_SYNC2_LENGTH: usize = 735;
/// Half-pulse of a one bit.
pub const STD_BIT_ONE_LENGTH: usize = 1710;
/// Half-pulse of a zero bit.
pub const STD_BIT_ZERO_LENGTH: usize = 855;
/// 1000 ms of silence, already converted to T-states.
pub const STD_PAUSE_LENGTH: usize = 3_500_000;

/// T-states per millisecond on a 48K Spectrum.
pub const TSTATES_PER_MS: usize = 3500;

/// Every timing parameter the engine ever stores is bounded by the standard
/// pause length: block-supplied values come from 16-bit fields and the
/// defaults are listed above.
pub const TIMING_BOUND: usize = 3_500_000;

/// Mutable record of pulse widths and pulse counts.  Reset to the standard
/// values by a standard-speed block and overridden field by field by the
/// other block kinds.
#[derive(Debug, Clone, Copy, PartialEq, Eq, Structural)]
pub struct TapeTimings {
    /// Duration of one pilot half-pulse.
    pub pilot_length: usize,
    /// First sync half-pulse duration.
    pub sync1_length: usize,
    /// Second sync half-pulse duration.
    pub sync2_length: usize,
    /// Half-pulse duration of a zero bit.
    pub bit_0_length: usize,
    /// Half-pulse duration of a one bit.
    pub bit_1_length: usize,
    /// Pilot half-pulse count when the leading byte is 0x00.
    pub pilot_pulses_header: usize,
    /// Pilot half-pulse count when the leading byte is not 0x00.
    pub pilot_pulses_data: usize,
    /// Silence after the block; milliseconds for block-supplied values,
    /// already in T-states for the default.
    pub pause_length: usize,
    /// Explicit pulse count used by turbo, pure-tone and pulse-sequence
    /// blocks.
    pub pilot_tone_length: Option<usize>,
}

impl TapeTimings {
    /// All stored parameters stay within [`TIMING_BOUND`], so delay
    /// arithmetic over them cannot overflow a 64-bit accumulator.
    pub open spec fn wf(self) -> bool {
        &&& self.pilot_length <= TIMING_BOUND
        &&& self.sync1_length <= TIMING_BOUND
        &&& self.sync2_length <= TIMING_BOUND
        &&& self.bit_0_length <= TIMING_BOUND
        &&& self.bit_1_length <= TIMING_BOUND
        &&& self.pilot_pulses_header <= TIMING_BOUND
        &&& self.pilot_pulses_data <= TIMING_BOUND
        &&& self.pause_length <= TIMING_BOUND
        &&& self.pilot_tone_length matches Some(n) ==> self.pilot_tone_length.unwrap() <= TIMING_BOUND
    }

    /// The standard ROM loader timings.
    pub open spec fn spec_default() -> TapeTimings {
        TapeTimings {
            pilot_length: STD_PILOT_LENGTH,
            pilot_pulses_header: STD_PILOT_PULSES_HEADER,
            pilot_pulses_data: STD_PILOT_PULSES_DATA,
            sync1_length: STD_SYNC1_LENGTH,
            sync2_length: STD_SYNC2_LENGTH,
            bit_0_length: STD_BIT_ZERO_LENGTH,
            bit_1_length: STD_BIT_ONE_LENGTH,
            pause_length: STD_PAUSE_LENGTH,
            pilot_tone_length: None,
        }
    }

    /// Standard ROM loader timings: pilot 2168, syncs 667 and 735, bits 855
    /// and 1710, pilot counts 8063 and 3223, one second of pause.
    pub fn default() -> (r: Self)
        ensures
            r == Self::spec_default(),
            r.wf(),
    {
        Self {
            pilot_length: STD_PILOT_LENGTH,
            pilot_pulses_header: STD_PILOT_PULSES_HEADER,
            pilot_pulses_data: STD_PILOT_PULSES_DATA,
            sync1_length: STD_SYNC1_LENGTH,
            sync2_length: STD_SYNC2_LENGTH,
            bit_0_length: STD_BIT_ZERO_LENGTH,
            bit_1_length: STD_BIT_ONE_LENGTH,
            pause_length: STD_PAUSE_LENGTH,
            pilot_tone_length: None,
        }
    }
}

} // verus!
