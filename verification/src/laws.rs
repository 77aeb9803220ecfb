//! Laws of the engine: properties that hold across calls, stated over the
//! pure model and proved once and for all.

use vstd::prelude::*;

use crate::model::{
    advance, bit_trace, can_read, drain_fuel, rank, spec_block_direct_recording,
    spec_block_loop_end, spec_block_loop_start, spec_block_pause, spec_block_pulse_sequence,
    spec_block_pure_data, spec_block_pure_tone, spec_block_skip16, spec_block_skip32,
    spec_block_standard, spec_block_stop_48k, spec_block_text, spec_block_turbo, spec_chase,
    spec_dispatch_bits, spec_dispatch_pilot, spec_dispatch_pulse_sequence,
    spec_dispatch_pure_tone, spec_dispatch_silence, spec_dispatch_skip, spec_drain,
    spec_next_block, spec_next_block_byte, spec_play, spec_process_clocks,
    spec_process_current_block, spec_required_byte, spec_rewind, spec_step, spec_stop, with_prev,
    StepFlow, TapeState, TzxBlockId, TzxView, BUFFER_SIZE,
};
use crate::timings::TapeTimings;
use crate::TapeLoadError;

verus! {

/// While the machine is stopped, a clock call changes nothing and returns
/// success: the output bit is stable under any call sequence.
pub proof fn lemma_stop_is_noop(s: TzxView, clocks: int)
    requires
        s.state is Stop,
    ensures
        spec_process_clocks(s, clocks) == (s, Ok::<(), TapeLoadError>(())),
{
}

/// Rewinding twice is the same as rewinding once.
pub proof fn lemma_rewind_idempotent(s: TzxView)
    ensures
        spec_rewind(spec_rewind(s)) == spec_rewind(s),
{
}

/// A payload read never touches the saved resume state, and is otherwise
/// insensitive to it.
proof fn lemma_next_block_byte_ignores_prev(s: TzxView, p: TapeState)
    ensures
        ({
            let (v1, r1) = spec_next_block_byte(with_prev(s, p));
            let (v2, r2) = spec_next_block_byte(s);
            v1 == with_prev(v2, p) && r1 == r2
        }),
{
}

/// A required payload read never touches the saved resume state.
proof fn lemma_required_byte_ignores_prev(s: TzxView, p: TapeState)
    ensures
        ({
            let (v1, r1) = spec_required_byte(with_prev(s, p));
            let (v2, r2) = spec_required_byte(s);
            v1 == with_prev(v2, p) && r1 == r2
        }),
{
    lemma_next_block_byte_ignores_prev(s, p);
}

/// Frame fact for one block reader: the saved resume state is untouched.
proof fn lemma_block_standard_ignores_prev(s: TzxView, p: TapeState)
    ensures
        ({
            let (v1, r1) = spec_block_standard(with_prev(s, p));
            let (v2, r2) = spec_block_standard(s);
            v1 == with_prev(v2, p) && r1 == r2
        }),
{
}

/// Frame fact for one block reader: the saved resume state is untouched.
proof fn lemma_block_turbo_ignores_prev(s: TzxView, p: TapeState)
    ensures
        ({
            let (v1, r1) = spec_block_turbo(with_prev(s, p));
            let (v2, r2) = spec_block_turbo(s);
            v1 == with_prev(v2, p) && r1 == r2
        }),
{
}

/// Frame fact for one block reader: the saved resume state is untouched.
proof fn lemma_block_pure_tone_ignores_prev(s: TzxView, p: TapeState)
    ensures
        ({
            let (v1, r1) = spec_block_pure_tone(with_prev(s, p));
            let (v2, r2) = spec_block_pure_tone(s);
            v1 == with_prev(v2, p) && r1 == r2
        }),
{
}

/// Frame fact for one block reader: the saved resume state is untouched.
proof fn lemma_block_pulse_sequence_ignores_prev(s: TzxView, p: TapeState)
    ensures
        ({
            let (v1, r1) = spec_block_pulse_sequence(with_prev(s, p));
            let (v2, r2) = spec_block_pulse_sequence(s);
            v1 == with_prev(v2, p) && r1 == r2
        }),
{
}

/// Frame fact for one block reader: the saved resume state is untouched.
proof fn lemma_block_pure_data_ignores_prev(s: TzxView, p: TapeState)
    ensures
        ({
            let (v1, r1) = spec_block_pure_data(with_prev(s, p));
            let (v2, r2) = spec_block_pure_data(s);
            v1 == with_prev(v2, p) && r1 == r2
        }),
{
}

/// Frame fact for one block reader: the saved resume state is untouched.
proof fn lemma_block_direct_recording_ignores_prev(s: TzxView, p: TapeState)
    ensures
        ({
            let (v1, r1) = spec_block_direct_recording(with_prev(s, p));
            let (v2, r2) = spec_block_direct_recording(s);
            v1 == with_prev(v2, p) && r1 == r2
        }),
{
}

/// Frame fact for one block reader: the saved resume state is untouched.
proof fn lemma_block_skip32_ignores_prev(s: TzxView, p: TapeState)
    ensures
        ({
            let (v1, r1) = spec_block_skip32(with_prev(s, p));
            let (v2, r2) = spec_block_skip32(s);
            v1 == with_prev(v2, p) && r1 == r2
        }),
{
}

/// Frame fact for one block reader: the saved resume state is untouched.
proof fn lemma_block_skip16_ignores_prev(s: TzxView, p: TapeState)
    ensures
        ({
            let (v1, r1) = spec_block_skip16(with_prev(s, p));
            let (v2, r2) = spec_block_skip16(s);
            v1 == with_prev(v2, p) && r1 == r2
        }),
{
}

/// Frame fact for one block reader: the saved resume state is untouched.
proof fn lemma_block_pause_ignores_prev(s: TzxView, p: TapeState)
    ensures
        ({
            let (v1, r1) = spec_block_pause(with_prev(s, p));
            let (v2, r2) = spec_block_pause(s);
            v1 == with_prev(v2, p) && r1 == r2
        }),
{
}

/// Frame fact for one block reader: the saved resume state is untouched.
proof fn lemma_block_loop_start_ignores_prev(s: TzxView, p: TapeState)
    ensures
        ({
            let (v1, r1) = spec_block_loop_start(with_prev(s, p));
            let (v2, r2) = spec_block_loop_start(s);
            v1 == with_prev(v2, p) && r1 == r2
        }),
{
}

/// Frame fact for one block reader: the saved resume state is untouched.
proof fn lemma_block_loop_end_ignores_prev(s: TzxView, p: TapeState)
    ensures
        ({
            let (v1, r1) = spec_block_loop_end(with_prev(s, p));
            let (v2, r2) = spec_block_loop_end(s);
            v1 == with_prev(v2, p) && r1 == r2
        }),
{
}

/// Frame fact for one block reader: the saved resume state is untouched.
proof fn lemma_block_stop_48k_ignores_prev(s: TzxView, p: TapeState)
    ensures
        ({
            let (v1, r1) = spec_block_stop_48k(with_prev(s, p));
            let (v2, r2) = spec_block_stop_48k(s);
            v1 == with_prev(v2, p) && r1 == r2
        }),
{
}

/// Frame fact for the text block readers: the saved resume state is
/// untouched.
proof fn lemma_block_text_ignores_prev(s: TzxView, p: TapeState, id: TzxBlockId, set_size: bool)
    ensures
        ({
            let (v1, r1) = spec_block_text(with_prev(s, p), id, set_size);
            let (v2, r2) = spec_block_text(s, id, set_size);
            v1 == with_prev(v2, p) && r1 == r2
        }),
{
}

/// Frame fact for one dispatcher: the saved resume state is untouched.
proof fn lemma_dispatch_pilot_h_ignores_prev(s: TzxView, p: TapeState, turbo: bool)
    ensures
        ({
            let (v1, r1) = spec_dispatch_pilot(with_prev(s, p), turbo);
            let (v2, r2) = spec_dispatch_pilot(s, turbo);
            v1 == with_prev(v2, p) && r1 == r2
        }),
{
    lemma_required_byte_ignores_prev(s, p);
}

/// Frame fact for one dispatcher: the saved resume state is untouched.
proof fn lemma_dispatch_bits_h_ignores_prev(s: TzxView, p: TapeState, direct: bool)
    ensures
        ({
            let (v1, r1) = spec_dispatch_bits(with_prev(s, p), direct);
            let (v2, r2) = spec_dispatch_bits(s, direct);
            v1 == with_prev(v2, p) && r1 == r2
        }),
{
    lemma_required_byte_ignores_prev(s, p);
}

/// Frame fact for one dispatcher: the saved resume state is untouched.
proof fn lemma_dispatch_pure_tone_h_ignores_prev(s: TzxView, p: TapeState)
    ensures
        ({
            let (v1, r1) = spec_dispatch_pure_tone(with_prev(s, p));
            let (v2, r2) = spec_dispatch_pure_tone(s);
            v1 == with_prev(v2, p) && r1 == r2
        }),
{
}

/// Frame fact for one dispatcher: the saved resume state is untouched.
proof fn lemma_dispatch_pulse_sequence_h_ignores_prev(s: TzxView, p: TapeState)
    ensures
        ({
            let (v1, r1) = spec_dispatch_pulse_sequence(with_prev(s, p));
            let (v2, r2) = spec_dispatch_pulse_sequence(s);
            v1 == with_prev(v2, p) && r1 == r2
        }),
{
    lemma_required_byte_ignores_prev(s, p);
    let (s1, _) = spec_required_byte(s);
    lemma_required_byte_ignores_prev(s1, p);
}

/// Frame fact for one dispatcher: the saved resume state is untouched.
proof fn lemma_dispatch_silence_h_ignores_prev(s: TzxView, p: TapeState)
    ensures
        ({
            let (v1, r1) = spec_dispatch_silence(with_prev(s, p));
            let (v2, r2) = spec_dispatch_silence(s);
            v1 == with_prev(v2, p) && r1 == r2
        }),
{
    lemma_required_byte_ignores_prev(s, p);
    let (s1, _) = spec_required_byte(s);
    lemma_required_byte_ignores_prev(s1, p);
}

/// Frame fact for one dispatcher: the saved resume state is untouched.
proof fn lemma_dispatch_skip_h_ignores_prev(s: TzxView, p: TapeState)
    ensures
        ({
            let (v1, r1) = spec_dispatch_skip(with_prev(s, p));
            let (v2, r2) = spec_dispatch_skip(s);
            v1 == with_prev(v2, p) && r1 == r2
        }),
{
    lemma_drain_ignores_prev(s, p, drain_fuel(s));
}

/// Reading a block header never touches the saved resume state.
#[verifier::rlimit(100)]
proof fn lemma_next_block_ignores_prev(s: TzxView, p: TapeState)
    ensures
        ({
            let (v1, r1) = spec_next_block(with_prev(s, p));
            let (v2, r2) = spec_next_block(s);
            v1 == with_prev(v2, p) && r1 == r2
        }),
{
    if !s.tape_ended && can_read(s, 1) {
        let s1 = TzxView { buffer_offset: 0, block_bytes_read: 0, ..advance(s, 1) };
        lemma_block_standard_ignores_prev(s1, p);
        lemma_block_turbo_ignores_prev(s1, p);
        lemma_block_pure_tone_ignores_prev(s1, p);
        lemma_block_pulse_sequence_ignores_prev(s1, p);
        lemma_block_pure_data_ignores_prev(s1, p);
        lemma_block_direct_recording_ignores_prev(s1, p);
        lemma_block_skip32_ignores_prev(s1, p);
        lemma_block_skip16_ignores_prev(s1, p);
        lemma_block_pause_ignores_prev(s1, p);
        lemma_block_text_ignores_prev(s1, p, TzxBlockId::GroupStart, false);
        lemma_block_text_ignores_prev(s1, p, TzxBlockId::TextDescription, true);
        lemma_block_loop_start_ignores_prev(s1, p);
        lemma_block_loop_end_ignores_prev(s1, p);
        lemma_block_stop_48k_ignores_prev(s1, p);
    }
}

/// Draining a block's payload never touches the saved resume state.
#[verifier::rlimit(100)]
proof fn lemma_drain_ignores_prev(s: TzxView, p: TapeState, fuel: nat)
    ensures
        ({
            let (v1, r1) = spec_drain(with_prev(s, p), fuel);
            let (v2, r2) = spec_drain(s, fuel);
            v1 == with_prev(v2, p) && r1 == r2
        }),
    decreases fuel,
{
    lemma_next_block_byte_ignores_prev(s, p);
    let (s1, r) = spec_next_block_byte(s);
    if r matches Ok(Some(_)) && fuel > 0 {
        lemma_drain_ignores_prev(s1, p, (fuel - 1) as nat);
    }
}

/// Dispatching a block never touches the saved resume state.
#[verifier::rlimit(100)]
proof fn lemma_dispatch_ignores_prev(s: TzxView, p: TapeState)
    ensures
        ({
            let (v1, r1) = spec_process_current_block(with_prev(s, p));
            let (v2, r2) = spec_process_current_block(s);
            v1 == with_prev(v2, p) && r1 == r2
        }),
{
    lemma_dispatch_pilot_h_ignores_prev(s, p, false);
    lemma_dispatch_pilot_h_ignores_prev(s, p, true);
    lemma_dispatch_bits_h_ignores_prev(s, p, false);
    lemma_dispatch_bits_h_ignores_prev(s, p, true);
    lemma_dispatch_pure_tone_h_ignores_prev(s, p);
    lemma_dispatch_pulse_sequence_h_ignores_prev(s, p);
    lemma_dispatch_silence_h_ignores_prev(s, p);
    lemma_dispatch_skip_h_ignores_prev(s, p);
}

/// One machine iteration never touches the saved resume state.
#[verifier::rlimit(100)]
proof fn lemma_step_ignores_prev(s: TzxView, p: TapeState)
    ensures
        ({
            let (v1, f1) = spec_step(with_prev(s, p));
            let (v2, f2) = spec_step(s);
            v1 == with_prev(v2, p) && f1 == f2
        }),
{
    lemma_next_block_ignores_prev(s, p);
    lemma_dispatch_ignores_prev(s, p);
    lemma_next_block_byte_ignores_prev(s, p);
    if s.state matches TapeState::PulseSequence { pulses_left } {
        let toggled = TzxView { curr_bit: !s.curr_bit, ..s };
        lemma_required_byte_ignores_prev(toggled, p);
        let (s2, r1) = spec_required_byte(toggled);
        lemma_required_byte_ignores_prev(s2, p);
    }
}

/// The chase to the next edge never touches the saved resume state.
proof fn lemma_chase_ignores_prev(s: TzxView, p: TapeState)
    ensures
        ({
            let (v1, r1) = spec_chase(with_prev(s, p));
            let (v2, r2) = spec_chase(s);
            v1 == with_prev(v2, p) && r1 == r2
        }),
    decreases rank(s.state),
{
    lemma_step_ignores_prev(s, p);
    let (s1, f) = spec_step(s);
    if f is Cont && rank(s1.state) < rank(s.state) {
        lemma_chase_ignores_prev(s1, p);
    }
}

/// A whole clock call never touches the saved resume state.
pub proof fn lemma_process_clocks_ignores_prev(s: TzxView, p: TapeState, clocks: int)
    ensures
        ({
            let (v1, r1) = spec_process_clocks(with_prev(s, p), clocks);
            let (v2, r2) = spec_process_clocks(s, clocks);
            v1 == with_prev(v2, p) && r1 == r2
        }),
{
    if !(s.state is Stop) {
        let s1 = if s.delay > 0 {
            TzxView { delay: (s.delay - clocks) as i64, ..s }
        } else {
            s
        };
        if !(s1.delay > 0) {
            lemma_chase_ignores_prev(s1, p);
        }
    }
}

/// The observable output is insensitive to the saved resume state: two
/// machines equal but for it produce bit-identical traces under the same
/// clock schedule.
pub proof fn lemma_trace_ignores_prev(s: TzxView, p: TapeState, schedule: Seq<int>)
    ensures
        bit_trace(with_prev(s, p), schedule) == bit_trace(s, schedule),
    decreases schedule.len(),
{
    if schedule.len() > 0 {
        lemma_process_clocks_ignores_prev(s, p, schedule[0]);
        let (s2, _) = spec_process_clocks(s, schedule[0]);
        lemma_trace_ignores_prev(s2, p, schedule.skip(1));
    }
}

/// `stop` followed by `play`, with no clocks in between, restores the
/// machine exactly but for the saved resume state, which the clock path
/// never reads: the output afterwards is bit-identical to a machine that
/// was never interrupted.  (A machine that was already stopped resumes as
/// `Play` instead and is not covered.)
pub proof fn lemma_stop_play_resumes(s: TzxView, schedule: Seq<int>)
    requires
        !(s.state is Stop),
    ensures
        spec_play(spec_stop(s)) == with_prev(s, s.state),
        bit_trace(spec_play(spec_stop(s)), schedule) == bit_trace(s, schedule),
{
    lemma_trace_ignores_prev(s, s.state, schedule);
}

/// A machine that still carries every register of its construction replays
/// identically after `rewind`: the rewound view is the freshly built one,
/// so the edge schedule of the second run is the first run's, byte for
/// byte.  (A machine stopped mid-block keeps its pulse state across
/// `rewind` and is not covered.)
pub proof fn lemma_rewind_replays_from_start(s: TzxView, schedule: Seq<int>)
    requires
        s.state is Init,
        s.prev_state is Stop,
        s.current_block_id is None,
        s.buffer == Seq::new(BUFFER_SIZE as nat, |i: int| 0u8),
        s.tape_timings == TapeTimings::spec_default(),
        s.used_bits_in_last_byte == 8,
        s.bits_to_process_in_byte == 0,
        s.loop_start_marker == 0,
        s.num_repetitions is None,
    ensures
        spec_rewind(s) == TzxView::initial(s.data, 0, s.is_48k_mode),
        bit_trace(spec_rewind(s), schedule) == bit_trace(
            TzxView::initial(s.data, 0, s.is_48k_mode),
            schedule,
        ),
{
}

/// While a data block is being emitted (pilot, tone, sync and bit states)
/// with live timings, a call that does not overrun the pending delay leaves
/// a positive delay behind: the machine has always scheduled the next edge.
/// (States that read the stream, zero-width timings, and clock deltas that
/// overrun the pending edge are not covered.)
pub proof fn lemma_mid_block_edge_scheduled(s: TzxView, clocks: int)
    requires
        s.wf(),
        s.state is Pilot || s.state is Sync || s.state is NextBit
            || s.state is NextDirectRecordingBit || (s.state matches TapeState::PureTone {
            pulses_left,
        } && pulses_left >= 2) || (s.state matches TapeState::BitHalf { half_bit_delay, mask }
            && half_bit_delay >= 1),
        s.tape_timings.pilot_length >= 1,
        s.tape_timings.sync1_length >= 1,
        s.tape_timings.sync2_length >= 1,
        s.tape_timings.bit_0_length >= 1,
        s.tape_timings.bit_1_length >= 1,
        0 <= clocks,
        s.delay > 0 ==> clocks <= s.delay,
        s.delay >= 0,
    ensures
        ({
            let (s2, r) = spec_process_clocks(s, clocks);
            r is Ok && s2.delay > 0
        }),
{
}

} // verus!
