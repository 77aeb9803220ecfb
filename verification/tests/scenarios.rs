//! End-to-end scenarios: whole tapes played through the pulse machine, with
//! edge timings measured one T-state at a time.

use tzx_engine::{InMemoryAsset, TapeLoadError, Tzx};

/// A valid ten-byte file header: signature, end-of-text marker, version 1.20.
fn header_bytes() -> Vec<u8> {
    vec![0x5A, 0x58, 0x54, 0x61, 0x70, 0x65, 0x21, 0x1A, 0x01, 0x14]
}

fn tape(blocks: &[u8]) -> Vec<u8> {
    let mut v = header_bytes();
    v.extend_from_slice(blocks);
    v
}

fn engine(bytes: Vec<u8>, is_48k: bool) -> Tzx<InMemoryAsset> {
    match Tzx::from_asset(InMemoryAsset::new(bytes), is_48k) {
        Ok(t) => t,
        Err(_) => panic!("engine construction failed"),
    }
}

/// Tick one T-state at a time until the ear bit changes; returns the tick
/// count of the edge.
fn ticks_to_edge(t: &mut Tzx<InMemoryAsset>, limit: usize) -> usize {
    let start = t.current_bit();
    let mut n: usize = 0;
    while t.current_bit() == start {
        assert!(n <= limit, "no edge within {} ticks", limit);
        t.process_clocks(1).unwrap();
        n += 1;
    }
    n
}

/// Header only, no blocks: the first clock runs the machine from the header
/// read straight into a stop, with the output line low and no error.
#[test]
fn minimal_header_only_stops() {
    let mut t = engine(header_bytes(), false);
    assert!(!t.can_fast_load());
    let r = t.process_clocks(1);
    assert!(matches!(r, Ok(())));
    assert!(t.can_fast_load(), "machine should be stopped");
    assert!(!t.current_bit());
}

/// One standard-speed block, flag byte 0x00, one payload byte 0xFF: 8063
/// pilot edges 2168 T-states apart, syncs of 667 and 735, eight bit-0 pairs
/// of 855, eight bit-1 pairs of 1710, then a pause of 1000 ms.
#[test]
fn standard_speed_block_edge_timing() {
    let mut t = engine(tape(&[0x10, 0xE8, 0x03, 0x02, 0x00, 0x00, 0xFF]), false);
    // Prime: reads the header, decodes the block, schedules the first
    // pilot half-pulse without consuming a tick.
    t.process_clocks(0).unwrap();
    // First two pilot edges measured exactly.
    assert_eq!(ticks_to_edge(&mut t, 3000), 2168);
    assert_eq!(ticks_to_edge(&mut t, 3000), 2168);
    // The remaining 8061 pilot edges, crossed one per aligned call.
    for _ in 0..8061 {
        let before = t.current_bit();
        t.process_clocks(2168).unwrap();
        assert_ne!(before, t.current_bit(), "one pilot edge per pilot pulse");
    }
    // Sync pulses.
    assert_eq!(ticks_to_edge(&mut t, 1000), 667);
    assert_eq!(ticks_to_edge(&mut t, 1000), 735);
    // Byte 0x00: eight bit-0 pairs, sixteen gaps of 855.
    for _ in 0..16 {
        assert_eq!(ticks_to_edge(&mut t, 1000), 855);
    }
    // Byte 0xFF: eight bit-1 pairs; the sixteenth gap is the stray edge
    // the pause state emits after the final half-pulse.
    for _ in 0..16 {
        assert_eq!(ticks_to_edge(&mut t, 2000), 1710);
    }
    // 1000 ms of silence, then the end of the stream stops the tape.
    assert!(!t.can_fast_load());
    t.process_clocks(1000 * 3500).unwrap();
    assert!(t.can_fast_load());
}

/// The edge count of a standard-speed block: pilot pulses + 2 sync edges +
/// 2 edges per data bit, plus the pause state's stray edge.
#[test]
fn standard_speed_block_edge_count() {
    // Flag byte 0xFF selects the data pilot count 3223; one payload byte,
    // all eight bits used; pause 0.
    let mut t = engine(tape(&[0x10, 0x00, 0x00, 0x01, 0x00, 0xFF]), false);
    t.process_clocks(0).unwrap();
    let mut edges: usize = 0;
    let mut level = t.current_bit();
    let mut guard: usize = 0;
    while !t.can_fast_load() {
        // 300 T-states is below every half-pulse width in this tape, so
        // each call crosses at most one edge.
        t.process_clocks(300).unwrap();
        if t.current_bit() != level {
            level = t.current_bit();
            edges += 1;
        }
        guard += 1;
        assert!(guard < 40_000, "tape did not stop");
    }
    // Pilot pulses + 2 sync edges + 2 edges per data bit; the closing
    // edge of the final bit is the pause state's stray toggle.
    assert_eq!(edges, 3223 + 2 + 2 * 8);
}

/// A pause-or-stop block with value zero stops the tape at once.
#[test]
fn pause_value_zero_stops() {
    let mut t = engine(tape(&[0x20, 0x00, 0x00]), false);
    let r = t.process_clocks(1);
    assert!(matches!(r, Ok(())));
    assert!(t.can_fast_load(), "machine should be stopped");
}

/// `next_block` itself reports the stop condition of a zero pause value.
#[test]
fn next_block_reports_pause_stop() {
    // The block sits at position zero: drive the reader directly.
    let mut t = engine(vec![0x20, 0x00, 0x00], false);
    assert!(matches!(t.next_block(), Ok(false)));
}

/// Loop start with three repetitions around a two-pulse pure tone: the tone
/// plays four times, every pulse 2056 T-states wide.
#[test]
fn loop_replays_pure_tone() {
    let blocks = [
        0x24, 0x03, 0x00,  // loop start, 3 repetitions
        0x12, 0x08, 0x08, 0x02, 0x00,  // pure tone: pilot 2056, 2 pulses
        0x25,  // loop end
    ];
    let mut t = engine(tape(&blocks), false);
    t.process_clocks(0).unwrap();
    for pass in 0..4 {
        for pulse in 0..2 {
            let gap = ticks_to_edge(&mut t, 3000);
            // Each pulse is 2056 T-states wide; at a pass boundary the
            // one-tick stepping spends two further ticks on the zero-cost
            // loop-end and tone dispatch calls.
            if pulse == 0 && pass > 0 {
                assert_eq!(gap, 2056 + 2, "pass boundary pulse");
            } else if pulse == 0 && pass == 0 {
                assert_eq!(gap, 2056 + 1, "first pulse after the block reads");
            } else {
                assert_eq!(gap, 2056);
            }
        }
    }
    // After the fourth pass the loop closes and the stream ends.
    t.process_clocks(1).unwrap();
    t.process_clocks(1).unwrap();
    assert!(t.can_fast_load());
}

/// Stop-if-48K on a 48K machine stops the tape.
#[test]
fn stop_if_48k_in_48k_mode() {
    let mut t = engine(tape(&[0x2A, 0x00, 0x00, 0x00, 0x00]), true);
    let r = t.process_clocks(1);
    assert!(matches!(r, Ok(())));
    assert!(t.can_fast_load(), "machine should be stopped");
}

/// `next_block` itself reports the stop for a 48K machine.
#[test]
fn next_block_reports_48k_stop() {
    let mut t = engine(vec![0x2A, 0x00, 0x00, 0x00, 0x00], true);
    assert!(matches!(t.next_block(), Ok(false)));
}

/// Stop-if-48K on a 128K machine is ignored and the tape plays on.
#[test]
fn stop_if_48k_ignored_in_128k_mode() {
    let mut t = engine(vec![0x2A, 0x00, 0x00, 0x00, 0x00], false);
    assert!(matches!(t.next_block(), Ok(true)));
}

/// Turbo-speed data with custom timings: every pilot, sync and bit-pair
/// duration equals the header-supplied value, and the last byte emits
/// exactly `used_bits_in_last_byte` bit pairs.
#[test]
fn turbo_speed_custom_timings() {
    let blocks = [
        0x11,  // turbo-speed data
        0xE8, 0x03,  // pilot 1000
        0x2C, 0x01,  // sync1 300
        0x90, 0x01,  // sync2 400
        0xF4, 0x01,  // bit0 500
        0x84, 0x03,  // bit1 900
        0x05, 0x00,  // pilot tone: 5 pulses
        0x03,  // 3 bits used in the last byte
        0x64, 0x00,  // pause 100 ms
        0x02, 0x00, 0x00,  // 2 payload bytes
        0xAA, 0xA0,
    ];
    let mut t = engine(tape(&blocks), false);
    t.process_clocks(0).unwrap();
    // Five pilot edges at the custom width.
    for _ in 0..5 {
        assert_eq!(ticks_to_edge(&mut t, 2000), 1000);
    }
    // Custom sync widths.
    assert_eq!(ticks_to_edge(&mut t, 2000), 300);
    assert_eq!(ticks_to_edge(&mut t, 2000), 400);
    // Byte 0xAA, all eight bits: each bit is two gaps of its width.
    let mut expected: Vec<usize> = Vec::new();
    for i in 0..8 {
        let w = if 0xAAu8 & (0x80 >> i) != 0 { 900 } else { 500 };
        expected.push(w);
        expected.push(w);
    }
    // Byte 0xA0, three used bits: 1, 0, 1.  The final gap is the pause
    // state's stray edge, confirming no fourth bit was emitted.
    for i in 0..3 {
        let w = if 0xA0u8 & (0x80 >> i) != 0 { 900 } else { 500 };
        expected.push(w);
        expected.push(w);
    }
    for w in expected {
        assert_eq!(ticks_to_edge(&mut t, 2000), w);
    }
    // 100 ms pause, then end of stream.
    t.process_clocks(100 * 3500).unwrap();
    assert!(t.can_fast_load());
}

/// A missing file header surfaces as `InvalidTapFile`.
#[test]
fn truncated_header_is_invalid_tap() {
    let mut t = engine(vec![0x5A, 0x58, 0x54], false);
    assert!(matches!(t.process_clocks(1), Err(TapeLoadError::InvalidTapFile)));
}

/// A pause block dispatched with no payload stream surfaces as
/// `InvalidTzxFile`.
#[test]
fn pause_without_stream_is_invalid_tzx() {
    let mut t = engine(tape(&[0x20, 0x01, 0x00]), false);
    assert!(matches!(t.process_clocks(1), Err(TapeLoadError::InvalidTzxFile)));
}

/// A block whose declared payload exceeds the stream surfaces as `IoError`.
#[test]
fn truncated_payload_is_io_error() {
    // Standard-speed block claiming 10 payload bytes, only 3 present.
    let mut t = engine(tape(&[0x10, 0x00, 0x00, 0x0A, 0x00, 0x01, 0x02, 0x03]), false);
    assert!(matches!(t.process_clocks(1), Err(TapeLoadError::IoError)));
}
