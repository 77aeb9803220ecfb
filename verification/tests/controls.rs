//! Control operations, payload streaming and the default timings, observed
//! through the public interface.

use tzx_engine::{InMemoryAsset, TapeTimings, Tzx};

/// A valid ten-byte file header: signature, end-of-text marker, version 1.20.
fn header_bytes() -> Vec<u8> {
    vec![0x5A, 0x58, 0x54, 0x61, 0x70, 0x65, 0x21, 0x1A, 0x01, 0x14]
}

fn tape(blocks: &[u8]) -> Vec<u8> {
    let mut v = header_bytes();
    v.extend_from_slice(blocks);
    v
}

fn engine(bytes: Vec<u8>) -> Tzx<InMemoryAsset> {
    match Tzx::from_asset(InMemoryAsset::new(bytes), false) {
        Ok(t) => t,
        Err(_) => panic!("engine construction failed"),
    }
}

/// A tape with one standard-speed block of two payload bytes.
fn small_tape() -> Vec<u8> {
    tape(&[0x10, 0xE8, 0x03, 0x02, 0x00, 0x00, 0xFF])
}

/// The bits observed over `n` single-tick calls.
fn bits(t: &mut Tzx<InMemoryAsset>, n: usize) -> Vec<bool> {
    let mut out = Vec::new();
    for _ in 0..n {
        t.process_clocks(1).unwrap();
        out.push(t.current_bit());
    }
    out
}

/// The standard ROM timings, as the defaults.
#[test]
fn default_timings_are_standard() {
    let d = TapeTimings::default();
    assert_eq!(d.pilot_length, 2168);
    assert_eq!(d.sync1_length, 667);
    assert_eq!(d.sync2_length, 735);
    assert_eq!(d.bit_0_length, 855);
    assert_eq!(d.bit_1_length, 1710);
    assert_eq!(d.pilot_pulses_header, 8063);
    assert_eq!(d.pilot_pulses_data, 3223);
    assert_eq!(d.pause_length, 3_500_000);
    assert!(d.pilot_tone_length.is_none());
}

/// A stopped machine ignores clocks: the bit is stable and the state stays
/// stopped, whatever the deltas.
#[test]
fn stopped_machine_ignores_clocks() {
    let mut t = engine(small_tape());
    t.process_clocks(5000).unwrap();
    let _ = bits(&mut t, 100);
    t.stop();
    assert!(t.can_fast_load());
    let level = t.current_bit();
    for clocks in [0usize, 1, 999, 1_000_000] {
        t.process_clocks(clocks).unwrap();
        assert_eq!(t.current_bit(), level);
        assert!(t.can_fast_load());
    }
}

/// Stop then play, with no clocks in between, resumes with output
/// bit-identical to an uninterrupted twin.
#[test]
fn stop_play_round_trip_is_transparent() {
    let mut interrupted = engine(small_tape());
    let mut uninterrupted = engine(small_tape());
    interrupted.process_clocks(5000).unwrap();
    uninterrupted.process_clocks(5000).unwrap();
    interrupted.stop();
    interrupted.play();
    assert_eq!(bits(&mut interrupted, 8000), bits(&mut uninterrupted, 8000));
}

/// `play` on a machine stopped since construction starts it playing.
#[test]
fn play_from_fresh_stop_starts() {
    let mut t = engine(tape(&[0x20, 0x00, 0x00, 0x12, 0x08, 0x08, 0x02, 0x00]));
    // The pause block stops the tape...
    t.process_clocks(1).unwrap();
    assert!(t.can_fast_load());
    // ...and play resumes reading blocks: the pure tone follows.
    t.play();
    assert!(!t.can_fast_load());
    t.process_clocks(1).unwrap();
    let mut saw_edge = false;
    for _ in 0..3000 {
        t.process_clocks(1).unwrap();
        if t.current_bit() {
            saw_edge = true;
            break;
        }
    }
    assert!(saw_edge, "tone should play after resuming");
}

/// An engine rewound before any clocks behaves exactly like a fresh one.
#[test]
fn rewind_of_fresh_engine_replays_identically() {
    let mut rewound = engine(small_tape());
    assert!(matches!(rewound.rewind(), Ok(())));
    let mut fresh = engine(small_tape());
    assert_eq!(bits(&mut rewound, 10000), bits(&mut fresh, 10000));
}

/// Rewinding twice is the same as rewinding once.
#[test]
fn rewind_is_idempotent() {
    let mut once = engine(small_tape());
    let mut twice = engine(small_tape());
    once.process_clocks(4321).unwrap();
    twice.process_clocks(4321).unwrap();
    once.rewind().unwrap();
    twice.rewind().unwrap();
    twice.rewind().unwrap();
    assert_eq!(once.current_bit(), twice.current_bit());
    assert_eq!(bits(&mut once, 10000), bits(&mut twice, 10000));
}

/// `rewind` clears the output bit and the end-of-tape latch: a finished
/// tape can be taken from the top.
#[test]
fn rewind_clears_tape_end() {
    let mut t = engine(header_bytes());
    t.process_clocks(1).unwrap();
    assert!(t.can_fast_load());
    t.rewind().unwrap();
    assert!(!t.current_bit());
    // The machine is still in its stopped state; play restarts it, and the
    // header is read again from position zero.
    t.play();
    assert!(!t.can_fast_load());
}

/// Payload bytes stream in order through `next_block_byte`, with `None`
/// after the declared size.
#[test]
fn payload_streams_in_order() {
    let mut t = engine(vec![0x10, 0x00, 0x00, 0x03, 0x00, 0x11, 0x22, 0x33]);
    assert!(matches!(t.next_block(), Ok(true)));
    assert!(matches!(t.next_block_byte(), Ok(Some(0x11))));
    assert!(matches!(t.next_block_byte(), Ok(Some(0x22))));
    assert!(matches!(t.next_block_byte(), Ok(Some(0x33))));
    assert!(matches!(t.next_block_byte(), Ok(None)));
    assert!(matches!(t.next_block_byte(), Ok(None)));
}

/// A payload larger than the 128-byte window refills the window from the
/// source and still streams every byte in order.
#[test]
fn payload_larger_than_window_refills() {
    let size: usize = 300;
    let mut data = vec![0x10, 0x00, 0x00, (size & 0xFF) as u8, (size >> 8) as u8];
    for i in 0..size {
        data.push((i % 251) as u8);
    }
    let mut t = engine(data);
    assert!(matches!(t.next_block(), Ok(true)));
    for i in 0..size {
        match t.next_block_byte() {
            Ok(Some(b)) => assert_eq!(b as usize, i % 251, "byte {}", i),
            _ => panic!("byte {} missing", i),
        }
    }
    assert!(matches!(t.next_block_byte(), Ok(None)));
}

/// With no block decoded there is no payload to stream.
#[test]
fn no_block_no_payload() {
    let mut t = engine(small_tape());
    assert!(matches!(t.next_block_byte(), Ok(None)));
}

/// Group, text and archive blocks carry no signal: the machine skips them
/// and plays what follows.
#[test]
fn text_and_group_blocks_are_silent() {
    let blocks = [
        0x21, 0x02, 0x41, 0x42,  // group start, name "AB"
        0x30, 0x03, 0x58, 0x59, 0x5A,  // text description "XYZ"
        0x22,  // group end
        0x12, 0x08, 0x08, 0x02, 0x00,  // pure tone: 2 pulses of 2056
    ];
    let mut t = engine(tape(&blocks));
    let mut edges: usize = 0;
    let mut level = t.current_bit();
    for _ in 0..3 * 2056 + 100 {
        t.process_clocks(1).unwrap();
        if t.current_bit() != level {
            level = t.current_bit();
            edges += 1;
        }
    }
    assert_eq!(edges, 2, "exactly the tone's two edges");
    assert!(t.can_fast_load());
}

/// Unknown and deprecated blocks are skipped without output.
#[test]
fn unknown_blocks_are_skipped() {
    let blocks = [
        0x2B, 0x01, 0x00, 0x00, 0x00, 0xFF,  // set-signal-level: skipped by size
        0x34,  // deprecated: ignored
        0x20, 0x00, 0x00,  // stop
    ];
    let mut t = engine(tape(&blocks));
    // One zero-cost call per control block, then the stop block.
    for _ in 0..5 {
        assert!(matches!(t.process_clocks(1), Ok(())));
    }
    assert!(t.can_fast_load());
    assert!(!t.current_bit());
}

/// A fresh engine reports not stopped and a low output line.
#[test]
fn fresh_engine_initial_observables() {
    let t = engine(small_tape());
    assert!(!t.can_fast_load());
    assert!(!t.current_bit());
}
