use dht11::capture::{CaptureState, CaptureStep, PulseCounters, MAX_PULSE_COUNT, PULSE_SLOTS};
use dht11::decode::{assemble_frame, compute_threshold, decode_reading, validate_frame, RawFrame};
use dht11::error::SensorError;

/// Builds a full 82-slot counter vector: every low counter 50, the
/// acknowledgment high counter `ack_high`, and the 40 data high counters
/// taken from `highs`.
fn counters_with_highs(ack_high: u32, highs: &[u32]) -> Vec<u32> {
    assert_eq!(highs.len(), 40);
    let mut counts = vec![50u32; 82];
    counts[1] = ack_high;
    for p in 1..=40 {
        counts[2 * p + 1] = highs[p - 1];
    }
    counts
}

/// Data high counters that encode the given frame bytes MSB-first: a 1 bit
/// becomes a high count of `hi`, a 0 bit one of `lo`.
fn highs_for_bytes(bytes: [u8; 5], lo: u32, hi: u32) -> Vec<u32> {
    let mut highs: Vec<u32> = Vec::new();
    for k in 0..40 {
        let bit: u8 = (bytes[k / 8] >> (7 - (k % 8))) & 1;
        highs.push(if bit == 1 { hi } else { lo });
    }
    highs
}

fn pulse_counters(counts: Vec<u32>) -> PulseCounters {
    match PulseCounters::from_counts(counts) {
        Some(pc) => pc,
        None => panic!("counters were rejected"),
    }
}

/// Feeds line-level samples into the capture state machine so that each
/// slot records exactly the given count, and returns the finished counters.
fn drive_capture(counts: &[u32]) -> PulseCounters {
    assert_eq!(counts.len(), PULSE_SLOTS);
    let mut st = CaptureState::new();
    for slot in 0..PULSE_SLOTS {
        // The level this slot counts: low in even slots, high in odd ones.
        let counting_level_high = slot % 2 == 1;
        for _ in 0..counts[slot] {
            st = match st.step(counting_level_high) {
                CaptureStep::Continue(s) => s,
                _ => panic!("capture ended early while counting slot {}", slot),
            };
        }
        match st.step(!counting_level_high) {
            CaptureStep::Continue(s) => {
                assert!(slot != PULSE_SLOTS - 1);
                st = s;
            }
            CaptureStep::Done(pc) => {
                assert_eq!(slot, PULSE_SLOTS - 1);
                return pc;
            }
            CaptureStep::TimedOut(_) => panic!("unexpected timeout in slot {}", slot),
        }
    }
    unreachable!();
}

#[test]
fn capture_machine_records_pulse_lengths() {
    let mut counts = vec![7u32; 82];
    counts[0] = 0;
    counts[1] = 3;
    counts[80] = 11;
    counts[81] = 1;
    let pc = drive_capture(&counts);
    for i in 0..82 {
        assert_eq!(pc.get(i), counts[i]);
    }
}

#[test]
fn capture_times_out_on_endless_low_pulse() {
    let mut st = CaptureState::new();
    let mut increments = 0u32;
    loop {
        match st.step(false) {
            CaptureStep::Continue(s) => {
                st = s;
                increments += 1;
                assert!(increments < MAX_PULSE_COUNT);
            }
            CaptureStep::TimedOut(e) => {
                // The counter reached the bound: exactly MAX_PULSE_COUNT - 1
                // increments succeeded before the aborting one.
                assert_eq!(increments, MAX_PULSE_COUNT - 1);
                match e {
                    SensorError::Timeout(m) => assert_eq!(m, "timed out low pulse capture"),
                    _ => panic!("expected a timeout error"),
                }
                return;
            }
            CaptureStep::Done(_) => panic!("capture cannot finish on a held-low line"),
        }
    }
}

#[test]
fn capture_times_out_on_endless_high_pulse() {
    let mut st = CaptureState::new();
    // A high sample closes slot 0 (the acknowledgment low pulse) at count 0.
    st = match st.step(true) {
        CaptureStep::Continue(s) => s,
        _ => panic!("closing slot 0 must continue the capture"),
    };
    let mut increments = 0u32;
    loop {
        match st.step(true) {
            CaptureStep::Continue(s) => {
                st = s;
                increments += 1;
                assert!(increments < MAX_PULSE_COUNT);
            }
            CaptureStep::TimedOut(e) => {
                assert_eq!(increments, MAX_PULSE_COUNT - 1);
                match e {
                    SensorError::Timeout(m) => assert_eq!(m, "timed out high pulse capture"),
                    _ => panic!("expected a timeout error"),
                }
                return;
            }
            CaptureStep::Done(_) => panic!("capture cannot finish on a held-high line"),
        }
    }
}

#[test]
fn from_counts_rejects_wrong_length() {
    assert!(PulseCounters::from_counts(vec![0u32; 81]).is_none());
}

#[test]
fn from_counts_rejects_counter_at_bound() {
    let mut counts = vec![50u32; 82];
    counts[17] = MAX_PULSE_COUNT;
    assert!(PulseCounters::from_counts(counts).is_none());
}

#[test]
fn from_counts_accepts_complete_capture() {
    let pc = pulse_counters(vec![MAX_PULSE_COUNT - 1; 82]);
    assert_eq!(pc.get(0), MAX_PULSE_COUNT - 1);
    assert_eq!(pc.get(81), MAX_PULSE_COUNT - 1);
}

#[test]
fn threshold_is_mean_of_data_highs_only() {
    // 20 data highs of 10 and 20 of 30: mean 20. The acknowledgment high
    // is far larger and must not influence the threshold.
    let mut highs = vec![10u32; 20];
    highs.extend(vec![30u32; 20]);
    let pc = pulse_counters(counters_with_highs(31000, &highs));
    assert_eq!(compute_threshold(&pc), 20);
}

#[test]
fn threshold_division_rounds_down() {
    // Data highs summing to 81: the mean 81/40 truncates to 2.
    let mut highs = vec![1u32; 39];
    highs.push(42);
    let pc = pulse_counters(counters_with_highs(50, &highs));
    assert_eq!(compute_threshold(&pc), 2);
}

#[test]
fn first_data_bit_is_msb_of_first_byte() {
    // Only data bit 0 is a 1: mean (90 + 39*10)/40 = 12 separates 10 and 90.
    let mut highs = vec![10u32; 40];
    highs[0] = 90;
    let pc = pulse_counters(counters_with_highs(50, &highs));
    let threshold = compute_threshold(&pc);
    let frame = assemble_frame(&pc, threshold);
    assert_eq!(frame.humidity_int, 0x80);
    assert_eq!(frame.humidity_dec, 0);
    assert_eq!(frame.temperature_int, 0);
    assert_eq!(frame.temperature_dec, 0);
    assert_eq!(frame.checksum, 0);
}

#[test]
fn last_bit_of_byte_is_lsb() {
    // Only data bit 7 is a 1: the first byte decodes to 0x01.
    let mut highs = vec![10u32; 40];
    highs[7] = 90;
    let pc = pulse_counters(counters_with_highs(50, &highs));
    let threshold = compute_threshold(&pc);
    let frame = assemble_frame(&pc, threshold);
    assert_eq!(frame.humidity_int, 0x01);
}

#[test]
fn frame_bytes_follow_wire_order() {
    // Bytes [1, 2, 3, 4, 10]: checksum 1+2+3+4 = 10 holds, so decoding
    // succeeds and each byte lands in its documented position.
    let highs = highs_for_bytes([1, 2, 3, 4, 10], 10, 90);
    let pc = pulse_counters(counters_with_highs(50, &highs));
    match decode_reading(&pc) {
        Ok(r) => {
            assert_eq!(r.humidity_int, 1);
            assert_eq!(r.humidity_dec, 2);
            assert_eq!(r.temperature_int, 3);
            assert_eq!(r.temperature_dec, 4);
        }
        Err(_) => panic!("a checksum-valid frame must decode"),
    }
}

#[test]
fn validate_accepts_wraparound_checksum() {
    // 0x80 + 0x80 + 0x40 + 0x41 = 0x181; modulo 256 that is 0x81.
    let frame = RawFrame {
        humidity_int: 0x80,
        humidity_dec: 0x80,
        temperature_int: 0x40,
        temperature_dec: 0x41,
        checksum: 0x81,
    };
    match validate_frame(&frame) {
        Ok(r) => {
            assert_eq!(r.humidity_int, 0x80);
            assert_eq!(r.temperature_dec, 0x41);
        }
        Err(_) => panic!("a wraparound checksum must validate"),
    }
}

#[test]
fn validate_rejects_bad_checksum() {
    let frame = RawFrame {
        humidity_int: 1,
        humidity_dec: 2,
        temperature_int: 3,
        temperature_dec: 4,
        checksum: 11,
    };
    match validate_frame(&frame) {
        Ok(_) => panic!("a checksum-invalid frame must not decode"),
        Err(SensorError::FailedRead(m)) => assert_eq!(m, "failed checksum validation"),
        Err(_) => panic!("the failure must be a FailedRead"),
    }
}

#[test]
fn decode_rejects_corrupt_capture() {
    // Bytes [1, 2, 3, 4, 11]: checksum is off by one.
    let highs = highs_for_bytes([1, 2, 3, 4, 11], 10, 90);
    let pc = pulse_counters(counters_with_highs(50, &highs));
    match decode_reading(&pc) {
        Ok(_) => panic!("a checksum-invalid capture must not decode"),
        Err(SensorError::FailedRead(m)) => assert_eq!(m, "failed checksum validation"),
        Err(_) => panic!("the failure must be a FailedRead"),
    }
}

#[test]
fn decode_example_reading() {
    // Frame [0x32, 0x00, 0x15, 0x00, 0x47]: 50% humidity, 21.0 degrees,
    // checksum 0x32 + 0x00 + 0x15 + 0x00 = 0x47. Highs of 10 and 90 put
    // the mean (30) strictly between the two counts.
    let highs = highs_for_bytes([0x32, 0x00, 0x15, 0x00, 0x47], 10, 90);
    let pc = pulse_counters(counters_with_highs(50, &highs));
    assert_eq!(compute_threshold(&pc), 30);
    match decode_reading(&pc) {
        Ok(r) => {
            let temperature = r.temperature_int as f32 + r.temperature_dec as f32 / 10.0;
            let humidity = r.humidity_int as f32 + r.humidity_dec as f32 / 10.0;
            assert_eq!(temperature, 21.0);
            assert_eq!(humidity, 50.0);
        }
        Err(_) => panic!("the example frame must decode"),
    }
}

#[test]
fn decode_example_reading_through_capture_machine() {
    // The same example frame, with the counters produced by the capture
    // state machine instead of the direct constructor.
    let highs = highs_for_bytes([0x32, 0x00, 0x15, 0x00, 0x47], 10, 90);
    let pc = drive_capture(&counters_with_highs(50, &highs));
    match decode_reading(&pc) {
        Ok(r) => {
            assert_eq!(r.humidity_int, 0x32);
            assert_eq!(r.humidity_dec, 0x00);
            assert_eq!(r.temperature_int, 0x15);
            assert_eq!(r.temperature_dec, 0x00);
        }
        Err(_) => panic!("the example frame must decode"),
    }
}
