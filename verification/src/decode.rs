use vstd::prelude::*;

use vstd::arithmetic::power2::lemma2_to64;
use vstd::arithmetic::power2::lemma_pow2_strictly_increases;
use vstd::arithmetic::power2::lemma_pow2_unfold;
use vstd::arithmetic::power2::pow2;

use crate::capture::MAX_PULSE_COUNT;
use crate::capture::PULSE_PAIRS;
use crate::capture::PulseCounters;
use crate::error::SensorError;

verus! {

/// Number of bytes in one sensor frame.
pub const FRAME_BYTES: usize = 5;

/// Number of data-bearing pulse pairs (all pairs but pair 0, the
/// acknowledgment).
pub const DATA_PAIRS: usize = PULSE_PAIRS - 1;

/// The high-pulse counter of pulse pair `p`.
pub open spec fn high_count(c: Seq<u32>, p: int) -> u32 {
    c[2 * p + 1]
}

/// Sum of the high-pulse counters of the data pairs `1..=n`.
pub open spec fn data_high_sum(c: Seq<u32>, n: int) -> int
    decreases n,
{
    if n <= 0 {
        0
    } else {
        data_high_sum(c, n - 1) + high_count(c, n)
    }
}

/// The bit-decision threshold of a capture: the arithmetic mean of the 40
/// data-bearing high-pulse counters. Pair 0, the acknowledgment pulse,
/// carries no data and is excluded.
pub open spec fn threshold_of(c: Seq<u32>) -> int {
    data_high_sum(c, DATA_PAIRS as int) / (DATA_PAIRS as int)
}

/// Data bit `k` (0-based among the 40 data bits): 1 exactly when the high
/// pulse of pair `k + 1` lasted at least `thr` iterations.
pub open spec fn bit_of(c: Seq<u32>, thr: int, k: int) -> int {
    if high_count(c, k + 1) >= thr {
        1
    } else {
        0
    }
}

/// Value of frame byte `j` after its first `m` bits. Bits are assembled
/// MSB-first: the earliest bit, data bit `8 * j`, ends up in the most
/// significant position of the byte.
pub open spec fn byte_prefix(c: Seq<u32>, thr: int, j: int, m: int) -> int
    decreases m,
{
    if m <= 0 {
        0
    } else {
        2 * byte_prefix(c, thr, j, m - 1) + bit_of(c, thr, 8 * j + (m - 1))
    }
}

/// Frame byte `j`, assembled MSB-first from data bits `8j .. 8j + 7`.
pub open spec fn byte_of(c: Seq<u32>, thr: int, j: int) -> int {
    byte_prefix(c, thr, j, 8)
}

/// A byte prefix of `m` bits is a non-negative value below `2^m`.
pub proof fn lemma_byte_prefix_bound(c: Seq<u32>, thr: int, j: int, m: nat)
    ensures
        0 <= byte_prefix(c, thr, j, m as int) < pow2(m),
    decreases m,
{
    if m == 0 {
        lemma2_to64();
    } else {
        lemma_byte_prefix_bound(c, thr, j, (m - 1) as nat);
        lemma_pow2_unfold(m);
    }
}

/// The raw 5-byte frame recovered from the 40 data bits, in wire order:
/// humidity integer part, humidity decimal part, temperature integer part,
/// temperature decimal part, checksum.
pub struct RawFrame {
    pub humidity_int: u8,
    pub humidity_dec: u8,
    pub temperature_int: u8,
    pub temperature_dec: u8,
    pub checksum: u8,
}

/// The frame invariant: the checksum byte equals the sum of the four data
/// bytes with 8-bit wraparound.
pub open spec fn checksum_ok(f: RawFrame) -> bool {
    f.checksum == (f.humidity_int + f.humidity_dec + f.temperature_int + f.temperature_dec) % 256
}

/// A validated reading, kept in the sensor's integer-plus-decimal encoding:
/// the measured humidity is `humidity_int + humidity_dec / 10` percent and
/// the temperature `temperature_int + temperature_dec / 10` degrees.
pub struct Reading {
    pub humidity_int: u8,
    pub humidity_dec: u8,
    pub temperature_int: u8,
    pub temperature_dec: u8,
}

/// The reading a checksum-valid frame denotes: its four data bytes.
pub open spec fn reading_of(f: RawFrame) -> Reading {
    Reading {
        humidity_int: f.humidity_int,
        humidity_dec: f.humidity_dec,
        temperature_int: f.temperature_int,
        temperature_dec: f.temperature_dec,
    }
}

/// The frame a completed capture denotes: each byte assembled against the
/// capture's own threshold.
pub open spec fn frame_of(c: Seq<u32>) -> RawFrame {
    let thr = threshold_of(c);
    RawFrame {
        humidity_int: byte_of(c, thr, 0) as u8,
        humidity_dec: byte_of(c, thr, 1) as u8,
        temperature_int: byte_of(c, thr, 2) as u8,
        temperature_dec: byte_of(c, thr, 3) as u8,
        checksum: byte_of(c, thr, 4) as u8,
    }
}

/// Derives the bit-decision threshold of a completed capture: the mean of
/// the high-pulse counters of the 40 data pairs, excluding pair 0.
pub fn compute_threshold(pc: &PulseCounters) -> (t: u32)
    requires
        pc.wf(),
    ensures
        t == threshold_of(pc@),
{
    let mut sum: u32 = 0;
    let mut p: usize = 1;
    while p <= DATA_PAIRS
        invariant
            pc.wf(),
            1 <= p <= DATA_PAIRS + 1,
            sum == data_high_sum(pc@, p as int - 1),
            sum <= (p - 1) * (MAX_PULSE_COUNT - 1),
        decreases DATA_PAIRS + 1 - p,
    {
        proof {
            assert(pc@[2 * (p as int) + 1] < MAX_PULSE_COUNT);
            assert((p - 1) * (MAX_PULSE_COUNT - 1) + (MAX_PULSE_COUNT - 1) == p * (
            MAX_PULSE_COUNT - 1)) by (nonlinear_arith);
            assert(p * (MAX_PULSE_COUNT - 1) <= 40 * (MAX_PULSE_COUNT - 1)) by (nonlinear_arith)
                requires
                    1 <= p <= 40,
            ;
        }
        sum = sum + pc.get(2 * p + 1);
        p = p + 1;
    }
    sum / (DATA_PAIRS as u32)
}

/// Assembles frame byte `j` from data bits `8j .. 8j + 7`, MSB-first: a
/// data pair whose high-pulse counter is at least `threshold` contributes
/// a 1 bit.
pub fn decode_byte(pc: &PulseCounters, threshold: u32, j: usize) -> (b: u8)
    requires
        pc.wf(),
        j < FRAME_BYTES,
    ensures
        b as int == byte_of(pc@, threshold as int, j as int),
{
    let mut b: u8 = 0;
    let mut m: usize = 0;
    while m < 8
        invariant
            pc.wf(),
            j < FRAME_BYTES,
            m <= 8,
            b as int == byte_prefix(pc@, threshold as int, j as int, m as int),
        decreases 8 - m,
    {
        proof {
            lemma_byte_prefix_bound(pc@, threshold as int, j as int, m as nat);
            lemma2_to64();
            if (m as nat) < 7 {
                lemma_pow2_strictly_increases(m as nat, 7nat);
            }
        }
        let k = 8 * j + m;
        let hi = pc.get(2 * k + 3);
        let bit: u8 = if hi >= threshold {
            1
        } else {
            0
        };
        b = 2 * b + bit;
        m = m + 1;
    }
    b
}

/// Assembles the whole 5-byte frame from a completed capture, in wire
/// order: humidity integer, humidity decimal, temperature integer,
/// temperature decimal, checksum.
pub fn assemble_frame(pc: &PulseCounters, threshold: u32) -> (f: RawFrame)
    requires
        pc.wf(),
    ensures
        f.humidity_int as int == byte_of(pc@, threshold as int, 0),
        f.humidity_dec as int == byte_of(pc@, threshold as int, 1),
        f.temperature_int as int == byte_of(pc@, threshold as int, 2),
        f.temperature_dec as int == byte_of(pc@, threshold as int, 3),
        f.checksum as int == byte_of(pc@, threshold as int, 4),
{
    RawFrame {
        humidity_int: decode_byte(pc, threshold, 0),
        humidity_dec: decode_byte(pc, threshold, 1),
        temperature_int: decode_byte(pc, threshold, 2),
        temperature_dec: decode_byte(pc, threshold, 3),
        checksum: decode_byte(pc, threshold, 4),
    }
}

/// Validates a frame against its checksum. A frame whose checksum byte
/// equals the 8-bit wraparound sum of its four data bytes yields the
/// reading made of exactly those bytes; any other frame is rejected with
/// `SensorError::FailedRead` and yields no reading.
pub fn validate_frame(f: &RawFrame) -> (r: Result<Reading, SensorError>)
    ensures
        checksum_ok(*f) ==> (r matches Ok(rd) && rd == reading_of(*f)),
        !checksum_ok(*f) ==> (r matches Err(e) && e matches SensorError::FailedRead(m)
            && m@ == "failed checksum validation"@),
{
    let sum: u32 = f.humidity_int as u32 + f.humidity_dec as u32 + f.temperature_int as u32
        + f.temperature_dec as u32;
    let expected: u8 = (sum % 256) as u8;
    if f.checksum == expected {
        Ok(
            Reading {
                humidity_int: f.humidity_int,
                humidity_dec: f.humidity_dec,
                temperature_int: f.temperature_int,
                temperature_dec: f.temperature_dec,
            },
        )
    } else {
        Err(SensorError::FailedRead(String::from_str("failed checksum validation")))
    }
}

/// Decodes one completed capture into a reading: derives the threshold,
/// assembles the frame and validates its checksum. Decoding is atomic:
/// either the capture's frame satisfies the checksum invariant and the
/// reading made of its four data bytes is returned, or the capture is
/// rejected as a failed read and no reading is produced.
pub fn decode_reading(pc: &PulseCounters) -> (r: Result<Reading, SensorError>)
    requires
        pc.wf(),
    ensures
        checksum_ok(frame_of(pc@)) ==> (r matches Ok(rd) && rd == reading_of(frame_of(pc@))),
        !checksum_ok(frame_of(pc@)) ==> (r matches Err(e) && e matches SensorError::FailedRead(m)
            && m@ == "failed checksum validation"@),
{
    let threshold = compute_threshold(pc);
    let frame = assemble_frame(pc, threshold);
    proof {
        lemma_byte_prefix_bound(pc@, threshold as int, 0, 8);
        lemma_byte_prefix_bound(pc@, threshold as int, 1, 8);
        lemma_byte_prefix_bound(pc@, threshold as int, 2, 8);
        lemma_byte_prefix_bound(pc@, threshold as int, 3, 8);
        lemma_byte_prefix_bound(pc@, threshold as int, 4, 8);
        assert(frame == frame_of(pc@));
    }
    validate_frame(&frame)
}

} // verus!
