//! Decoding of raw HID reports into sensor readings.
//!
//! A report carries no format tag. Its length alone selects the layout: long
//! reports hold little-endian IEEE-754 words, short ones hold big-endian
//! signed counts.

use crate::error::SensorError;
use crate::reading::{clock_now, Quantity, ReadingView, SensorData};
use std::time::Instant;
use vstd::prelude::*;
use vstd::slice::slice_subrange;

verus! {

/// Size of the buffer that one HID report is read into.
pub const REPORT_CAPACITY: usize = 64;

/// Counts per unit of acceleration in the short layout.
pub const ACCEL_COUNTS_PER_UNIT: u16 = 16384;

/// Counts per unit of angular velocity in the short layout.
pub const GYRO_COUNTS_PER_UNIT: u16 = 131;

/// The 32-bit word whose little-endian bytes are `b0, b1, b2, b3`.
pub open spec fn le_word(b0: u8, b1: u8, b2: u8, b3: u8) -> u32 {
    (b0 as int + b1 as int * 0x100 + b2 as int * 0x1_0000 + b3 as int * 0x100_0000) as u32
}

/// The signed 16-bit number whose big-endian bytes are `hi, lo`.
pub open spec fn be_count(hi: u8, lo: u8) -> i16 {
    let raw = hi as int * 0x100 + lo as int;
    if raw < 0x8000 {
        raw as i16
    } else {
        (raw - 0x1_0000) as i16
    }
}

/// The bit pattern that [`parse_float`] reads from `bytes`.
pub open spec fn spec_parse_float(bytes: Seq<u8>) -> u32 {
    if bytes.len() < 4 {
        0
    } else {
        le_word(bytes[0], bytes[1], bytes[2], bytes[3])
    }
}

/// The word stored at `buf[at .. at + 4]`.
pub open spec fn word_at(buf: Seq<u8>, at: int) -> Quantity {
    Quantity::Binary32(le_word(buf[at], buf[at + 1], buf[at + 2], buf[at + 3]))
}

/// The count stored at `buf[at .. at + 2]`, on the scale `per_unit`.
pub open spec fn count_at(buf: Seq<u8>, at: int, per_unit: u16) -> Quantity {
    Quantity::Scaled { count: be_count(buf[at], buf[at + 1]), per_unit }
}

/// Three consecutive words starting at `at`.
pub open spec fn word_triple(buf: Seq<u8>, at: int) -> Seq<Quantity> {
    seq![word_at(buf, at), word_at(buf, at + 4), word_at(buf, at + 8)]
}

/// Three consecutive counts starting at `at`.
pub open spec fn count_triple(buf: Seq<u8>, at: int, per_unit: u16) -> Seq<Quantity> {
    seq![
        count_at(buf, at, per_unit),
        count_at(buf, at + 2, per_unit),
        count_at(buf, at + 4, per_unit),
    ]
}

/// Three zeros: a field group that the report did not carry.
pub open spec fn zero_triple() -> Seq<Quantity> {
    seq![Quantity::zero(), Quantity::zero(), Quantity::zero()]
}

/// What a report of `size` bytes in `buf` means, for `size >= 1`.
pub open spec fn decoded(buf: Seq<u8>, size: int, timestamp: Instant) -> ReadingView {
    ReadingView {
        timestamp,
        acceleration: if size >= 16 {
            word_triple(buf, 0)
        } else if size >= 6 {
            count_triple(buf, 0, ACCEL_COUNTS_PER_UNIT)
        } else {
            zero_triple()
        },
        gyro: if size >= 24 {
            word_triple(buf, 12)
        } else if 12 <= size < 16 {
            count_triple(buf, 6, GYRO_COUNTS_PER_UNIT)
        } else {
            zero_triple()
        },
        orientation: if size >= 40 {
            word_triple(buf, 28)
        } else {
            zero_triple()
        },
        temperature: if size >= 28 {
            word_at(buf, 24)
        } else {
            Quantity::zero()
        },
    }
}

/// Reassembles four little-endian bytes into the bit pattern of a
/// single-precision number. Fewer than four bytes give positive zero.
pub fn parse_float(bytes: &[u8]) -> (bits: u32)
    ensures
        bits == spec_parse_float(bytes@),
{
    if bytes.len() < 4 {
        return 0;
    }
    let b0: u8 = bytes[0];
    let b1: u8 = bytes[1];
    let b2: u8 = bytes[2];
    let b3: u8 = bytes[3];
    let bits: u32 = (b0 as u32) | ((b1 as u32) << 8) | ((b2 as u32) << 16) | ((b3 as u32) << 24);
    assert(bits == (b0 as int + b1 as int * 0x100 + b2 as int * 0x1_0000 + b3 as int
        * 0x100_0000) as u32) by (bit_vector)
        requires
            bits == (b0 as u32) | ((b1 as u32) << 8) | ((b2 as u32) << 16) | ((b3 as u32) << 24),
    ;
    bits
}

/// Reads the big-endian signed count made of `hi` and `lo`.
pub fn parse_count(hi: u8, lo: u8) -> (count: i16)
    ensures
        count == be_count(hi, lo),
{
    let count: i16 = ((hi as i16) << 8) | (lo as i16);
    assert(count == be_count(hi, lo)) by (bit_vector)
        requires
            count == ((hi as i16) << 8) | (lo as i16),
    ;
    count
}

/// Reads the word at `buf[at .. at + 4]`.
fn read_word(buf: &[u8; REPORT_CAPACITY], at: usize) -> (word: Quantity)
    requires
        at + 4 <= REPORT_CAPACITY,
    ensures
        word == word_at(buf@, at as int),
{
    Quantity::Binary32(parse_float(slice_subrange(buf.as_slice(), at, at + 4)))
}

/// Reads three consecutive words starting at `at`.
fn read_word_triple(buf: &[u8; REPORT_CAPACITY], at: usize) -> (words: [Quantity; 3])
    requires
        at + 12 <= REPORT_CAPACITY,
    ensures
        words@ == word_triple(buf@, at as int),
{
    [read_word(buf, at), read_word(buf, at + 4), read_word(buf, at + 8)]
}

/// Reads the count at `buf[at .. at + 2]` on the scale `per_unit`.
fn read_count(buf: &[u8; REPORT_CAPACITY], at: usize, per_unit: u16) -> (count: Quantity)
    requires
        at + 2 <= REPORT_CAPACITY,
    ensures
        count == count_at(buf@, at as int, per_unit),
{
    Quantity::Scaled { count: parse_count(buf[at], buf[at + 1]), per_unit }
}

/// Reads three consecutive counts starting at `at`.
fn read_count_triple(
    buf: &[u8; REPORT_CAPACITY],
    at: usize,
    per_unit: u16,
) -> (counts: [Quantity; 3])
    requires
        at + 6 <= REPORT_CAPACITY,
    ensures
        counts@ == count_triple(buf@, at as int, per_unit),
{
    [
        read_count(buf, at, per_unit),
        read_count(buf, at + 2, per_unit),
        read_count(buf, at + 4, per_unit),
    ]
}

/// Decodes the first `size` bytes of `buf` into a reading captured at
/// `captured_at`.
///
/// An empty report is an error. Any other length gives a complete reading:
/// the fields that the report is too short to carry stay zero.
pub fn decode_report(
    buf: &[u8; REPORT_CAPACITY],
    size: usize,
    captured_at: Instant,
) -> (result: Result<SensorData, SensorError>)
    ensures
        result is Err <==> size == 0,
        result matches Err(e) ==> e matches SensorError::ReadError(detail) && detail@
            == "Zero bytes read"@,
        result matches Ok(data) ==> data@ == decoded(buf@, size as int, captured_at),
{
    if size == 0 {
        return Err(SensorError::ReadError(String::from_str("Zero bytes read")));
    }
    let mut data = SensorData::zeroed(captured_at);
    if size >= 16 {
        data.acceleration = read_word_triple(buf, 0);
        if size >= 24 {
            data.gyro = read_word_triple(buf, 12);
        }
        if size >= 28 {
            data.temperature = read_word(buf, 24);
        }
        if size >= 40 {
            data.orientation = read_word_triple(buf, 28);
        }
    } else if size >= 6 {
        data.acceleration = read_count_triple(buf, 0, ACCEL_COUNTS_PER_UNIT);
        if size >= 12 {
            data.gyro = read_count_triple(buf, 6, GYRO_COUNTS_PER_UNIT);
        }
    }
    Ok(data)
}

/// Turns the outcome of one timed read into a reading or a read error.
///
/// `outcome` is the number of bytes that the read placed in `buf`, or the
/// host's description of why it failed. A reading is stamped with the
/// instant at which this function is called.
pub fn read_sensor_data(
    outcome: Result<usize, String>,
    buf: &[u8; REPORT_CAPACITY],
) -> (result: Result<SensorData, SensorError>)
    ensures
        result is Ok <==> (outcome matches Ok(size) && size > 0),
        result matches Ok(data) ==> data@ == decoded(
            buf@,
            outcome->Ok_0 as int,
            data.timestamp,
        ),
        result matches Err(e) ==> e matches SensorError::ReadError(detail) && detail@ == (
        match outcome {
            Ok(_) => "Zero bytes read"@,
            Err(reason) => reason@,
        }),
{
    match outcome {
        Ok(size) => decode_report(buf, size, clock_now()),
        Err(reason) => Err(SensorError::ReadError(reason)),
    }
}

/// The four little-endian bytes of `bits`.
pub open spec fn le_bytes(bits: u32) -> Seq<u8> {
    seq![
        (bits % 0x100) as u8,
        (bits / 0x100 % 0x100) as u8,
        (bits / 0x1_0000 % 0x100) as u8,
        (bits / 0x100_0000) as u8,
    ]
}

/// The `k`-th word of a long report, counted from zero: three of
/// acceleration, three of angular velocity, the temperature, three of
/// orientation.
pub open spec fn word_slot(reading: ReadingView, k: int) -> Quantity {
    if k < 3 {
        reading.acceleration[k]
    } else if k < 6 {
        reading.gyro[k - 3]
    } else if k == 6 {
        reading.temperature
    } else {
        reading.orientation[k - 7]
    }
}

/// The shortest report that carries the `k`-th word.
pub open spec fn word_slot_min_size(k: int) -> int {
    if k < 3 {
        16
    } else if k < 6 {
        24
    } else if k == 6 {
        28
    } else {
        40
    }
}

/// Splitting a word into little-endian bytes and reassembling it gives the
/// word back, bit for bit.
pub proof fn lemma_le_word_round_trip(bits: u32)
    ensures
        spec_parse_float(le_bytes(bits)) == bits,
        le_word(le_bytes(bits)[0], le_bytes(bits)[1], le_bytes(bits)[2], le_bytes(bits)[3])
            == bits,
{
}

/// A word written in little-endian order into its slot of a long enough
/// report is decoded to exactly that bit pattern.
pub proof fn lemma_decode_round_trip(
    buf: Seq<u8>,
    size: int,
    timestamp: Instant,
    k: int,
    bits: u32,
)
    requires
        buf.len() == REPORT_CAPACITY,
        0 <= k < 10,
        size >= word_slot_min_size(k),
        buf.subrange(4 * k, 4 * k + 4) == le_bytes(bits),
    ensures
        word_slot(decoded(buf, size, timestamp), k) == Quantity::Binary32(bits),
{
    let word = buf.subrange(4 * k, 4 * k + 4);
    assert(word[0] == buf[4 * k] && word[1] == buf[4 * k + 1] && word[2] == buf[4 * k + 2]
        && word[3] == buf[4 * k + 3]);
    lemma_le_word_round_trip(bits);
    assert(word_at(buf, 4 * k) == Quantity::Binary32(bits));
}

/// Decoding looks at no byte beyond those that were read: two buffers that
/// agree on their first `size` bytes decode to the same reading.
pub proof fn lemma_decode_ignores_unread_bytes(
    left: Seq<u8>,
    right: Seq<u8>,
    size: int,
    timestamp: Instant,
)
    requires
        left.len() == REPORT_CAPACITY,
        right.len() == REPORT_CAPACITY,
        1 <= size,
        forall|i: int| 0 <= i < size && i < REPORT_CAPACITY ==> left[i] == right[i],
    ensures
        decoded(left, size, timestamp) == decoded(right, size, timestamp),
{
    if size >= 16 {
        assert(word_triple(left, 0) =~= word_triple(right, 0));
    } else if size >= 6 {
        assert(count_triple(left, 0, ACCEL_COUNTS_PER_UNIT) =~= count_triple(
            right,
            0,
            ACCEL_COUNTS_PER_UNIT,
        ));
    }
    if size >= 24 {
        assert(word_triple(left, 12) =~= word_triple(right, 12));
    } else if 12 <= size < 16 {
        assert(count_triple(left, 6, GYRO_COUNTS_PER_UNIT) =~= count_triple(
            right,
            6,
            GYRO_COUNTS_PER_UNIT,
        ));
    }
    if size >= 40 {
        assert(word_triple(left, 28) =~= word_triple(right, 28));
    }
}

/// A report of zero bytes decodes, length by length, to a reading whose
/// every field is zero: nothing is populated below six bytes, counts of
/// acceleration from six, counts of angular velocity from twelve, and from
/// sixteen on words only, whose zero is the unpopulated zero.
pub proof fn lemma_zero_report(buf: Seq<u8>, size: int, timestamp: Instant)
    requires
        buf.len() == REPORT_CAPACITY,
        forall|i: int| 0 <= i < buf.len() ==> buf[i] == 0,
        1 <= size,
    ensures
        ({
            let reading = decoded(buf, size, timestamp);
            let accel_zero = Quantity::Scaled { count: 0, per_unit: ACCEL_COUNTS_PER_UNIT };
            let gyro_zero = Quantity::Scaled { count: 0, per_unit: GYRO_COUNTS_PER_UNIT };
            &&& reading.timestamp == timestamp
            &&& reading.acceleration == if 6 <= size < 16 {
                seq![accel_zero, accel_zero, accel_zero]
            } else {
                zero_triple()
            }
            &&& reading.gyro == if 12 <= size < 16 {
                seq![gyro_zero, gyro_zero, gyro_zero]
            } else {
                zero_triple()
            }
            &&& reading.orientation == zero_triple()
            &&& reading.temperature == Quantity::zero()
            &&& forall|k: int| 0 <= k < 3 ==> (#[trigger] reading.acceleration[k]).spec_is_zero()
            &&& forall|k: int| 0 <= k < 3 ==> (#[trigger] reading.gyro[k]).spec_is_zero()
            &&& forall|k: int| 0 <= k < 3 ==> (#[trigger] reading.orientation[k]).spec_is_zero()
            &&& reading.temperature.spec_is_zero()
        }),
{
    assert(le_word(0, 0, 0, 0) == 0);
    assert(be_count(0, 0) == 0);
    assert forall|at: int| 0 <= at <= 60 implies #[trigger] word_at(buf, at)
        == Quantity::zero() by {}
    assert forall|at: int, per_unit: u16| 0 <= at <= 62 implies #[trigger] count_at(
        buf,
        at,
        per_unit,
    ) == (Quantity::Scaled { count: 0, per_unit }) by {}
}

} // verus!
