//! The Adalight-style device protocol: a six-byte header fixed by the LED
//! count, followed by one identical R,G,B triple per LED. The header is
//! computed once per process from the configured LED count; only the payload
//! changes from write to write.

use vstd::prelude::*;
use vstd::assert_seqs_equal;
use crate::color::Rgb8;
use crate::config::MAX_LED_COUNT;

verus! {

/// The LED count on the wire: the count minus one, as a 16-bit value.
pub open spec fn count_code(led_count: int) -> u16 {
    (led_count - 1) as u16
}

/// Header byte 3: the high byte of the wire count.
pub open spec fn count_high(led_count: int) -> u8 {
    (count_code(led_count) >> 8) as u8
}

/// Header byte 4: the low byte of the wire count.
pub open spec fn count_low(led_count: int) -> u8 {
    (count_code(led_count) & 0xff) as u8
}

/// Header byte 5: the checksum, high byte XOR low byte XOR 0x55.
pub open spec fn checksum(led_count: int) -> u8 {
    count_high(led_count) ^ count_low(led_count) ^ 0x55
}

/// The six header bytes for a strip of `led_count` LEDs: the magic
/// `'A','d','a'`, the two wire-count bytes, and the checksum.
pub open spec fn header_spec(led_count: int) -> Seq<u8> {
    seq![
        65u8,
        100u8,
        97u8,
        count_high(led_count),
        count_low(led_count),
        checksum(led_count),
    ]
}

/// Whether `bytes` is exactly the device frame that shows `color` on a strip
/// of `led_count` LEDs: the header followed by `led_count` copies of the
/// color's R,G,B bytes.
pub open spec fn is_frame_for(bytes: Seq<u8>, led_count: int, color: Rgb8) -> bool {
    &&& bytes.len() == 6 + 3 * led_count
    &&& bytes.subrange(0, 6) == header_spec(led_count)
    &&& (forall|n: int|
        0 <= n < led_count ==> #[trigger] bytes[6 + 3 * n] == color.r && bytes[6 + 3 * n + 1]
            == color.g && bytes[6 + 3 * n + 2] == color.b)
}

/// Computes the six header bytes for a strip of `led_count` LEDs.
pub fn encode_header(led_count: usize) -> (h: Vec<u8>)
    requires
        1 <= led_count <= MAX_LED_COUNT,
    ensures
        h@ == header_spec(led_count as int),
{
    let code: u16 = (led_count - 1) as u16;
    let high: u8 = (code >> 8) as u8;
    let low: u8 = (code & 0xff) as u8;
    let mut h: Vec<u8> = Vec::new();
    h.push(65);
    h.push(100);
    h.push(97);
    h.push(high);
    h.push(low);
    h.push(high ^ low ^ 0x55);
    proof {
        assert_seqs_equal!(h@ == header_spec(led_count as int));
    }
    h
}

/// Builds the full device frame for one color: the header for `led_count`
/// LEDs followed by `led_count` copies of the color's three channel bytes.
pub fn encode_frame(led_count: usize, color: Rgb8) -> (f: Vec<u8>)
    requires
        1 <= led_count <= MAX_LED_COUNT,
    ensures
        is_frame_for(f@, led_count as int, color),
{
    let header = encode_header(led_count);
    complete_frame(&header, led_count, color)
}

/// Completes a device frame from an already computed header — the header
/// depends only on the LED count and is computed once at driver startup —
/// by appending `led_count` copies of the color's three channel bytes.
pub fn complete_frame(header: &Vec<u8>, led_count: usize, color: Rgb8) -> (f: Vec<u8>)
    requires
        1 <= led_count <= MAX_LED_COUNT,
        header@ == header_spec(led_count as int),
    ensures
        is_frame_for(f@, led_count as int, color),
{
    let mut f = header.clone();
    proof {
        assert_seqs_equal!(f@ == header_spec(led_count as int));
    }
    let mut n: usize = 0;
    while n < led_count
        invariant
            1 <= led_count <= MAX_LED_COUNT,
            f.len() == 6 + 3 * n,
            n <= led_count,
            f@.subrange(0, 6) == header_spec(led_count as int),
            forall|k: int|
                0 <= k < n ==> #[trigger] f@[6 + 3 * k] == color.r && f@[6 + 3 * k + 1] == color.g
                    && f@[6 + 3 * k + 2] == color.b,
        decreases led_count - n,
    {
        let ghost prev = f@;
        f.push(color.r);
        f.push(color.g);
        f.push(color.b);
        proof {
            assert_seqs_equal!(f@.subrange(0, 6) == header_spec(led_count as int));
            assert forall|k: int| 0 <= k < n + 1 implies #[trigger] f@[6 + 3 * k] == color.r && f@[
                6 + 3 * k + 1
            ] == color.g && f@[6 + 3 * k + 2] == color.b by {
                if k < n {
                    assert(prev[6 + 3 * k] == color.r);
                    assert(f@[6 + 3 * k] == prev[6 + 3 * k]);
                    assert(f@[6 + 3 * k + 1] == prev[6 + 3 * k + 1]);
                    assert(f@[6 + 3 * k + 2] == prev[6 + 3 * k + 2]);
                } else {
                    assert(6 + 3 * k == prev.len());
                }
            }
        }
        n = n + 1;
    }
    f
}

} // verus!
