//! The 7-byte measurement frame: a status byte, 20 bits of humidity packed
//! high, 20 bits of temperature packed low around a shared nibble boundary,
//! and a trailing CRC-8 over the first six bytes.

use vstd::prelude::*;

use crate::crc::{crc8, crc8_over};

verus! {

/// The raw 20-bit humidity field: bytes 1..3 read as a big-endian 24-bit
/// value, with the low nibble (which belongs to temperature) shifted off.
pub open spec fn raw_humidity_of(f: Seq<u8>) -> u32 {
    (((f[1] as u32) << 16) | ((f[2] as u32) << 8) | (f[3] as u32)) >> 4
}

/// The raw 20-bit temperature field: the low nibble of byte 3 as the high
/// four bits, followed by bytes 4 and 5.
pub open spec fn raw_temperature_of(f: Seq<u8>) -> u32 {
    (((f[3] as u32) & 0x0F) << 16) | ((f[4] as u32) << 8) | (f[5] as u32)
}

/// The trailing byte of a 7-byte frame equals the CRC-8 of the first six.
pub open spec fn frame_crc_ok(f: Seq<u8>) -> bool {
    f[6] == crc8_over(f.subrange(0, 6))
}

/// A well-formed measurement frame: exactly seven bytes, checksum intact.
pub open spec fn valid_frame(f: Seq<u8>) -> bool {
    f.len() == 7 && frame_crc_ok(f)
}

/// Checks the trailing CRC byte of a 7-byte frame.
pub fn frame_check(frame: &[u8]) -> (ok: bool)
    requires
        frame@.len() == 7,
    ensures
        ok == frame_crc_ok(frame@),
{
    let payload: &[u8] = vstd::slice::slice_subrange(frame, 0, 6);
    let c: u8 = crc8(payload);
    c == frame[6]
}

/// Extracts the raw 20-bit humidity field of a 7-byte frame.
pub fn extract_raw_humidity(frame: &[u8]) -> (h: u32)
    requires
        frame@.len() == 7,
    ensures
        h == raw_humidity_of(frame@),
        h < 0x100000,
{
    let b1: u8 = frame[1];
    let b2: u8 = frame[2];
    let b3: u8 = frame[3];
    let h: u32 = (((b1 as u32) << 16) | ((b2 as u32) << 8) | (b3 as u32)) >> 4;
    proof {
        assert((((b1 as u32) << 16) | ((b2 as u32) << 8) | (b3 as u32)) >> 4 < 0x100000)
            by (bit_vector);
    }
    h
}

/// Extracts the raw 20-bit temperature field of a 7-byte frame.
pub fn extract_raw_temperature(frame: &[u8]) -> (t: u32)
    requires
        frame@.len() == 7,
    ensures
        t == raw_temperature_of(frame@),
        t < 0x100000,
{
    let b3: u8 = frame[3];
    let b4: u8 = frame[4];
    let b5: u8 = frame[5];
    let t: u32 = (((b3 as u32) & 0x0F) << 16) | ((b4 as u32) << 8) | (b5 as u32);
    proof {
        assert((((b3 as u32) & 0x0F) << 16) | ((b4 as u32) << 8) | (b5 as u32) < 0x100000)
            by (bit_vector);
    }
    t
}

/// Builds a frame that carries the given status byte and raw fields, with a
/// correct trailing CRC: extraction from the result reproduces `h` and `t`
/// exactly, so packing and extraction round-trip.
pub fn pack_frame(status: u8, h: u32, t: u32) -> (frame: Vec<u8>)
    requires
        h < 0x100000,
        t < 0x100000,
    ensures
        frame@.len() == 7,
        valid_frame(frame@),
        frame@[0] == status,
        raw_humidity_of(frame@) == h,
        raw_temperature_of(frame@) == t,
{
    let b1: u8 = #[verifier::truncate] ((h >> 12) as u8);
    let b2: u8 = #[verifier::truncate] ((h >> 4) as u8);
    let b3: u8 = ((#[verifier::truncate] (h as u8)) << 4) | ((t >> 16) as u8);
    let b4: u8 = #[verifier::truncate] ((t >> 8) as u8);
    let b5: u8 = #[verifier::truncate] (t as u8);
    let mut frame: Vec<u8> = Vec::new();
    frame.push(status);
    frame.push(b1);
    frame.push(b2);
    frame.push(b3);
    frame.push(b4);
    frame.push(b5);
    let ghost payload: Seq<u8> = frame@;
    let c: u8 = crc8(frame.as_slice());
    frame.push(c);
    proof {
        assert(frame@.subrange(0, 6) =~= payload);
        assert((((b1 as u32) << 16) | ((b2 as u32) << 8) | (b3 as u32)) >> 4 == h)
            by (bit_vector)
            requires
                h < 0x100000,
                t < 0x100000,
                b1 == (h >> 12) as u8,
                b2 == (h >> 4) as u8,
                b3 == (((h as u8) << 4)) | ((t >> 16) as u8),
        ;
        assert((((b3 as u32) & 0x0F) << 16) | ((b4 as u32) << 8) | (b5 as u32) == t)
            by (bit_vector)
            requires
                h < 0x100000,
                t < 0x100000,
                b3 == (((h as u8) << 4)) | ((t >> 16) as u8),
                b4 == (t >> 8) as u8,
                b5 == t as u8,
        ;
    }
    frame
}

/// Relative humidity in thousandths of a percent: the device's linear
/// transfer function `raw * 100 / 2^20` percent, rendered in fixed point
/// with the division rounding toward zero.
pub fn humidity_milli_percent(raw_h: u32) -> (r: u32)
    requires
        raw_h < 0x100000,
    ensures
        r == raw_h * 100_000 / 0x100000,
        r <= 100_000,
{
    let wide: u64 = (raw_h as u64) * 100_000;
    (wide / 0x100000) as u32
}

/// Temperature in thousandths of a degree Celsius: the device's linear
/// transfer function `raw * 200 / 2^20 - 50` degrees, rendered in fixed
/// point with the division rounding toward zero.
pub fn temperature_milli_celsius(raw_t: u32) -> (r: i64)
    requires
        raw_t < 0x100000,
    ensures
        r == raw_t * 200_000 / 0x100000 - 50_000,
        -50_000 <= r <= 150_000,
{
    let wide: i64 = (raw_t as i64) * 200_000;
    wide / 0x100000 - 50_000
}

} // verus!
