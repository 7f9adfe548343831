//! CRC-8 with polynomial 0x31 and initial register 0xFF (non-reflected), the
//! checksum the sensor appends to every measurement frame.

use vstd::prelude::*;

verus! {

/// One round of the checksum: shift the register left and, when the bit
/// shifted out was set, fold in the polynomial 0x31.
pub open spec fn crc8_round(c: u8) -> u8 {
    if c & 0x80 != 0 {
        (c << 1) ^ 0x31
    } else {
        c << 1
    }
}

/// `n` rounds of `crc8_round` applied to `c`.
pub open spec fn crc8_rounds(c: u8, n: nat) -> u8
    decreases n,
{
    if n == 0 {
        c
    } else {
        crc8_round(crc8_rounds(c, (n - 1) as nat))
    }
}

/// Folding one data byte into the register: xor it in, then run the eight
/// per-bit rounds.
pub open spec fn crc8_update(c: u8, b: u8) -> u8 {
    crc8_rounds(c ^ b, 8)
}

/// The CRC-8 of a byte sequence: start from 0xFF and fold the bytes in from
/// left to right.
pub open spec fn crc8_over(data: Seq<u8>) -> u8
    decreases data.len(),
{
    if data.len() == 0 {
        0xFF
    } else {
        crc8_update(crc8_over(data.drop_last()), data.last())
    }
}

/// Computes the CRC-8 (polynomial 0x31, initial value 0xFF) of `data`.
pub fn crc8(data: &[u8]) -> (r: u8)
    ensures
        r == crc8_over(data@),
{
    let mut crc: u8 = 0xFF;
    let mut i: usize = 0;
    while i < data.len()
        invariant
            i <= data@.len(),
            crc == crc8_over(data@.take(i as int)),
        decreases data@.len() - i,
    {
        let ghost prev: u8 = crc;
        let b: u8 = data[i];
        crc = crc ^ b;
        let ghost start: u8 = crc;
        let mut k: usize = 0;
        while k < 8
            invariant
                k <= 8,
                crc == crc8_rounds(start, k as nat),
            decreases 8 - k,
        {
            crc = if crc & 0x80 != 0 {
                (crc << 1) ^ 0x31
            } else {
                crc << 1
            };
            k = k + 1;
        }
        proof {
            assert(crc == crc8_update(prev, b));
            assert(data@.take(i + 1).drop_last() =~= data@.take(i as int));
            assert(data@.take(i + 1).last() == b);
        }
        i = i + 1;
    }
    proof {
        assert(data@.take(data@.len() as int) =~= data@);
    }
    crc
}

} // verus!
