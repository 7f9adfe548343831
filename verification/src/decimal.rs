//! Decimal ASCII rendering of small counters, used by the firmware loop
//! around the driver to format readings for a serial line.

use vstd::prelude::*;

verus! {

/// The bytes the renderer produces for `n`: "100" for one hundred,
/// otherwise up to two decimal digits with no leading zero (for values
/// above one hundred the same two-position shape, as the register splits
/// into tens and ones).
pub open spec fn decimal_bytes(n: u8) -> Seq<u8> {
    if n == 100 {
        seq![49u8, 48u8, 48u8]
    } else if n / 10 > 0 {
        seq![(48 + n / 10) as u8, (48 + n % 10) as u8]
    } else {
        seq![(48 + n % 10) as u8]
    }
}

/// Renders `n` in decimal ASCII, meant for values up to 100.
pub fn u8_to_decimal_buf(n: u8) -> (r: Vec<u8>)
    ensures
        r@ == decimal_bytes(n),
{
    let mut out: Vec<u8> = Vec::new();
    if n == 100 {
        out.push(49);
        out.push(48);
        out.push(48);
        proof {
            assert(out@ =~= decimal_bytes(n));
        }
        return out;
    }
    let tens: u8 = n / 10;
    let ones: u8 = n % 10;
    if tens > 0 {
        out.push(48 + tens);
    }
    out.push(48 + ones);
    proof {
        assert(out@ =~= decimal_bytes(n));
    }
    out
}

} // verus!
