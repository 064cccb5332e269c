//! Serial report formatting: one ASCII decimal line per reading.
//!
//! A reading is emitted as its decimal digits, no sign, no padding and no
//! leading zeros (zero itself is the single digit `0`), terminated by a
//! carriage return and a line feed. The bytes go to the serial transport as
//! they are; also here is the display bar geometry, a fill extent
//! proportional to the reported value and clipped to its bounding box.

use vstd::prelude::*;

verus! {

/// ASCII decimal digits of `n`, most significant first, no leading zeros
/// (`0` is the single byte `b'0'`).
pub open spec fn spec_decimal_digits(n: nat) -> Seq<u8>
    decreases n,
{
    if n < 10 {
        seq![(48 + n) as u8]
    } else {
        spec_decimal_digits(n / 10).push((48 + n % 10) as u8)
    }
}

/// The full report line for a reading: its decimal digits followed by CR LF.
pub open spec fn spec_report_line(n: nat) -> Seq<u8> {
    spec_decimal_digits(n) + seq![13u8, 10u8]
}

/// Appends the decimal digits of `value` to `out`.
fn push_decimal_digits(value: u64, out: &mut Vec<u8>)
    ensures
        final(out)@ == old(out)@ + spec_decimal_digits(value as nat),
    decreases value,
{
    if value >= 10 {
        push_decimal_digits(value / 10, out);
        out.push(48 + (value % 10) as u8);
        proof {
            assert(out@ =~= old(out)@ + spec_decimal_digits(value as nat));
        }
    } else {
        out.push(48 + value as u8);
        proof {
            assert(out@ =~= old(out)@ + spec_decimal_digits(value as nat));
        }
    }
}

/// Formats one reading as the exact byte sequence the serial link carries:
/// ASCII decimal digits followed by `\r\n`.
pub fn format_reading(value: u64) -> (line: Vec<u8>)
    ensures
        line@ == spec_report_line(value as nat),
{
    let mut line: Vec<u8> = Vec::new();
    push_decimal_digits(value, &mut line);
    line.push(13);
    line.push(10);
    proof {
        assert(line@ =~= spec_report_line(value as nat));
    }
    line
}

/// Fill extent of the display bar for a reported value: proportional to
/// `value / full_scale` of the box extent, clipped to the box. The fill
/// never exceeds the bounding box however large the value.
pub open spec fn spec_bar_fill(value: int, full_scale: int, box_extent: int) -> int
    recommends
        full_scale >= 1,
{
    let proportional = value * box_extent / full_scale;
    if proportional > box_extent {
        box_extent
    } else {
        proportional
    }
}

/// Height (or width) in pixels of the bar's filled part for a reading,
/// proportional to the value and clipped to the bounding box extent.
pub fn bar_fill_extent(value: u32, full_scale: u32, box_extent: u32) -> (fill: u32)
    requires
        full_scale >= 1,
    ensures
        fill == spec_bar_fill(value as int, full_scale as int, box_extent as int),
        fill <= box_extent,
{
    proof {
        vstd::arithmetic::mul::lemma_mul_upper_bound(
            value as int,
            u32::MAX as int,
            box_extent as int,
            u32::MAX as int,
        );
    }
    let proportional = (value as u64) * (box_extent as u64) / (full_scale as u64);
    if proportional > box_extent as u64 {
        box_extent
    } else {
        proportional as u32
    }
}

} // verus!
