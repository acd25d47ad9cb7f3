//! Decisions behind the statistics panel: rendering a byte count in a
//! human-friendly unit, rate-limiting the refresh of gathered numbers, and
//! the threshold at which a usage gauge turns red.

use vstd::prelude::*;

use crate::text::dec_digits;
use crate::text::u64_to_string;

verus! {

pub const KB_BYTES: u64 = 1024;

pub const MB_BYTES: u64 = 1024 * 1024;

pub const GB_BYTES: u64 = 1024 * 1024 * 1024;

pub const TB_BYTES: u64 = 1024 * 1024 * 1024 * 1024;

/// A byte count scaled by `unit` and expressed in hundredths, rounded to the
/// nearest hundredth (halves away from zero).
pub open spec fn hundredths(bytes: nat, unit: nat) -> nat
    recommends
        unit > 0,
{
    ((bytes * 200 + unit) / (2 * unit)) as nat
}

/// A fraction of hundredths, always shown with two digits.
pub open spec fn pad2(f: nat) -> Seq<char>
    recommends
        f < 100,
{
    if f < 10 {
        seq!['0'] + dec_digits(f)
    } else {
        dec_digits(f)
    }
}

/// A byte count scaled by `unit`, written with two decimal places.
pub open spec fn scaled_text(bytes: nat, unit: nat) -> Seq<char>
    recommends
        unit > 0,
{
    let h = hundredths(bytes, unit);
    dec_digits(h / 100) + seq!['.'] + pad2(h % 100)
}

/// The text shown for a byte count: the largest unit the count exceeds, with
/// two decimal places, or the plain count in bytes below one kibibyte.
pub open spec fn mem_text(bytes: nat) -> Seq<char> {
    if bytes > TB_BYTES {
        scaled_text(bytes, TB_BYTES as nat) + " TB"@
    } else if bytes > GB_BYTES {
        scaled_text(bytes, GB_BYTES as nat) + " GB"@
    } else if bytes > MB_BYTES {
        scaled_text(bytes, MB_BYTES as nat) + " MB"@
    } else if bytes > KB_BYTES {
        scaled_text(bytes, KB_BYTES as nat) + " KB"@
    } else {
        dec_digits(bytes) + " B"@
    }
}

/// Renders a byte count scaled by `unit` with two decimal places.
fn format_scaled(bytes: u64, unit: u64) -> (r: String)
    requires
        1024 <= unit,
    ensures
        r@ == scaled_text(bytes as nat, unit as nat),
{
    let num: u128 = (bytes as u128) * 200 + (unit as u128);
    let den: u128 = 2 * (unit as u128);
    let h128: u128 = num / den;
    proof {
        assert(h128 * den <= num < den * (h128 + 1)) by (nonlinear_arith)
            requires
                den > 0,
                h128 == num / den,
        ;
        assert(h128 <= num / 2048) by (nonlinear_arith)
            requires
                den >= 2048,
                h128 * den <= num,
        ;
    }
    let h: u64 = h128 as u64;
    let whole: u64 = h / 100;
    let frac: u64 = h % 100;
    let mut s = u64_to_string(whole);
    s.append(".");
    if frac < 10 {
        s.append("0");
    }
    let frac_digits = u64_to_string(frac);
    s.append(frac_digits.as_str());
    proof {
        reveal_strlit(".");
        reveal_strlit("0");
        assert(h as nat == hundredths(bytes as nat, unit as nat));
        assert(s@ =~= scaled_text(bytes as nat, unit as nat));
    }
    s
}

/// Renders a byte count in the largest unit it exceeds, with two decimal
/// places, falling back to a plain byte count below one kibibyte.
pub fn human_friendly_mem(bytes: u64) -> (r: String)
    ensures
        r@ == mem_text(bytes as nat),
{
    if bytes > TB_BYTES {
        let mut s = format_scaled(bytes, TB_BYTES);
        s.append(" TB");
        s
    } else if bytes > GB_BYTES {
        let mut s = format_scaled(bytes, GB_BYTES);
        s.append(" GB");
        s
    } else if bytes > MB_BYTES {
        let mut s = format_scaled(bytes, MB_BYTES);
        s.append(" MB");
        s
    } else if bytes > KB_BYTES {
        let mut s = format_scaled(bytes, KB_BYTES);
        s.append(" KB");
        s
    } else {
        let mut s = u64_to_string(bytes);
        s.append(" B");
        s
    }
}

/// Whether a display frame drawn at this moment should refresh the gathered
/// system numbers: only in a short slice at the start of each second, so the
/// gathering cost is paid about once a second.
pub fn should_refresh(now_ms: u64) -> (r: bool)
    ensures
        r == (now_ms % 1000 < 40),
{
    now_ms % 1000 < 40
}

/// Whether a usage gauge is past four fifths of its capacity, the point at
/// which the display turns it red.
pub fn usage_is_high(used: u64, total: u64) -> (r: bool)
    ensures
        r == ((used as int) * 5 > (total as int) * 4),
{
    (used as u128) * 5 > (total as u128) * 4
}

} // verus!
