//! Small formatting utilities: byte counts in human units and string
//! truncation with an ellipsis.

use vstd::prelude::*;

use crate::strutil::{concat2, dec_str, digit_char, u64_to_string};

verus! {

/// One kibibyte.
pub const KB: u64 = 1024;

/// One mebibyte.
pub const MB: u64 = 1024 * 1024;

/// One gibibyte.
pub const GB: u64 = 1024 * 1024 * 1024;

/// A byte count scaled by a unit, to one decimal place, rounded to the
/// nearest tenth with ties away from zero.
pub open spec fn scaled_spec(bytes: nat, unit: nat) -> Seq<char>
    recommends
        unit >= 2,
{
    let whole = bytes / unit;
    let tenths = ((bytes % unit) * 10 + unit / 2) / unit;
    if tenths == 10 {
        dec_str(whole + 1) + ".0"@
    } else {
        dec_str(whole) + "."@ + seq![digit_char(tenths)]
    }
}

/// A byte count in the largest unit it reaches, to one decimal place; plain
/// bytes below one kibibyte.
pub open spec fn format_bytes_spec(bytes: u64) -> Seq<char> {
    if bytes >= GB {
        scaled_spec(bytes as nat, GB as nat) + " GB"@
    } else if bytes >= MB {
        scaled_spec(bytes as nat, MB as nat) + " MB"@
    } else if bytes >= KB {
        scaled_spec(bytes as nat, KB as nat) + " KB"@
    } else {
        dec_str(bytes as nat) + " B"@
    }
}

fn scaled(bytes: u64, unit: u64) -> (r: String)
    requires
        2 <= unit <= 0x4000_0000,
    ensures
        r@ == scaled_spec(bytes as nat, unit as nat),
{
    proof {
        vstd::arithmetic::div_mod::lemma_div_is_ordered_by_denominator(
            bytes as int,
            2,
            unit as int,
        );
    }
    let whole = bytes / unit;
    let rem = bytes % unit;
    let tenths = (rem * 10 + unit / 2) / unit;
    proof {
        assert(unit / 2 < unit);
        assert(rem * 10 + unit / 2 < unit * 11) by (nonlinear_arith)
            requires
                rem < unit,
                2 <= unit,
                unit / 2 < unit,
        ;
        vstd::arithmetic::div_mod::lemma_multiply_divide_lt(
            rem as int * 10 + unit as int / 2,
            unit as int,
            11,
        );
        assert(tenths <= 10);
    }
    if tenths == 10 {
        let mut s = u64_to_string(whole + 1);
        s.append(".0");
        proof {
            assert(s@ =~= scaled_spec(bytes as nat, unit as nat));
        }
        s
    } else {
        let mut s = u64_to_string(whole);
        s.append(".");
        let d = crate::strutil::u64_to_string(tenths);
        s.append(d.as_str());
        proof {
            assert(tenths < 10);
            assert(dec_str(tenths as nat) =~= seq![digit_char(tenths as nat)]);
            assert(s@ =~= scaled_spec(bytes as nat, unit as nat));
        }
        s
    }
}

/// Renders a byte count in human units: whole bytes below one kibibyte, else
/// the largest reached unit to one decimal place.
pub fn format_bytes(bytes: u64) -> (r: String)
    ensures
        r@ == format_bytes_spec(bytes),
{
    if bytes >= GB {
        let s = scaled(bytes, GB);
        concat2(s.as_str(), " GB")
    } else if bytes >= MB {
        let s = scaled(bytes, MB);
        concat2(s.as_str(), " MB")
    } else if bytes >= KB {
        let s = scaled(bytes, KB);
        concat2(s.as_str(), " KB")
    } else {
        let s = u64_to_string(bytes);
        concat2(s.as_str(), " B")
    }
}

/// The string unchanged when it fits, else its first `max_len - 3`
/// characters with a trailing ellipsis.
pub open spec fn truncate_spec(s: Seq<char>, max_len: int) -> Seq<char> {
    if s.len() <= max_len {
        s
    } else {
        s.take(max_len - 3) + "..."@
    }
}

/// Truncates a string to at most `max_len` characters, ending a shortened
/// string with an ellipsis.
pub fn truncate_string(s: &str, max_len: usize) -> (r: String)
    requires
        max_len >= 3,
    ensures
        r@ == truncate_spec(s@, max_len as int),
{
    let n = s.unicode_len();
    if n <= max_len {
        s.to_owned()
    } else {
        let head = s.substring_char(0, max_len - 3);
        proof {
            assert(s@.subrange(0, max_len - 3) =~= s@.take(max_len - 3));
        }
        concat2(head, "...")
    }
}

} // verus!
