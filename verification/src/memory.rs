//! The memory readout: integer arithmetic for the used-memory percentage
//! and the process reading, and the fixed-pattern display string built
//! from one sample. Everything is computed in tenths, rounded to the
//! nearest tenth, so that one decimal digit can be shown without
//! floating point.

use vstd::arithmetic::div_mod::{lemma_div_is_ordered, lemma_div_nonincreasing};
use vstd::prelude::*;

use crate::messages::MemSample;

verus! {

/// The character for one decimal digit.
pub open spec fn digit_char(d: nat) -> char {
    if d == 0 {
        '0'
    } else if d == 1 {
        '1'
    } else if d == 2 {
        '2'
    } else if d == 3 {
        '3'
    } else if d == 4 {
        '4'
    } else if d == 5 {
        '5'
    } else if d == 6 {
        '6'
    } else if d == 7 {
        '7'
    } else if d == 8 {
        '8'
    } else {
        '9'
    }
}

/// The decimal representation of `n`, most significant digit first,
/// with no leading zeros (a single `0` for zero).
pub open spec fn spec_dec(n: nat) -> Seq<char>
    decreases n,
{
    if n < 10 {
        seq![digit_char(n)]
    } else {
        spec_dec(n / 10).push(digit_char(n % 10))
    }
}

/// The quotient `a / b` rounded to the nearest integer, halves to the
/// even neighbour — the rule `{:.1}` applies to the last kept digit.
pub open spec fn spec_div_round_even(a: nat, b: nat) -> nat
    recommends
        b > 0,
{
    let q = a / b;
    if a % b * 2 < b {
        q
    } else if a % b * 2 > b {
        q + 1
    } else if q % 2 == 0 {
        q
    } else {
        q + 1
    }
}

/// `used` over `total` in tenths of a percent, rounded to the nearest
/// tenth, clamped to [0, 1000]; 0 when the total is reported as 0.
pub open spec fn spec_percent_tenths(total: nat, used: nat) -> nat {
    if total == 0 {
        0
    } else if spec_div_round_even(used * 1000, total) > 1000 {
        1000
    } else {
        spec_div_round_even(used * 1000, total)
    }
}

/// The process reading scaled for display: the reported value divided by
/// 1024, in tenths rounded to the nearest tenth.
pub open spec fn spec_process_tenths(resident: nat) -> nat {
    spec_div_round_even(resident * 10, 1024)
}

/// A quantity in tenths rendered with one decimal digit, `12.5` for 125.
pub open spec fn spec_tenths_text(t: nat) -> Seq<char> {
    spec_dec(t / 10).push('.').push(digit_char(t % 10))
}

/// The full readout line built from one sample.
pub open spec fn spec_ram_text(sample: MemSample) -> Seq<char> {
    "RAM: "@ + spec_tenths_text(
        spec_percent_tenths(sample.system_total as nat, sample.system_used as nat),
    ) + "% <- "@ + spec_tenths_text(spec_process_tenths(sample.process_resident as nat))
        + " MB EFTM"@
}

/// The readout shown before the first sample arrives.
pub open spec fn spec_initial_ram_text() -> Seq<char> {
    "RAM: --% <- -- MB EFTM"@
}

/// The memory percentage never leaves [0, 100] (here in tenths), and is
/// 0 whenever the total is reported as 0.
pub proof fn lemma_percent_tenths_in_range(total: nat, used: nat)
    ensures
        spec_percent_tenths(total, used) <= 1000,
        total == 0 ==> spec_percent_tenths(total, used) == 0,
{
}

/// The quotient `a / b` rounded to the nearest integer, halves to even.
fn div_round_even(a: u128, b: u128) -> (r: u128)
    requires
        b > 0,
        a < u128::MAX,
    ensures
        r as nat == spec_div_round_even(a as nat, b as nat),
{
    let q = a / b;
    let rem = a % b;
    proof {
        lemma_div_nonincreasing(a as int, b as int);
    }
    if rem < b - rem {
        q
    } else if rem > b - rem {
        q + 1
    } else if q % 2 == 0 {
        q
    } else {
        q + 1
    }
}

/// The used-memory percentage of one sample, in tenths of a percent.
pub fn mem_percent_tenths(total: u64, used: u64) -> (r: u64)
    ensures
        r as nat == spec_percent_tenths(total as nat, used as nat),
        r <= 1000,
{
    if total == 0 {
        0
    } else {
        let q = div_round_even((used as u128) * 1000, total as u128);
        if q > 1000 {
            1000
        } else {
            q as u64
        }
    }
}

/// The process reading of one sample scaled for display, in tenths.
pub fn process_mem_tenths(resident: u64) -> (r: u64)
    ensures
        r as nat == spec_process_tenths(resident as nat),
{
    proof {
        lemma_div_is_ordered(
            (resident as int) * 10,
            (u64::MAX as int) * 10,
            1024,
        );
    }
    div_round_even((resident as u128) * 10, 1024) as u64
}

/// One decimal digit as a string slice.
fn digit_str(d: u64) -> (r: &'static str)
    requires
        d < 10,
    ensures
        r@ == seq![digit_char(d as nat)],
{
    proof {
        reveal_strlit("0");
        reveal_strlit("1");
        reveal_strlit("2");
        reveal_strlit("3");
        reveal_strlit("4");
        reveal_strlit("5");
        reveal_strlit("6");
        reveal_strlit("7");
        reveal_strlit("8");
        reveal_strlit("9");
    }
    if d == 0 {
        "0"
    } else if d == 1 {
        "1"
    } else if d == 2 {
        "2"
    } else if d == 3 {
        "3"
    } else if d == 4 {
        "4"
    } else if d == 5 {
        "5"
    } else if d == 6 {
        "6"
    } else if d == 7 {
        "7"
    } else if d == 8 {
        "8"
    } else {
        "9"
    }
}

/// Appends the decimal representation of `n` to `out`.
fn append_dec(out: &mut String, n: u64)
    ensures
        final(out)@ == old(out)@ + spec_dec(n as nat),
    decreases n,
{
    if n < 10 {
        out.append(digit_str(n));
        proof {
            assert(old(out)@ + seq![digit_char(n as nat)] =~= old(out)@ + spec_dec(n as nat));
        }
    } else {
        append_dec(out, n / 10);
        out.append(digit_str(n % 10));
        proof {
            assert((old(out)@ + spec_dec((n / 10) as nat)) + seq![digit_char((n % 10) as nat)]
                =~= old(out)@ + spec_dec(n as nat));
        }
    }
}

/// Appends a quantity in tenths with one decimal digit, `12.5` for 125.
fn append_tenths(out: &mut String, t: u64)
    ensures
        final(out)@ == old(out)@ + spec_tenths_text(t as nat),
{
    append_dec(out, t / 10);
    out.append(".");
    out.append(digit_str(t % 10));
    proof {
        reveal_strlit(".");
        assert(((old(out)@ + spec_dec((t / 10) as nat)) + "."@)
            + seq![digit_char((t % 10) as nat)] =~= old(out)@ + spec_tenths_text(t as nat));
    }
}

/// Formats the readout line for one sample, exactly as the view shows it.
pub fn format_ram_text(sample: MemSample) -> (s: String)
    ensures
        s@ == spec_ram_text(sample),
{
    let percent = mem_percent_tenths(sample.system_total, sample.system_used);
    let process = process_mem_tenths(sample.process_resident);
    let mut s = String::from_str("RAM: ");
    append_tenths(&mut s, percent);
    s.append("% <- ");
    append_tenths(&mut s, process);
    s.append(" MB EFTM");
    proof {
        assert(s@ =~= spec_ram_text(sample));
    }
    s
}

/// The readout shown before the first sample arrives.
pub fn initial_ram_text() -> (s: String)
    ensures
        s@ == spec_initial_ram_text(),
{
    String::from_str("RAM: --% <- -- MB EFTM")
}

} // verus!
