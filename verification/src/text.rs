//! Zero-padded decimal rendering for the timestamp strings the service emits.

use vstd::prelude::*;
use vstd::string::StringExecFns;

verus! {

/// The single decimal digit character for `d`.
pub open spec fn spec_digit(d: int) -> Seq<char> {
    if d == 0 {
        "0"@
    } else if d == 1 {
        "1"@
    } else if d == 2 {
        "2"@
    } else if d == 3 {
        "3"@
    } else if d == 4 {
        "4"@
    } else if d == 5 {
        "5"@
    } else if d == 6 {
        "6"@
    } else if d == 7 {
        "7"@
    } else if d == 8 {
        "8"@
    } else {
        "9"@
    }
}

/// `n` rendered as exactly two decimal digits, zero-padded.
pub open spec fn spec_pad2(n: int) -> Seq<char> {
    spec_digit(n / 10) + spec_digit(n % 10)
}

/// `n` rendered as exactly four decimal digits, zero-padded.
pub open spec fn spec_pad4(n: int) -> Seq<char> {
    spec_digit(n / 1000) + spec_digit((n / 100) % 10) + spec_digit((n / 10) % 10) + spec_digit(
        n % 10,
    )
}

fn digit_str(d: u32) -> (r: &'static str)
    requires
        d < 10,
    ensures
        r@ == spec_digit(d as int),
{
    match d {
        0 => "0",
        1 => "1",
        2 => "2",
        3 => "3",
        4 => "4",
        5 => "5",
        6 => "6",
        7 => "7",
        8 => "8",
        _ => "9",
    }
}

/// Appends `n` to `out` as two zero-padded decimal digits.
pub fn push_pad2(out: &mut String, n: u32)
    requires
        n < 100,
    ensures
        final(out)@ == old(out)@ + spec_pad2(n as int),
{
    out.append(digit_str(n / 10));
    out.append(digit_str(n % 10));
}

/// Appends `n` to `out` as four zero-padded decimal digits.
pub fn push_pad4(out: &mut String, n: u32)
    requires
        n < 10000,
    ensures
        final(out)@ == old(out)@ + spec_pad4(n as int),
{
    out.append(digit_str(n / 1000));
    out.append(digit_str((n / 100) % 10));
    out.append(digit_str((n / 10) % 10));
    out.append(digit_str(n % 10));
}

/// Every digit character is one character long.
pub proof fn lemma_digit_len(d: int)
    ensures
        spec_digit(d).len() == 1,
{
    reveal_strlit("0");
    reveal_strlit("1");
    reveal_strlit("2");
    reveal_strlit("3");
    reveal_strlit("4");
    reveal_strlit("5");
    reveal_strlit("6");
    reveal_strlit("7");
    reveal_strlit("8");
    reveal_strlit("9");
}

/// A two-digit rendering is two characters long.
pub proof fn lemma_pad2_len(n: int)
    ensures
        spec_pad2(n).len() == 2,
{
    lemma_digit_len(n / 10);
    lemma_digit_len(n % 10);
}

/// A four-digit rendering is four characters long.
pub proof fn lemma_pad4_len(n: int)
    ensures
        spec_pad4(n).len() == 4,
{
    lemma_digit_len(n / 1000);
    lemma_digit_len((n / 100) % 10);
    lemma_digit_len((n / 10) % 10);
    lemma_digit_len(n % 10);
}

} // verus!
