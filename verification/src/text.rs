//! Decimal text: zero-padded numbers and the `HH:MM:SS:mmm` clock reading.

use vstd::arithmetic::div_mod::lemma_fundamental_div_mod_converse;
use vstd::prelude::*;
use vstd::string::StringExecFns;

verus! {

/// The character that stands for the decimal digit `d`.
pub open spec fn digit_char(d: nat) -> char {
    if d == 0 {
        '0'
    } else if d == 1 {
        '1'
    } else if d == 2 {
        '2'
    } else if d == 3 {
        '3'
    } else if d == 4 {
        '4'
    } else if d == 5 {
        '5'
    } else if d == 6 {
        '6'
    } else if d == 7 {
        '7'
    } else if d == 8 {
        '8'
    } else {
        '9'
    }
}

/// The decimal digits of `n`, most significant first, without leading zeros
/// (zero itself is the single digit `0`).
pub open spec fn decimal(n: nat) -> Seq<char>
    decreases n,
{
    if n < 10 {
        seq![digit_char(n)]
    } else {
        decimal(n / 10).push(digit_char(n % 10))
    }
}

/// `count` zeros.
pub open spec fn zeros(count: nat) -> Seq<char> {
    Seq::new(count, |i: int| '0')
}

/// The decimal digits of `n`, with zeros in front up to `width` characters.
/// A number with more digits than `width` is written in full.
pub open spec fn zero_padded(n: nat, width: nat) -> Seq<char> {
    let digits = decimal(n);
    if digits.len() >= width {
        digits
    } else {
        zeros((width - digits.len()) as nat) + digits
    }
}

/// The reading of `millis` milliseconds as hours, minutes, seconds and
/// milliseconds, separated by colons. Minutes and seconds run from 0 to 59,
/// milliseconds from 0 to 999; hours take what is left, however large.
pub open spec fn clock_text(millis: nat) -> Seq<char> {
    zero_padded(millis / 3_600_000, 2) + seq![':']
        + zero_padded(millis / 60_000 % 60, 2) + seq![':']
        + zero_padded(millis / 1_000 % 60, 2) + seq![':']
        + zero_padded(millis % 1_000, 3)
}

/// Appends one decimal digit.
fn push_digit(out: &mut String, d: u8)
    requires
        d < 10,
    ensures
        final(out)@ == old(out)@.push(digit_char(d as nat)),
{
    proof {
        reveal_strlit("0");
        reveal_strlit("1");
        reveal_strlit("2");
        reveal_strlit("3");
        reveal_strlit("4");
        reveal_strlit("5");
        reveal_strlit("6");
        reveal_strlit("7");
        reveal_strlit("8");
        reveal_strlit("9");
    }
    let glyph: &str = match d {
        0 => "0",
        1 => "1",
        2 => "2",
        3 => "3",
        4 => "4",
        5 => "5",
        6 => "6",
        7 => "7",
        8 => "8",
        _ => "9",
    };
    assert(glyph@ =~= seq![digit_char(d as nat)]);
    out.append(glyph);
}

/// Appends the decimal digits of `n`.
fn push_decimal(out: &mut String, n: u128)
    ensures
        final(out)@ == old(out)@ + decimal(n as nat),
    decreases n,
{
    if n >= 10 {
        push_decimal(out, n / 10);
    }
    let d: u8 = (n % 10) as u8;
    push_digit(out, d);
    assert(final(out)@ =~= old(out)@ + decimal(n as nat));
}

/// How many decimal digits `n` has.
fn decimal_len(n: u128) -> (count: usize)
    ensures
        count == decimal(n as nat).len(),
        1 <= count <= 39,
    decreases n,
{
    if n < 10 {
        1
    } else {
        proof {
            lemma_decimal_len_bound(n as nat);
        }
        decimal_len(n / 10) + 1
    }
}

/// A number below `10^39` has at most 39 digits; every `u128` is such a one.
proof fn lemma_decimal_len_bound(n: nat)
    requires
        n <= u128::MAX,
    ensures
        decimal(n).len() <= 39,
{
    reveal_with_fuel(decimal, 40);
}

/// Appends `n` in decimal, zero-padded to `width` characters.
pub fn push_zero_padded(out: &mut String, n: u128, width: usize)
    ensures
        final(out)@ == old(out)@ + zero_padded(n as nat, width as nat),
{
    let count = decimal_len(n);
    let ghost before = out@;
    let mut written: usize = count;
    while written < width
        invariant
            count <= written,
            written <= width || written == count,
            out@ == before + zeros((written - count) as nat),
        decreases width - written,
    {
        proof {
            reveal_strlit("0");
        }
        out.append("0");
        written = written + 1;
        assert(out@ =~= before + zeros((written - count) as nat));
    }
    assert(before + zeros(0) =~= before);
    push_decimal(out, n);
    assert(final(out)@ =~= old(out)@ + zero_padded(n as nat, width as nat));
}

/// The clock reading of `millis` milliseconds, as a string.
pub fn format_millis(millis: u128) -> (text: String)
    ensures
        text@ == clock_text(millis as nat),
{
    proof {
        reveal_strlit(":");
    }
    let mut text = String::new();
    push_zero_padded(&mut text, millis / 3_600_000, 2);
    text.append(":");
    push_zero_padded(&mut text, millis / 60_000 % 60, 2);
    text.append(":");
    push_zero_padded(&mut text, millis / 1_000 % 60, 2);
    text.append(":");
    push_zero_padded(&mut text, millis % 1_000, 3);
    assert(text@ =~= clock_text(millis as nat));
    text
}

/// The number that the decimal digits `digits` stand for.
pub open spec fn decimal_value(digits: Seq<char>) -> nat
    decreases digits.len(),
{
    if digits.len() == 0 {
        0
    } else {
        decimal_value(digits.drop_last()) * 10 + (digits.last() as nat - '0' as nat) as nat
    }
}

/// The digits of a number read back as that number: nothing is cut off and
/// nothing wraps, however large the number.
pub proof fn law_decimal_reads_back(n: nat)
    ensures
        decimal_value(decimal(n)) == n,
        decimal(n).len() >= 1,
    decreases n,
{
    if n < 10 {
        assert(decimal(n).drop_last() =~= Seq::<char>::empty());
        assert(decimal_value(decimal(n).drop_last()) == 0);
    } else {
        law_decimal_reads_back(n / 10);
        assert(decimal(n).drop_last() =~= decimal(n / 10));
    }
}

/// Padding only ever adds zeros in front: the padded text is at least `width`
/// long, at least as long as the digits, and ends with all of them.
pub proof fn law_padding_keeps_digits(n: nat, width: nat)
    ensures
        zero_padded(n, width).len() >= width,
        zero_padded(n, width).len() >= decimal(n).len(),
        zero_padded(n, width).skip(zero_padded(n, width).len() - decimal(n).len()) == decimal(n),
        forall|i: int|
            0 <= i < zero_padded(n, width).len() - decimal(n).len() ==> zero_padded(n, width)[i]
                == '0',
{
    let padded = zero_padded(n, width);
    assert(padded.skip(padded.len() - decimal(n).len()) =~= decimal(n));
}

/// A number below 100, padded to two characters, is its tens digit and its
/// units digit.
pub proof fn law_two_digits(n: nat)
    requires
        n < 100,
    ensures
        zero_padded(n, 2) == seq![digit_char(n / 10), digit_char(n % 10)],
{
    reveal_with_fuel(decimal, 3);
    assert(zero_padded(n, 2) =~= seq![digit_char(n / 10), digit_char(n % 10)]);
}

/// A number below 1000, padded to three characters, is its hundreds, tens and
/// units digits.
pub proof fn law_three_digits(n: nat)
    requires
        n < 1000,
    ensures
        zero_padded(n, 3) == seq![
            digit_char(n / 100),
            digit_char(n / 10 % 10),
            digit_char(n % 10),
        ],
{
    reveal_with_fuel(decimal, 4);
    assert(zero_padded(n, 3) =~= seq![
        digit_char(n / 100),
        digit_char(n / 10 % 10),
        digit_char(n % 10),
    ]);
}

/// A time made of `h` hours, `mi` minutes, `s` seconds and `ms` milliseconds
/// reads back as exactly those four numbers: hours padded to two digits,
/// minutes and seconds as two digits each, milliseconds as three, with colons
/// between.
pub proof fn law_clock_text_fields(h: nat, mi: nat, s: nat, ms: nat)
    requires
        mi < 60,
        s < 60,
        ms < 1000,
    ensures
        clock_text(h * 3_600_000 + mi * 60_000 + s * 1_000 + ms) == zero_padded(h, 2) + seq![':']
            + seq![digit_char(mi / 10), digit_char(mi % 10)] + seq![':'] + seq![
            digit_char(s / 10),
            digit_char(s % 10),
        ] + seq![':'] + seq![digit_char(ms / 100), digit_char(ms / 10 % 10), digit_char(ms % 10)],
{
    lemma_fields_split(h, mi, s, ms);
    law_two_digits(mi);
    law_two_digits(s);
    law_three_digits(ms);
}

/// Division and remainder take a time apart into the four numbers that it was
/// put together from.
proof fn lemma_fields_split(h: nat, mi: nat, s: nat, ms: nat)
    requires
        mi < 60,
        s < 60,
        ms < 1000,
    ensures
        (h * 3_600_000 + mi * 60_000 + s * 1_000 + ms) / 3_600_000 == h,
        (h * 3_600_000 + mi * 60_000 + s * 1_000 + ms) / 60_000 % 60 == mi,
        (h * 3_600_000 + mi * 60_000 + s * 1_000 + ms) / 1_000 % 60 == s,
        (h * 3_600_000 + mi * 60_000 + s * 1_000 + ms) % 1_000 == ms,
{
    let m = (h * 3_600_000 + mi * 60_000 + s * 1_000 + ms) as int;
    let whole_minutes = (h * 60 + mi) as int;
    let whole_seconds = (whole_minutes * 60 + s) as int;
    lemma_fundamental_div_mod_converse(m, 1_000, whole_seconds, ms as int);
    lemma_fundamental_div_mod_converse(whole_seconds, 60, whole_minutes, s as int);
    lemma_fundamental_div_mod_converse(m, 60_000, whole_minutes, (s * 1_000 + ms) as int);
    lemma_fundamental_div_mod_converse(whole_minutes, 60, h as int, mi as int);
    lemma_fundamental_div_mod_converse(
        m,
        3_600_000,
        h as int,
        (mi * 60_000 + s * 1_000 + ms) as int,
    );
}

/// From a hundred hours on the hours are written in full, with three digits
/// or more: the reading grows longer, and the hours never wrap.
pub proof fn law_hours_never_wrap(millis: nat)
    requires
        millis >= 360_000_000,
    ensures
        zero_padded(millis / 3_600_000, 2) == decimal(millis / 3_600_000),
        decimal(millis / 3_600_000).len() >= 3,
        decimal_value(decimal(millis / 3_600_000)) == millis / 3_600_000,
        clock_text(millis).len() == decimal(millis / 3_600_000).len() + 10,
{
    let h = millis / 3_600_000;
    assert(h >= 100);
    law_decimal_reads_back(h);
    assert(decimal(h).len() >= 3) by {
        reveal_with_fuel(decimal, 3);
    }
    law_two_digits(millis / 60_000 % 60);
    law_two_digits(millis / 1_000 % 60);
    law_three_digits(millis % 1_000);
}

} // verus!
