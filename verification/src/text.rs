//! Writing numbers into text.

use vstd::prelude::*;

verus! {

/// The character of a hexadecimal digit.
pub open spec fn digit(value: int) -> char {
    if value == 0 {
        '0'
    } else if value == 1 {
        '1'
    } else if value == 2 {
        '2'
    } else if value == 3 {
        '3'
    } else if value == 4 {
        '4'
    } else if value == 5 {
        '5'
    } else if value == 6 {
        '6'
    } else if value == 7 {
        '7'
    } else if value == 8 {
        '8'
    } else if value == 9 {
        '9'
    } else if value == 10 {
        'a'
    } else if value == 11 {
        'b'
    } else if value == 12 {
        'c'
    } else if value == 13 {
        'd'
    } else if value == 14 {
        'e'
    } else {
        'f'
    }
}

/// A number written in base `base`, most significant digit first and without
/// leading zeros.
pub open spec fn numeral(value: nat, base: nat) -> Seq<char>
    recommends
        2 <= base <= 16,
    decreases value,
{
    if base < 2 || value < base {
        seq![digit(value as int)]
    } else {
        proof {
            assert(value / base < value) by (nonlinear_arith)
                requires
                    2 <= base,
                    base <= value,
            ;
        }
        numeral(value / base, base).push(digit((value % base) as int))
    }
}

/// A number in decimal.
pub open spec fn decimal(value: nat) -> Seq<char> {
    numeral(value, 10)
}

/// A signed number in decimal.
pub open spec fn signed(value: int) -> Seq<char> {
    if value < 0 {
        seq!['-'] + decimal((-value) as nat)
    } else {
        decimal(value as nat)
    }
}

/// A number in hexadecimal, with the prefix.
pub open spec fn hexadecimal(value: nat) -> Seq<char> {
    "0x"@ + numeral(value, 16)
}

fn digit_text(value: u64) -> (text: &'static str)
    requires
        value < 16,
    ensures
        text@ == seq![digit(value as int)],
{
    proof {
        reveal_strlit("0");
        reveal_strlit("1");
        reveal_strlit("2");
        reveal_strlit("3");
        reveal_strlit("4");
        reveal_strlit("5");
        reveal_strlit("6");
        reveal_strlit("7");
        reveal_strlit("8");
        reveal_strlit("9");
        reveal_strlit("a");
        reveal_strlit("b");
        reveal_strlit("c");
        reveal_strlit("d");
        reveal_strlit("e");
        reveal_strlit("f");
    }
    let text: &'static str = match value {
        0 => "0",
        1 => "1",
        2 => "2",
        3 => "3",
        4 => "4",
        5 => "5",
        6 => "6",
        7 => "7",
        8 => "8",
        9 => "9",
        10 => "a",
        11 => "b",
        12 => "c",
        13 => "d",
        14 => "e",
        _ => "f",
    };
    assert(text@ =~= seq![digit(value as int)]);
    text
}

fn push_numeral(out: &mut String, value: u64, base: u64)
    requires
        2 <= base <= 16,
    ensures
        final(out)@ == old(out)@ + numeral(value as nat, base as nat),
    decreases value,
{
    if value < base {
        out.append(digit_text(value));
    } else {
        assert(value / base < value) by (nonlinear_arith)
            requires
                2 <= base,
                base <= value,
        ;
        push_numeral(out, value / base, base);
        out.append(digit_text(value % base));
        assert(out@ =~= old(out)@ + numeral(value as nat, base as nat));
    }
}

/// Append text.
pub fn push_text(out: &mut String, text: &str)
    ensures
        final(out)@ == old(out)@ + text@,
{
    out.append(text);
}

/// Append a number in decimal.
pub fn push_decimal(out: &mut String, value: u64)
    ensures
        final(out)@ == old(out)@ + decimal(value as nat),
{
    push_numeral(out, value, 10);
}

/// Append a signed number in decimal.
pub fn push_signed(out: &mut String, value: i64)
    ensures
        final(out)@ == old(out)@ + signed(value as int),
{
    if value < 0 {
        proof {
            reveal_strlit("-");
        }
        out.append("-");
        let magnitude: u64 = (-1 - value) as u64 + 1;
        push_numeral(out, magnitude, 10);
        assert("-"@ =~= seq!['-']);
        assert(out@ =~= old(out)@ + signed(value as int));
    } else {
        push_numeral(out, value as u64, 10);
    }
}

/// Append a number in hexadecimal, with the prefix.
pub fn push_hexadecimal(out: &mut String, value: u64)
    ensures
        final(out)@ == old(out)@ + hexadecimal(value as nat),
{
    out.append("0x");
    push_numeral(out, value, 16);
    assert(out@ =~= old(out)@ + hexadecimal(value as nat));
}

/// The number a digit stands for.
pub open spec fn digit_value(digit: char) -> int {
    if '0' <= digit && digit <= '9' {
        digit as int - '0' as int
    } else {
        digit as int - 'a' as int + 10
    }
}

/// The number a numeral stands for.
pub open spec fn read(numeral: Seq<char>, base: nat) -> int
    decreases numeral.len(),
{
    if numeral.len() == 0 {
        0
    } else {
        read(numeral.drop_last(), base) * base + digit_value(numeral.last())
    }
}

/// A numeral reads back as the number it was written from, and is never empty.
pub proof fn law_a_numeral_reads_back(value: nat, base: nat)
    requires
        2 <= base <= 16,
    ensures
        read(numeral(value, base), base) == value,
        numeral(value, base).len() > 0,
    decreases value,
{
    let written = numeral(value, base);
    if value < base {
        assert(written.drop_last() =~= Seq::empty());
        assert(read(written.drop_last(), base) == 0);
        assert(0 * base == 0);
        assert(digit_value(digit(value as int)) == value);
    } else {
        assert(value / base < value) by (nonlinear_arith)
            requires
                2 <= base,
                base <= value,
        ;
        law_a_numeral_reads_back(value / base, base);
        let last = (value % base) as int;
        assert(written.drop_last() =~= numeral(value / base, base));
        vstd::arithmetic::div_mod::lemma_mod_bound(value as int, base as int);
        assert(digit_value(digit(last)) == last);
        vstd::arithmetic::div_mod::lemma_fundamental_div_mod(value as int, base as int);
        assert(base * (value / base) == (value / base) * base) by (nonlinear_arith);
    }
}

} // verus!
