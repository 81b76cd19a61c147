//! The lines of the log.

use crate::text::{chars_of, string_of};
use vstd::prelude::*;

verus! {

/// The character of a decimal digit.
pub open spec fn digit(d: nat) -> char {
    ('0' as u32 + d) as char
}

/// A number in decimal digits, without leading zeros.
pub open spec fn decimal(n: nat) -> Seq<char>
    decreases n,
{
    if n < 10 {
        seq![digit(n)]
    } else {
        decimal(n / 10).push(digit(n % 10))
    }
}

/// The number that a row of decimal digits stands for.
pub open spec fn number(digits: Seq<char>) -> nat
    decreases digits.len(),
{
    if digits.len() == 0 {
        0
    } else {
        (10 * number(digits.drop_last()) + (digits.last() as u32 - '0' as u32)) as nat
    }
}

/// Adds a number in decimal digits.
fn push_decimal(out: &mut Vec<char>, n: u64)
    ensures
        final(out)@ == old(out)@ + decimal(n as nat),
    decreases n,
{
    let ghost before = out@;
    if n >= 10 {
        push_decimal(out, n / 10);
    }
    out.push((0x30u8 + (n % 10) as u8) as char);
    assert(out@ =~= before + decimal(n as nat));
}

/// The character of a hexadecimal digit.
pub open spec fn hex_digit(d: nat) -> char {
    if d < 10 {
        digit(d)
    } else {
        ('A' as u32 + d - 10) as char
    }
}

/// A number in hexadecimal digits, without leading zeros.
pub open spec fn hex(n: nat) -> Seq<char>
    decreases n,
{
    if n < 16 {
        seq![hex_digit(n)]
    } else {
        hex(n / 16).push(hex_digit(n % 16))
    }
}

/// The lowest `width` hexadecimal digits of a number.
pub open spec fn hex_wide(n: nat, width: nat) -> Seq<char>
    decreases width,
{
    if width == 0 {
        Seq::empty()
    } else {
        hex_wide(n / 16, (width - 1) as nat).push(hex_digit(n % 16))
    }
}

/// A number in decimal digits, with a sign where it is negative.
pub open spec fn signed(n: int) -> Seq<char> {
    if n < 0 {
        seq!['-'] + decimal((-n) as nat)
    } else {
        decimal(n as nat)
    }
}

/// An answer to a question.
pub open spec fn yes_no(b: bool) -> Seq<char> {
    if b {
        "true"@
    } else {
        "false"@
    }
}

/// Adds a hexadecimal digit.
fn push_hex_digit(out: &mut Vec<char>, d: u64)
    requires
        d < 16,
    ensures
        final(out)@ == old(out)@.push(hex_digit(d as nat)),
{
    if d < 10 {
        out.push((0x30u8 + d as u8) as char);
    } else {
        out.push((0x41u8 + (d as u8 - 10)) as char);
    }
}

/// Adds a number in hexadecimal digits.
fn push_hex(out: &mut Vec<char>, n: u64)
    ensures
        final(out)@ == old(out)@ + hex(n as nat),
    decreases n,
{
    let ghost before = out@;
    if n >= 16 {
        push_hex(out, n / 16);
    }
    push_hex_digit(out, n % 16);
    assert(out@ =~= before + hex(n as nat));
}

/// Adds the lowest `width` hexadecimal digits of a number.
fn push_hex_wide(out: &mut Vec<char>, n: u64, width: u64)
    ensures
        final(out)@ == old(out)@ + hex_wide(n as nat, width as nat),
    decreases width,
{
    let ghost before = out@;
    if width > 0 {
        push_hex_wide(out, n / 16, width - 1);
        push_hex_digit(out, n % 16);
    }
    assert(out@ =~= before + hex_wide(n as nat, width as nat));
}

/// A line that is put together piece by piece.
pub struct Line {
    chars: Vec<char>,
}

impl View for Line {
    type V = Seq<char>;

    closed spec fn view(&self) -> Seq<char> {
        self.chars@
    }
}

impl Line {
    /// A line that begins with a text.
    pub fn new(text: &str) -> (r: Line)
        ensures
            r@ == text@,
    {
        Line { chars: chars_of(text) }
    }

    /// Adds a text.
    pub fn text(self, text: &str) -> (r: Line)
        ensures
            r@ == self@ + text@,
    {
        let mut chars = self.chars;
        let mut more = chars_of(text);
        chars.append(&mut more);
        Line { chars }
    }

    /// Adds a number in decimal digits.
    pub fn decimal(self, n: u64) -> (r: Line)
        ensures
            r@ == self@ + decimal(n as nat),
    {
        let mut chars = self.chars;
        push_decimal(&mut chars, n);
        Line { chars }
    }

    /// Adds a number in decimal digits, with a sign where it is negative.
    pub fn signed(self, n: i32) -> (r: Line)
        ensures
            r@ == self@ + signed(n as int),
    {
        let mut chars = self.chars;
        let ghost before = chars@;
        if n < 0 {
            chars.push('-');
            push_decimal(&mut chars, (-(n as i64)) as u64);
        } else {
            push_decimal(&mut chars, n as u64);
        }
        assert(chars@ =~= before + signed(n as int));
        Line { chars }
    }

    /// Adds a number in hexadecimal digits.
    pub fn hex(self, n: u64) -> (r: Line)
        ensures
            r@ == self@ + hex(n as nat),
    {
        let mut chars = self.chars;
        push_hex(&mut chars, n);
        Line { chars }
    }

    /// Adds the lowest `width` hexadecimal digits of a number.
    pub fn hex_wide(self, n: u64, width: u64) -> (r: Line)
        ensures
            r@ == self@ + hex_wide(n as nat, width as nat),
    {
        let mut chars = self.chars;
        push_hex_wide(&mut chars, n, width);
        Line { chars }
    }

    /// Adds the answer to a question.
    pub fn yes_no(self, b: bool) -> (r: Line)
        ensures
            r@ == self@ + yes_no(b),
    {
        self.text(if b { "true" } else { "false" })
    }

    /// The line as a string.
    pub fn done(self) -> (r: String)
        ensures
            r@ == self@,
    {
        string_of(self.chars.as_slice())
    }
}

/// The seconds that a line of the log is marked with: zero where the clock stands before its epoch.
pub open spec fn stamp(seconds: Option<u64>) -> nat {
    match seconds {
        Some(s) => s as nat,
        None => 0,
    }
}

/// The line of the log for a message: the seconds in brackets, the message, and the end of the
/// line.
pub fn log(seconds: Option<u64>, msg: &str) -> (r: String)
    ensures
        r@ == "["@ + decimal(stamp(seconds)) + "] "@ + msg@ + "\n"@,
{
    let now: u64 = match seconds {
        Some(s) => s,
        None => 0,
    };
    Line::new("[").decimal(now).text("] ").text(msg).text("\n").done()
}

/// The digits of a number stand for that number, and there is always one of them.
pub proof fn law_digits_stand_for_number(n: nat)
    ensures
        number(decimal(n)) == n,
        decimal(n).len() > 0,
    decreases n,
{
    if n < 10 {
        assert(decimal(n).drop_last() =~= Seq::<char>::empty());
        reveal_with_fuel(number, 2);
    } else {
        law_digits_stand_for_number(n / 10);
        assert(decimal(n).drop_last() =~= decimal(n / 10));
    }
}

/// The number that a hexadecimal digit stands for.
pub open spec fn hex_value(c: char) -> int {
    if c <= '9' {
        c as u32 - '0' as u32
    } else {
        c as u32 - 'A' as u32 + 10
    }
}

/// The number that a row of hexadecimal digits stands for.
pub open spec fn hex_number(digits: Seq<char>) -> int
    decreases digits.len(),
{
    if digits.len() == 0 {
        0
    } else {
        16 * hex_number(digits.drop_last()) + hex_value(digits.last())
    }
}

/// The hexadecimal digits of a number stand for that number.
pub proof fn law_hex_stands_for_number(n: nat)
    ensures
        hex_number(hex(n)) == n,
        hex(n).len() > 0,
    decreases n,
{
    if n < 16 {
        assert(hex(n).drop_last() =~= Seq::<char>::empty());
        reveal_with_fuel(hex_number, 2);
    } else {
        law_hex_stands_for_number(n / 16);
        assert(hex(n).drop_last() =~= hex(n / 16));
    }
}

/// So many hexadecimal digits hold every number below that power of sixteen.
proof fn lemma_hex_wide(n: nat, width: nat)
    requires
        n < vstd::arithmetic::power::pow(16, width),
    ensures
        hex_wide(n, width).len() == width,
        hex_number(hex_wide(n, width)) == n,
    decreases width,
{
    reveal(vstd::arithmetic::power::pow);
    if width > 0 {
        lemma_hex_wide(n / 16, (width - 1) as nat);
        assert(hex_wide(n, width).drop_last() =~= hex_wide(n / 16, (width - 1) as nat));
    }
}

/// Eight hexadecimal digits stand for any number of 32 bits.
pub proof fn law_eight_digits_hold_32_bits(n: u32)
    ensures
        hex_wide(n as nat, 8).len() == 8,
        hex_number(hex_wide(n as nat, 8)) == n,
{
    assert(vstd::arithmetic::power::pow(16, 8) == 0x1_0000_0000) by {
        reveal_with_fuel(vstd::arithmetic::power::pow, 9);
    }
    lemma_hex_wide(n as nat, 8);
}

/// Two hexadecimal digits stand for any byte.
pub proof fn law_two_digits_hold_a_byte(n: u8)
    ensures
        hex_wide(n as nat, 2).len() == 2,
        hex_number(hex_wide(n as nat, 2)) == n,
{
    assert(vstd::arithmetic::power::pow(16, 2) == 0x100) by {
        reveal_with_fuel(vstd::arithmetic::power::pow, 3);
    }
    lemma_hex_wide(n as nat, 2);
}

/// A number is written in digits alone, and with no zero in front unless it is zero itself.
pub proof fn law_digits_are_plain(n: nat)
    ensures
        forall|i: int| 0 <= i < decimal(n).len() ==> '0' <= #[trigger] decimal(n)[i] <= '9',
        n > 0 ==> decimal(n)[0] != '0',
        n == 0 ==> decimal(n) == seq!['0'],
    decreases n,
{
    if n >= 10 {
        law_digits_are_plain(n / 10);
        law_digits_stand_for_number(n / 10);
        let head = decimal(n / 10);
        assert forall|i: int| 0 <= i < decimal(n).len() implies '0' <= #[trigger] decimal(n)[i]
            <= '9' by {
            if i < head.len() {
                assert(decimal(n)[i] == head[i]);
            }
        }
        assert(decimal(n)[0] == head[0]);
    }
}

/// A number to the base of sixteen is written in digits and the letters `A` to `F` alone, and with
/// no zero in front unless it is zero itself.
pub proof fn law_hex_digits_are_plain(n: nat)
    ensures
        forall|i: int|
            0 <= i < hex(n).len() ==> '0' <= #[trigger] hex(n)[i] <= '9' || 'A' <= hex(n)[i] <= 'F',
        n > 0 ==> hex(n)[0] != '0',
        n == 0 ==> hex(n) == seq!['0'],
    decreases n,
{
    if n >= 16 {
        law_hex_digits_are_plain(n / 16);
        law_hex_stands_for_number(n / 16);
        let head = hex(n / 16);
        assert forall|i: int| 0 <= i < hex(n).len() implies '0' <= #[trigger] hex(n)[i] <= '9'
            || 'A' <= hex(n)[i] <= 'F' by {
            if i < head.len() {
                assert(hex(n)[i] == head[i]);
            }
        }
        assert(hex(n)[0] == head[0]);
    }
}

/// A number below zero is written with a minus in front of the digits of its amount, any other one
/// with its digits alone.
pub proof fn law_sign_stands_in_front(n: int)
    ensures
        n < 0 ==> signed(n).len() > 1 && signed(n)[0] == '-' && number(signed(n).skip(1)) == -n,
        n >= 0 ==> number(signed(n)) == n && signed(n)[0] != '-',
{
    if n < 0 {
        law_digits_stand_for_number((-n) as nat);
        assert(signed(n).skip(1) =~= decimal((-n) as nat));
    } else {
        law_digits_stand_for_number(n as nat);
        law_digits_are_plain(n as nat);
        assert('0' <= decimal(n as nat)[0]);
    }
}

/// An answer is written as `true` or `false`, and a line bears the seconds that the clock tells, or
/// zero where it tells none.
pub proof fn law_answers_and_stamps(b: bool, seconds: u64)
    ensures
        b ==> yes_no(b) == "true"@,
        !b ==> yes_no(b) == "false"@,
        stamp(Some(seconds)) == seconds,
        stamp(None) == 0,
{
}

} // verus!
