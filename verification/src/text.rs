//! Decimal and dotted-quad rendering of numbers and IPv4 addresses.

use vstd::prelude::*;
use vstd::string::StringExecFns;

verus! {

/// The character that writes the decimal digit `d`.
pub open spec fn digit(d: int) -> char {
    if d == 0 {
        '0'
    } else if d == 1 {
        '1'
    } else if d == 2 {
        '2'
    } else if d == 3 {
        '3'
    } else if d == 4 {
        '4'
    } else if d == 5 {
        '5'
    } else if d == 6 {
        '6'
    } else if d == 7 {
        '7'
    } else if d == 8 {
        '8'
    } else {
        '9'
    }
}

/// The decimal numeral of `n`, without sign or leading zeros.
pub open spec fn decimal(n: nat) -> Seq<char>
    decreases n,
{
    if n < 10 {
        seq![digit(n as int)]
    } else {
        decimal(n / 10).push(digit((n % 10) as int))
    }
}

/// The digit that a character writes; 0 for a character that writes none.
pub open spec fn digit_value(c: char) -> nat {
    if c == '1' {
        1
    } else if c == '2' {
        2
    } else if c == '3' {
        3
    } else if c == '4' {
        4
    } else if c == '5' {
        5
    } else if c == '6' {
        6
    } else if c == '7' {
        7
    } else if c == '8' {
        8
    } else if c == '9' {
        9
    } else {
        0
    }
}

/// The number that a numeral denotes, read digit by digit.
pub open spec fn numeral_value(s: Seq<char>) -> nat
    decreases s.len(),
{
    if s.len() == 0 {
        0
    } else {
        10 * numeral_value(s.drop_last()) + digit_value(s.last())
    }
}

/// A decimal numeral denotes the number it was made from, has at least one
/// digit, and starts with a zero only where the number is zero.
pub proof fn lemma_decimal_denotes(n: nat)
    ensures
        numeral_value(decimal(n)) == n,
        decimal(n).len() >= 1,
        decimal(n)[0] == '0' <==> n == 0,
    decreases n,
{
    if n >= 10 {
        lemma_decimal_denotes(n / 10);
        let head = decimal(n / 10);
        let last = digit((n % 10) as int);
        assert(head.push(last).drop_last() =~= head);
    } else {
        let only = decimal(n);
        assert(numeral_value(only.drop_last()) == 0);
    }
}

/// The four octets of `addr` in decimal, most significant first, joined by dots.
pub open spec fn dotted_quad(addr: u32) -> Seq<char> {
    decimal((addr / 16777216) as nat) + seq!['.'] + decimal(((addr / 65536) % 256) as nat)
        + seq!['.'] + decimal(((addr / 256) % 256) as nat) + seq!['.'] + decimal(
        (addr % 256) as nat,
    )
}

/// `dotted_quad(addr)`, a slash, and the prefix length in decimal.
pub open spec fn cidr(addr: u32, prefix: u32) -> Seq<char> {
    dotted_quad(addr) + seq!['/'] + decimal(prefix as nat)
}

/// The decimal numeral of a signed number: a minus sign before the numeral
/// of the magnitude where the number is negative.
pub open spec fn signed_decimal(n: int) -> Seq<char> {
    if n < 0 {
        seq!['-'] + decimal((-n) as nat)
    } else {
        decimal(n as nat)
    }
}

fn digit_text(d: u32) -> (r: &'static str)
    requires
        d < 10,
    ensures
        r@ == seq![digit(d as int)],
{
    proof {
        reveal_strlit("0");
        reveal_strlit("1");
        reveal_strlit("2");
        reveal_strlit("3");
        reveal_strlit("4");
        reveal_strlit("5");
        reveal_strlit("6");
        reveal_strlit("7");
        reveal_strlit("8");
        reveal_strlit("9");
    }
    if d == 0 {
        "0"
    } else if d == 1 {
        "1"
    } else if d == 2 {
        "2"
    } else if d == 3 {
        "3"
    } else if d == 4 {
        "4"
    } else if d == 5 {
        "5"
    } else if d == 6 {
        "6"
    } else if d == 7 {
        "7"
    } else if d == 8 {
        "8"
    } else {
        "9"
    }
}

/// Appends the decimal numeral of `n` to `out`.
pub fn push_decimal(out: &mut String, n: u32)
    ensures
        final(out)@ == old(out)@ + decimal(n as nat),
    decreases n,
{
    if n >= 10 {
        push_decimal(out, n / 10);
    }
    out.append(digit_text(n % 10));
}

/// Appends the decimal numeral of the signed number `n` to `out`.
pub fn push_signed_decimal(out: &mut String, n: i32)
    ensures
        final(out)@ == old(out)@ + signed_decimal(n as int),
{
    if n < 0 {
        proof {
            reveal_strlit("-");
        }
        out.append("-");
        let magnitude: u32 = if n == i32::MIN {
            2147483648
        } else {
            (-n) as u32
        };
        push_decimal(out, magnitude);
    } else {
        push_decimal(out, n as u32);
    }
}

/// Appends the dotted-quad form of `addr` to `out`.
pub fn push_dotted_quad(out: &mut String, addr: u32)
    ensures
        final(out)@ == old(out)@ + dotted_quad(addr),
{
    proof {
        reveal_strlit(".");
    }
    push_decimal(out, addr / 16777216);
    out.append(".");
    push_decimal(out, (addr / 65536) % 256);
    out.append(".");
    push_decimal(out, (addr / 256) % 256);
    out.append(".");
    push_decimal(out, addr % 256);
}

/// The dotted-quad form of `addr`, such as `10.0.0.1`.
pub fn ipv4_text(addr: u32) -> (r: String)
    ensures
        r@ == dotted_quad(addr),
{
    let mut out = String::new();
    push_dotted_quad(&mut out, addr);
    out
}

/// The address with its prefix length, such as `10.0.0.1/24`.
pub fn cidr_text(addr: u32, prefix: u32) -> (r: String)
    ensures
        r@ == cidr(addr, prefix),
{
    proof {
        reveal_strlit("/");
    }
    let mut out = String::new();
    push_dotted_quad(&mut out, addr);
    out.append("/");
    push_decimal(&mut out, prefix);
    out
}

} // verus!
