//! IPv4 addresses as four plain octets, and their dotted-quad decimal
//! rendering, specified exactly over sequences of characters.

use vstd::prelude::*;
use vstd::string::StringExecFns;

verus! {

/// The character for one decimal digit `d` in `[0, 9]`.
pub open spec fn digit_char(d: int) -> char {
    if d == 0 {
        '0'
    } else if d == 1 {
        '1'
    } else if d == 2 {
        '2'
    } else if d == 3 {
        '3'
    } else if d == 4 {
        '4'
    } else if d == 5 {
        '5'
    } else if d == 6 {
        '6'
    } else if d == 7 {
        '7'
    } else if d == 8 {
        '8'
    } else {
        '9'
    }
}

/// Decimal rendering, without leading zeros, of an integer in `[0, 999]`
/// (an octet always fits).
pub open spec fn dec_seq(n: int) -> Seq<char> {
    if n < 10 {
        seq![digit_char(n)]
    } else if n < 100 {
        seq![digit_char(n / 10), digit_char(n % 10)]
    } else {
        seq![digit_char(n / 100), digit_char((n / 10) % 10), digit_char(n % 10)]
    }
}

/// Dotted-quad rendering `a.b.c.d` of four octets.
pub open spec fn addr_seq(a: int, b: int, c: int, d: int) -> Seq<char> {
    dec_seq(a) + seq!['.'] + dec_seq(b) + seq!['.'] + dec_seq(c) + seq!['.'] + dec_seq(d)
}

/// An IPv4 address bound to one of the host's interfaces. It exists only for
/// the duration of one discovery call and is never persisted.
#[derive(Clone, Copy, Debug, PartialEq, Eq, Structural)]
pub struct LocalAddress {
    pub a: u8,
    pub b: u8,
    pub c: u8,
    pub d: u8,
}

/// One address of the subnet sweep: the first three octets of a
/// `LocalAddress` plus a swept fourth octet.
#[derive(Clone, Copy, Debug, PartialEq, Eq, Structural)]
pub struct CandidateAddress {
    pub a: u8,
    pub b: u8,
    pub c: u8,
    pub d: u8,
}

impl LocalAddress {
    /// Exactly the address `127.0.0.1`, the one address interface selection
    /// refuses; other addresses of the loopback block are not excluded.
    pub open spec fn is_loopback(self) -> bool {
        self.a == 127 && self.b == 0 && self.c == 0 && self.d == 1
    }

    /// Dotted-quad string of this address.
    pub fn to_addr_string(&self) -> (r: String)
        ensures
            r@ == addr_seq(self.a as int, self.b as int, self.c as int, self.d as int),
    {
        dotted_quad(self.a, self.b, self.c, self.d)
    }
}

impl CandidateAddress {
    /// Dotted-quad string of this address.
    pub fn to_addr_string(&self) -> (r: String)
        ensures
            r@ == addr_seq(self.a as int, self.b as int, self.c as int, self.d as int),
    {
        dotted_quad(self.a, self.b, self.c, self.d)
    }
}

/// Appends the single digit character for `d`.
fn push_digit(s: &mut String, d: u8)
    requires
        d < 10,
    ensures
        final(s)@ == old(s)@ + seq![digit_char(d as int)],
{
    proof {
        reveal_strlit("0");
        reveal_strlit("1");
        reveal_strlit("2");
        reveal_strlit("3");
        reveal_strlit("4");
        reveal_strlit("5");
        reveal_strlit("6");
        reveal_strlit("7");
        reveal_strlit("8");
        reveal_strlit("9");
    }
    if d == 0 {
        s.append("0");
    } else if d == 1 {
        s.append("1");
    } else if d == 2 {
        s.append("2");
    } else if d == 3 {
        s.append("3");
    } else if d == 4 {
        s.append("4");
    } else if d == 5 {
        s.append("5");
    } else if d == 6 {
        s.append("6");
    } else if d == 7 {
        s.append("7");
    } else if d == 8 {
        s.append("8");
    } else {
        s.append("9");
    }
    assert(s@ =~= old(s)@ + seq![digit_char(d as int)]);
}

/// Appends the decimal rendering of one octet.
fn push_decimal(s: &mut String, n: u8)
    ensures
        final(s)@ == old(s)@ + dec_seq(n as int),
{
    if n >= 100 {
        assert(n / 100 < 10 && (n / 10) % 10 < 10 && n % 10 < 10);
        push_digit(s, n / 100);
        push_digit(s, (n / 10) % 10);
        push_digit(s, n % 10);
        assert(s@ =~= old(s)@ + dec_seq(n as int));
    } else if n >= 10 {
        assert(n / 10 < 10 && n % 10 < 10);
        push_digit(s, n / 10);
        push_digit(s, n % 10);
        assert(s@ =~= old(s)@ + dec_seq(n as int));
    } else {
        push_digit(s, n);
        assert(s@ =~= old(s)@ + dec_seq(n as int));
    }
}

/// Appends a literal dot.
fn push_dot(s: &mut String)
    ensures
        final(s)@ == old(s)@ + seq!['.'],
{
    proof {
        reveal_strlit(".");
    }
    s.append(".");
    assert(s@ =~= old(s)@ + seq!['.']);
}

/// Builds the dotted-quad string `a.b.c.d`.
fn dotted_quad(a: u8, b: u8, c: u8, d: u8) -> (r: String)
    ensures
        r@ == addr_seq(a as int, b as int, c as int, d as int),
{
    let mut s = String::new();
    push_decimal(&mut s, a);
    push_dot(&mut s);
    push_decimal(&mut s, b);
    push_dot(&mut s);
    push_decimal(&mut s, c);
    push_dot(&mut s);
    push_decimal(&mut s, d);
    assert(s@ =~= addr_seq(a as int, b as int, c as int, d as int));
    s
}

} // verus!
