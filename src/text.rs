//! Fixed-width text building blocks: decimal and hexadecimal digits,
//! zero padding and space padding, all stated over `Seq<char>`.

use vstd::prelude::*;
use vstd::string::*;

verus! {

/// Relies on `String::push`: the character is appended at the end.
#[verifier::external_body]
pub(crate) fn push_char(s: &mut String, c: char)
    ensures
        final(s)@ == old(s)@.push(c),
{
    s.push(c)
}

/// The character of a digit value below sixteen, upper case.
pub open spec fn digit_char(d: nat) -> char {
    if d < 10 {
        ((48 + d) as u8) as char
    } else {
        ((55 + d) as u8) as char
    }
}

/// Digits of `n` in base `b`, most significant first, no leading zeros
/// ("0" for zero).
pub open spec fn digits(n: nat, b: nat) -> Seq<char>
    decreases n via digits_decreases
{
    if b < 2 || n < b {
        seq![digit_char(n % 16)]
    } else {
        digits(n / b, b).push(digit_char(n % b))
    }
}

/// Decimal rendering of `n`.
pub open spec fn dec(n: nat) -> Seq<char> {
    digits(n, 10)
}

/// Upper-case hexadecimal rendering of `n`.
pub open spec fn hex(n: nat) -> Seq<char> {
    digits(n, 16)
}

/// `s` preceded by zeros up to `w` characters.
pub open spec fn zero_pad(s: Seq<char>, w: nat) -> Seq<char> {
    if s.len() < w {
        Seq::new((w - s.len()) as nat, |i: int| '0') + s
    } else {
        s
    }
}

/// `s` followed by spaces up to `w` characters.
pub open spec fn space_pad(s: Seq<char>, w: nat) -> Seq<char> {
    if s.len() < w {
        s + Seq::new((w - s.len()) as nat, |i: int| ' ')
    } else {
        s
    }
}

/// Decimal, zero padded to `w` digits (`{:0w}`).
pub open spec fn dec_w(n: nat, w: nat) -> Seq<char> {
    zero_pad(dec(n), w)
}

/// Hexadecimal, zero padded to `w` digits (`{:0wX}`).
pub open spec fn hex_w(n: nat, w: nat) -> Seq<char> {
    zero_pad(hex(n), w)
}

#[via_fn]
proof fn digits_decreases(n: nat, b: nat) {
    if !(b < 2 || n < b) {
        assert(n / b < n) by (nonlinear_arith)
            requires
                b >= 2,
                n >= b,
        ;
    }
}

fn digit_of(d: u64) -> (c: char)
    requires
        d < 16,
    ensures
        c == digit_char(d as nat),
{
    if d < 10 {
        ((48u8 + d as u8) as char)
    } else {
        ((55u8 + d as u8) as char)
    }
}

/// Appends the digits of `n` in base `b`.
fn push_digits(s: &mut String, n: u64, b: u64)
    requires
        2 <= b <= 16,
    ensures
        final(s)@ == old(s)@ + digits(n as nat, b as nat),
    decreases n,
{
    if n < b {
        push_char(s, digit_of(n));
        assert(final(s)@ =~= old(s)@ + digits(n as nat, b as nat));
    } else {
        assert(n / b < n) by (nonlinear_arith)
            requires
                b >= 2,
                n >= b,
        ;
        push_digits(s, n / b, b);
        push_char(s, digit_of(n % b));
        assert(final(s)@ =~= old(s)@ + digits(n as nat, b as nat));
    }
}

/// Appends `n` in base `b`, zero padded to `w` digits.
fn push_padded_digits(s: &mut String, n: u64, b: u64, w: usize)
    requires
        2 <= b <= 16,
    ensures
        final(s)@ == old(s)@ + zero_pad(digits(n as nat, b as nat), w as nat),
{
    let mut t = String::new();
    push_digits(&mut t, n, b);
    let k = t.as_str().unicode_len();
    let ghost start = s@;
    let mut i: usize = k;
    while i < w
        invariant
            k <= i,
            k < w ==> i <= w,
            k >= w ==> i == k,
            s@ == start + Seq::new((i - k) as nat, |j: int| '0'),
        decreases w - i,
    {
        push_char(s, '0');
        i = i + 1;
        assert(s@ =~= start + Seq::new((i - k) as nat, |j: int| '0'));
    }
    s.append(t.as_str());
    proof {
        let d = digits(n as nat, b as nat);
        assert(t@ =~= d);
        if k < w {
            assert(i == w);
        } else {
            assert(i == k);
        }
        assert(s@ =~= start + zero_pad(d, w as nat));
    }
}

/// Appends `n` in decimal, zero padded to `w` digits.
pub fn push_dec(s: &mut String, n: u64, w: usize)
    ensures
        final(s)@ == old(s)@ + dec_w(n as nat, w as nat),
{
    push_padded_digits(s, n, 10, w);
}

/// Appends `n` in upper-case hexadecimal, zero padded to `w` digits.
pub fn push_hex(s: &mut String, n: u64, w: usize)
    ensures
        final(s)@ == old(s)@ + hex_w(n as nat, w as nat),
{
    push_padded_digits(s, n, 16, w);
}

/// Appends `t`, followed by spaces up to `w` characters.
pub fn push_str_padded(s: &mut String, t: &str, w: usize)
    ensures
        final(s)@ == old(s)@ + space_pad(t@, w as nat),
{
    let n = t.unicode_len();
    let ghost start = s@;
    s.append(t);
    let mut i: usize = n;
    while i < w
        invariant
            n as nat == t@.len(),
            n <= i,
            n < w ==> i <= w,
            n >= w ==> i == n,
            s@ == start + t@ + Seq::new((i - n) as nat, |j: int| ' '),
        decreases w - i,
    {
        push_char(s, ' ');
        i = i + 1;
        assert(s@ =~= start + t@ + Seq::new((i - n) as nat, |j: int| ' '));
    }
    proof {
        if n < w {
            assert(i == w);
        } else {
            assert(i == n);
        }
        assert(s@ =~= start + space_pad(t@, w as nat));
    }
}

/// Appends `t` as it is.
pub fn push_str(s: &mut String, t: &str)
    ensures
        final(s)@ == old(s)@ + t@,
{
    s.append(t);
}

} // verus!
