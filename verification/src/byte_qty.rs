//! `Qty`, a quantity of memory measured in bytes.
//!
//! Like `usize`, but displayed in a friendlier and less precise way: as
//! mebibytes with two decimal places.

use vstd::prelude::*;
use vstd::string::*;

verus! {

/// The decimal digit character for `d`.
pub open spec fn digit_char(d: int) -> char
    recommends
        0 <= d < 10,
{
    if d == 0 {
        '0'
    } else if d == 1 {
        '1'
    } else if d == 2 {
        '2'
    } else if d == 3 {
        '3'
    } else if d == 4 {
        '4'
    } else if d == 5 {
        '5'
    } else if d == 6 {
        '6'
    } else if d == 7 {
        '7'
    } else if d == 8 {
        '8'
    } else {
        '9'
    }
}

/// The decimal digits of `n`, most significant first, with no leading zero
/// except on zero itself.
pub open spec fn decimal_digits(n: int) -> Seq<char>
    decreases n,
    when n >= 0
{
    if n < 10 {
        seq![digit_char(n)]
    } else {
        decimal_digits(n / 10).push(digit_char(n % 10))
    }
}

/// How a byte quantity displays: the quantity in mebibytes, rounded half up
/// to hundredths, written with two decimal places and the unit.
pub open spec fn qty_display(bytes: int) -> Seq<char> {
    let hundredths = (bytes * 100 + 0x80000) / 0x100000;
    decimal_digits(hundredths / 100) + "."@ + seq![
        digit_char((hundredths % 100) / 10),
        digit_char(hundredths % 10),
    ] + "MiB"@
}

/// Quantity of memory used, measured in bytes.
///
/// Like `usize` but displays in a more friendly and less precise way.
#[derive(Debug, Clone, Copy, PartialEq, Eq, Structural)]
pub struct Qty(pub usize);

/// Append the decimal digit `d` to `out`.
fn push_digit(out: &mut String, d: u128)
    requires
        d < 10,
    ensures
        final(out)@ == old(out)@.push(digit_char(d as int)),
{
    proof {
        reveal_strlit("0");
        reveal_strlit("1");
        reveal_strlit("2");
        reveal_strlit("3");
        reveal_strlit("4");
        reveal_strlit("5");
        reveal_strlit("6");
        reveal_strlit("7");
        reveal_strlit("8");
        reveal_strlit("9");
    }
    if d == 0 {
        out.append("0");
    } else if d == 1 {
        out.append("1");
    } else if d == 2 {
        out.append("2");
    } else if d == 3 {
        out.append("3");
    } else if d == 4 {
        out.append("4");
    } else if d == 5 {
        out.append("5");
    } else if d == 6 {
        out.append("6");
    } else if d == 7 {
        out.append("7");
    } else if d == 8 {
        out.append("8");
    } else {
        out.append("9");
    }
    proof {
        assert(final(out)@ =~= old(out)@.push(digit_char(d as int)));
    }
}

/// Append the decimal digits of `n` to `out`.
fn push_decimal(n: u128, out: &mut String)
    ensures
        final(out)@ == old(out)@ + decimal_digits(n as int),
    decreases n,
{
    if n >= 10 {
        push_decimal(n / 10, out);
    }
    push_digit(out, n % 10);
    proof {
        assert(final(out)@ =~= old(out)@ + decimal_digits(n as int));
    }
}

impl Qty {
    /// Return the value as a plain number, a `usize`.
    pub fn as_usize(&self) -> (r: usize)
        ensures
            r == self.0,
    {
        self.0
    }

    /// The friendly, less precise rendering of this quantity: mebibytes
    /// with two decimal places and the unit, rounding half up.
    pub fn display_string(&self) -> (r: String)
        ensures
            r@ == qty_display(self.0 as int),
    {
        let bytes = self.0 as u128;
        let hundredths = (bytes * 100 + 0x80000) / 0x100000;
        assert((hundredths % 100) / 10 < 10);
        let mut out = String::new();
        push_decimal(hundredths / 100, &mut out);
        out.append(".");
        push_digit(&mut out, (hundredths % 100) / 10);
        push_digit(&mut out, hundredths % 10);
        out.append("MiB");
        proof {
            assert(out@ =~= qty_display(self.0 as int));
        }
        out
    }
}

} // verus!
