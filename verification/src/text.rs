//! The text of a report line: decimal numbers between fixed words.

use vstd::prelude::*;
use vstd::string::*;
use crate::component::UNIT;
use crate::scheduler::ReportLine;

verus! {

/// The decimal digit `d`.
pub open spec fn digit_text(d: int) -> Seq<char> {
    if d == 0 {
        "0"@
    } else if d == 1 {
        "1"@
    } else if d == 2 {
        "2"@
    } else if d == 3 {
        "3"@
    } else if d == 4 {
        "4"@
    } else if d == 5 {
        "5"@
    } else if d == 6 {
        "6"@
    } else if d == 7 {
        "7"@
    } else if d == 8 {
        "8"@
    } else {
        "9"@
    }
}

/// `n` in decimal, without leading zeros.
pub open spec fn natural_text(n: nat) -> Seq<char>
    decreases n,
{
    if n < 10 {
        digit_text(n as int)
    } else {
        natural_text(n / 10) + digit_text((n % 10) as int)
    }
}

/// The last `places` decimal digits of `n`, with leading zeros.
pub open spec fn padded_text(n: nat, places: nat) -> Seq<char>
    decreases places,
{
    if places == 0 {
        Seq::empty()
    } else {
        padded_text(n / 10, (places - 1) as nat) + digit_text((n % 10) as int)
    }
}

/// The decimals of a fraction of `places` digits: the last `places` decimal
/// digits of `n`, with leading zeros and without trailing zeros. Nothing
/// where `n` is zero.
pub open spec fn fraction_text(n: nat, places: nat) -> Seq<char>
    decreases places,
{
    if places > 0 && n % 10 == 0 {
        fraction_text(n / 10, (places - 1) as nat)
    } else {
        padded_text(n, places)
    }
}

/// A fixed-point value in whole units: a minus sign if it is negative, then
/// the whole part; where the fraction is not zero, a point and its decimals
/// without trailing zeros.
pub open spec fn fixed_text(steps: int) -> Seq<char> {
    let magnitude = if steps < 0 {
        -steps
    } else {
        steps
    };
    let sign = if steps < 0 {
        "-"@
    } else {
        Seq::<char>::empty()
    };
    let whole = natural_text((magnitude / (UNIT as int)) as nat);
    let fraction = (magnitude % (UNIT as int)) as nat;
    if fraction == 0 {
        sign + whole
    } else {
        sign + whole + "."@ + fraction_text(fraction, 6)
    }
}

/// The text of a report line. A full line names, in this order, identifier,
/// parent, coordinates, scale, angle and angular velocity; a reduced line
/// angle and angular velocity.
pub open spec fn line_text(line: ReportLine) -> Seq<char> {
    match line {
        ReportLine::Full { id, parent, x, y, scale, angle, velocity } => "ID "@ + natural_text(
            id as nat,
        ) + " : Parent "@ + natural_text(parent as nat) + " : ("@ + fixed_text(x as int) + ", "@
            + fixed_text(y as int) + ") : Scaled "@ + fixed_text(scale as int) + " units : "@
            + fixed_text(angle as int) + " degs : "@ + fixed_text(velocity as int)
            + " per second"@,
        ReportLine::Reduced { angle, velocity } => fixed_text(angle as int) + " degs : "@
            + fixed_text(velocity as int) + " per second"@,
    }
}

fn digit_str(d: u64) -> (s: &'static str)
    requires
        d < 10,
    ensures
        s@ == digit_text(d as int),
{
    if d == 0 {
        "0"
    } else if d == 1 {
        "1"
    } else if d == 2 {
        "2"
    } else if d == 3 {
        "3"
    } else if d == 4 {
        "4"
    } else if d == 5 {
        "5"
    } else if d == 6 {
        "6"
    } else if d == 7 {
        "7"
    } else if d == 8 {
        "8"
    } else {
        "9"
    }
}

/// Appends `n` in decimal.
pub fn push_natural(out: &mut String, n: u64)
    ensures
        final(out)@ == old(out)@ + natural_text(n as nat),
    decreases n,
{
    if n >= 10 {
        push_natural(out, n / 10);
    }
    out.append(digit_str(n % 10));
    assert(out@ =~= old(out)@ + natural_text(n as nat));
}

/// Appends the last `places` decimal digits of `n`.
pub fn push_padded(out: &mut String, n: u64, places: u8)
    ensures
        final(out)@ == old(out)@ + padded_text(n as nat, places as nat),
    decreases places,
{
    if places > 0 {
        push_padded(out, n / 10, places - 1);
        out.append(digit_str(n % 10));
    }
    assert(out@ =~= old(out)@ + padded_text(n as nat, places as nat));
}

/// Appends the decimals of a fraction of `places` digits.
pub fn push_fraction(out: &mut String, n: u64, places: u8)
    ensures
        final(out)@ == old(out)@ + fraction_text(n as nat, places as nat),
    decreases places,
{
    if places > 0 && n % 10 == 0 {
        push_fraction(out, n / 10, places - 1);
    } else {
        push_padded(out, n, places);
    }
}

/// Appends a fixed-point value in whole units.
pub fn push_fixed(out: &mut String, steps: i64)
    ensures
        final(out)@ == old(out)@ + fixed_text(steps as int),
{
    let wide: i128 = steps as i128;
    let magnitude: u64 = if wide < 0 {
        out.append("-");
        (-wide) as u64
    } else {
        wide as u64
    };
    let unit: u64 = UNIT as u64;
    push_natural(out, magnitude / unit);
    let fraction: u64 = magnitude % unit;
    if fraction != 0 {
        out.append(".");
        push_fraction(out, fraction, 6);
    }
    assert(out@ =~= old(out)@ + fixed_text(steps as int));
}

impl ReportLine {
    /// The line as text.
    pub fn render(&self) -> (text: String)
        ensures
            text@ == line_text(*self),
    {
        let mut out = String::new();
        match *self {
            ReportLine::Full { id, parent, x, y, scale, angle, velocity } => {
                out.append("ID ");
                push_natural(&mut out, id as u64);
                out.append(" : Parent ");
                push_natural(&mut out, parent as u64);
                out.append(" : (");
                push_fixed(&mut out, x);
                out.append(", ");
                push_fixed(&mut out, y);
                out.append(") : Scaled ");
                push_fixed(&mut out, scale);
                out.append(" units : ");
                push_fixed(&mut out, angle);
                out.append(" degs : ");
                push_fixed(&mut out, velocity);
                out.append(" per second");
            },
            ReportLine::Reduced { angle, velocity } => {
                push_fixed(&mut out, angle);
                out.append(" degs : ");
                push_fixed(&mut out, velocity);
                out.append(" per second");
            },
        }
        assert(out@ =~= line_text(*self));
        out
    }
}

} // verus!
