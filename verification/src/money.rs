//! Amounts of money, counted in hundredths of the currency unit, and their
//! decimal notation.

use vstd::prelude::*;
use vstd::string::*;

verus! {

/// An amount of money in hundredths of the currency unit; negative for
/// refunds and corrections.
#[derive(Clone, Copy, Debug, PartialEq, Eq, Structural)]
pub struct Money {
    pub cents: i64,
}

/// The character that writes the decimal digit `d`.
pub open spec fn digit_char(d: int) -> char
    recommends
        0 <= d <= 9,
{
    if d == 0 {
        '0'
    } else if d == 1 {
        '1'
    } else if d == 2 {
        '2'
    } else if d == 3 {
        '3'
    } else if d == 4 {
        '4'
    } else if d == 5 {
        '5'
    } else if d == 6 {
        '6'
    } else if d == 7 {
        '7'
    } else if d == 8 {
        '8'
    } else {
        '9'
    }
}

/// The decimal notation of a natural number, without leading zeros.
pub open spec fn natural_text(n: nat) -> Seq<char>
    decreases n,
{
    if n < 10 {
        seq![digit_char(n as int)]
    } else {
        natural_text(n / 10).push(digit_char((n % 10) as int))
    }
}

/// The notation of a fraction of `hundredths` hundredths in its shortest
/// form: nothing for zero, one digit for whole tenths, else two digits.
pub open spec fn fraction_text(hundredths: nat) -> Seq<char>
    recommends
        hundredths < 100,
{
    if hundredths == 0 {
        Seq::empty()
    } else if hundredths % 10 == 0 {
        seq!['.', digit_char((hundredths / 10) as int)]
    } else {
        seq!['.', digit_char((hundredths / 10) as int), digit_char((hundredths % 10) as int)]
    }
}

/// The sign that precedes the notation of `cents`.
pub open spec fn sign_text(cents: int) -> Seq<char> {
    if cents < 0 {
        seq!['-']
    } else {
        Seq::empty()
    }
}

/// The distance of `cents` from zero.
pub open spec fn magnitude(cents: int) -> nat {
    if cents < 0 {
        (-cents) as nat
    } else {
        cents as nat
    }
}

/// The shortest decimal notation of an amount: `11000` hundredths read
/// `110`, `4050` read `40.5`, `-5` reads `-0.05`.
pub open spec fn money_text(cents: int) -> Seq<char> {
    sign_text(cents) + natural_text(magnitude(cents) / 100) + fraction_text(magnitude(cents) % 100)
}

/// The notation of an amount with exactly two fractional digits: `4050`
/// hundredths read `40.50`.
pub open spec fn money_text_fixed(cents: int) -> Seq<char> {
    sign_text(cents) + natural_text(magnitude(cents) / 100) + seq![
        '.',
        digit_char(((magnitude(cents) % 100) / 10) as int),
        digit_char((magnitude(cents) % 10) as int),
    ]
}

/// The one-character text of a decimal digit.
fn digit_str(d: u64) -> (s: &'static str)
    requires
        d <= 9,
    ensures
        s@ == seq![digit_char(d as int)],
{
    proof {
        reveal_strlit("0");
        reveal_strlit("1");
        reveal_strlit("2");
        reveal_strlit("3");
        reveal_strlit("4");
        reveal_strlit("5");
        reveal_strlit("6");
        reveal_strlit("7");
        reveal_strlit("8");
        reveal_strlit("9");
    }
    let s = if d == 0 {
        "0"
    } else if d == 1 {
        "1"
    } else if d == 2 {
        "2"
    } else if d == 3 {
        "3"
    } else if d == 4 {
        "4"
    } else if d == 5 {
        "5"
    } else if d == 6 {
        "6"
    } else if d == 7 {
        "7"
    } else if d == 8 {
        "8"
    } else {
        "9"
    };
    assert(s@ =~= seq![digit_char(d as int)]);
    s
}

/// Appends the decimal notation of `n` to `out`.
pub fn append_natural(out: &mut String, n: u64)
    ensures
        final(out)@ == old(out)@ + natural_text(n as nat),
    decreases n,
{
    if n >= 10 {
        append_natural(out, n / 10);
    }
    out.append(digit_str(n % 10));
    assert(final(out)@ =~= old(out)@ + natural_text(n as nat));
}

impl Money {
    /// The amount of `cents` hundredths.
    pub fn from_cents(cents: i64) -> (m: Money)
        ensures
            m.cents == cents,
    {
        Money { cents }
    }

    /// The distance of the amount from zero, in hundredths.
    fn magnitude(&self) -> (m: u64)
        ensures
            m == magnitude(self.cents as int),
    {
        if self.cents < 0 {
            let above: i64 = self.cents + 1;
            let below: i64 = -above;
            below as u64 + 1
        } else {
            self.cents as u64
        }
    }

    /// Starts the notation of the amount: its sign and its whole part.
    fn render_whole(&self) -> (s: String)
        ensures
            s@ == sign_text(self.cents as int) + natural_text(magnitude(self.cents as int) / 100),
    {
        let mut out = String::new();
        if self.cents < 0 {
            proof {
                reveal_strlit("-");
            }
            out.append("-");
        }
        assert(out@ =~= sign_text(self.cents as int));
        append_natural(&mut out, self.magnitude() / 100);
        out
    }

    /// The shortest decimal notation of the amount.
    pub fn render(&self) -> (s: String)
        ensures
            s@ == money_text(self.cents as int),
    {
        let mut out = self.render_whole();
        let hundredths: u64 = self.magnitude() % 100;
        if hundredths != 0 {
            proof {
                reveal_strlit(".");
            }
            out.append(".");
            out.append(digit_str(hundredths / 10));
            if hundredths % 10 != 0 {
                out.append(digit_str(hundredths % 10));
            }
        }
        assert(out@ =~= money_text(self.cents as int));
        out
    }

    /// The notation of the amount with exactly two fractional digits.
    pub fn render_fixed(&self) -> (s: String)
        ensures
            s@ == money_text_fixed(self.cents as int),
    {
        let mut out = self.render_whole();
        let hundredths: u64 = self.magnitude() % 100;
        proof {
            reveal_strlit(".");
        }
        out.append(".");
        out.append(digit_str(hundredths / 10));
        out.append(digit_str(hundredths % 10));
        assert(out@ =~= money_text_fixed(self.cents as int));
        out
    }
}

} // verus!
