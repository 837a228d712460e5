//! Calendar dates of releases and posts.

use vstd::prelude::*;

verus! {

/// A calendar date without a time of day, as written in front matter
/// (`2024-12-31`).
#[derive(Clone, Copy, Debug, PartialEq, Eq, Structural)]
pub struct Date {
    pub year: u16,
    pub month: u8,
    pub day: u8,
}

/// The decimal digit `d` (0 to 9) as a character.
pub open spec fn digit_char(d: int) -> char {
    "0123456789"@[d]
}

/// `n` written with exactly `width` decimal digits, zero-padded on the left
/// (only the lowest `width` digits are kept).
pub open spec fn padded_digits(n: nat, width: nat) -> Seq<char>
    decreases width,
{
    if width == 0 {
        Seq::empty()
    } else {
        padded_digits(n / 10, (width - 1) as nat).push(digit_char((n % 10) as int))
    }
}

impl Date {
    /// A date that the front matter format accepts: a four-digit year, a month
    /// from 1 to 12 and a day from 1 to 31.
    pub open spec fn wf(self) -> bool {
        &&& self.year <= 9999
        &&& 1 <= self.month <= 12
        &&& 1 <= self.day <= 31
    }

    /// A number that orders dates as the calendar does (year, then month,
    /// then day).
    pub open spec fn key_spec(self) -> int {
        self.year as int * 65536 + self.month as int * 256 + self.day as int
    }

    /// `YYYY-MM-DD`.
    pub open spec fn iso_spec(self) -> Seq<char> {
        padded_digits(self.year as nat, 4) + seq!['-'] + padded_digits(self.month as nat, 2)
            + seq!['-'] + padded_digits(self.day as nat, 2)
    }

    pub fn new(year: u16, month: u8, day: u8) -> (r: Option<Date>)
        ensures
            r matches Some(d) ==> d.wf() && d.year == year && d.month == month && d.day == day,
            r is None <==> !(Date { year, month, day }).wf(),
    {
        let d = Date { year, month, day };
        if year <= 9999 && 1 <= month && month <= 12 && 1 <= day && day <= 31 {
            Some(d)
        } else {
            None
        }
    }

    pub fn key(&self) -> (r: u32)
        ensures
            r as int == self.key_spec(),
    {
        (self.year as u32) * 65536 + (self.month as u32) * 256 + (self.day as u32)
    }

    /// The date in ISO form, as the front matter writes it.
    pub fn to_iso_string(&self) -> (r: String)
        requires
            self.wf(),
        ensures
            r@ == self.iso_spec(),
    {
        let mut r = String::new();
        append_padded(&mut r, self.year as u32, 4);
        r.append("-");
        append_padded(&mut r, self.month as u32, 2);
        r.append("-");
        append_padded(&mut r, self.day as u32, 2);
        proof {
            reveal_strlit("-");
        }
        assert(r@ =~= self.iso_spec());
        r
    }
}

fn append_padded(out: &mut String, n: u32, width: u32)
    requires
        width <= 4,
    ensures
        final(out)@ == old(out)@ + padded_digits(n as nat, width as nat),
    decreases width,
{
    if width == 0 {
        assert(padded_digits(n as nat, 0) =~= Seq::<char>::empty());
        assert(old(out)@ + Seq::<char>::empty() =~= old(out)@);
        return;
    }
    append_padded(out, n / 10, width - 1);
    let digits = "0123456789";
    proof {
        reveal_strlit("0123456789");
    }
    let d = (n % 10) as usize;
    let one = digits.substring_char(d, d + 1);
    assert(one@ =~= seq![digit_char(d as int)]);
    out.append(one);
    assert(final(out)@ =~= old(out)@ + padded_digits(n as nat, width as nat));
}

/// `n` in decimal, without leading zeros.
pub open spec fn decimal(n: nat) -> Seq<char>
    decreases n,
{
    if n < 10 {
        seq![digit_char(n as int)]
    } else {
        decimal(n / 10).push(digit_char((n % 10) as int))
    }
}

/// Appends `n` in decimal to `out`.
pub fn append_decimal(out: &mut String, n: u32)
    ensures
        final(out)@ == old(out)@ + decimal(n as nat),
    decreases n,
{
    if n >= 10 {
        append_decimal(out, n / 10);
    }
    let digits = "0123456789";
    proof {
        reveal_strlit("0123456789");
    }
    let d = (n % 10) as usize;
    let one = digits.substring_char(d, d + 1);
    assert(one@ =~= seq![digit_char(d as int)]);
    out.append(one);
    assert(final(out)@ =~= old(out)@ + decimal(n as nat));
}

/// A duration in seconds as `minutes:seconds`, the seconds in two digits.
pub open spec fn duration_spec(seconds: nat) -> Seq<char> {
    decimal(seconds / 60) + seq![':'] + padded_digits(seconds % 60, 2)
}

/// Writes a track length as `m:ss`.
pub fn format_duration(seconds: u32) -> (r: String)
    ensures
        r@ == duration_spec(seconds as nat),
{
    let mut r = String::new();
    append_decimal(&mut r, seconds / 60);
    r.append(":");
    append_padded(&mut r, seconds % 60, 2);
    proof {
        reveal_strlit(":");
    }
    assert(r@ =~= duration_spec(seconds as nat));
    r
}

/// Ten to the power `w`.
pub open spec fn pow10(w: nat) -> nat
    decreases w,
{
    if w == 0 {
        1
    } else {
        10 * pow10((w - 1) as nat)
    }
}

proof fn lemma_digit_injective(d: int, e: int)
    requires
        0 <= d < 10,
        0 <= e < 10,
        digit_char(d) == digit_char(e),
    ensures
        d == e,
{
    reveal_strlit("0123456789");
}

proof fn lemma_padded_len(n: nat, w: nat)
    ensures
        padded_digits(n, w).len() == w,
    decreases w,
{
    if w > 0 {
        lemma_padded_len(n / 10, (w - 1) as nat);
    }
}

/// Numbers below `10^w` have different `w`-digit forms.
proof fn lemma_padded_injective(n: nat, m: nat, w: nat)
    requires
        n < pow10(w),
        m < pow10(w),
        padded_digits(n, w) == padded_digits(m, w),
    ensures
        n == m,
    decreases w,
{
    if w > 0 {
        let v = (w - 1) as nat;
        let pn = padded_digits(n, w);
        let pm = padded_digits(m, w);
        assert(pn.last() == digit_char((n % 10) as int));
        assert(pm.last() == digit_char((m % 10) as int));
        lemma_digit_injective((n % 10) as int, (m % 10) as int);
        assert(pn.drop_last() =~= padded_digits(n / 10, v));
        assert(pm.drop_last() =~= padded_digits(m / 10, v));
        let p = pow10(v);
        assert(n / 10 < p && m / 10 < p) by (nonlinear_arith)
            requires
                n < 10 * p,
                m < 10 * p,
        ;
        lemma_padded_injective(n / 10, m / 10, v);
    }
}

/// Different valid dates have different ISO forms.
pub proof fn lemma_iso_injective(d1: Date, d2: Date)
    requires
        d1.wf(),
        d2.wf(),
        d1.iso_spec() == d2.iso_spec(),
    ensures
        d1 == d2,
{
    let (a, b) = (d1.iso_spec(), d2.iso_spec());
    lemma_padded_len(d1.year as nat, 4);
    lemma_padded_len(d2.year as nat, 4);
    lemma_padded_len(d1.month as nat, 2);
    lemma_padded_len(d2.month as nat, 2);
    lemma_padded_len(d1.day as nat, 2);
    lemma_padded_len(d2.day as nat, 2);
    assert(a.subrange(0, 4) =~= padded_digits(d1.year as nat, 4));
    assert(b.subrange(0, 4) =~= padded_digits(d2.year as nat, 4));
    assert(a.subrange(5, 7) =~= padded_digits(d1.month as nat, 2));
    assert(b.subrange(5, 7) =~= padded_digits(d2.month as nat, 2));
    assert(a.subrange(8, 10) =~= padded_digits(d1.day as nat, 2));
    assert(b.subrange(8, 10) =~= padded_digits(d2.day as nat, 2));
    assert(pow10(2) == 100 && pow10(4) == 10000) by {
        reveal_with_fuel(pow10, 5);
    }
    lemma_padded_injective(d1.year as nat, d2.year as nat, 4);
    lemma_padded_injective(d1.month as nat, d2.month as nat, 2);
    lemma_padded_injective(d1.day as nat, d2.day as nat, 2);
}

} // verus!
