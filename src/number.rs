//! Exact decimal numbers and their rendering as text for filter expressions.

use vstd::prelude::*;

verus! {

/// The digit character for a value below ten.
pub open spec fn digit_char(d: nat) -> char {
    if d == 0 { '0' }
    else if d == 1 { '1' }
    else if d == 2 { '2' }
    else if d == 3 { '3' }
    else if d == 4 { '4' }
    else if d == 5 { '5' }
    else if d == 6 { '6' }
    else if d == 7 { '7' }
    else if d == 8 { '8' }
    else { '9' }
}

/// Decimal digits of `n`, without leading zeros ("0" for zero).
pub open spec fn nat_text(n: nat) -> Seq<char>
    decreases n,
{
    if n < 10 {
        seq![digit_char(n)]
    } else {
        nat_text(n / 10) + seq![digit_char(n % 10)]
    }
}

/// The last `width` decimal digits of `n`, with leading zeros.
pub open spec fn padded_text(n: nat, width: nat) -> Seq<char>
    decreases width,
{
    if width == 0 {
        Seq::empty()
    } else {
        padded_text(n / 10, (width - 1) as nat) + seq![digit_char(n % 10)]
    }
}

pub open spec fn pow10(e: nat) -> nat
    decreases e,
{
    if e == 0 { 1 } else { 10 * pow10((e - 1) as nat) }
}

/// `mag / 10^scale` with trailing zeros of the fraction dropped: the pair
/// (magnitude, scale) that denotes the same value with the fewest fraction digits.
pub open spec fn trimmed(mag: nat, scale: nat) -> (nat, nat)
    decreases scale,
{
    if scale > 0 && mag % 10 == 0 {
        trimmed(mag / 10, (scale - 1) as nat)
    } else {
        (mag, scale)
    }
}

/// Text of the non-negative value `mag / 10^scale`, as written with exactly
/// `scale` fraction digits.
pub open spec fn fixed_text(mag: nat, scale: nat) -> Seq<char> {
    if scale == 0 {
        nat_text(mag)
    } else {
        nat_text(mag / pow10(scale)) + seq!['.'] + padded_text(mag % pow10(scale), scale)
    }
}

/// Text of the signed value `value / 10^scale`: a minus sign for a negative
/// value, then the shortest fixed-point form.
pub open spec fn number_text(value: int, scale: nat) -> Seq<char> {
    let mag = if value < 0 { -value } else { value };
    let t = trimmed(mag as nat, scale);
    let body = fixed_text(t.0, t.1);
    if value < 0 { seq!['-'] + body } else { body }
}

/// No character of `s` is the letter `p`.
pub open spec fn free_of_p(s: Seq<char>) -> bool {
    forall|i: int| 0 <= i < s.len() ==> s[i] != 'p'
}

proof fn lemma_nat_text_shape(n: nat)
    ensures
        free_of_p(nat_text(n)),
        nat_text(n).len() >= 1,
    decreases n,
{
    if n >= 10 {
        lemma_nat_text_shape(n / 10);
        assert(free_of_p(nat_text(n / 10) + seq![digit_char(n % 10)]));
    }
}

proof fn lemma_padded_text_shape(n: nat, width: nat)
    ensures
        free_of_p(padded_text(n, width)),
    decreases width,
{
    if width > 0 {
        lemma_padded_text_shape(n / 10, (width - 1) as nat);
        assert(free_of_p(padded_text(n / 10, (width - 1) as nat) + seq![digit_char(n % 10)]));
    }
}

/// Number text is never empty and holds only digits, a sign and a point.
pub proof fn lemma_number_text_shape(value: int, scale: nat)
    ensures
        free_of_p(number_text(value, scale)),
        number_text(value, scale).len() >= 1,
{
    let mag = if value < 0 { -value } else { value };
    let t = trimmed(mag as nat, scale);
    if t.1 == 0 {
        lemma_nat_text_shape(t.0);
    } else {
        lemma_nat_text_shape(t.0 / pow10(t.1));
        lemma_padded_text_shape(t.0 % pow10(t.1), t.1);
        assert(free_of_p(nat_text(t.0 / pow10(t.1)) + seq!['.'] + padded_text(t.0 % pow10(t.1), t.1)));
    }
    let body = fixed_text(t.0, t.1);
    assert(free_of_p(seq!['-'] + body));
}

/// A decimal number `(-1 if negative) * magnitude / 10^scale`.
#[derive(Clone, Copy, Debug, PartialEq, Eq)]
pub struct Decimal {
    pub negative: bool,
    pub magnitude: u64,
    pub scale: u32,
}

/// The decimal form of an integer.
pub open spec fn integer_decimal(i: i64) -> Decimal {
    Decimal {
        negative: i < 0,
        magnitude: (if i < 0 { -(i as int) } else { i as int }) as u64,
        scale: 0,
    }
}

/// The numerator of `a - b` over `10^s`, where `s` is the larger of the two scales.
pub open spec fn difference_numerator(a: Decimal, b: Decimal) -> int {
    let s = if a.scale >= b.scale { a.scale } else { b.scale };
    a.numerator() * pow10((s - a.scale) as nat) - b.numerator() * pow10((s - b.scale) as nat)
}

pub open spec fn difference_scale(a: Decimal, b: Decimal) -> nat {
    (if a.scale >= b.scale { a.scale } else { b.scale }) as nat
}

/// Text of the exact difference `a - b`.
pub open spec fn difference_text(a: Decimal, b: Decimal) -> Seq<char> {
    number_text(difference_numerator(a, b), difference_scale(a, b))
}

/// The largest number of fraction digits that a `Decimal` is read with.
pub const MAX_SCALE: u32 = 18;

impl Decimal {
    /// The signed numerator of the value over `10^scale`.
    pub open spec fn numerator(self) -> int {
        if self.negative { -(self.magnitude as int) } else { self.magnitude as int }
    }

    /// A fraction with at most `MAX_SCALE` digits after the point.
    pub open spec fn readable(self) -> bool {
        self.scale <= MAX_SCALE
    }

    pub fn from_integer(i: i64) -> (r: Decimal)
        ensures
            r == integer_decimal(i),
    {
        if i < 0 {
            let m: u64 = ((-(i + 1)) as u64) + 1;
            Decimal { negative: true, magnitude: m, scale: 0 }
        } else {
            Decimal { negative: false, magnitude: i as u64, scale: 0 }
        }
    }

    /// The value as an integer, where it is whole and fits in `i64`.
    pub open spec fn whole_value(self) -> Option<i64> {
        let q: int = self.magnitude as int / (pow10(self.scale as nat) as int);
        let v = if self.negative { -q } else { q };
        if self.readable() && self.magnitude as int % (pow10(self.scale as nat) as int) == 0
            && i64::MIN <= v <= i64::MAX {
            Some(v as i64)
        } else {
            None
        }
    }

    /// This value as an integer, if it is whole (such as `100.0`) and fits in
    /// `i64`; `None` for a value with a nonzero fraction.
    pub fn whole(&self) -> (r: Option<i64>)
        ensures
            r == self.whole_value(),
    {
        if self.scale > MAX_SCALE {
            return None;
        }
        proof {
            lemma_pow10_monotone(self.scale as nat, 37);
            lemma_pow10_bound(37);
        }
        let p = pow10_exec(self.scale);
        let m = self.magnitude as u128;
        if m % p != 0 {
            return None;
        }
        let q = m / p;
        if self.negative {
            if q > 9223372036854775808 {
                None
            } else if q == 9223372036854775808 {
                Some(i64::MIN)
            } else {
                Some(-(q as i64))
            }
        } else {
            if q > 9223372036854775807 {
                None
            } else {
                Some(q as i64)
            }
        }
    }

    /// The decimal text of this value, shortest fixed-point form.
    pub fn to_text(&self) -> (r: String)
        requires
            self.readable(),
        ensures
            r@ == number_text(self.numerator(), self.scale as nat),
    {
        render(self.negative, self.magnitude as u128, self.scale)
    }
}

fn digit_str(d: u128) -> (r: &'static str)
    requires
        d < 10,
    ensures
        r@ == seq![digit_char(d as nat)],
{
    proof {
        reveal_strlit("0");
        reveal_strlit("1");
        reveal_strlit("2");
        reveal_strlit("3");
        reveal_strlit("4");
        reveal_strlit("5");
        reveal_strlit("6");
        reveal_strlit("7");
        reveal_strlit("8");
        reveal_strlit("9");
    }
    if d == 0 { "0" }
    else if d == 1 { "1" }
    else if d == 2 { "2" }
    else if d == 3 { "3" }
    else if d == 4 { "4" }
    else if d == 5 { "5" }
    else if d == 6 { "6" }
    else if d == 7 { "7" }
    else if d == 8 { "8" }
    else { "9" }
}

fn nat_string(n: u128) -> (r: String)
    ensures
        r@ == nat_text(n as nat),
    decreases n,
{
    if n < 10 {
        String::from_str(digit_str(n))
    } else {
        let head = nat_string(n / 10);
        head.concat(digit_str(n % 10))
    }
}

fn padded_string(n: u128, width: u32) -> (r: String)
    ensures
        r@ == padded_text(n as nat, width as nat),
    decreases width,
{
    if width == 0 {
        String::new()
    } else {
        let head = padded_string(n / 10, width - 1);
        head.concat(digit_str(n % 10))
    }
}

pub(crate) fn pow10_exec(e: u32) -> (r: u128)
    requires
        e <= 38,
    ensures
        r as nat == pow10(e as nat),
    decreases e,
{
    if e == 0 {
        1
    } else {
        let p = pow10_exec(e - 1);
        proof { lemma_pow10_bound((e - 1) as nat); }
        10 * p
    }
}

proof fn lemma_pow10_bound(e: nat)
    requires
        e <= 37,
    ensures
        pow10(e) <= 10000000000000000000000000000000000000nat,
        pow10(e) >= 1,
{
    lemma_pow10_up_to(e);
    reveal_with_fuel(pow10, 38);
    assert(pow10(37) == 10000000000000000000000000000000000000nat);
}

proof fn lemma_pow10_up_to(e: nat)
    requires
        e <= 37,
    ensures
        1 <= pow10(e) <= pow10(37),
    decreases 37 - e,
{
    if e < 37 {
        lemma_pow10_up_to(e + 1);
    } else {
        lemma_pow10_positive(e);
    }
}

proof fn lemma_pow10_positive(e: nat)
    ensures
        pow10(e) >= 1,
    decreases e,
{
    if e > 0 {
        lemma_pow10_positive((e - 1) as nat);
    }
}

proof fn lemma_pow10_monotone(a: nat, b: nat)
    requires
        a <= b,
    ensures
        1 <= pow10(a) <= pow10(b),
    decreases b - a,
{
    if a < b {
        lemma_pow10_monotone(a + 1, b);
    } else {
        lemma_pow10_positive(a);
    }
}

/// The magnitude of `d` over `10^s`, for a scale `s` at least that of `d`.
fn aligned(d: Decimal, s: u32) -> (r: u128)
    requires
        d.scale <= s <= MAX_SCALE,
    ensures
        r as int == d.magnitude as int * pow10((s - d.scale) as nat),
        r as int <= 18446744073709551615 * 1000000000000000000,
{
    proof {
        lemma_pow10_monotone((s - d.scale) as nat, 18);
        reveal_with_fuel(pow10, 19);
        assert(pow10(18) == 1000000000000000000nat);
    }
    let p = pow10_exec(s - d.scale);
    assert(d.magnitude as int * p as int <= 18446744073709551615 * 1000000000000000000)
        by (nonlinear_arith)
        requires
            d.magnitude as int <= 18446744073709551615,
            p as int <= 1000000000000000000;
    d.magnitude as u128 * p
}

/// The text of the exact difference `a - b`.
pub fn subtract_text(a: Decimal, b: Decimal) -> (r: String)
    requires
        a.readable(),
        b.readable(),
    ensures
        r@ == difference_text(a, b),
{
    let s = if a.scale >= b.scale { a.scale } else { b.scale };
    let x = aligned(a, s);
    let y = aligned(b, s);
    let negative: bool;
    let mag: u128;
    if a.negative == b.negative {
        if x >= y {
            negative = a.negative;
            mag = x - y;
        } else {
            negative = !a.negative;
            mag = y - x;
        }
    } else {
        negative = a.negative;
        mag = x + y;
    }
    assert((if negative { -(mag as int) } else { mag as int }) == difference_numerator(a, b))
        by (nonlinear_arith)
        requires
            x as int == a.magnitude as int * pow10((s - a.scale) as nat),
            y as int == b.magnitude as int * pow10((s - b.scale) as nat),
            s == (if a.scale >= b.scale { a.scale } else { b.scale }),
            a.negative == b.negative ==> (x >= y ==> negative == a.negative && mag == x - y),
            a.negative == b.negative ==> (x < y ==> negative == !a.negative && mag == y - x),
            a.negative != b.negative ==> negative == a.negative && mag == x + y,
            difference_numerator(a, b) == a.numerator() * pow10((s - a.scale) as nat)
                - b.numerator() * pow10((s - b.scale) as nat),
            a.numerator() == (if a.negative { -(a.magnitude as int) } else { a.magnitude as int }),
            b.numerator() == (if b.negative { -(b.magnitude as int) } else { b.magnitude as int });
    render(negative, mag, s)
}

/// Renders `(-1 if negative) * mag / 10^scale` in shortest fixed-point form.
pub fn render(negative: bool, mag: u128, scale: u32) -> (r: String)
    requires
        scale <= 38,
    ensures
        r@ == number_text(if negative { -(mag as int) } else { mag as int }, scale as nat),
{
    let mut m: u128 = mag;
    let mut s: u32 = scale;
    while s > 0 && m % 10 == 0
        invariant
            s <= scale <= 38,
            trimmed(m as nat, s as nat) == trimmed(mag as nat, scale as nat),
        decreases s,
    {
        m = m / 10;
        s = s - 1;
    }
    assert(trimmed(m as nat, s as nat) == (m as nat, s as nat));
    let body = if s == 0 {
        nat_string(m)
    } else {
        let p = pow10_exec(s);
        proof {
            lemma_pow10_bound((s - 1) as nat);
            reveal_strlit(".");
        }
        let w = nat_string(m / p).concat(".");
        w.concat(padded_string(m % p, s).as_str())
    };
    assert(body@ == fixed_text(m as nat, s as nat));
    let ghost value = if negative { -(mag as int) } else { mag as int };
    assert((if value < 0 { -value } else { value }) as nat == mag as nat);
    if negative && mag != 0 {
        proof { reveal_strlit("-"); }
        let r = String::from_str("-").concat(body.as_str());
        assert(r@ == seq!['-'] + body@);
        r
    } else {
        body
    }
}

} // verus!
