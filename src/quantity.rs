use vstd::prelude::*;
use vstd::string::StringExecFns;

verus! {

/// A product's code, kept as text.
pub struct ProductCode(pub String);

impl ProductCode {
    pub fn new(code: String) -> (r: ProductCode)
        ensures
            r.0@ == code@,
    {
        ProductCode(code)
    }
}

/// A weight in kilograms, held exactly as a whole number of grams
/// (thousandths of a kilogram), so it is never negative.
#[derive(Clone, Copy, Debug, PartialEq, Eq, Structural)]
pub struct Kilograms {
    pub grams: u64,
}

impl Kilograms {
    pub fn from_grams(grams: u64) -> (r: Kilograms)
        ensures
            r.grams == grams,
    {
        Kilograms { grams }
    }
}

/// How much of a product is ordered: either a count of units or a weight.
#[derive(Clone, Copy, Debug, PartialEq, Eq, Structural)]
pub enum OrderQuantity {
    UnitQuantity(usize),
    KilogramQuantity(Kilograms),
}

/// The character of a decimal digit.
pub open spec fn digit_char(d: nat) -> char {
    if d == 0 { '0' }
    else if d == 1 { '1' }
    else if d == 2 { '2' }
    else if d == 3 { '3' }
    else if d == 4 { '4' }
    else if d == 5 { '5' }
    else if d == 6 { '6' }
    else if d == 7 { '7' }
    else if d == 8 { '8' }
    else { '9' }
}

/// The decimal notation of `n`, without leading zeros ("0" for zero).
pub open spec fn decimal(n: nat) -> Seq<char>
    decreases n,
{
    if n < 10 {
        seq![digit_char(n)]
    } else {
        decimal(n / 10) + seq![digit_char(n % 10)]
    }
}

/// The digits after the decimal point of `f` thousandths, trailing zeros dropped.
pub open spec fn fraction_digits(f: nat) -> Seq<char> {
    if f % 100 == 0 {
        seq![digit_char(f / 100)]
    } else if f % 10 == 0 {
        seq![digit_char(f / 100), digit_char((f / 10) % 10)]
    } else {
        seq![digit_char(f / 100), digit_char((f / 10) % 10), digit_char(f % 10)]
    }
}

/// The shortest decimal notation of a weight in kilograms: the whole
/// kilograms, then a point and the nonzero fraction if there is one.
pub open spec fn kilogram_text(k: Kilograms) -> Seq<char> {
    let whole = decimal(k.grams as nat / 1000);
    let frac = k.grams as nat % 1000;
    if frac == 0 {
        whole
    } else {
        whole + seq!['.'] + fraction_digits(frac)
    }
}

/// How a quantity reads: "<n> units" or "<w> kg".
pub open spec fn quantity_text(q: OrderQuantity) -> Seq<char> {
    match q {
        OrderQuantity::UnitQuantity(n) => decimal(n as nat) + seq![' ', 'u', 'n', 'i', 't', 's'],
        OrderQuantity::KilogramQuantity(k) => kilogram_text(k) + seq![' ', 'k', 'g'],
    }
}

fn digit_str(d: u64) -> (r: &'static str)
    requires
        d < 10,
    ensures
        r@ == seq![digit_char(d as nat)],
{
    if d == 0 {
        proof { reveal_strlit("0"); }
        "0"
    } else if d == 1 {
        proof { reveal_strlit("1"); }
        "1"
    } else if d == 2 {
        proof { reveal_strlit("2"); }
        "2"
    } else if d == 3 {
        proof { reveal_strlit("3"); }
        "3"
    } else if d == 4 {
        proof { reveal_strlit("4"); }
        "4"
    } else if d == 5 {
        proof { reveal_strlit("5"); }
        "5"
    } else if d == 6 {
        proof { reveal_strlit("6"); }
        "6"
    } else if d == 7 {
        proof { reveal_strlit("7"); }
        "7"
    } else if d == 8 {
        proof { reveal_strlit("8"); }
        "8"
    } else {
        proof { reveal_strlit("9"); }
        "9"
    }
}

/// Appends the decimal notation of `n` to `s`.
fn push_decimal(s: &mut String, n: u64)
    ensures
        final(s)@ == old(s)@ + decimal(n as nat),
    decreases n,
{
    if n < 10 {
        s.append(digit_str(n));
    } else {
        push_decimal(s, n / 10);
        s.append(digit_str(n % 10));
        assert(final(s)@ =~= old(s)@ + decimal(n as nat));
    }
}

/// The decimal notation of `n`.
pub fn decimal_text(n: u64) -> (r: String)
    ensures
        r@ == decimal(n as nat),
{
    let mut s = String::new();
    push_decimal(&mut s, n);
    assert(s@ =~= decimal(n as nat));
    s
}

/// The text of a weight, as `kilogram_text` gives it.
pub fn format_kilograms(k: Kilograms) -> (r: String)
    ensures
        r@ == kilogram_text(k),
{
    let mut s = String::new();
    push_decimal(&mut s, k.grams / 1000);
    let frac = k.grams % 1000;
    if frac != 0 {
        proof { reveal_strlit("."); }
        s.append(".");
        s.append(digit_str(frac / 100));
        if frac % 100 != 0 {
            s.append(digit_str((frac / 10) % 10));
            if frac % 10 != 0 {
                s.append(digit_str(frac % 10));
            }
        }
    }
    assert(s@ =~= kilogram_text(k));
    s
}

/// The text of an order quantity: "<n> units" for a count of units,
/// "<w> kg" for a weight.
pub fn format_quantity(order_quantity: &OrderQuantity) -> (r: String)
    ensures
        r@ == quantity_text(*order_quantity),
{
    match order_quantity {
        OrderQuantity::UnitQuantity(n) => {
            let mut s = String::new();
            push_decimal(&mut s, *n as u64);
            proof { reveal_strlit(" units"); }
            s.append(" units");
            assert(s@ =~= quantity_text(*order_quantity));
            s
        },
        OrderQuantity::KilogramQuantity(k) => {
            let mut s = format_kilograms(*k);
            proof { reveal_strlit(" kg"); }
            s.append(" kg");
            assert(s@ =~= quantity_text(*order_quantity));
            s
        },
    }
}

/// An order quantity is a count of units or a weight, never both and never neither.
pub proof fn quantity_has_one_form(q: OrderQuantity)
    ensures
        (q is UnitQuantity) != (q is KilogramQuantity),
{
}

} // verus!
