use vstd::prelude::*;
use crate::text::push_chars;

verus! {

/// The character of a decimal digit.
pub open spec fn digit_char(d: int) -> char {
    if d == 0 { '0' }
    else if d == 1 { '1' }
    else if d == 2 { '2' }
    else if d == 3 { '3' }
    else if d == 4 { '4' }
    else if d == 5 { '5' }
    else if d == 6 { '6' }
    else if d == 7 { '7' }
    else if d == 8 { '8' }
    else { '9' }
}

/// A character that some decimal digit is written with.
pub open spec fn is_digit_char(c: char) -> bool {
    '0' <= c <= '9'
}

/// The decimal digits of `n`, most significant first, without leading zeros.
pub open spec fn spec_nat_digits(n: nat) -> Seq<char>
    decreases n,
{
    if n < 10 {
        seq![digit_char(n as int)]
    } else {
        spec_nat_digits(n / 10) + seq![digit_char((n % 10) as int)]
    }
}

/// `n` written in decimal, as `Display` writes an integer: a `-` sign for a negative number.
pub open spec fn spec_decimal(n: int) -> Seq<char> {
    if n < 0 {
        seq!['-'] + spec_nat_digits((-n) as nat)
    } else {
        spec_nat_digits(n as nat)
    }
}

proof fn lemma_digit_char(d: int)
    requires
        0 <= d < 10,
    ensures
        is_digit_char(digit_char(d)),
        forall|e: int| 0 <= e < 10 && digit_char(e) == digit_char(d) ==> e == d,
{
}

/// Decimal digits are all digit characters, and there is at least one.
pub proof fn lemma_nat_digits_shape(n: nat)
    ensures
        spec_nat_digits(n).len() >= 1,
        forall|i: int| 0 <= i < spec_nat_digits(n).len() ==> is_digit_char(#[trigger] spec_nat_digits(n)[i]),
    decreases n,
{
    if n >= 10 {
        lemma_nat_digits_shape(n / 10);
        lemma_digit_char((n % 10) as int);
    } else {
        lemma_digit_char(n as int);
    }
}

/// Distinct numbers have distinct decimal digits.
pub proof fn lemma_nat_digits_injective(a: nat, b: nat)
    requires
        spec_nat_digits(a) == spec_nat_digits(b),
    ensures
        a == b,
    decreases a,
{
    let da = spec_nat_digits(a);
    let db = spec_nat_digits(b);
    lemma_digit_char((a % 10) as int);
    lemma_digit_char((b % 10) as int);
    if a < 10 && b < 10 {
        assert(da[0] == db[0]);
    } else if a >= 10 && b >= 10 {
        lemma_nat_digits_shape(a / 10);
        lemma_nat_digits_shape(b / 10);
        assert(da.last() == digit_char((a % 10) as int));
        assert(db.last() == digit_char((b % 10) as int));
        assert(spec_nat_digits(a / 10) =~= da.drop_last());
        assert(spec_nat_digits(b / 10) =~= db.drop_last());
        lemma_nat_digits_injective(a / 10, b / 10);
    } else if a < 10 {
        lemma_nat_digits_shape(b / 10);
        assert(da.len() == 1);
        assert(db.len() >= 2);
    } else {
        lemma_nat_digits_shape(a / 10);
        assert(db.len() == 1);
        assert(da.len() >= 2);
    }
}

/// A decimal number contains no character other than digits and a leading `-`.
pub proof fn lemma_decimal_shape(n: int)
    ensures
        spec_decimal(n).len() >= 1,
        forall|i: int| 0 <= i < spec_decimal(n).len() ==>
            is_digit_char(#[trigger] spec_decimal(n)[i]) || (i == 0 && spec_decimal(n)[i] == '-'),
        spec_decimal(n)[0] == '-' <==> n < 0,
{
    if n < 0 {
        let m = (-n) as nat;
        lemma_nat_digits_shape(m);
        assert forall|i: int| 0 <= i < spec_decimal(n).len() implies
            is_digit_char(#[trigger] spec_decimal(n)[i]) || (i == 0 && spec_decimal(n)[i] == '-') by {
            if i > 0 {
                assert(spec_decimal(n)[i] == spec_nat_digits(m)[i - 1]);
            }
        }
    } else {
        lemma_nat_digits_shape(n as nat);
        assert(is_digit_char(spec_decimal(n)[0]));
    }
}

/// Distinct integers have distinct decimal forms.
pub proof fn lemma_decimal_injective(a: int, b: int)
    requires
        spec_decimal(a) == spec_decimal(b),
    ensures
        a == b,
{
    lemma_decimal_shape(a);
    lemma_decimal_shape(b);
    if a < 0 && b < 0 {
        assert(spec_nat_digits((-a) as nat) =~= spec_decimal(a).drop_first());
        assert(spec_nat_digits((-b) as nat) =~= spec_decimal(b).drop_first());
        lemma_nat_digits_injective((-a) as nat, (-b) as nat);
    } else if a >= 0 && b >= 0 {
        lemma_nat_digits_injective(a as nat, b as nat);
    }
}

fn digit_of(d: u64) -> (c: char)
    requires
        d < 10,
    ensures
        c == digit_char(d as int),
{
    if d == 0 { '0' }
    else if d == 1 { '1' }
    else if d == 2 { '2' }
    else if d == 3 { '3' }
    else if d == 4 { '4' }
    else if d == 5 { '5' }
    else if d == 6 { '6' }
    else if d == 7 { '7' }
    else if d == 8 { '8' }
    else { '9' }
}

fn push_nat_digits(n: u64, out: &mut Vec<char>)
    ensures
        final(out)@ == old(out)@ + spec_nat_digits(n as nat),
    decreases n,
{
    if n >= 10 {
        push_nat_digits(n / 10, out);
    }
    out.push(digit_of(n % 10));
    proof {
        if n >= 10 {
            assert((n / 10) as nat == (n as nat) / 10);
        }
    }
}

/// Appends `n` written in decimal to `s`.
pub fn push_decimal(s: &mut String, n: i64)
    ensures
        final(s)@ == old(s)@ + spec_decimal(n as int),
{
    let mut v: Vec<char> = Vec::new();
    if n < 0 {
        v.push('-');
        let m: u64 = (-(n as i128)) as u64;
        push_nat_digits(m, &mut v);
    } else {
        push_nat_digits(n as u64, &mut v);
    }
    assert(v@ =~= spec_decimal(n as int));
    let len = v.len();
    push_chars(s, &v, 0, len);
    assert(v@.subrange(0, len as int) =~= v@);
}

} // verus!
