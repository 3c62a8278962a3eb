//! Token amounts with decimal places, rendered with integer arithmetic only.
use vstd::prelude::*;
use crate::text::{decimal, decimal_text, digit_char, digit_value, pow10, push_digit};
use vstd::string::StrSliceExecFns;

verus! {

/// The text padded on the left with '0' up to `width` characters (as
/// `format!("{:0>width$}", ..)` pads); a longer text is unchanged.
pub open spec fn pad_zeros(s: Seq<char>, width: nat) -> Seq<char> {
    if s.len() >= width {
        s
    } else {
        Seq::new((width - s.len()) as nat, |i: int| '0') + s
    }
}

/// The text without its trailing '0' characters (as `trim_end_matches('0')`).
pub open spec fn trim_trailing_zeros(s: Seq<char>) -> Seq<char>
    decreases s.len(),
{
    if s.len() > 0 && s.last() == '0' {
        trim_trailing_zeros(s.drop_last())
    } else {
        s
    }
}

/// The fractional digits shown for `frac` at `decimals` places: `frac`
/// zero-padded to `decimals` digits, without trailing zeros.
pub open spec fn fraction_digits(frac: nat, decimals: nat) -> Seq<char> {
    trim_trailing_zeros(pad_zeros(decimal(frac), decimals))
}

/// `amount` in units of 10^-`decimals`: the whole part, then, unless the
/// fraction is zero, a '.' and the fractional digits without trailing zeros.
pub open spec fn token_amount_text(amount: u64, decimals: u8) -> Seq<char> {
    if decimals == 0 {
        decimal(amount as nat)
    } else {
        let divisor = pow10(decimals as nat);
        let whole = amount as nat / divisor;
        let frac = fraction_digits(amount as nat % divisor, decimals as nat);
        if frac.len() == 0 {
            decimal(whole)
        } else {
            decimal(whole) + seq!['.'] + frac
        }
    }
}

/// A character among '0' to '9'.
pub open spec fn is_decimal_digit(c: char) -> bool {
    c == '0' || c == '1' || c == '2' || c == '3' || c == '4' || c == '5' || c == '6' || c == '7'
        || c == '8' || c == '9'
}

/// Every character of the text is a decimal digit.
pub open spec fn all_decimal_digits(s: Seq<char>) -> bool {
    forall|i: int| 0 <= i < s.len() ==> #[trigger] is_decimal_digit(s[i])
}

proof fn lemma_decimal_digits(n: nat)
    ensures
        all_decimal_digits(decimal(n)),
        decimal(n).len() >= 1,
    decreases n,
{
    if n >= 10 {
        lemma_decimal_digits(n / 10);
        let s = decimal(n);
        assert forall|i: int| 0 <= i < s.len() implies #[trigger] is_decimal_digit(s[i]) by {
            if i < s.len() - 1 {
                assert(s[i] == decimal(n / 10)[i]);
            }
        }
    }
}

proof fn lemma_pow10_mono(a: nat, b: nat)
    requires
        a <= b,
    ensures
        1 <= pow10(a) <= pow10(b),
    decreases b,
{
    if a < b {
        lemma_pow10_mono(a, (b - 1) as nat);
    } else {
        lemma_pow10_positive(a);
    }
}

proof fn lemma_pow10_positive(e: nat)
    ensures
        pow10(e) >= 1,
    decreases e,
{
    if e > 0 {
        lemma_pow10_positive((e - 1) as nat);
    }
}

/// Ten to the power `e`, for `e` up to 19 (where it fits in a `u64`).
fn pow10_u64(e: u8) -> (p: u64)
    requires
        e <= 19,
    ensures
        p as nat == pow10(e as nat),
{
    proof {
        reveal_with_fuel(pow10, 19);
    }
    assert(pow10(18) == 1000000000000000000nat);
    let mut p: u64 = 1;
    let mut i: u8 = 0;
    while i < e
        invariant
            i <= e <= 19,
            p as nat == pow10(i as nat),
            pow10(18) == 1000000000000000000nat,
        decreases e - i,
    {
        proof {
            lemma_pow10_mono(i as nat, 18);
        }
        p = p * 10;
        i = i + 1;
    }
    p
}

/// Appends the fractional digits of `frac` at `width` places: `frac`
/// zero-padded to `width` digits, without its trailing zeros.
fn push_fraction_digits(s: &mut String, frac: u64, width: u8)
    ensures
        final(s)@ == old(s)@ + fraction_digits(frac as nat, width as nat),
{
    let digits = decimal_text(frac);
    let n = digits.as_str().unicode_len();
    let mut padded = String::new();
    if n < width as usize {
        let pad = width as usize - n;
        let mut k: usize = 0;
        while k < pad
            invariant
                k <= pad,
                padded@ =~= Seq::new(k as nat, |i: int| '0'),
            decreases pad - k,
        {
            push_digit(&mut padded, 0);
            k = k + 1;
        }
    }
    padded.append(digits.as_str());
    let ghost full = padded@;
    assert(full =~= pad_zeros(decimal(frac as nat), width as nat));
    let mut keep = padded.as_str().unicode_len();
    assert(full.take(keep as int) =~= full);
    while keep > 0 && padded.as_str().get_char(keep - 1) == '0'
        invariant
            keep <= full.len(),
            padded@ == full,
            trim_trailing_zeros(full.take(keep as int)) == trim_trailing_zeros(full),
        decreases keep,
    {
        assert(full.take(keep as int).drop_last() =~= full.take(keep - 1));
        keep = keep - 1;
    }
    let kept = padded.as_str().substring_char(0, keep);
    assert(kept@ =~= full.take(keep as int));
    assert(trim_trailing_zeros(kept@) == kept@);
    s.append(kept);
}

/// Formats a token amount with decimal places using integer arithmetic to
/// avoid floating-point precision loss for large amounts.
///
/// With no decimal places the amount is printed as it is; otherwise the whole
/// part, and, unless the fraction is zero, a '.' and the fractional digits
/// without trailing zeros. Ten to the power `decimals` must fit in a `u64`.
pub fn format_token_amount(amount: u64, decimals: u8) -> (s: String)
    requires
        decimals <= 19,
    ensures
        s@ == token_amount_text(amount, decimals),
{
    if decimals == 0 {
        return decimal_text(amount);
    }
    let divisor = pow10_u64(decimals);
    proof {
        lemma_pow10_mono(0, decimals as nat);
    }
    let whole = amount / divisor;
    let frac = amount % divisor;
    let mut digits = String::new();
    push_fraction_digits(&mut digits, frac, decimals);
    let mut s = decimal_text(whole);
    if digits.as_str().unicode_len() == 0 {
        return s;
    }
    proof {
        reveal_strlit(".");
    }
    s.append(".");
    s.append(digits.as_str());
    assert(s@ =~= token_amount_text(amount, decimals));
    s
}

/// The value of a text of decimal digits.
pub open spec fn digits_value(s: Seq<char>) -> nat
    decreases s.len(),
{
    if s.len() == 0 {
        0
    } else {
        digits_value(s.drop_last()) * 10 + digit_value(s.last()) as nat
    }
}

proof fn lemma_decimal_value(n: nat)
    ensures
        digits_value(decimal(n)) == n,
    decreases n,
{
    let s = decimal(n);
    assert(s.len() > 0);
    assert(digits_value(s) == digits_value(s.drop_last()) * 10 + digit_value(s.last()) as nat);
    if n >= 10 {
        lemma_decimal_value(n / 10);
        assert(s.drop_last() =~= decimal(n / 10));
        assert(s.last() == digit_char((n % 10) as int));
        assert(digit_value(digit_char((n % 10) as int)) == n % 10);
        assert((n / 10) * 10 + n % 10 == n) by (nonlinear_arith);
    } else {
        assert(s.drop_last() =~= Seq::<char>::empty());
        assert(digits_value(Seq::<char>::empty()) == 0);
        assert(s.last() == digit_char(n as int));
        assert(digit_value(digit_char(n as int)) == n);
    }
}

proof fn lemma_decimal_first(n: nat)
    ensures
        n > 0 ==> decimal(n)[0] != '0',
    decreases n,
{
    if n >= 10 {
        lemma_decimal_first(n / 10);
        lemma_decimal_digits(n / 10);
        assert(decimal(n)[0] == decimal(n / 10)[0]);
    }
}

/// The decimal text of a number is exact: its characters are all decimal
/// digits, their value is the number, and it has no leading zero (only
/// zero itself is written "0").
pub proof fn law_decimal_exact(n: nat)
    ensures
        all_decimal_digits(decimal(n)),
        decimal(n).len() >= 1,
        digits_value(decimal(n)) == n,
        n > 0 ==> decimal(n)[0] != '0',
        n == 0 ==> decimal(n) == seq!['0'],
{
    lemma_decimal_digits(n);
    lemma_decimal_value(n);
    lemma_decimal_first(n);
}

proof fn lemma_decimal_len(n: nat, k: nat)
    requires
        k >= 1,
        n < pow10(k),
    ensures
        decimal(n).len() <= k,
    decreases n,
{
    if n >= 10 {
        if k == 1 {
            assert(pow10(1) == 10) by {
                reveal_with_fuel(pow10, 2);
            }
        } else {
            lemma_decimal_len(n / 10, (k - 1) as nat);
        }
    }
}

proof fn lemma_zeros_value(k: nat)
    ensures
        digits_value(Seq::new(k, |i: int| '0')) == 0,
    decreases k,
{
    if k > 0 {
        lemma_zeros_value((k - 1) as nat);
        assert(Seq::new(k, |i: int| '0').drop_last() =~= Seq::new((k - 1) as nat, |i: int| '0'));
    }
}

proof fn lemma_leading_zeros_value(k: nat, s: Seq<char>)
    ensures
        digits_value(Seq::new(k, |i: int| '0') + s) == digits_value(s),
    decreases s.len(),
{
    let z = Seq::new(k, |i: int| '0');
    if s.len() == 0 {
        assert(z + s =~= z);
        lemma_zeros_value(k);
    } else {
        lemma_leading_zeros_value(k, s.drop_last());
        assert((z + s).drop_last() =~= z + s.drop_last());
        assert((z + s).last() == s.last());
    }
}

proof fn lemma_pow10_step(e: nat)
    ensures
        pow10(e + 1) == 10 * pow10(e),
{
}

proof fn lemma_trim_value(s: Seq<char>)
    ensures
        trim_trailing_zeros(s).len() <= s.len(),
        trim_trailing_zeros(s) =~= s.take(trim_trailing_zeros(s).len() as int),
        trim_trailing_zeros(s).len() == 0 || trim_trailing_zeros(s).last() != '0',
        digits_value(s) == digits_value(trim_trailing_zeros(s)) * pow10(
            (s.len() - trim_trailing_zeros(s).len()) as nat,
        ),
    decreases s.len(),
{
    let t = trim_trailing_zeros(s);
    if s.len() > 0 && s.last() == '0' {
        lemma_trim_value(s.drop_last());
        let k = (s.drop_last().len() - t.len()) as nat;
        lemma_pow10_step(k);
        assert(digits_value(s) == digits_value(s.drop_last()) * 10);
        assert(digits_value(s.drop_last()) == digits_value(t) * pow10(k));
        assert(digits_value(t) * pow10(k) * 10 == digits_value(t) * (10 * pow10(k))) by (nonlinear_arith);
        assert((s.len() - t.len()) as nat == k + 1);
        assert(digits_value(s) == digits_value(t) * pow10(k + 1));
    } else {
        assert(s.take(s.len() as int) =~= s);
        assert(pow10(0) == 1);
        assert((s.len() - t.len()) as nat == 0);
        assert(digits_value(s) * 1 == digits_value(s)) by (nonlinear_arith);
    }
}

/// With no decimal places a token amount is shown as the plain number.
pub proof fn law_token_amount_no_decimals(amount: u64)
    ensures
        token_amount_text(amount, 0) == decimal(amount as nat),
{
}

/// Formatting a token amount loses nothing: the text is the decimal
/// representation of a whole part, then, when there is a fraction, '.'
/// and at most `decimals` digits without a trailing zero; the whole part
/// times 10^decimals, plus the digits' value scaled up to `decimals`
/// places, is the amount.
pub proof fn law_token_amount_exact(amount: u64, decimals: u8)
    requires
        1 <= decimals <= 19,
    ensures
        ({
            let d = pow10(decimals as nat);
            let whole = amount as nat / d;
            let frac = fraction_digits(amount as nat % d, decimals as nat);
            &&& token_amount_text(amount, decimals) == (if frac.len() == 0 {
                decimal(whole)
            } else {
                decimal(whole) + seq!['.'] + frac
            })
            &&& frac.len() <= decimals
            &&& frac.len() == 0 || frac.last() != '0'
            &&& all_decimal_digits(frac)
            &&& whole * d + digits_value(frac) * pow10((decimals - frac.len()) as nat) == amount
            &&& digits_value(decimal(whole)) == whole
        }),
{
    let d = pow10(decimals as nat);
    lemma_pow10_mono(0, decimals as nat);
    let whole = amount as nat / d;
    let r = amount as nat % d;
    let ds = decimal(r);
    lemma_decimal_len(r, decimals as nat);
    lemma_decimal_value(r);
    lemma_decimal_value(whole);
    lemma_decimal_digits(r);
    let k = (decimals - ds.len()) as nat;
    let padded = pad_zeros(ds, decimals as nat);
    if ds.len() < decimals {
        assert(padded == Seq::new(k, |i: int| '0') + ds);
        lemma_leading_zeros_value(k, ds);
    } else {
        assert(padded == ds);
    }
    assert(padded.len() == decimals);
    assert(digits_value(padded) == r);
    assert(all_decimal_digits(padded)) by {
        assert forall|i: int| 0 <= i < padded.len() implies #[trigger] is_decimal_digit(padded[i]) by {
            if ds.len() < decimals && i >= k {
                assert(padded[i] == ds[i - k]);
            }
        }
    }
    lemma_trim_value(padded);
    let frac = trim_trailing_zeros(padded);
    assert(all_decimal_digits(frac)) by {
        assert forall|i: int| 0 <= i < frac.len() implies #[trigger] is_decimal_digit(frac[i]) by {
            assert(frac[i] == padded[i]);
        }
    }
    assert(whole * d + r == amount) by (nonlinear_arith)
        requires
            whole == amount as nat / d,
            r == amount as nat % d,
            d >= 1,
    ;
}

} // verus!
