//! Decimal rendering of integers and of fixed-point quantities.
//!
//! Register values are integers in small units (watts, tenths of a degree,
//! hundredths of a percent); reports show them in larger units, so a value
//! `x` with scale `k` stands for the quantity `x / 10^k`.
use vstd::prelude::*;

verus! {

/// The character of a decimal digit.
pub open spec fn digit_char(d: nat) -> char {
    if d == 0 { '0' }
    else if d == 1 { '1' }
    else if d == 2 { '2' }
    else if d == 3 { '3' }
    else if d == 4 { '4' }
    else if d == 5 { '5' }
    else if d == 6 { '6' }
    else if d == 7 { '7' }
    else if d == 8 { '8' }
    else { '9' }
}

/// The digit that a character stands for (the inverse of `digit_char`).
pub open spec fn digit_value(c: char) -> nat {
    if c == '1' { 1 }
    else if c == '2' { 2 }
    else if c == '3' { 3 }
    else if c == '4' { 4 }
    else if c == '5' { 5 }
    else if c == '6' { 6 }
    else if c == '7' { 7 }
    else if c == '8' { 8 }
    else if c == '9' { 9 }
    else { 0 }
}

pub open spec fn is_digit(c: char) -> bool {
    '0' <= c <= '9'
}

/// `n` written in decimal, without leading zeros ("0" for zero).
pub open spec fn decimal(n: nat) -> Seq<char>
    decreases n,
{
    if n < 10 {
        seq![digit_char(n)]
    } else {
        decimal(n / 10).push(digit_char(n % 10))
    }
}

/// The number that a sequence of decimal digits denotes.
pub open spec fn digits_value(s: Seq<char>) -> nat
    decreases s.len(),
{
    if s.len() == 0 {
        0
    } else {
        digits_value(s.drop_last()) * 10 + digit_value(s.last())
    }
}

pub open spec fn pow10(k: nat) -> nat
    decreases k,
{
    if k == 0 { 1 } else { 10 * pow10((k - 1) as nat) }
}

/// The `k` lowest decimal digits of `r`, zero-padded on the left.
pub open spec fn frac_digits(r: nat, k: nat) -> Seq<char>
    decreases k,
{
    if k == 0 {
        seq![]
    } else {
        frac_digits(r / 10, (k - 1) as nat).push(digit_char(r % 10))
    }
}

/// `s` without the zeros at its end.
pub open spec fn strip_trailing_zeros(s: Seq<char>) -> Seq<char>
    decreases s.len(),
{
    if s.len() > 0 && s.last() == '0' {
        strip_trailing_zeros(s.drop_last())
    } else {
        s
    }
}

pub open spec fn magnitude(x: int) -> nat {
    if x < 0 { (-x) as nat } else { x as nat }
}

pub open spec fn sign_prefix(x: int) -> Seq<char> {
    if x < 0 { seq!['-'] } else { seq![] }
}

/// `x / 10^k` with exactly `k` digits after the decimal point.
pub open spec fn fixed_point(x: int, k: nat) -> Seq<char> {
    sign_prefix(x) + decimal(magnitude(x) / pow10(k)) + seq!['.'] + frac_digits(
        magnitude(x) % pow10(k),
        k,
    )
}

/// `x / 10^k` with as few digits after the decimal point as it needs:
/// trailing zeros are dropped, and the point too when nothing follows it.
pub open spec fn plain_decimal(x: int, k: nat) -> Seq<char> {
    let f = strip_trailing_zeros(frac_digits(magnitude(x) % pow10(k), k));
    sign_prefix(x) + decimal(magnitude(x) / pow10(k)) + if f.len() == 0 {
        Seq::<char>::empty()
    } else {
        seq!['.'] + f
    }
}

fn digit_str(d: u128) -> (s: &'static str)
    requires
        d < 10,
    ensures
        s@ == seq![digit_char(d as nat)],
{
    if d == 0 {
        proof { reveal_strlit("0"); }
        "0"
    } else if d == 1 {
        proof { reveal_strlit("1"); }
        "1"
    } else if d == 2 {
        proof { reveal_strlit("2"); }
        "2"
    } else if d == 3 {
        proof { reveal_strlit("3"); }
        "3"
    } else if d == 4 {
        proof { reveal_strlit("4"); }
        "4"
    } else if d == 5 {
        proof { reveal_strlit("5"); }
        "5"
    } else if d == 6 {
        proof { reveal_strlit("6"); }
        "6"
    } else if d == 7 {
        proof { reveal_strlit("7"); }
        "7"
    } else if d == 8 {
        proof { reveal_strlit("8"); }
        "8"
    } else {
        proof { reveal_strlit("9"); }
        "9"
    }
}

/// Appends `n` in decimal.
pub fn push_decimal(out: &mut String, n: u128)
    ensures
        final(out)@ == old(out)@ + decimal(n as nat),
    decreases n,
{
    if n >= 10 {
        push_decimal(out, n / 10);
    }
    out.append(digit_str(n % 10));
    proof {
        if n >= 10 {
            assert(old(out)@ + decimal(n as nat) =~= old(out)@ + decimal((n / 10) as nat) + seq![
                digit_char((n % 10) as nat),
            ]);
        } else {
            assert(old(out)@ + decimal(n as nat) =~= old(out)@ + seq![digit_char((n % 10) as nat)]);
        }
    }
}

/// Appends the `k` lowest decimal digits of `r`.
fn push_frac_digits(out: &mut String, r: u64, k: u32)
    ensures
        final(out)@ == old(out)@ + frac_digits(r as nat, k as nat),
    decreases k,
{
    if k > 0 {
        push_frac_digits(out, r / 10, k - 1);
        out.append(digit_str((r % 10) as u128));
        assert(old(out)@ + frac_digits(r as nat, k as nat) =~= old(out)@ + frac_digits(
            (r / 10) as nat,
            (k - 1) as nat,
        ) + seq![digit_char((r % 10) as nat)]);
    } else {
        assert(old(out)@ + frac_digits(r as nat, k as nat) =~= old(out)@);
    }
}

proof fn lemma_pow10_monotonic(a: nat, b: nat)
    requires
        a <= b,
    ensures
        pow10(a) <= pow10(b),
    decreases b,
{
    if a < b {
        lemma_pow10_monotonic(a, (b - 1) as nat);
        lemma_pow10_positive((b - 1) as nat);
    }
}

fn pow10_u64(k: u32) -> (p: u64)
    requires
        k <= 19,
    ensures
        p == pow10(k as nat),
        p >= 1,
{
    let mut p: u64 = 1;
    let mut i: u32 = 0;
    proof {
        reveal_with_fuel(pow10, 20);
        assert(pow10(19) == 10_000_000_000_000_000_000);
    }
    while i < k
        invariant
            i <= k <= 19,
            p == pow10(i as nat),
            pow10(19) == 10_000_000_000_000_000_000,
        decreases k - i,
    {
        proof {
            lemma_pow10_monotonic((i + 1) as nat, 19);
            assert(pow10((i + 1) as nat) == 10 * pow10(i as nat));
        }
        p = p * 10;
        i = i + 1;
    }
    proof {
        lemma_pow10_positive(k as nat);
    }
    p
}

fn magnitude_u64(x: i64) -> (m: u64)
    ensures
        m == magnitude(x as int),
{
    if x < 0 {
        let w: i128 = -(x as i128);
        w as u64
    } else {
        x as u64
    }
}

fn push_sign(out: &mut String, x: i64)
    ensures
        final(out)@ == old(out)@ + sign_prefix(x as int),
{
    if x < 0 {
        proof { reveal_strlit("-"); }
        out.append("-");
    } else {
        assert(old(out)@ + sign_prefix(x as int) =~= old(out)@);
    }
}

/// Appends `x / 10^k` with exactly `k` fractional digits.
pub fn push_fixed_point(out: &mut String, x: i64, k: u32)
    requires
        1 <= k <= 19,
    ensures
        final(out)@ == old(out)@ + fixed_point(x as int, k as nat),
{
    let m = magnitude_u64(x);
    let p = pow10_u64(k);
    push_sign(out, x);
    push_decimal(out, (m / p) as u128);
    proof { reveal_strlit("."); }
    out.append(".");
    push_frac_digits(out, m % p, k);
    assert(final(out)@ =~= old(out)@ + fixed_point(x as int, k as nat));
}

proof fn lemma_frac_digits_zero_tail(r: nat, k: nat)
    requires
        k > 0,
        r % 10 == 0,
    ensures
        strip_trailing_zeros(frac_digits(r, k)) == strip_trailing_zeros(
            frac_digits(r / 10, (k - 1) as nat),
        ),
{
    let s = frac_digits(r, k);
    assert(s.drop_last() =~= frac_digits(r / 10, (k - 1) as nat));
    assert(s.last() == '0');
}

proof fn lemma_frac_digits_last(r: nat, k: nat)
    requires
        k > 0,
        r % 10 != 0,
    ensures
        frac_digits(r, k).len() > 0,
        frac_digits(r, k).last() != '0',
{
}

proof fn lemma_frac_digits_len(r: nat, k: nat)
    ensures
        frac_digits(r, k).len() == k,
    decreases k,
{
    if k > 0 {
        lemma_frac_digits_len(r / 10, (k - 1) as nat);
    }
}

/// Appends `x / 10^k` without superfluous fractional zeros.
pub fn push_plain_decimal(out: &mut String, x: i64, k: u32)
    requires
        k <= 19,
    ensures
        final(out)@ == old(out)@ + plain_decimal(x as int, k as nat),
{
    let m = magnitude_u64(x);
    let p = pow10_u64(k);
    push_sign(out, x);
    push_decimal(out, (m / p) as u128);
    let mut r: u64 = m % p;
    let mut j: u32 = k;
    while j > 0 && r % 10 == 0
        invariant
            j <= k,
            strip_trailing_zeros(frac_digits(r as nat, j as nat)) == strip_trailing_zeros(
                frac_digits((m % p) as nat, k as nat),
            ),
        decreases j,
    {
        proof {
            lemma_frac_digits_zero_tail(r as nat, j as nat);
        }
        r = r / 10;
        j = j - 1;
    }
    proof {
        if j > 0 {
            lemma_frac_digits_last(r as nat, j as nat);
        }
        lemma_frac_digits_len(r as nat, j as nat);
        assert(strip_trailing_zeros(frac_digits(r as nat, j as nat)) == frac_digits(
            r as nat,
            j as nat,
        ));
    }
    if j > 0 {
        proof { reveal_strlit("."); }
        out.append(".");
        push_frac_digits(out, r, j);
    }
    assert(final(out)@ =~= old(out)@ + plain_decimal(x as int, k as nat));
}

proof fn lemma_digit_roundtrip(d: nat)
    requires
        d < 10,
    ensures
        digit_value(digit_char(d)) == d,
        is_digit(digit_char(d)),
{
}

/// Law: a decimal rendering consists of digits only, and reading those
/// digits back gives the number that was written.
pub proof fn lemma_decimal_roundtrip(n: nat)
    ensures
        digits_value(decimal(n)) == n,
        forall|i: int| 0 <= i < decimal(n).len() ==> is_digit(#[trigger] decimal(n)[i]),
        decimal(n).len() > 0,
    decreases n,
{
    if n < 10 {
        lemma_digit_roundtrip(n);
        assert(decimal(n).drop_last() =~= Seq::<char>::empty());
        assert(digits_value(Seq::<char>::empty()) == 0);
        assert(digits_value(decimal(n)) == digit_value(digit_char(n)));
    } else {
        lemma_decimal_roundtrip(n / 10);
        lemma_digit_roundtrip(n % 10);
        assert(decimal(n).drop_last() =~= decimal(n / 10));
        assert(decimal(n).last() == digit_char(n % 10));
        assert(digits_value(decimal(n)) == (n / 10) * 10 + n % 10);
        assert forall|i: int| 0 <= i < decimal(n).len() implies is_digit(#[trigger] decimal(n)[i]) by {
            if i < decimal(n / 10).len() {
                assert(decimal(n)[i] == decimal(n / 10)[i]);
            }
        }
    }
}

/// The `k` fractional digits read back as the remainder of `r` by `10^k`.
pub proof fn lemma_frac_digits_roundtrip(r: nat, k: nat)
    ensures
        digits_value(frac_digits(r, k)) == r % pow10(k),
        frac_digits(r, k).len() == k,
    decreases k,
{
    if k == 0 {
        assert(r % 1 == 0);
    } else {
        lemma_frac_digits_roundtrip(r / 10, (k - 1) as nat);
        lemma_digit_roundtrip(r % 10);
        let s = frac_digits(r, k);
        assert(s.drop_last() =~= frac_digits(r / 10, (k - 1) as nat));
        let p = pow10((k - 1) as nat);
        assert(p > 0) by {
            lemma_pow10_positive((k - 1) as nat);
        }
        assert((r / 10) % p * 10 + r % 10 == r % (10 * p)) by (nonlinear_arith)
            requires
                p > 0,
        {
            vstd::arithmetic::div_mod::lemma_breakdown(r as int, 10, p as int);
        }
    }
}

/// Law: the fixed-point rendering of `x / 10^k` loses nothing: it is the
/// sign, the integer digits, a point and exactly `k` fractional digits, and
/// the digits read back as `|x|`.
pub proof fn lemma_fixed_point_value(x: int, k: nat)
    ensures
        fixed_point(x, k) == sign_prefix(x) + decimal(magnitude(x) / pow10(k)) + seq!['.']
            + frac_digits(magnitude(x) % pow10(k), k),
        frac_digits(magnitude(x) % pow10(k), k).len() == k,
        digits_value(decimal(magnitude(x) / pow10(k))) * pow10(k) + digits_value(
            frac_digits(magnitude(x) % pow10(k), k),
        ) == magnitude(x),
{
    let m = magnitude(x);
    let p = pow10(k);
    lemma_pow10_positive(k);
    lemma_decimal_roundtrip(m / p);
    lemma_frac_digits_roundtrip(m % p, k);
    assert((m % p) % p == m % p) by {
        vstd::arithmetic::div_mod::lemma_mod_twice(m as int, p as int);
    }
    assert((m / p) * p + m % p == m) by {
        vstd::arithmetic::div_mod::lemma_fundamental_div_mod(m as int, p as int);
    }
}

pub proof fn lemma_pow10_positive(k: nat)
    ensures
        pow10(k) > 0,
    decreases k,
{
    if k > 0 {
        lemma_pow10_positive((k - 1) as nat);
    }
}

/// Whether every character of `s` is a decimal digit.
pub open spec fn all_digits(s: Seq<char>) -> bool {
    forall|i: int| 0 <= i < s.len() ==> is_digit(#[trigger] s[i])
}

/// Whether a run of digits has no superfluous leading zero.
pub open spec fn no_leading_zero(s: Seq<char>) -> bool {
    s.len() == 1 || (s.len() > 1 && s[0] != '0')
}

/// A number's text without its minus sign, if any.
pub open spec fn unsigned_part(f: Seq<char>) -> Seq<char> {
    if f.len() > 0 && f[0] == '-' {
        f.drop_first()
    } else {
        f
    }
}

/// Whether the text `f` shows `x / 10^k` with exactly `k` fractional
/// digits: a minus sign exactly when `x` is negative, integer digits with no
/// superfluous leading zero, a point, `k` digits, and the digits, read as
/// one number, equal to `|x|`.
pub open spec fn reads_as_fixed(f: Seq<char>, x: int, k: nat) -> bool {
    let b = unsigned_part(f);
    let n = b.len();
    &&& f.len() > 0
    &&& (f[0] == '-') == (x < 0)
    &&& n >= k + 2
    &&& b[n - k - 1] == '.'
    &&& all_digits(b.take(n - k - 1))
    &&& no_leading_zero(b.take(n - k - 1))
    &&& all_digits(b.skip(n - k))
    &&& digits_value(b.take(n - k - 1)) * pow10(k) + digits_value(b.skip(n - k)) == magnitude(x)
}

/// Whether `b`, an unsigned number's text, shows `|x| / 10^k` with `j`
/// fractional digits, the last of which is no zero (and no point when `j`
/// is zero).
pub open spec fn plain_shape(b: Seq<char>, x: int, k: nat, j: nat) -> bool {
    let n = b.len();
    &&& j <= k
    &&& if j == 0 {
        &&& all_digits(b)
        &&& no_leading_zero(b)
        &&& digits_value(b) * pow10(k) == magnitude(x)
    } else {
        &&& n >= j + 2
        &&& b[n - j - 1] == '.'
        &&& all_digits(b.take(n - j - 1))
        &&& no_leading_zero(b.take(n - j - 1))
        &&& all_digits(b.skip(n - j))
        &&& b[n - 1] != '0'
        &&& (digits_value(b.take(n - j - 1)) * pow10(j) + digits_value(b.skip(n - j))) * pow10(
            (k - j) as nat,
        ) == magnitude(x)
    }
}

/// Whether the text `f` shows `x / 10^k` with as few fractional digits as
/// it needs: a minus sign exactly when `x` is negative, and no trailing
/// fractional zero.
pub open spec fn reads_as_plain(f: Seq<char>, x: int, k: nat) -> bool {
    &&& f.len() > 0
    &&& (f[0] == '-') == (x < 0)
    &&& exists|j: nat| #[trigger] plain_shape(unsigned_part(f), x, k, j)
}

proof fn lemma_decimal_no_leading_zero(n: nat)
    ensures
        no_leading_zero(decimal(n)),
        decimal(n)[0] != '-',
    decreases n,
{
    if n >= 10 {
        lemma_decimal_no_leading_zero(n / 10);
        lemma_decimal_roundtrip(n / 10);
        assert(decimal(n) == decimal(n / 10).push(digit_char(n % 10)));
        assert(decimal(n).len() == decimal(n / 10).len() + 1);
        assert(decimal(n)[0] == decimal(n / 10)[0]);
        if n / 10 < 10 {
            assert(decimal(n / 10) == seq![digit_char(n / 10)]);
            assert(n / 10 >= 1);
            assert(digit_char(n / 10) != '0');
        } else {
            lemma_decimal_roundtrip(n / 100);
            assert(decimal(n / 10) == decimal(n / 10 / 10).push(digit_char((n / 10) % 10)));
            assert(decimal(n / 10).len() > 1);
        }
    }
}

proof fn lemma_pow10_add(a: nat, b: nat)
    ensures
        pow10(a + b) == pow10(a) * pow10(b),
    decreases a,
{
    if a == 0 {
        assert(pow10(0) == 1);
        assert(a + b == b);
    } else {
        lemma_pow10_add((a - 1) as nat, b);
        assert(pow10(a + b) == 10 * pow10((a - 1 + b) as nat));
        assert(pow10(a) == 10 * pow10((a - 1) as nat));
        vstd::arithmetic::mul::lemma_mul_is_associative(10, pow10((a - 1) as nat) as int, pow10(b) as int);
    }
}

/// Dropping the trailing zeros of `k` digits of `r` leaves `j` digits of a
/// number `t` with `t * 10^(k-j) == r`.
proof fn lemma_strip_frac(r: nat, k: nat) -> (res: (nat, nat))
    requires
        r < pow10(k),
    ensures
        res.1 <= k,
        strip_trailing_zeros(frac_digits(r, k)) == frac_digits(res.0, res.1),
        res.0 * pow10((k - res.1) as nat) == r,
        res.0 < pow10(res.1),
        res.1 > 0 ==> res.0 % 10 != 0,
        res.1 == 0 ==> r == 0,
    decreases k,
{
    if k > 0 && r % 10 == 0 {
        assert(r / 10 < pow10((k - 1) as nat)) by {
            assert(pow10(k) == 10 * pow10((k - 1) as nat));
        }
        let (t, j) = lemma_strip_frac(r / 10, (k - 1) as nat);
        lemma_frac_digits_zero_tail(r, k);
        assert(pow10((k - j) as nat) == 10 * pow10((k - 1 - j) as nat));
        let q = pow10((k - 1 - j) as nat);
        assert(r == 10 * (r / 10));
        assert(t * pow10((k - j) as nat) == r) by (nonlinear_arith)
            requires
                pow10((k - j) as nat) == 10 * q,
                t * q == r / 10,
                r == 10 * (r / 10),
        ;
        (t, j)
    } else {
        if k > 0 {
            lemma_frac_digits_last(r, k);
        } else {
            assert(r < 1);
            assert(frac_digits(r, k) =~= Seq::<char>::empty());
        }
        assert(pow10(0) == 1);
        assert((k - k) as nat == 0);
        assert(r * pow10((k - k) as nat) == r);
        (r, k)
    }
}

/// Law: the fixed-point text of `x / 10^k` shows exactly that value: its
/// sign, its digits and the place of its point.
pub proof fn lemma_fixed_point_reads_back(x: int, k: nat)
    ensures
        reads_as_fixed(fixed_point(x, k), x, k),
{
    let m = magnitude(x);
    let p = pow10(k);
    lemma_fixed_point_value(x, k);
    lemma_decimal_no_leading_zero(m / p);
    lemma_decimal_roundtrip(m / p);
    lemma_frac_digits_roundtrip(m % p, k);
    let d = decimal(m / p);
    let fr = frac_digits(m % p, k);
    let f = fixed_point(x, k);
    let b = d + seq!['.'] + fr;
    assert(unsigned_part(f) =~= b) by {
        if x < 0 {
            assert(f =~= seq!['-'] + b);
        } else {
            assert(f =~= b);
        }
    }
    assert(b.take(b.len() - k - 1) =~= d);
    assert(b.skip(b.len() - k) =~= fr);
    assert forall|i: int| 0 <= i < fr.len() implies is_digit(#[trigger] fr[i]) by {
        lemma_frac_digits_digits(m % p, k, i);
    }
    assert(f[0] == '-' <==> x < 0) by {
        if x >= 0 {
            assert(f[0] == d[0]);
        }
    }
}

proof fn lemma_frac_digits_digits(r: nat, k: nat, i: int)
    requires
        0 <= i < frac_digits(r, k).len(),
    ensures
        is_digit(frac_digits(r, k)[i]),
    decreases k,
{
    lemma_frac_digits_len(r, k);
    if k > 0 {
        lemma_frac_digits_len(r / 10, (k - 1) as nat);
        if i < k - 1 {
            lemma_frac_digits_digits(r / 10, (k - 1) as nat, i);
        } else {
            lemma_digit_roundtrip(r % 10);
        }
    }
}

/// Law: the plain text of `x / 10^k` shows exactly that value: its sign,
/// its digits and the place of its point, with no trailing fractional zero.
pub proof fn lemma_plain_decimal_reads_back(x: int, k: nat)
    ensures
        reads_as_plain(plain_decimal(x, k), x, k),
{
    let m = magnitude(x);
    let p = pow10(k);
    lemma_pow10_positive(k);
    assert(m % p < p) by {
        vstd::arithmetic::div_mod::lemma_mod_bound(m as int, p as int);
    }
    let (t, j) = lemma_strip_frac(m % p, k);
    let d = decimal(m / p);
    let fr = frac_digits(t, j);
    lemma_decimal_no_leading_zero(m / p);
    lemma_decimal_roundtrip(m / p);
    lemma_frac_digits_roundtrip(t, j);
    lemma_pow10_positive(j);
    assert(t % pow10(j) == t) by {
        vstd::arithmetic::div_mod::lemma_small_mod(t, pow10(j));
    }
    lemma_pow10_add(j, (k - j) as nat);
    assert((j + (k - j)) as nat == k);
    assert((m / p) * p + m % p == m) by {
        vstd::arithmetic::div_mod::lemma_fundamental_div_mod(m as int, p as int);
    }
    assert(((m / p) * pow10(j) + t) * pow10((k - j) as nat) == (m / p) * p + t * pow10(
        (k - j) as nat,
    )) by (nonlinear_arith)
        requires
            p == pow10(j) * pow10((k - j) as nat),
    ;
    let f = plain_decimal(x, k);
    let b = if j == 0 { d } else { d + seq!['.'] + fr };
    assert(unsigned_part(f) =~= b) by {
        if j == 0 {
            assert(fr.len() == 0);
        }
        if x < 0 {
            assert(f =~= seq!['-'] + b);
        } else {
            assert(f =~= b);
        }
    }
    assert forall|i: int| 0 <= i < fr.len() implies is_digit(#[trigger] fr[i]) by {
        lemma_frac_digits_digits(t, j, i);
    }
    if j == 0 {
        assert(t == 0);
        assert(digits_value(fr) == 0);
    } else {
        assert(b.take(b.len() - j - 1) =~= d);
        assert(b.skip(b.len() - j) =~= fr);
        lemma_frac_digits_last(t, j);
        assert(b[b.len() - 1] == fr.last());
    }
    assert(plain_shape(unsigned_part(f), x, k, j));
    assert(f[0] == '-' <==> x < 0) by {
        if x >= 0 {
            assert(f[0] == d[0]);
        }
    }
}

} // verus!
