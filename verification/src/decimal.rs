//! Decimal text of fixed-point numbers.
//!
//! A fixed-point number is an `i64` count of units, [`SCALE`] of which make
//! one whole. Its text is the whole part, then, where the rest is not zero, a
//! point and the digits of the rest without trailing zeros.

use vstd::prelude::*;
use vstd::string::StringExecFns;

verus! {

/// Units in one whole.
pub const SCALE: u64 = 1_000_000_000_000;

/// Decimal places that a fixed-point number holds.
pub const PLACES: u32 = 12;

/// Ten to the power `n`.
pub open spec fn pow10(n: nat) -> nat
    decreases n,
{
    if n == 0 {
        1
    } else {
        10 * pow10((n - 1) as nat)
    }
}

/// The character that stands for the digit `d`.
pub open spec fn digit_char(d: int) -> char {
    if d == 0 {
        '0'
    } else if d == 1 {
        '1'
    } else if d == 2 {
        '2'
    } else if d == 3 {
        '3'
    } else if d == 4 {
        '4'
    } else if d == 5 {
        '5'
    } else if d == 6 {
        '6'
    } else if d == 7 {
        '7'
    } else if d == 8 {
        '8'
    } else {
        '9'
    }
}

/// The decimal digits of `n`, most significant first, without leading zeros
/// (`0` for zero).
pub open spec fn digits_of(n: nat) -> Seq<char>
    decreases n,
{
    if n < 10 {
        seq![digit_char(n as int)]
    } else {
        digits_of(n / 10).push(digit_char((n % 10) as int))
    }
}

/// The digits of `frac / 10^width` behind the point, without trailing zeros:
/// empty for zero.
pub open spec fn fraction_digits(frac: nat, width: nat) -> Seq<char>
    decreases width,
{
    if frac == 0 || width == 0 {
        Seq::empty()
    } else {
        seq![digit_char((frac / pow10((width - 1) as nat)) as int)] + fraction_digits(
            frac % pow10((width - 1) as nat),
            (width - 1) as nat,
        )
    }
}

/// The text of the magnitude `m`, in units.
pub open spec fn magnitude_text(m: nat) -> Seq<char> {
    if m % (SCALE as nat) == 0 {
        digits_of(m / (SCALE as nat))
    } else {
        digits_of(m / (SCALE as nat)) + seq!['.'] + fraction_digits(
            m % (SCALE as nat),
            PLACES as nat,
        )
    }
}

/// The text of the fixed-point number `value`.
pub open spec fn decimal_text(value: int) -> Seq<char> {
    if value < 0 {
        seq!['-'] + magnitude_text((-value) as nat)
    } else {
        magnitude_text(value as nat)
    }
}

/// The text of the whole number `value`.
pub open spec fn integer_text(value: int) -> Seq<char> {
    if value < 0 {
        seq!['-'] + digits_of((-value) as nat)
    } else {
        digits_of(value as nat)
    }
}

/// Ten to the power `n`, for the powers that a fraction needs.
pub fn power_of_ten(n: u32) -> (p: u64)
    requires
        n <= PLACES,
    ensures
        p == pow10(n as nat),
{
    let mut p: u64 = 1;
    let mut i: u32 = 0;
    while i < n
        invariant
            i <= n <= PLACES,
            p == pow10(i as nat),
            p <= 1_000_000_000_000,
        decreases n - i,
    {
        proof {
            lemma_pow10_bound(i as nat);
            lemma_pow10_bound((i + 1) as nat);
        }
        p = p * 10;
        i = i + 1;
    }
    p
}

/// The powers of ten up to the twelfth lie within 10^12.
pub proof fn lemma_pow10_bound(n: nat)
    requires
        n <= 12,
    ensures
        1 <= pow10(n) <= 1_000_000_000_000,
        n < 12 ==> pow10(n) <= 100_000_000_000,
{
    reveal_with_fuel(pow10, 14);
}

/// The digit `d` as a character.
pub fn digit_to_char(d: u64) -> (c: char)
    requires
        d < 10,
    ensures
        c == digit_char(d as int),
{
    if d == 0 {
        '0'
    } else if d == 1 {
        '1'
    } else if d == 2 {
        '2'
    } else if d == 3 {
        '3'
    } else if d == 4 {
        '4'
    } else if d == 5 {
        '5'
    } else if d == 6 {
        '6'
    } else if d == 7 {
        '7'
    } else if d == 8 {
        '8'
    } else {
        '9'
    }
}

/// Appends the decimal digits of `n` to `text`.
pub fn push_digits(text: &mut String, n: u64)
    ensures
        final(text)@ == old(text)@ + digits_of(n as nat),
    decreases n,
{
    if n >= 10 {
        push_digits(text, n / 10);
    }
    text.push(digit_to_char(n % 10));
}

/// Appends the digits of `frac / 10^width` behind the point to `text`.
pub fn push_fraction(text: &mut String, frac: u64, width: u32)
    requires
        width <= PLACES,
        frac < pow10(width as nat),
    ensures
        final(text)@ == old(text)@ + fraction_digits(frac as nat, width as nat),
    decreases width,
{
    if frac != 0 && width != 0 {
        let unit: u64 = power_of_ten(width - 1);
        proof {
            lemma_pow10_bound((width - 1) as nat);
            assert(frac / unit < 10) by (nonlinear_arith)
                requires
                    frac < 10 * unit,
                    unit > 0,
            ;
            assert(frac % unit < unit) by (nonlinear_arith)
                requires
                    unit > 0,
            ;
        }
        text.push(digit_to_char(frac / unit));
        push_fraction(text, frac % unit, width - 1);
    }
}

/// The magnitude of `value`.
pub fn magnitude(value: i64) -> (m: u64)
    ensures
        m == if value < 0 {
            -(value as int)
        } else {
            value as int
        },
{
    if value < 0 {
        ((-(value + 1)) as u64) + 1
    } else {
        value as u64
    }
}

/// The text of the whole number `value`.
pub fn format_integer(value: i64) -> (text: String)
    ensures
        text@ == integer_text(value as int),
{
    let mut text = String::new();
    if value < 0 {
        text.push('-');
    }
    push_digits(&mut text, magnitude(value));
    text
}

/// The text of the fixed-point number `value`.
pub fn format_decimal(value: i64) -> (text: String)
    ensures
        text@ == decimal_text(value as int),
{
    let mut text = String::new();
    if value < 0 {
        text.push('-');
    }
    let m: u64 = magnitude(value);
    push_digits(&mut text, m / SCALE);
    let frac: u64 = m % SCALE;
    if frac != 0 {
        text.push('.');
        proof {
            lemma_pow10_bound(12);
            reveal_with_fuel(pow10, 14);
        }
        push_fraction(&mut text, frac, PLACES);
    }
    text
}

/// Whether `c` is one of the ten digits.
pub open spec fn is_digit(c: char) -> bool {
    '0' <= c <= '9'
}

/// The number that the digit `c` stands for.
pub open spec fn digit_value(c: char) -> nat {
    (c as int - '0' as int) as nat
}

/// Whether `s` holds digits only.
pub open spec fn all_digits(s: Seq<char>) -> bool {
    forall|i: int| 0 <= i < s.len() ==> is_digit(#[trigger] s[i])
}

/// The number that the digits of `s` write; 0 for none.
pub open spec fn digits_value(s: Seq<char>) -> nat
    decreases s.len(),
{
    if s.len() == 0 {
        0
    } else {
        digits_value(s.drop_last()) * 10 + digit_value(s.last())
    }
}

/// Whether the text begins with a sign.
pub open spec fn has_sign(s: Seq<char>) -> bool {
    s.len() > 0 && (s[0] == '-' || s[0] == '+')
}

/// The text behind the sign, if there is one.
pub open spec fn unsigned_part(s: Seq<char>) -> Seq<char> {
    if has_sign(s) {
        s.subrange(1, s.len() as int)
    } else {
        s
    }
}

/// Where the first point stands in `s`: the length of `s` if it has none.
pub open spec fn point_position(s: Seq<char>) -> int
    decreases s.len(),
{
    if s.len() == 0 || s[0] == '.' {
        0
    } else {
        1 + point_position(s.drop_first())
    }
}

/// What stands before the first point.
pub open spec fn whole_part(s: Seq<char>) -> Seq<char> {
    s.subrange(0, point_position(s))
}

/// What stands behind the first point: nothing where there is no point.
pub open spec fn fraction_part(s: Seq<char>) -> Seq<char> {
    if point_position(s) < s.len() {
        s.subrange(point_position(s) + 1, s.len() as int)
    } else {
        Seq::empty()
    }
}

/// Whether `s` writes a number without a sign: digits with at most one
/// point among them, one digit at least.
pub open spec fn is_number(s: Seq<char>) -> bool {
    &&& all_digits(whole_part(s))
    &&& all_digits(fraction_part(s))
    &&& whole_part(s).len() + fraction_part(s).len() >= 1
}

/// The units that the digits behind the point stand for: the digits beyond
/// the twelfth are dropped.
pub open spec fn fraction_units(fraction: Seq<char>) -> nat {
    if fraction.len() >= PLACES {
        digits_value(fraction.subrange(0, PLACES as int))
    } else {
        digits_value(fraction) * pow10((PLACES - fraction.len()) as nat)
    }
}

/// The units that the number `s` without a sign stands for.
pub open spec fn number_units(s: Seq<char>) -> nat {
    digits_value(whole_part(s)) * (SCALE as nat) + fraction_units(fraction_part(s))
}

/// Whether a digit other than zero stands among the digits of `fraction`
/// from the thirteenth up to the `n`-th.
pub open spec fn drops_before(fraction: Seq<char>, n: int) -> bool
    decreases n,
{
    if n <= PLACES {
        false
    } else {
        drops_before(fraction, n - 1) || fraction[n - 1] != '0'
    }
}

/// Whether reading `s` drops something that counts: a digit other than zero
/// beyond the twelfth decimal place.
pub open spec fn spec_drops_digits(s: Seq<char>) -> bool {
    let fraction = fraction_part(unsigned_part(s));
    drops_before(fraction, fraction.len() as int)
}

/// The fixed-point number that `s` writes, if it writes one that an `i64`
/// holds: an optional sign, then digits with at most one point among them
/// and one digit at least. What lies beyond the twelfth decimal place is
/// dropped.
pub open spec fn spec_parse_decimal(s: Seq<char>) -> Option<int> {
    let body = unsigned_part(s);
    if is_number(body) && number_units(body) <= i64::MAX {
        if has_sign(s) && s[0] == '-' {
            Some(-(number_units(body) as int))
        } else {
            Some(number_units(body) as int)
        }
    } else {
        None
    }
}

/// The first point of `s` stands at `k` if no point stands before `k` and
/// `s` ends or has a point there.
pub proof fn lemma_point_position(s: Seq<char>, k: int)
    requires
        0 <= k <= s.len(),
        forall|j: int| 0 <= j < k ==> s[j] != '.',
        k == s.len() || s[k] == '.',
    ensures
        point_position(s) == k,
    decreases k,
{
    if k > 0 {
        let rest = s.drop_first();
        assert forall|j: int| 0 <= j < k - 1 implies rest[j] != '.' by {
            assert(rest[j] == s[j + 1]);
        }
        lemma_point_position(rest, k - 1);
    }
}

/// One more digit multiplies the number by ten and adds the digit.
pub proof fn lemma_digits_value_step(s: Seq<char>, k: int)
    requires
        0 <= k < s.len(),
    ensures
        digits_value(s.subrange(0, k + 1)) == digits_value(s.subrange(0, k)) * 10 + digit_value(
            s[k],
        ),
{
    let longer = s.subrange(0, k + 1);
    assert(longer.drop_last() =~= s.subrange(0, k));
    assert(longer.last() == s[k]);
}

/// More digits do not write a smaller number.
pub proof fn lemma_digits_value_grows(s: Seq<char>, k: int)
    requires
        0 <= k <= s.len(),
    ensures
        digits_value(s.subrange(0, k)) <= digits_value(s),
    decreases s.len() - k,
{
    if k < s.len() {
        lemma_digits_value_step(s, k);
        lemma_digits_value_grows(s, k + 1);
    } else {
        assert(s.subrange(0, k) =~= s);
    }
}

/// The number that the digit `c` stands for.
pub fn digit_of(c: char) -> (d: u64)
    requires
        is_digit(c),
    ensures
        d == digit_value(c),
        d < 10,
{
    (c as u32 - '0' as u32) as u64
}

/// The largest whole part whose units an `i64` can hold.
pub const MAX_WHOLE: u64 = 9_223_372;

/// Reads a fixed-point number from its decimal text: an optional sign, then
/// digits with at most one point among them and one digit at least. What
/// lies beyond the twelfth decimal place is dropped. `None` for any other
/// text and for a number that an `i64` cannot hold.
pub fn parse_decimal(text: &str) -> (value: Option<i64>)
    ensures
        value is Some <==> spec_parse_decimal(text@) is Some,
        value is Some ==> value->0 == spec_parse_decimal(text@)->0,
{
    match read_decimal(text) {
        Some(reading) => Some(reading.value),
        None => None,
    }
}

/// A number as it was read from text.
#[derive(Clone, Copy, Debug, PartialEq, Eq, Structural)]
pub struct Reading {
    /// The number, to the twelfth decimal place.
    pub value: i64,
    /// Whether a digit other than zero was dropped: whether the text writes
    /// a number of larger magnitude than `value`.
    pub dropped: bool,
}

/// Reads a fixed-point number as `parse_decimal` does, and says with it
/// whether a digit other than zero was dropped.
pub fn read_decimal(text: &str) -> (read: Option<Reading>)
    ensures
        read is Some <==> spec_parse_decimal(text@) is Some,
        read is Some ==> read->0.value == spec_parse_decimal(text@)->0,
        read is Some ==> read->0.dropped == spec_drops_digits(text@),
{
    let chars = crate::text::chars_of(text);
    let n: usize = chars.len();
    let signed: bool = n > 0 && (chars[0] == '-' || chars[0] == '+');
    let negative: bool = n > 0 && chars[0] == '-';
    let start: usize = if signed {
        1
    } else {
        0
    };
    let ghost body = unsigned_part(text@);
    proof {
        assert(body =~= chars@.subrange(start as int, n as int));
    }
    // The digits before the point.
    let mut whole: u64 = 0;
    let mut i: usize = start;
    while i < n && chars[i] != '.'
        invariant
            start <= i <= n,
            n == chars.len(),
            body == unsigned_part(text@),
            body == chars@.subrange(start as int, n as int),
            forall|j: int| 0 <= j < i - start ==> body[j] != '.',
            all_digits(body.subrange(0, i - start)),
            whole == digits_value(body.subrange(0, i - start)),
            whole <= MAX_WHOLE,
        decreases n - i,
    {
        let c: char = chars[i];
        proof {
            assert(body[i - start] == c);
            lemma_digits_value_step(body, i - start);
        }
        if !('0' <= c && c <= '9') {
            proof {
                lemma_not_a_number(body, i - start);
            }
            return None;
        }
        let next: u64 = whole * 10 + digit_of(c);
        if next > MAX_WHOLE {
            proof {
                lemma_whole_too_large(body, i - start + 1);
            }
            return None;
        }
        proof {
            let longer = body.subrange(0, i - start + 1);
            assert forall|j: int| 0 <= j < longer.len() implies is_digit(#[trigger] longer[j]) by {
                if j < i - start {
                    assert(body.subrange(0, i - start)[j] == longer[j]);
                }
            }
        }
        whole = next;
        i = i + 1;
    }
    let point: usize = i;
    proof {
        lemma_point_position(body, point - start);
    }
    let ghost fraction = fraction_part(body);
    // The digits behind the point.
    let mut units: u64 = 0;
    let mut taken: u32 = 0;
    let mut count: usize = 0;
    let mut dropped: bool = false;
    if point < n {
        i = point + 1;
        proof {
            assert(fraction =~= chars@.subrange(point + 1, n as int));
        }
        while i < n
            invariant
                point + 1 <= i <= n,
                n == chars.len(),
                count == i - (point + 1),
                body == unsigned_part(text@),
                fraction == fraction_part(body),
                fraction == chars@.subrange(point + 1, n as int),
                all_digits(fraction.subrange(0, count as int)),
                taken == if count < PLACES {
                    count as int
                } else {
                    PLACES as int
                },
                units == digits_value(fraction.subrange(0, taken as int)),
                units < pow10(taken as nat),
                dropped == drops_before(fraction, count as int),
            decreases n - i,
        {
            let c: char = chars[i];
            proof {
                assert(fraction[count as int] == c);
            }
            if !('0' <= c && c <= '9') {
                proof {
                    assert(!is_digit(fraction[count as int]));
                }
                return None;
            }
            if taken < PLACES {
                proof {
                    lemma_digits_value_step(fraction, count as int);
                    lemma_pow10_bound(taken as nat);
                    lemma_pow10_bound((taken + 1) as nat);
                }
                units = units * 10 + digit_of(c);
                taken = taken + 1;
            } else if c != '0' {
                dropped = true;
            }
            proof {
                let longer = fraction.subrange(0, count + 1);
                assert forall|j: int| 0 <= j < longer.len() implies is_digit(
                    #[trigger] longer[j],
                ) by {
                    if j < count {
                        assert(fraction.subrange(0, count as int)[j] == longer[j]);
                    }
                }
            }
            count = count + 1;
            i = i + 1;
        }
        proof {
            assert(fraction.subrange(0, count as int) =~= fraction);
        }
    } else {
        proof {
            assert(fraction.subrange(0, 0) =~= fraction);
        }
    }
    proof {
        assert(whole_part(body) == body.subrange(0, point - start));
        assert(fraction.len() == count);
        assert(whole_part(body).len() == point - start);
    }
    if point - start + count == 0 {
        return None;
    }
    proof {
        lemma_pow10_bound(taken as nat);
        lemma_pow10_bound((PLACES - taken) as nat);
        lemma_pow10_product(taken as nat, (PLACES - taken) as nat);
        if count < PLACES {
            assert(fraction.subrange(0, taken as int) =~= fraction);
        }
    }
    let padding: u64 = power_of_ten(PLACES - taken);
    proof {
        assert(units * padding < SCALE) by (nonlinear_arith)
            requires
                units < pow10(taken as nat),
                padding == pow10((PLACES - taken) as nat),
                pow10(taken as nat) * pow10((PLACES - taken) as nat) == SCALE,
                padding > 0,
        ;
        assert(whole * SCALE <= MAX_WHOLE * SCALE) by (nonlinear_arith)
            requires
                whole <= MAX_WHOLE,
        ;
    }
    let magnitude: u64 = whole * SCALE + units * padding;
    proof {
        assert(whole == digits_value(whole_part(body)));
        assert(units * padding == fraction_units(fraction));
        assert(magnitude == number_units(body));
        assert(all_digits(whole_part(body)));
        assert(all_digits(fraction));
        assert(is_number(body));
    }
    if magnitude > i64::MAX as u64 {
        return None;
    }
    if negative {
        Some(Reading { value: -(magnitude as i64), dropped })
    } else {
        Some(Reading { value: magnitude as i64, dropped })
    }
}

/// A text with anything but a digit or a point before its first point is
/// no number.
pub proof fn lemma_not_a_number(s: Seq<char>, k: int)
    requires
        0 <= k < s.len(),
        forall|j: int| 0 <= j < k ==> s[j] != '.',
        s[k] != '.',
        !is_digit(s[k]),
    ensures
        !is_number(s),
    decreases k,
{
    lemma_point_beyond(s, k);
    assert(whole_part(s)[k] == s[k]);
}

/// The first point of `s` stands behind `k` if no point stands up to `k`.
pub proof fn lemma_point_beyond(s: Seq<char>, k: int)
    requires
        0 <= k < s.len(),
        forall|j: int| 0 <= j <= k ==> s[j] != '.',
    ensures
        k < point_position(s) <= s.len(),
    decreases k,
{
    let rest = s.drop_first();
    if k > 0 {
        assert forall|j: int| 0 <= j <= k - 1 implies rest[j] != '.' by {
            assert(rest[j] == s[j + 1]);
        }
        lemma_point_beyond(rest, k - 1);
    } else {
        lemma_point_within(rest);
    }
}

/// The first point stands within the text or at its end.
pub proof fn lemma_point_within(s: Seq<char>)
    ensures
        0 <= point_position(s) <= s.len(),
    decreases s.len(),
{
    if s.len() > 0 && s[0] != '.' {
        lemma_point_within(s.drop_first());
    }
}

/// A number whose first `k` digits, all before the point, already write
/// more than the largest whole part is too large for an `i64`.
pub proof fn lemma_whole_too_large(s: Seq<char>, k: int)
    requires
        0 < k <= s.len(),
        forall|j: int| 0 <= j < k ==> s[j] != '.',
        digits_value(s.subrange(0, k)) > MAX_WHOLE,
    ensures
        number_units(s) > i64::MAX,
{
    lemma_point_beyond(s, k - 1);
    let whole = whole_part(s);
    assert(whole.subrange(0, k) =~= s.subrange(0, k));
    lemma_digits_value_grows(whole, k);
    assert(digits_value(whole) * (SCALE as nat) >= (MAX_WHOLE + 1) * SCALE) by (nonlinear_arith)
        requires
            digits_value(whole) >= MAX_WHOLE + 1,
    ;
}

/// Powers of ten multiply as their exponents add, up to the twelfth.
pub proof fn lemma_pow10_product(a: nat, b: nat)
    requires
        a + b == 12,
    ensures
        pow10(a) * pow10(b) == 1_000_000_000_000,
{
    lemma_pow10_values();
    if a == 0 {
        assert(pow10(a) * pow10(b) == 1_000_000_000_000) by (nonlinear_arith)
            requires
                pow10(a) == 1,
                pow10(b) == 1000000000000,
        ;
    } else if a == 1 {
        assert(pow10(a) * pow10(b) == 1_000_000_000_000) by (nonlinear_arith)
            requires
                pow10(a) == 10,
                pow10(b) == 100000000000,
        ;
    } else if a == 2 {
        assert(pow10(a) * pow10(b) == 1_000_000_000_000) by (nonlinear_arith)
            requires
                pow10(a) == 100,
                pow10(b) == 10000000000,
        ;
    } else if a == 3 {
        assert(pow10(a) * pow10(b) == 1_000_000_000_000) by (nonlinear_arith)
            requires
                pow10(a) == 1000,
                pow10(b) == 1000000000,
        ;
    } else if a == 4 {
        assert(pow10(a) * pow10(b) == 1_000_000_000_000) by (nonlinear_arith)
            requires
                pow10(a) == 10000,
                pow10(b) == 100000000,
        ;
    } else if a == 5 {
        assert(pow10(a) * pow10(b) == 1_000_000_000_000) by (nonlinear_arith)
            requires
                pow10(a) == 100000,
                pow10(b) == 10000000,
        ;
    } else if a == 6 {
        assert(pow10(a) * pow10(b) == 1_000_000_000_000) by (nonlinear_arith)
            requires
                pow10(a) == 1000000,
                pow10(b) == 1000000,
        ;
    } else if a == 7 {
        assert(pow10(a) * pow10(b) == 1_000_000_000_000) by (nonlinear_arith)
            requires
                pow10(a) == 10000000,
                pow10(b) == 100000,
        ;
    } else if a == 8 {
        assert(pow10(a) * pow10(b) == 1_000_000_000_000) by (nonlinear_arith)
            requires
                pow10(a) == 100000000,
                pow10(b) == 10000,
        ;
    } else if a == 9 {
        assert(pow10(a) * pow10(b) == 1_000_000_000_000) by (nonlinear_arith)
            requires
                pow10(a) == 1000000000,
                pow10(b) == 1000,
        ;
    } else if a == 10 {
        assert(pow10(a) * pow10(b) == 1_000_000_000_000) by (nonlinear_arith)
            requires
                pow10(a) == 10000000000,
                pow10(b) == 100,
        ;
    } else if a == 11 {
        assert(pow10(a) * pow10(b) == 1_000_000_000_000) by (nonlinear_arith)
            requires
                pow10(a) == 100000000000,
                pow10(b) == 10,
        ;
    } else if a == 12 {
        assert(pow10(a) * pow10(b) == 1_000_000_000_000) by (nonlinear_arith)
            requires
                pow10(a) == 1000000000000,
                pow10(b) == 1,
        ;
    }
}

/// The powers of ten up to the twelfth.
pub proof fn lemma_pow10_values()
    ensures
        pow10(0) == 1,
        pow10(1) == 10,
        pow10(2) == 100,
        pow10(3) == 1_000,
        pow10(4) == 10_000,
        pow10(5) == 100_000,
        pow10(6) == 1_000_000,
        pow10(7) == 10_000_000,
        pow10(8) == 100_000_000,
        pow10(9) == 1_000_000_000,
        pow10(10) == 10_000_000_000,
        pow10(11) == 100_000_000_000,
        pow10(12) == 1_000_000_000_000,
{
    reveal_with_fuel(pow10, 14);
}

/// Every digit is written as the character that is read as that digit,
/// and as no sign and no point.
pub proof fn lemma_digit_char(d: int)
    requires
        0 <= d <= 9,
    ensures
        is_digit(digit_char(d)),
        digit_value(digit_char(d)) == d,
        digit_char(d) != '.',
        digit_char(d) != '-',
        digit_char(d) != '+',
{
}

/// One more digit at the end multiplies the number by ten and adds the
/// digit.
pub proof fn lemma_digits_value_push(s: Seq<char>, c: char)
    ensures
        digits_value(s.push(c)) == digits_value(s) * 10 + digit_value(c),
{
    assert(s.push(c).drop_last() =~= s);
}

/// One more digit in front adds the digit times the power of ten of its
/// place.
pub proof fn lemma_digits_value_prepend(c: char, s: Seq<char>)
    ensures
        digits_value(seq![c] + s) == digit_value(c) * pow10(s.len()) + digits_value(s),
    decreases s.len(),
{
    let whole = seq![c] + s;
    if s.len() == 0 {
        assert(whole.drop_last() =~= Seq::<char>::empty());
        assert(whole.last() == c);
        assert(digits_value(whole) == digits_value(whole.drop_last()) * 10 + digit_value(c));
        assert(digits_value(Seq::<char>::empty()) == 0);
        assert(pow10(0) == 1);
    } else {
        let shorter = s.drop_last();
        assert(whole.drop_last() =~= seq![c] + shorter);
        assert(whole.last() == s.last());
        lemma_digits_value_prepend(c, shorter);
        assert(digits_value(whole) == digits_value(whole.drop_last()) * 10 + digit_value(
            whole.last(),
        ));
        assert(digits_value(s) == digits_value(shorter) * 10 + digit_value(s.last()));
        assert(pow10(s.len()) == 10 * pow10(shorter.len()));
        assert((digit_value(c) * pow10(shorter.len()) + digits_value(shorter)) * 10 == digit_value(
            c,
        ) * pow10(s.len()) + digits_value(shorter) * 10) by (nonlinear_arith)
            requires
                pow10(s.len()) == 10 * pow10(shorter.len()),
        ;
    }
}

/// The digits of a number are digits, one at least, and write the number.
pub proof fn lemma_digits_of(n: nat)
    ensures
        digits_of(n).len() >= 1,
        all_digits(digits_of(n)),
        digits_value(digits_of(n)) == n,
    decreases n,
{
    if n < 10 {
        lemma_digit_char(n as int);
        lemma_digits_value_push(Seq::empty(), digit_char(n as int));
        assert(Seq::<char>::empty().push(digit_char(n as int)) =~= digits_of(n));
    } else {
        lemma_digits_of(n / 10);
        lemma_digit_char((n % 10) as int);
        lemma_digits_value_push(digits_of(n / 10), digit_char((n % 10) as int));
    }
}

/// Powers of ten multiply as their exponents add.
pub proof fn lemma_pow10_adds(a: nat, b: nat)
    ensures
        pow10(a) * pow10(b) == pow10(a + b),
    decreases a,
{
    if a > 0 {
        let less = (a - 1) as nat;
        lemma_pow10_adds(less, b);
        assert(pow10(a) == 10 * pow10(less));
        assert(pow10(a + b) == 10 * pow10(((a + b) - 1) as nat));
        assert(((a + b) - 1) as nat == less + b);
        assert(pow10(a) * pow10(b) == 10 * (pow10(less) * pow10(b))) by (nonlinear_arith)
            requires
                pow10(a) == 10 * pow10(less),
        ;
    } else {
        assert(pow10(0) == 1);
        assert(1 * pow10(b) == pow10(b));
    }
}

/// A power of ten is positive.
pub proof fn lemma_pow10_positive(n: nat)
    ensures
        pow10(n) > 0,
    decreases n,
{
    if n > 0 {
        lemma_pow10_positive((n - 1) as nat);
    }
}

/// The digits behind the point are digits, no more than the places there
/// are, at least one for a fraction that is not zero, and, filled up with
/// zeros to all the places, write the fraction.
pub proof fn lemma_fraction_digits(frac: nat, width: nat)
    requires
        frac < pow10(width),
    ensures
        fraction_digits(frac, width).len() <= width,
        frac > 0 ==> fraction_digits(frac, width).len() >= 1,
        all_digits(fraction_digits(frac, width)),
        digits_value(fraction_digits(frac, width)) * pow10(
            (width - fraction_digits(frac, width).len()) as nat,
        ) == frac,
    decreases width,
{
    let digits = fraction_digits(frac, width);
    if frac == 0 || width == 0 {
        assert(digits =~= Seq::<char>::empty());
        assert(digits_value(digits) == 0);
        assert(pow10(0) == 1);
        assert(0 * pow10(width) == 0) by (nonlinear_arith);
    } else {
        let unit = pow10((width - 1) as nat);
        lemma_pow10_positive((width - 1) as nat);
        let d = frac / unit;
        let rest = frac % unit;
        assert(0 <= d < 10) by (nonlinear_arith)
            requires
                frac < 10 * unit,
                unit > 0,
                d == frac / unit,
        ;
        assert(rest < unit && frac == unit * d + rest) by {
            vstd::arithmetic::div_mod::lemma_fundamental_div_mod(frac as int, unit as int);
            vstd::arithmetic::div_mod::lemma_mod_bound(frac as int, unit as int);
        }
        lemma_digit_char(d as int);
        lemma_fraction_digits(rest, (width - 1) as nat);
        let tail = fraction_digits(rest, (width - 1) as nat);
        assert(digits == seq![digit_char(d as int)] + tail);
        lemma_digits_value_prepend(digit_char(d as int), tail);
        let pad = pow10((width - 1 - tail.len()) as nat);
        lemma_pow10_adds(tail.len(), (width - 1 - tail.len()) as nat);
        assert(digits.len() == tail.len() + 1);
        assert(pad == pow10((width - digits.len()) as nat));
        assert(pow10(tail.len()) * pad == unit);
        assert(digits_value(tail) * pad == rest);
        assert(digits_value(digits) == d * pow10(tail.len()) + digits_value(tail));
        assert(digits_value(digits) * pad == frac) by (nonlinear_arith)
            requires
                digits_value(digits) == d * pow10(tail.len()) + digits_value(tail),
                pow10(tail.len()) * pad == unit,
                digits_value(tail) * pad == rest,
                frac == unit * d + rest,
        ;
        assert forall|i: int| 0 <= i < digits.len() implies is_digit(#[trigger] digits[i]) by {
            if i > 0 {
                assert(digits[i] == tail[i - 1]);
            }
        }
    }
}

/// The text of a magnitude is read back as the magnitude.
pub proof fn lemma_magnitude_round_trip(m: nat)
    ensures
        !has_sign(magnitude_text(m)),
        is_number(magnitude_text(m)),
        number_units(magnitude_text(m)) == m,
        fraction_part(magnitude_text(m)).len() <= PLACES,
{
    let scale = SCALE as nat;
    let whole = digits_of(m / scale);
    let frac = m % scale;
    let text = magnitude_text(m);
    lemma_digits_of(m / scale);
    lemma_pow10_values();
    assert(is_digit(whole[0]));
    assert(text[0] == whole[0]);
    assert forall|j: int| 0 <= j < whole.len() implies text[j] != '.' by {
        assert(text[j] == whole[j]);
        assert(is_digit(whole[j]));
    }
    if frac == 0 {
        lemma_point_position(text, whole.len() as int);
        assert(whole_part(text) =~= whole);
        assert(fraction_part(text) =~= Seq::<char>::empty());
        assert(digits_value(Seq::<char>::empty()) == 0);
        assert(0 * pow10(12) == 0) by (nonlinear_arith);
    } else {
        let digits = fraction_digits(frac, PLACES as nat);
        lemma_fraction_digits(frac, PLACES as nat);
        assert(text[whole.len() as int] == '.');
        lemma_point_position(text, whole.len() as int);
        assert(whole_part(text) =~= whole);
        assert(fraction_part(text) =~= digits);
        if digits.len() == PLACES {
            assert(digits.subrange(0, PLACES as int) =~= digits);
            assert(digits_value(digits) * 1 == digits_value(digits));
        }
    }
    assert(m == scale * (m / scale) + m % scale) by {
        vstd::arithmetic::div_mod::lemma_fundamental_div_mod(m as int, scale as int);
    }
}

/// What is written is read back: the text of every fixed-point number is
/// read as that number. (The least `i64` is left out: no `i64` holds its
/// magnitude.)
pub proof fn lemma_text_round_trip(value: int)
    requires
        -i64::MAX <= value <= i64::MAX,
    ensures
        spec_parse_decimal(decimal_text(value)) == Some(value),
        !spec_drops_digits(decimal_text(value)),
{
    let m: nat = if value < 0 {
        (-value) as nat
    } else {
        value as nat
    };
    lemma_magnitude_round_trip(m);
    let text = decimal_text(value);
    if value < 0 {
        assert(text[0] == '-');
        assert(unsigned_part(text) =~= magnitude_text(m));
    } else {
        assert(text == magnitude_text(m));
    }
}

} // verus!
