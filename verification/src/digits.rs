//! Decimal and hexadecimal digits.

use vstd::prelude::*;

use crate::text::text_of;

verus! {

/// A decimal digit.
pub open spec fn is_digit(c: char) -> bool {
    '0' as u32 <= c as u32 <= '9' as u32
}

/// The value of a decimal digit.
pub open spec fn digit_value(c: char) -> int {
    c as u32 - '0' as u32
}

/// The character of a digit below ten.
pub open spec fn digit_char(d: int) -> char {
    ('0' as u32 + d) as char
}

/// The number that a sequence of decimal digits stands for.
pub open spec fn digits_value(s: Seq<char>) -> int
    decreases s.len(),
{
    if s.len() == 0 {
        0
    } else {
        10 * digits_value(s.drop_last()) + digit_value(s.last())
    }
}

/// A text of decimal digits.
pub open spec fn all_digits(s: Seq<char>) -> bool {
    forall|i: int| 0 <= i < s.len() ==> is_digit(#[trigger] s[i])
}

/// A number in decimal, without leading zeros.
pub open spec fn decimal(n: nat) -> Seq<char>
    decreases n,
{
    if n < 10 {
        seq![digit_char(n as int)]
    } else {
        decimal(n / 10).push(digit_char((n % 10) as int))
    }
}

/// The unsigned number that a text spells: one or more decimal digits, with an
/// optional plus sign in front, of a value that 64 bits hold.
pub open spec fn parsed_u64(s: Seq<char>) -> Option<u64> {
    let digits = if s.len() > 0 && s[0] == '+' {
        s.skip(1)
    } else {
        s
    };
    if digits.len() > 0 && all_digits(digits) && digits_value(digits) <= u64::MAX {
        Some(digits_value(digits) as u64)
    } else {
        None
    }
}

/// Digits stand for no negative number.
pub proof fn lemma_digits_value_bounds(s: Seq<char>)
    requires
        all_digits(s),
    ensures
        digits_value(s) >= 0,
    decreases s.len(),
{
    if s.len() > 0 {
        assert(is_digit(s.last()));
        assert forall|i: int| 0 <= i < s.drop_last().len() implies is_digit(
            #[trigger] s.drop_last()[i],
        ) by {
            assert(s.drop_last()[i] == s[i]);
        }
        lemma_digits_value_bounds(s.drop_last());
    }
}

/// The first digits of a number stand for no more than the number.
pub proof fn lemma_digits_value_grows(s: Seq<char>, n: int)
    requires
        all_digits(s),
        0 <= n <= s.len(),
    ensures
        digits_value(s.take(n)) <= digits_value(s),
    decreases s.len() - n,
{
    if n < s.len() {
        let t = s.take(n + 1);
        assert(t.drop_last() == s.take(n));
        assert(t.last() == s[n]);
        assert(is_digit(s[n]));
        assert(all_digits(s.take(n)));
        lemma_digits_value_bounds(s.take(n));
        lemma_digits_value_grows(s, n + 1);
    } else {
        assert(s.take(n) == s);
    }
}

proof fn lemma_decimal(n: nat)
    ensures
        decimal(n).len() > 0,
        all_digits(decimal(n)),
        digits_value(decimal(n)) == n,
        decimal(n)[0] != '+',
    decreases n,
{
    if n < 10 {
        let s = decimal(n);
        assert(s.drop_last() == Seq::<char>::empty());
        assert(digits_value(s.drop_last()) == 0);
        assert(digits_value(s) == n);
    } else {
        lemma_decimal(n / 10);
        let s = decimal(n);
        assert(s.drop_last() == decimal(n / 10));
        assert(s[0] == decimal(n / 10)[0]);
    }
}

/// Reading back a number that was written in decimal gives the number.
pub proof fn law_decimal_round_trip(n: u64)
    ensures
        parsed_u64(decimal(n as nat)) == Some(n),
{
    lemma_decimal(n as nat);
}

/// Reads an unsigned number.
pub fn parse_u64(s: &[char]) -> (r: Option<u64>)
    ensures
        r == parsed_u64(s@),
{
    let n: usize = s.len();
    let mut i: usize = 0;
    if n > 0 && s[0] == '+' {
        i = 1;
    }
    let ghost digits = if s@.len() > 0 && s@[0] == '+' {
        s@.skip(1)
    } else {
        s@
    };
    let ghost first = i as int;
    assert(digits == s@.skip(first));
    if i == n {
        return None;
    }
    let mut value: u64 = 0;
    while i < n
        invariant
            n == s@.len(),
            first <= i <= n,
            first == (if s@.len() > 0 && s@[0] == '+' { 1int } else { 0int }),
            digits == s@.skip(first),
            digits == (if s@.len() > 0 && s@[0] == '+' { s@.skip(1) } else { s@ }),
            all_digits(digits.take(i - first)),
            value == digits_value(digits.take(i - first)),
        decreases n - i,
    {
        let c: char = s[i];
        assert(digits[i - first] == c);
        if (c as u32) < ('0' as u32) || (c as u32) > ('9' as u32) {
            assert(!is_digit(digits[i - first]));
            return None;
        }
        let d: u64 = (c as u32 - '0' as u32) as u64;
        let ghost next = digits.take(i - first + 1);
        assert(next.drop_last() == digits.take(i - first));
        assert(next.last() == c);
        assert(digits_value(next) == 10 * value + d);
        assert(all_digits(next));
        let scaled: Option<u64> = value.checked_mul(10);
        let grown: Option<u64> = match scaled {
            Some(v) => v.checked_add(d),
            None => None,
        };
        match grown {
            Some(v) => {
                value = v;
            },
            None => {
                assert(digits_value(next) > u64::MAX);
                proof {
                    if all_digits(digits) {
                        lemma_digits_value_grows(digits, i - first + 1);
                    }
                }
                return None;
            },
        }
        i = i + 1;
    }
    assert(digits.take(n - first) == digits);
    Some(value)
}

/// Writes a number in decimal.
pub fn decimal_text(n: u64) -> (r: String)
    ensures
        r@ == decimal(n as nat),
{
    text_of(decimal_chars(n).as_slice())
}

fn decimal_chars(n: u64) -> (r: Vec<char>)
    ensures
        r@ == decimal(n as nat),
    decreases n,
{
    if n < 10 {
        let mut r: Vec<char> = Vec::new();
        r.push(digit(n as u8));
        assert(r@ == decimal(n as nat));
        r
    } else {
        let mut r: Vec<char> = decimal_chars(n / 10);
        r.push(digit((n % 10) as u8));
        r
    }
}

fn digit(d: u8) -> (c: char)
    requires
        d < 10,
    ensures
        c == digit_char(d as int),
{
    (48u8 + d) as char
}

/// The lower-case hexadecimal character of a value below sixteen.
pub open spec fn hex_char(d: int) -> char {
    if d < 10 {
        digit_char(d)
    } else {
        ('a' as u32 + (d - 10)) as char
    }
}

/// A number in lower-case hexadecimal, its last `width` digits, with leading
/// zeros.
pub open spec fn hex(n: nat, width: nat) -> Seq<char>
    decreases width,
{
    if width == 0 {
        Seq::empty()
    } else {
        hex(n / 16, (width - 1) as nat).push(hex_char((n % 16) as int))
    }
}

/// A digit of a number written in lower-case hexadecimal.
pub open spec fn is_hex_char(c: char) -> bool {
    is_digit(c) || 'a' as u32 <= c as u32 <= 'f' as u32
}

/// Where hexadecimal digits stand among the characters.
pub proof fn lemma_hex_char(c: char)
    requires
        is_hex_char(c),
    ensures
        '0' <= c <= '9' || 'a' <= c <= 'f',
{
}

/// A number written in a width has that many hexadecimal digits.
pub proof fn lemma_hex(n: nat, width: nat)
    ensures
        hex(n, width).len() == width,
        forall|i: int| 0 <= i < width ==> is_hex_char(#[trigger] hex(n, width)[i]),
    decreases width,
{
    if width > 0 {
        lemma_hex(n / 16, (width - 1) as nat);
    }
}

fn hex_digit(d: u8) -> (c: char)
    requires
        d < 16,
    ensures
        c == hex_char(d as int),
{
    if d < 10 {
        (48u8 + d) as char
    } else {
        (97u8 + (d - 10)) as char
    }
}

fn hex_chars(n: u64, width: u8) -> (r: Vec<char>)
    ensures
        r@ == hex(n as nat, width as nat),
    decreases width,
{
    if width == 0 {
        Vec::new()
    } else {
        let mut r: Vec<char> = hex_chars(n / 16, width - 1);
        r.push(hex_digit((n % 16) as u8));
        r
    }
}

/// Writes a number as sixteen hexadecimal digits.
pub fn hex16_text(n: u64) -> (r: String)
    ensures
        r@ == hex(n as nat, 16),
{
    text_of(hex_chars(n, 16).as_slice())
}

proof fn lemma_digit_char(c: char)
    requires
        is_digit(c),
    ensures
        digit_char(digit_value(c)) == c,
{
    let d = digit_value(c);
    assert(0 <= d < 10);
    assert(d == 0 || d == 1 || d == 2 || d == 3 || d == 4 || d == 5 || d == 6 || d == 7 || d == 8
        || d == 9);
    assert(digit_char(d) as u32 == '0' as u32 + d);
}

proof fn lemma_spelled_again(s: Seq<char>)
    requires
        s.len() > 0,
        all_digits(s),
        s.len() > 1 ==> s[0] != '0',
    ensures
        decimal(digits_value(s) as nat) == s,
        s.len() > 1 ==> digits_value(s) >= 10,
        s[0] != '0' ==> digits_value(s) > 0,
    decreases s.len(),
{
    let rest = s.drop_last();
    assert(is_digit(s.last()));
    lemma_digit_char(s.last());
    if s.len() == 1 {
        assert(digits_value(rest) == 0);
        assert(digits_value(s) == digit_value(s[0]));
        assert(decimal(digits_value(s) as nat) =~= s);
    } else {
        assert forall|i: int| 0 <= i < rest.len() implies is_digit(#[trigger] rest[i]) by {
            assert(rest[i] == s[i]);
        }
        assert(rest[0] == s[0]);
        lemma_spelled_again(rest);
        let n = digits_value(s);
        let d = digit_value(s.last());
        assert(n == 10 * digits_value(rest) + d);
        assert(n / 10 == digits_value(rest));
        assert(n % 10 == d);
        assert(digit_char(d) == s.last());
        assert(decimal(n as nat) =~= rest.push(s.last()));
        assert(rest.push(s.last()) =~= s);
    }
}

/// A text of digits without a leading zero spells one number, in just the way that
/// the number is written.
pub proof fn law_written_numbers_are_read(s: Seq<char>)
    requires
        s.len() > 0,
        all_digits(s),
        s.len() > 1 ==> s[0] != '0',
    ensures
        digits_value(s) >= 0,
        decimal(digits_value(s) as nat) == s,
{
    lemma_digits_value_bounds(s);
    lemma_spelled_again(s);
}

/// A written number holds digits alone, no leading zero but zero itself, and
/// spells itself.
pub proof fn law_numbers_are_written_plainly(n: nat)
    ensures
        decimal(n).len() > 0,
        forall|i: int| 0 <= i < decimal(n).len() ==> '0' <= #[trigger] decimal(n)[i] <= '9',
        digits_value(decimal(n)) == n,
        n > 0 ==> decimal(n)[0] != '0',
    decreases n,
{
    lemma_decimal(n);
    if n >= 10 {
        law_numbers_are_written_plainly(n / 10);
        assert(decimal(n)[0] == decimal(n / 10)[0]);
    }
    assert forall|i: int| 0 <= i < decimal(n).len() implies '0' <= #[trigger] decimal(n)[i]
        <= '9' by {
        assert(is_digit(decimal(n)[i]));
    }
}

/// A number is read from digits, which a plus sign may lead; anything else, and
/// what is too great, is no number.
pub proof fn law_only_numbers_are_read(s: Seq<char>)
    ensures
        parsed_u64(Seq::empty()) is None,
        (exists|i: int| 0 <= i < s.len() && !is_digit(#[trigger] s[i]) && !(i == 0 && s[i] == '+'))
            ==> parsed_u64(s) is None,
        s.len() > 0 && all_digits(s) && digits_value(s) <= u64::MAX ==> parsed_u64(s) == Some(
            digits_value(s) as u64,
        ) && parsed_u64(seq!['+'] + s) == parsed_u64(s),
        all_digits(s) && digits_value(s) > u64::MAX ==> parsed_u64(s) is None,
{
    if exists|i: int| 0 <= i < s.len() && !is_digit(#[trigger] s[i]) && !(i == 0 && s[i] == '+') {
        let i = choose|i: int|
            0 <= i < s.len() && !is_digit(#[trigger] s[i]) && !(i == 0 && s[i] == '+');
        if s[0] == '+' {
            assert(s.skip(1)[i - 1] == s[i]);
        }
    }
    if s.len() > 0 && all_digits(s) {
        assert(is_digit(s[0]));
        assert((seq!['+'] + s).skip(1) =~= s);
    }
}

proof fn lemma_hex_digits_differ(a: int, b: int)
    requires
        0 <= a < 16,
        0 <= b < 16,
        hex_char(a) == hex_char(b),
    ensures
        a == b,
{
}

/// Two numbers that agree in their hexadecimal digits agree in what these digits
/// can hold.
pub proof fn law_hexadecimal_tells_numbers_apart(n: nat, m: nat, width: nat)
    requires
        hex(n, width) == hex(m, width),
    ensures
        n % vstd::arithmetic::power::pow(16, width) as nat == m % vstd::arithmetic::power::pow(
            16,
            width,
        ) as nat,
    decreases width,
{
    vstd::arithmetic::power::lemma_pow0(16);
    if width == 0 {
        assert(n % 1 == 0 && m % 1 == 0);
    } else {
        let less = (width - 1) as nat;
        let a = hex(n, width);
        let b = hex(m, width);
        assert(a.drop_last() =~= hex(n / 16, less));
        assert(b.drop_last() =~= hex(m / 16, less));
        assert(a.last() == b.last());
        lemma_hex_digits_differ((n % 16) as int, (m % 16) as int);
        law_hexadecimal_tells_numbers_apart(n / 16, m / 16, less);
        let p = vstd::arithmetic::power::pow(16, less);
        vstd::arithmetic::power::lemma_pow_positive(16, less);
        vstd::arithmetic::power::lemma_pow1(16);
        vstd::arithmetic::power::lemma_pow_adds(16, 1, less);
        assert(vstd::arithmetic::power::pow(16, width) == 16 * p);
        vstd::arithmetic::div_mod::lemma_mod_breakdown(n as int, 16, p);
        vstd::arithmetic::div_mod::lemma_mod_breakdown(m as int, 16, p);
    }
}

/// The last hexadecimal digit of a number is its remainder, in lower case, and the
/// digits before are those of the quotient.
pub proof fn law_hexadecimal_digits(n: nat, width: nat)
    ensures
        ({
            let s = hex(n, width + 1);
            &&& s.drop_last() == hex(n / 16, width)
            &&& n % 16 < 10 ==> s.last() as int == '0' as int + n % 16
            &&& n % 16 >= 10 ==> s.last() as int == 'a' as int + (n % 16 - 10)
        }),
{
    assert(hex(n, width + 1).drop_last() =~= hex(n / 16, width));
}

} // verus!
