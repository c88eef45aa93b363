//! Decimal text for unsigned machine integers: parsing as `str::parse::<usize>`
//! does it, and formatting as `usize`'s `Display` does it.

use vstd::prelude::*;

verus! {

/// Why a text is not the decimal form of a `usize`; the same kinds, in the
/// same cases, as `std::num::IntErrorKind` reports for `usize`.
#[derive(Debug, Clone, Copy, PartialEq, Eq, Structural)]
pub enum IntErrorKind {
    /// The text is empty.
    Empty,
    /// The text holds a character that is not an ASCII digit where a digit is due.
    InvalidDigit,
    /// The digits denote a number above `usize::MAX`.
    PosOverflow,
}

/// The text that `std::num::ParseIntError` displays for each kind.
pub open spec fn int_error_text(kind: IntErrorKind) -> Seq<char> {
    match kind {
        IntErrorKind::Empty => "cannot parse integer from empty string"@,
        IntErrorKind::InvalidDigit => "invalid digit found in string"@,
        IntErrorKind::PosOverflow => "number too large to fit in target type"@,
    }
}

impl IntErrorKind {
    /// The description of the error, as a parse error displays it.
    pub fn message(&self) -> (r: &'static str)
        ensures
            r@ == int_error_text(*self),
    {
        match self {
            IntErrorKind::Empty => "cannot parse integer from empty string",
            IntErrorKind::InvalidDigit => "invalid digit found in string",
            IntErrorKind::PosOverflow => "number too large to fit in target type",
        }
    }
}

pub open spec fn is_digit(c: char) -> bool {
    '0' <= c && c <= '9'
}

pub open spec fn digit_value(c: char) -> nat {
    (c as int - '0' as int) as nat
}

/// The number that a string of decimal digits denotes, most significant first.
pub open spec fn digits_value(d: Seq<char>) -> nat
    decreases d.len(),
{
    if d.len() == 0 {
        0
    } else {
        digits_value(d.drop_last()) * 10 + digit_value(d.last())
    }
}

/// The length of the longest prefix of `d` made of ASCII digits.
pub open spec fn digit_prefix_len(d: Seq<char>) -> nat
    decreases d.len(),
{
    if d.len() == 0 || !is_digit(d[0]) {
        0
    } else {
        1 + digit_prefix_len(d.drop_first())
    }
}

/// The text after an optional leading `+`.
pub open spec fn unsigned_body(s: Seq<char>) -> Seq<char> {
    if s.len() > 0 && s[0] == '+' {
        s.drop_first()
    } else {
        s
    }
}

/// What `str::parse::<usize>` gives for the text `s`: an optional `+`, then
/// one or more ASCII digits, with no other character. Digits are read from
/// left to right, so an overflow in the leading digits is reported before
/// a later character that is not a digit.
pub open spec fn parse_usize_spec(s: Seq<char>) -> Result<usize, IntErrorKind> {
    let d = unsigned_body(s);
    if s.len() == 0 {
        Err(IntErrorKind::Empty)
    } else if d.len() == 0 {
        Err(IntErrorKind::InvalidDigit)
    } else if digits_value(d.take(digit_prefix_len(d) as int)) > usize::MAX {
        Err(IntErrorKind::PosOverflow)
    } else if digit_prefix_len(d) < d.len() {
        Err(IntErrorKind::InvalidDigit)
    } else {
        Ok(digits_value(d) as usize)
    }
}

pub open spec fn digit_char(v: nat) -> char
    recommends
        v < 10,
{
    (v + '0' as int) as char
}

/// The decimal form of `n`, without sign or leading zeros (`"0"` for zero).
pub open spec fn decimal_digits(n: nat) -> Seq<char>
    decreases n,
{
    if n < 10 {
        seq![digit_char(n)]
    } else {
        decimal_digits(n / 10) + seq![digit_char(n % 10)]
    }
}

proof fn lemma_digit_prefix_len_bound(d: Seq<char>)
    ensures
        digit_prefix_len(d) <= d.len(),
        forall|i: int| 0 <= i < digit_prefix_len(d) ==> is_digit(#[trigger] d[i]),
        digit_prefix_len(d) < d.len() ==> !is_digit(d[digit_prefix_len(d) as int]),
    decreases d.len(),
{
    if d.len() > 0 && is_digit(d[0]) {
        lemma_digit_prefix_len_bound(d.drop_first());
        assert forall|i: int| 0 <= i < digit_prefix_len(d) implies is_digit(#[trigger] d[i]) by {
            if i > 0 {
                assert(d[i] == d.drop_first()[i - 1]);
            }
        }
    }
}

/// When the first `k` characters are digits and the next one is not (or there
/// is none), the digit prefix is exactly `k` long.
proof fn lemma_digit_prefix_len_exact(d: Seq<char>, k: int)
    requires
        0 <= k <= d.len(),
        forall|i: int| 0 <= i < k ==> is_digit(#[trigger] d[i]),
        k < d.len() ==> !is_digit(d[k]),
    ensures
        digit_prefix_len(d) == k,
    decreases d.len(),
{
    if k > 0 {
        let t = d.drop_first();
        assert forall|i: int| 0 <= i < k - 1 implies is_digit(#[trigger] t[i]) by {
            assert(t[i] == d[i + 1]);
        }
        if k < d.len() {
            assert(t[k - 1] == d[k]);
        }
        lemma_digit_prefix_len_exact(t, k - 1);
    }
}

/// The value of a digit string grows with each digit appended.
proof fn lemma_digits_value_prefix_monotone(d: Seq<char>, j: int, k: int)
    requires
        0 <= j <= k <= d.len(),
    ensures
        digits_value(d.take(j)) <= digits_value(d.take(k)),
    decreases k - j,
{
    if j < k {
        lemma_digits_value_prefix_monotone(d, j, k - 1);
        assert(d.take(k).drop_last() =~= d.take(k - 1));
    }
}

/// Parses `s` as `str::parse::<usize>` does.
pub fn parse_usize(s: &str) -> (r: Result<usize, IntErrorKind>)
    ensures
        r == parse_usize_spec(s@),
{
    let n = s.unicode_len();
    if n == 0 {
        return Err(IntErrorKind::Empty);
    }
    let mut start: usize = 0;
    if s.get_char(0) == '+' {
        start = 1;
    }
    if start == n {
        return Err(IntErrorKind::InvalidDigit);
    }
    let ghost d = unsigned_body(s@);
    assert(d =~= s@.subrange(start as int, n as int));
    let mut acc: usize = 0;
    let mut i: usize = start;
    while i < n
        invariant
            n == s@.len(),
            n > 0,
            d == unsigned_body(s@),
            d == s@.subrange(start as int, n as int),
            start <= i <= n,
            start < n,
            forall|k: int| 0 <= k < i - start ==> is_digit(#[trigger] d[k]),
            acc == digits_value(d.take(i - start)),
        decreases n - i,
    {
        let c = s.get_char(i);
        let code = c as u32;
        assert(c == d[i - start]);
        if code < 48 || code > 57 {
            proof {
                lemma_digit_prefix_len_exact(d, i - start);
                assert(d.take(i - start) =~= d.take(digit_prefix_len(d) as int));
            }
            return Err(IntErrorKind::InvalidDigit);
        }
        let dv = (code - 48) as usize;
        assert(d.take(i - start + 1).drop_last() =~= d.take(i - start));
        assert(dv == digit_value(d[i - start]));
        if acc > (usize::MAX - dv) / 10 {
            proof {
                assert(acc * 10 + dv > usize::MAX) by (nonlinear_arith)
                    requires
                        acc > (usize::MAX - dv) / 10,
                        dv <= 9,
                ;
                lemma_digit_prefix_len_bound(d);
                assert forall|k: int| 0 <= k < i - start + 1 implies is_digit(#[trigger] d[k]) by {}
                if digit_prefix_len(d) < i - start + 1 {
                    let p = digit_prefix_len(d) as int;
                    assert(is_digit(d[p]));
                }
                lemma_digits_value_prefix_monotone(d, i - start + 1, digit_prefix_len(d) as int);
            }
            return Err(IntErrorKind::PosOverflow);
        }
        proof {
            assert(acc * 10 + dv <= usize::MAX) by (nonlinear_arith)
                requires
                    acc <= (usize::MAX - dv) / 10,
                    dv <= 9,
            ;
        }
        acc = acc * 10 + dv;
        i = i + 1;
    }
    proof {
        lemma_digit_prefix_len_exact(d, d.len() as int);
        assert(d.take(d.len() as int) =~= d);
    }
    Ok(acc)
}

fn digit_text(v: usize) -> (r: &'static str)
    requires
        v < 10,
    ensures
        r@ == seq![digit_char(v as nat)],
{
    proof {
        reveal_strlit("0");
        reveal_strlit("1");
        reveal_strlit("2");
        reveal_strlit("3");
        reveal_strlit("4");
        reveal_strlit("5");
        reveal_strlit("6");
        reveal_strlit("7");
        reveal_strlit("8");
        reveal_strlit("9");
    }
    if v == 0 {
        "0"
    } else if v == 1 {
        "1"
    } else if v == 2 {
        "2"
    } else if v == 3 {
        "3"
    } else if v == 4 {
        "4"
    } else if v == 5 {
        "5"
    } else if v == 6 {
        "6"
    } else if v == 7 {
        "7"
    } else if v == 8 {
        "8"
    } else {
        "9"
    }
}

/// The decimal form of `n`, as `n.to_string()` gives it.
pub fn format_usize(n: usize) -> (r: String)
    ensures
        r@ == decimal_digits(n as nat),
    decreases n,
{
    if n < 10 {
        String::from_str(digit_text(n))
    } else {
        let mut s = format_usize(n / 10);
        s.append(digit_text(n % 10));
        s
    }
}

/// Every digit of a decimal form is an ASCII digit, and the first is not `+`.
pub proof fn lemma_decimal_digits_shape(n: nat)
    ensures
        decimal_digits(n).len() >= 1,
        forall|i: int| 0 <= i < decimal_digits(n).len() ==> is_digit(#[trigger] decimal_digits(n)[i]),
        digits_value(decimal_digits(n)) == n,
    decreases n,
{
    if n >= 10 {
        lemma_decimal_digits_shape(n / 10);
        let d = decimal_digits(n);
        assert(d.drop_last() =~= decimal_digits(n / 10));
        assert(d.last() == digit_char(n % 10));
        assert(digit_value(digit_char(n % 10)) == n % 10);
        assert(n == (n / 10) * 10 + n % 10);
        assert(d.len() > 0);
        assert(digits_value(d) == digits_value(d.drop_last()) * 10 + digit_value(d.last()));
        assert(digits_value(d) == (n / 10) * 10 + n % 10);
        assert forall|i: int| 0 <= i < d.len() implies is_digit(#[trigger] d[i]) by {
            if i < d.len() - 1 {
                assert(d[i] == decimal_digits(n / 10)[i]);
            }
        }
    } else {
        let d = decimal_digits(n);
        assert(d.drop_last() =~= Seq::<char>::empty());
        assert(digit_value(digit_char(n)) == n);
        assert(d.last() == digit_char(n));
        assert(digits_value(d.drop_last()) == 0);
        assert(digits_value(d) == digits_value(d.drop_last()) * 10 + digit_value(d.last()));
    }
}

/// Reading back what `format_usize` wrote gives the number again.
pub proof fn lemma_parse_format_roundtrip(n: usize)
    ensures
        parse_usize_spec(decimal_digits(n as nat)) == Ok::<usize, IntErrorKind>(n),
{
    let d = decimal_digits(n as nat);
    lemma_decimal_digits_shape(n as nat);
    assert(is_digit(d[0]));
    assert(unsigned_body(d) == d);
    lemma_digit_prefix_len_exact(d, d.len() as int);
    assert(d.take(d.len() as int) =~= d);
}

/// Different numbers have different decimal forms.
pub proof fn lemma_decimal_digits_injective(i: nat, j: nat)
    requires
        i != j,
    ensures
        decimal_digits(i) != decimal_digits(j),
{
    lemma_decimal_digits_shape(i);
    lemma_decimal_digits_shape(j);
}

/// A decimal form holds no `.`.
pub proof fn lemma_decimal_digits_no_dot(n: nat)
    ensures
        forall|k: int| 0 <= k < decimal_digits(n).len() ==> #[trigger] decimal_digits(n)[k] != '.',
{
    lemma_decimal_digits_shape(n);
}

} // verus!
