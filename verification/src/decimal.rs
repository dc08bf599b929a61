//! Decimal text of integers, and the colon-separated fields of a stored value.
//!
//! Keys and values of the cache are text. This module says what the text of
//! an integer is (`decimal`), what integer a text stands for (`parse_int`),
//! and proves that reading what was written gives the integer back.

use vstd::prelude::*;
use vstd::string::*;

verus! {

/// The character of one decimal digit.
pub open spec fn digit_char(d: int) -> char {
    if d == 0 {
        '0'
    } else if d == 1 {
        '1'
    } else if d == 2 {
        '2'
    } else if d == 3 {
        '3'
    } else if d == 4 {
        '4'
    } else if d == 5 {
        '5'
    } else if d == 6 {
        '6'
    } else if d == 7 {
        '7'
    } else if d == 8 {
        '8'
    } else {
        '9'
    }
}

/// Whether a character is one of `0` to `9`.
pub open spec fn is_digit(c: char) -> bool {
    48 <= c as u32 && c as u32 <= 57
}

/// The number that a digit stands for.
pub open spec fn digit_value(c: char) -> nat {
    (c as u32 - 48) as nat
}

/// The digits of a natural number, most significant first, without leading
/// zeros.
pub open spec fn digits(n: nat) -> Seq<char>
    decreases n,
{
    if n < 10 {
        seq![digit_char(n as int)]
    } else {
        digits(n / 10).push(digit_char((n % 10) as int))
    }
}

/// The decimal text of an integer: a minus sign for a negative one, then its
/// digits.
pub open spec fn decimal(v: int) -> Seq<char> {
    if v < 0 {
        seq!['-'] + digits((-v) as nat)
    } else {
        digits(v as nat)
    }
}

/// Whether a text holds digits only.
pub open spec fn all_digits(s: Seq<char>) -> bool {
    forall|i: int| 0 <= i < s.len() ==> is_digit(#[trigger] s[i])
}

/// The number that a run of digits stands for.
pub open spec fn digits_value(s: Seq<char>) -> nat
    decreases s.len(),
{
    if s.len() == 0 {
        0
    } else {
        digits_value(s.drop_last()) * 10 + digit_value(s.last())
    }
}

/// Whether a text begins with `-` or `+`.
pub open spec fn has_sign(s: Seq<char>) -> bool {
    s.len() > 0 && (s[0] == '-' || s[0] == '+')
}

/// A text without its sign.
pub open spec fn unsigned_part(s: Seq<char>) -> Seq<char> {
    if has_sign(s) {
        s.subrange(1, s.len() as int)
    } else {
        s
    }
}

/// The integer that a text stands for: an optional sign, then one digit or
/// more. Any other text stands for none.
pub open spec fn parse_int(s: Seq<char>) -> Option<int> {
    let body = unsigned_part(s);
    if body.len() == 0 || !all_digits(body) {
        None
    } else if s[0] == '-' {
        Some(-(digits_value(body) as int))
    } else {
        Some(digits_value(body) as int)
    }
}

/// The signed 64-bit integer that a text stands for, if it stands for one
/// that fits.
pub open spec fn parse_i64_spec(s: Seq<char>) -> Option<i64> {
    match parse_int(s) {
        Some(v) => if i64::MIN <= v <= i64::MAX {
            Some(v as i64)
        } else {
            None
        },
        None => None,
    }
}

/// The signed 32-bit integer that a text stands for, if it stands for one
/// that fits.
pub open spec fn parse_i32_spec(s: Seq<char>) -> Option<i32> {
    match parse_int(s) {
        Some(v) => if i32::MIN <= v <= i32::MAX {
            Some(v as i32)
        } else {
            None
        },
        None => None,
    }
}

/// Whether a text holds no colon.
pub open spec fn no_colon(s: Seq<char>) -> bool {
    forall|i: int| 0 <= i < s.len() ==> #[trigger] s[i] != ':'
}

/// The length of the first field: the position of the first colon, or the
/// length of the text where it holds none.
pub open spec fn field_end(s: Seq<char>) -> nat
    decreases s.len(),
{
    if s.len() == 0 || s[0] == ':' {
        0
    } else {
        1 + field_end(s.drop_first())
    }
}

/// The text before the first colon.
pub open spec fn first_field(s: Seq<char>) -> Seq<char> {
    s.subrange(0, field_end(s) as int)
}

/// The text after the first colon, if there is a colon.
pub open spec fn after_first_field(s: Seq<char>) -> Option<Seq<char>> {
    if field_end(s) < s.len() {
        Some(s.subrange(field_end(s) as int + 1, s.len() as int))
    } else {
        None
    }
}

/// A text without a colon is its own first field, also when a colon and
/// more text follow it.
pub proof fn lemma_field_end_plain(a: Seq<char>, rest: Seq<char>)
    requires
        no_colon(a),
    ensures
        field_end(a) == a.len(),
        field_end(a + seq![':'] + rest) == a.len(),
        first_field(a) == a,
        after_first_field(a) == None::<Seq<char>>,
        first_field(a + seq![':'] + rest) == a,
        after_first_field(a + seq![':'] + rest) == Some(rest),
    decreases a.len(),
{
    let s = a + seq![':'] + rest;
    if a.len() == 0 {
        assert(s[0] == ':');
    } else {
        let b = a.drop_first();
        assert(a[0] != ':');
        assert forall|i: int| 0 <= i < b.len() implies #[trigger] b[i] != ':' by {
            assert(b[i] == a[i + 1]);
        }
        lemma_field_end_plain(b, rest);
        assert(s[0] == a[0]);
        assert(s.drop_first() =~= b + seq![':'] + rest);
    }
    assert(a.subrange(0, a.len() as int) =~= a);
    assert(s.subrange(0, a.len() as int) =~= a);
    assert(s.subrange(a.len() as int + 1, s.len() as int) =~= rest);
}

/// The digits of a number are digits, and stand for that number.
pub proof fn lemma_digits(n: nat)
    ensures
        digits(n).len() > 0,
        all_digits(digits(n)),
        digits_value(digits(n)) == n,
    decreases n,
{
    if n < 10 {
        let s = digits(n);
        assert(s.drop_last() =~= Seq::<char>::empty());
        assert(digits_value(s.drop_last()) == 0);
        assert(s.last() == digit_char(n as int));
    } else {
        lemma_digits(n / 10);
        let s = digits(n);
        assert(s.drop_last() =~= digits(n / 10));
        assert(s.last() == digit_char((n % 10) as int));
    }
}

/// Reading the decimal text of an integer gives the integer back, and the
/// text holds no colon.
pub proof fn lemma_parse_decimal(v: int)
    ensures
        parse_int(decimal(v)) == Some(v),
        no_colon(decimal(v)),
        decimal(v).len() > 0,
{
    if v < 0 {
        let n = (-v) as nat;
        lemma_digits(n);
        let s = decimal(v);
        assert(s[0] == '-');
        assert(s.subrange(1, s.len() as int) =~= digits(n));
        assert forall|i: int| 0 <= i < s.len() implies #[trigger] s[i] != ':' by {
            if i > 0 {
                assert(s[i] == digits(n)[i - 1]);
            }
        }
    } else {
        let n = v as nat;
        lemma_digits(n);
        let s = decimal(v);
        assert(is_digit(s[0]));
    }
}

/// Two integers with the same decimal text are the same integer.
pub proof fn lemma_decimal_injective(a: int, b: int)
    requires
        decimal(a) == decimal(b),
    ensures
        a == b,
{
    lemma_parse_decimal(a);
    lemma_parse_decimal(b);
}

fn digit_str(d: u8) -> (r: &'static str)
    requires
        d < 10,
    ensures
        r@ == seq![digit_char(d as int)],
{
    proof {
        reveal_strlit("0");
        reveal_strlit("1");
        reveal_strlit("2");
        reveal_strlit("3");
        reveal_strlit("4");
        reveal_strlit("5");
        reveal_strlit("6");
        reveal_strlit("7");
        reveal_strlit("8");
        reveal_strlit("9");
    }
    let r = if d == 0 {
        "0"
    } else if d == 1 {
        "1"
    } else if d == 2 {
        "2"
    } else if d == 3 {
        "3"
    } else if d == 4 {
        "4"
    } else if d == 5 {
        "5"
    } else if d == 6 {
        "6"
    } else if d == 7 {
        "7"
    } else if d == 8 {
        "8"
    } else {
        "9"
    };
    assert(r@ =~= seq![digit_char(d as int)]);
    r
}

fn push_digits(out: &mut String, n: u64)
    ensures
        final(out)@ == old(out)@ + digits(n as nat),
    decreases n,
{
    if n >= 10 {
        push_digits(out, n / 10);
    }
    out.append(digit_str((n % 10) as u8));
    proof {
        if n >= 10 {
            assert(final(out)@ =~= old(out)@ + digits(n as nat));
        }
    }
}

/// Appends the decimal text of `v` to `out`.
pub fn push_decimal(out: &mut String, v: i64)
    ensures
        final(out)@ == old(out)@ + decimal(v as int),
{
    if v < 0 {
        proof {
            reveal_strlit("-");
        }
        out.append("-");
        let magnitude: u64 = if v == i64::MIN {
            9223372036854775808u64
        } else {
            (-v) as u64
        };
        push_digits(out, magnitude);
        assert(final(out)@ =~= old(out)@ + decimal(v as int));
    } else {
        push_digits(out, v as u64);
    }
}

/// The decimal text of `v`.
pub fn render_decimal(v: i64) -> (r: String)
    ensures
        r@ == decimal(v as int),
{
    let mut out = String::new();
    push_decimal(&mut out, v);
    assert(out@ =~= decimal(v as int));
    out
}

/// Reads a signed 64-bit integer: `Some` exactly for an optional sign
/// followed by digits whose value fits.
pub fn parse_i64(s: &str) -> (r: Option<i64>)
    ensures
        r == parse_i64_spec(s@),
{
    let n = s.unicode_len();
    if n == 0 {
        return None;
    }
    let first = s.get_char(0);
    let negative = first == '-';
    let start: usize = if first == '-' || first == '+' {
        1
    } else {
        0
    };
    let ghost body = unsigned_part(s@);
    assert(body =~= s@.subrange(start as int, n as int));
    if start == n {
        return None;
    }
    let mut acc: u128 = 0;
    let mut over = false;
    let mut i: usize = start;
    assert(body.subrange(0, 0) =~= Seq::<char>::empty());
    while i < n
        invariant
            start <= i <= n,
            n == s@.len(),
            body == s@.subrange(start as int, n as int),
            body == unsigned_part(s@),
            negative == (s@[0] == '-'),
            all_digits(body.subrange(0, i - start)),
            !over ==> acc == digits_value(body.subrange(0, i - start)) && acc
                <= 9223372036854775808u128,
            over ==> digits_value(body.subrange(0, i - start)) > 9223372036854775808u128,
        decreases n - i,
    {
        let c = s.get_char(i);
        let code = c as u32;
        if code < 48 || code > 57 {
            proof {
                assert(body[i - start] == c);
                assert(!is_digit(body[i - start]));
                assert(!all_digits(body));
            }
            return None;
        }
        let d = (code - 48) as u128;
        proof {
            let prev = body.subrange(0, i - start);
            let next = body.subrange(0, i + 1 - start);
            assert(next.drop_last() =~= prev);
            assert(next.last() == c);
            assert(digits_value(next) == digits_value(prev) * 10 + d);
            assert forall|k: int| 0 <= k < next.len() implies is_digit(#[trigger] next[k]) by {
                if k < prev.len() {
                    assert(next[k] == prev[k]);
                }
            }
        }
        if !over {
            let grown = acc * 10 + d;
            if grown > 9223372036854775808u128 {
                over = true;
            } else {
                acc = grown;
            }
        }
        i += 1;
    }
    assert(body.subrange(0, n - start) =~= body);
    if over {
        None
    } else if negative {
        if acc == 9223372036854775808u128 {
            Some(i64::MIN)
        } else {
            let magnitude = acc as i64;
            Some(-magnitude)
        }
    } else if acc <= 9223372036854775807u128 {
        Some(acc as i64)
    } else {
        None
    }
}

/// Reads a signed 32-bit integer in the same way.
pub fn parse_i32(s: &str) -> (r: Option<i32>)
    ensures
        r == parse_i32_spec(s@),
{
    match parse_i64(s) {
        Some(v) => {
            if v >= -2147483648i64 && v <= 2147483647i64 {
                Some(v as i32)
            } else {
                None
            }
        },
        None => None,
    }
}

/// Splits a text at its first colon: the field before it, and what follows
/// the colon where there is one.
pub fn split_field(s: &str) -> (r: (&str, Option<&str>))
    ensures
        r.0@ == first_field(s@),
        match r.1 {
            Some(rest) => after_first_field(s@) == Some(rest@),
            None => after_first_field(s@) == None::<Seq<char>>,
        },
{
    let n = s.unicode_len();
    let mut i: usize = 0;
    assert(s@.subrange(0, n as int) =~= s@);
    while i < n && s.get_char(i) != ':'
        invariant
            i <= n,
            n == s@.len(),
            field_end(s@) == i + field_end(s@.subrange(i as int, n as int)),
        decreases n - i,
    {
        proof {
            let here = s@.subrange(i as int, n as int);
            assert(here[0] == s@[i as int]);
            assert(here.drop_first() =~= s@.subrange(i + 1, n as int));
        }
        i += 1;
    }
    proof {
        let here = s@.subrange(i as int, n as int);
        if i < n {
            assert(here[0] == s@[i as int]);
        }
        assert(field_end(here) == 0);
    }
    let head = s.substring_char(0, i);
    if i < n {
        let rest = s.substring_char(i + 1, n);
        (head, Some(rest))
    } else {
        (head, None)
    }
}

} // verus!
