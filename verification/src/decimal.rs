//! Decimal numbers as text: reading a declared length, writing a number.

use vstd::prelude::*;
use vstd::string::is_ascii_spec_bytes;
use vstd::utf8::is_ascii_chars;

verus! {

/// `c` is one of `0` to `9`.
pub open spec fn is_digit(c: char) -> bool {
    '0' <= c && c <= '9'
}

/// The number that the digit `c` stands for.
pub open spec fn digit_value(c: char) -> nat {
    (c as u32 - '0' as u32) as nat
}

/// Every character of `text` is a digit.
pub open spec fn all_digits(text: Seq<char>) -> bool {
    forall|i: int| 0 <= i < text.len() ==> is_digit(#[trigger] text[i])
}

/// The number that a run of digits stands for, the most significant digit
/// first. The empty run stands for zero.
pub open spec fn digits_value(digits: Seq<char>) -> nat
    decreases digits.len(),
{
    if digits.len() == 0 {
        0
    } else {
        10 * digits_value(digits.drop_last()) + digit_value(digits.last())
    }
}

/// The length that `text` declares: `text` is one or more digits, with or
/// without a `+` in front, and the number fits in 64 bits. Any other text,
/// one with blanks or a `-` among them, declares nothing.
pub open spec fn declared_length(text: Seq<char>) -> Option<u64> {
    let digits = if text.len() > 0 && text[0] == '+' {
        text.drop_first()
    } else {
        text
    };
    if digits.len() > 0 && all_digits(digits) && digits_value(digits) <= u64::MAX {
        Some(digits_value(digits) as u64)
    } else {
        None
    }
}

/// `c` is an ASCII character and `b` is its code.
spec fn is_ascii_as(c: char, b: u8) -> bool {
    '\0' <= c && c <= '\u{7f}' && c as u8 == b
}

/// The first `k` digits of a run stand for no more than the whole run.
proof fn lemma_prefix_value(digits: Seq<char>, k: int)
    requires
        0 <= k <= digits.len(),
    ensures
        digits_value(digits.take(k)) <= digits_value(digits),
    decreases digits.len(),
{
    if k == digits.len() {
        assert(digits.take(k) =~= digits);
    } else {
        lemma_prefix_value(digits.drop_last(), k);
        assert(digits.drop_last().take(k) =~= digits.take(k));
    }
}

/// One more digit: what the first `k + 1` characters stand for, given the
/// first `k`.
proof fn lemma_next_digit(digits: Seq<char>, k: int)
    requires
        0 <= k < digits.len(),
        all_digits(digits.take(k)),
        is_digit(digits[k]),
    ensures
        all_digits(digits.take(k + 1)),
        digits_value(digits.take(k + 1)) == 10 * digits_value(digits.take(k)) + digit_value(
            digits[k],
        ),
        digits_value(digits.take(k + 1)) <= digits_value(digits),
{
    let longer = digits.take(k + 1);
    assert(longer.drop_last() =~= digits.take(k));
    assert(longer.last() == digits[k]);
    assert forall|i: int| 0 <= i < longer.len() implies is_digit(#[trigger] longer[i]) by {
        if i < k {
            assert(longer[i] == digits.take(k)[i]);
        }
    }
    lemma_prefix_value(digits, k + 1);
}

/// A text with a character outside ASCII declares no length.
proof fn lemma_not_ascii(text: Seq<char>)
    requires
        !is_ascii_chars(text),
    ensures
        declared_length(text) is None,
{
    let i = choose|i: int|
        0 <= i < text.len() && !('\0' <= #[trigger] text[i] && text[i] <= '\u{7f}');
    if text[0] == '+' {
        assert(text.drop_first()[i - 1] == text[i]);
    }
}

/// Reads the length that a header value declares.
pub fn parse_content_length(text: &str) -> (r: Option<u64>)
    ensures
        r == declared_length(text@),
{
    if !text.is_ascii() {
        proof {
            lemma_not_ascii(text@);
        }
        return None;
    }
    let bytes = text.as_bytes();
    let n = bytes.len();
    proof {
        is_ascii_spec_bytes(text);
    }
    if n == 0 {
        return None;
    }
    let start: usize = if bytes[0] == 43 {
        1
    } else {
        0
    };
    let ghost digits = text@.skip(start as int);
    proof {
        assert(digits =~= if text@[0] == '+' {
            text@.drop_first()
        } else {
            text@
        });
        assert forall|j: int| 0 <= j < digits.len() implies is_ascii_as(
            #[trigger] digits[j],
            bytes@[j + start],
        ) by {
            assert('\0' <= text@[j + start] && text@[j + start] <= '\u{7f}');
        }
    }
    if start == n {
        return None;
    }
    let mut value: u64 = 0;
    let mut i: usize = start;
    while i < n
        invariant
            start <= i <= n,
            bytes@.len() == n,
            digits.len() == n - start,
            text@.len() > 0,
            digits == if text@[0] == '+' {
                text@.drop_first()
            } else {
                text@
            },
            forall|j: int|
                0 <= j < digits.len() ==> is_ascii_as(#[trigger] digits[j], bytes@[j + start]),
            all_digits(digits.take(i - start)),
            value == digits_value(digits.take(i - start)),
        decreases n - i,
    {
        let b = bytes[i];
        let ghost c = digits[i - start];
        assert(is_ascii_as(c, b));
        if b < 48 || b > 57 {
            assert(!is_digit(c));
            return None;
        }
        let d = (b - 48) as u64;
        proof {
            assert(is_digit(c));
            assert(digit_value(c) == d);
            lemma_next_digit(digits, i - start);
        }
        if value > (u64::MAX - d) / 10 {
            return None;
        }
        value = value * 10 + d;
        i += 1;
    }
    assert(digits.take(n - start) =~= digits);
    Some(value)
}

/// The digit that stands for `d`, a number below ten.
pub open spec fn digit_char(d: nat) -> char {
    if d == 0 {
        '0'
    } else if d == 1 {
        '1'
    } else if d == 2 {
        '2'
    } else if d == 3 {
        '3'
    } else if d == 4 {
        '4'
    } else if d == 5 {
        '5'
    } else if d == 6 {
        '6'
    } else if d == 7 {
        '7'
    } else if d == 8 {
        '8'
    } else {
        '9'
    }
}

/// `n` in decimal digits, without leading zeros.
pub open spec fn decimal(n: nat) -> Seq<char>
    decreases n,
{
    if n < 10 {
        seq![digit_char(n)]
    } else {
        decimal(n / 10).push(digit_char(n % 10))
    }
}

fn digit_str(d: u64) -> (r: &'static str)
    requires
        d < 10,
    ensures
        r@ == seq![digit_char(d as nat)],
{
    let r = if d == 0 {
        "0"
    } else if d == 1 {
        "1"
    } else if d == 2 {
        "2"
    } else if d == 3 {
        "3"
    } else if d == 4 {
        "4"
    } else if d == 5 {
        "5"
    } else if d == 6 {
        "6"
    } else if d == 7 {
        "7"
    } else if d == 8 {
        "8"
    } else {
        "9"
    };
    proof {
        reveal_strlit("0");
        reveal_strlit("1");
        reveal_strlit("2");
        reveal_strlit("3");
        reveal_strlit("4");
        reveal_strlit("5");
        reveal_strlit("6");
        reveal_strlit("7");
        reveal_strlit("8");
        reveal_strlit("9");
        assert(r@ =~= seq![digit_char(d as nat)]);
    }
    r
}

/// Writes `n` in decimal digits.
pub fn render_decimal(n: u64) -> (r: String)
    ensures
        r@ == decimal(n as nat),
    decreases n,
{
    if n < 10 {
        String::from_str(digit_str(n))
    } else {
        let mut r = render_decimal(n / 10);
        r.append(digit_str(n % 10));
        assert(r@ =~= decimal(n as nat));
        r
    }
}

/// What was written can be read: the digits of `n` declare the length `n`.
pub proof fn lemma_decimal_declares(n: u64)
    ensures
        declared_length(decimal(n as nat)) == Some(n),
{
    lemma_decimal_value(n as nat);
}

/// The digits of `n` are digits, at least one, and stand for `n`.
proof fn lemma_decimal_value(n: nat)
    ensures
        decimal(n).len() > 0,
        all_digits(decimal(n)),
        digits_value(decimal(n)) == n,
    decreases n,
{
    let digits = decimal(n);
    if n < 10 {
        assert(digits.drop_last() =~= Seq::<char>::empty());
        assert(digits_value(digits.drop_last()) == 0);
        assert(digits.last() == digit_char(n));
    } else {
        lemma_decimal_value(n / 10);
        assert(digits.drop_last() =~= decimal(n / 10));
        assert(digits.last() == digit_char(n % 10));
        assert forall|i: int| 0 <= i < digits.len() implies is_digit(#[trigger] digits[i]) by {
            if i < digits.len() - 1 {
                assert(digits[i] == decimal(n / 10)[i]);
            }
        }
    }
}

} // verus!
