//! Decimal text of integers, as it stands in tokens and log lines.

use vstd::prelude::*;
use vstd::string::*;

verus! {

/// The character of one decimal digit.
pub open spec fn digit_char(d: int) -> char {
    if d == 0 {
        '0'
    } else if d == 1 {
        '1'
    } else if d == 2 {
        '2'
    } else if d == 3 {
        '3'
    } else if d == 4 {
        '4'
    } else if d == 5 {
        '5'
    } else if d == 6 {
        '6'
    } else if d == 7 {
        '7'
    } else if d == 8 {
        '8'
    } else {
        '9'
    }
}

/// The decimal digits of a natural number, most significant first, without
/// leading zeros.
pub open spec fn decimal_digits(n: nat) -> Seq<char>
    decreases n,
{
    if n < 10 {
        seq![digit_char(n as int)]
    } else {
        decimal_digits(n / 10).push(digit_char((n % 10) as int))
    }
}

/// The decimal text of an integer: a minus sign for a negative number, then
/// its digits.
pub open spec fn decimal(n: int) -> Seq<char> {
    if n < 0 {
        seq!['-'] + decimal_digits((-n) as nat)
    } else {
        decimal_digits(n as nat)
    }
}

/// Whether a character is one of the ten decimal digits.
pub open spec fn is_digit(c: char) -> bool {
    c == '0' || c == '1' || c == '2' || c == '3' || c == '4' || c == '5' || c == '6' || c == '7'
        || c == '8' || c == '9'
}

/// The text of one decimal digit.
fn digit_str(d: u64) -> (s: &'static str)
    requires
        d < 10,
    ensures
        s@ == seq![digit_char(d as int)],
{
    proof {
        reveal_strlit("0");
        reveal_strlit("1");
        reveal_strlit("2");
        reveal_strlit("3");
        reveal_strlit("4");
        reveal_strlit("5");
        reveal_strlit("6");
        reveal_strlit("7");
        reveal_strlit("8");
        reveal_strlit("9");
    }
    let s = if d == 0 {
        "0"
    } else if d == 1 {
        "1"
    } else if d == 2 {
        "2"
    } else if d == 3 {
        "3"
    } else if d == 4 {
        "4"
    } else if d == 5 {
        "5"
    } else if d == 6 {
        "6"
    } else if d == 7 {
        "7"
    } else if d == 8 {
        "8"
    } else {
        "9"
    };
    assert(s@ =~= seq![digit_char(d as int)]);
    s
}

/// Appends the decimal digits of `n` to `out`.
pub fn push_digits(out: &mut String, n: u64)
    ensures
        final(out)@ == old(out)@ + decimal_digits(n as nat),
    decreases n,
{
    if n >= 10 {
        push_digits(out, n / 10);
    }
    out.append(digit_str(n % 10));
    assert(out@ =~= old(out)@ + decimal_digits(n as nat));
}

/// Appends the decimal text of `n` to `out`.
pub fn push_decimal(out: &mut String, n: i64)
    ensures
        final(out)@ == old(out)@ + decimal(n as int),
{
    if n < 0 {
        proof {
            reveal_strlit("-");
        }
        out.append("-");
        let magnitude: u64 = if n == i64::MIN {
            0x8000_0000_0000_0000
        } else {
            (-n) as u64
        };
        push_digits(out, magnitude);
        assert(out@ =~= old(out)@ + decimal(n as int));
    } else {
        push_digits(out, n as u64);
    }
}

/// The decimal text of `n`.
pub fn decimal_string(n: i64) -> (s: String)
    ensures
        s@ == decimal(n as int),
{
    let mut s = String::new();
    push_decimal(&mut s, n);
    assert(s@ =~= decimal(n as int));
    s
}

/// A natural number without its trailing zeros.
pub open spec fn stripped(n: nat) -> nat
    decreases n,
{
    if n >= 10 && n % 10 == 0 {
        stripped(n / 10)
    } else {
        n
    }
}

/// A number in scientific notation with its sign: the sign, the first digit,
/// a point and the digits up to the last that is not zero (the point only
/// where such digits follow), the letter e and the power of ten.
pub open spec fn scientific(n: int) -> Seq<char> {
    let magnitude = (if n < 0 {
        -n
    } else {
        n
    }) as nat;
    let digits = decimal_digits(stripped(magnitude));
    let sign = if n < 0 {
        '-'
    } else {
        '+'
    };
    let mantissa = if digits.len() == 1 {
        digits
    } else {
        seq![digits[0], '.'] + digits.subrange(1, digits.len() as int)
    };
    seq![sign] + mantissa + seq!['e'] + decimal_digits((decimal_digits(magnitude).len() - 1) as nat)
}

/// The number of decimal digits of `n`, less one.
fn power_of_ten(n: u64) -> (power: u64)
    ensures
        power == decimal_digits(n as nat).len() - 1,
{
    let mut rest: u64 = n;
    let mut power: u64 = 0;
    while rest >= 10
        invariant
            power + decimal_digits(rest as nat).len() == decimal_digits(n as nat).len(),
            power + rest <= n,
        decreases rest,
    {
        rest = rest / 10;
        power = power + 1;
    }
    power
}

/// `n` without its trailing zeros.
fn strip_zeros(n: u64) -> (rest: u64)
    ensures
        rest == stripped(n as nat),
{
    let mut rest: u64 = n;
    while rest >= 10 && rest % 10 == 0
        invariant
            stripped(rest as nat) == stripped(n as nat),
        decreases rest,
    {
        rest = rest / 10;
    }
    rest
}

/// Appends `n` in scientific notation, with its sign, to `out`.
pub fn push_scientific(out: &mut String, n: i64)
    ensures
        final(out)@ == old(out)@ + scientific(n as int),
{
    proof {
        reveal_strlit("-");
        reveal_strlit("+");
        reveal_strlit(".");
        reveal_strlit("e");
    }
    let magnitude: u64 = if n == i64::MIN {
        0x8000_0000_0000_0000
    } else if n < 0 {
        (-n) as u64
    } else {
        n as u64
    };
    if n < 0 {
        out.append("-");
    } else {
        out.append("+");
    }
    let mut digits = String::new();
    push_digits(&mut digits, strip_zeros(magnitude));
    assert(digits@ =~= decimal_digits(stripped(magnitude as nat)));
    proof {
        lemma_digits_are_digits(stripped(magnitude as nat));
    }
    let count = digits.as_str().unicode_len();
    if count == 1 {
        out.append(digits.as_str());
    } else {
        out.append(digits.as_str().substring_char(0, 1));
        out.append(".");
        out.append(digits.as_str().substring_char(1, count));
    }
    out.append("e");
    push_digits(out, power_of_ten(magnitude));
    assert(out@ =~= old(out)@ + scientific(n as int));
}

/// Every character of a number's digits is a digit, and there is at least one.
pub proof fn lemma_digits_are_digits(n: nat)
    ensures
        decimal_digits(n).len() >= 1,
        forall|i: int| 0 <= i < decimal_digits(n).len() ==> is_digit(#[trigger] decimal_digits(n)[i]),
    decreases n,
{
    if n >= 10 {
        lemma_digits_are_digits(n / 10);
    }
}

/// Two natural numbers with the same digits are the same number.
pub proof fn lemma_digits_injective(a: nat, b: nat)
    requires
        decimal_digits(a) == decimal_digits(b),
    ensures
        a == b,
    decreases a,
{
    lemma_digits_are_digits(a / 10);
    lemma_digits_are_digits(b / 10);
    if a < 10 && b < 10 {
        assert(decimal_digits(a) == seq![digit_char(a as int)]);
        assert(decimal_digits(b) == seq![digit_char(b as int)]);
        assert(seq![digit_char(a as int)][0] == digit_char(a as int));
        assert(seq![digit_char(b as int)][0] == digit_char(b as int));
        assert(digit_char(a as int) == digit_char(b as int));
        assert(a == b);
    } else if a >= 10 && b >= 10 {
        let da = decimal_digits(a / 10);
        let db = decimal_digits(b / 10);
        assert(decimal_digits(a).len() == da.len() + 1);
        assert(decimal_digits(b).len() == db.len() + 1);
        assert(decimal_digits(a).last() == digit_char((a % 10) as int));
        assert(decimal_digits(b).last() == digit_char((b % 10) as int));
        assert(da =~= decimal_digits(a).drop_last());
        assert(db =~= decimal_digits(b).drop_last());
        lemma_digits_injective(a / 10, b / 10);
        assert(a / 10 == b / 10);
        assert(digit_char((a % 10) as int) == digit_char((b % 10) as int));
        assert(a % 10 == b % 10);
        assert(a == b);
    } else if a < 10 {
        assert(decimal_digits(a).len() == 1);
        assert(decimal_digits(b).len() == decimal_digits(b / 10).len() + 1);
    } else {
        assert(decimal_digits(b).len() == 1);
        assert(decimal_digits(a).len() == decimal_digits(a / 10).len() + 1);
    }
}

/// A character in lower case: the capital letters from A to Z become small
/// letters, every other character stays as it is.
pub open spec fn lower_char(c: char) -> char {
    if 'A' <= c && c <= 'Z' {
        ((c as u32) + 32) as char
    } else {
        c
    }
}

/// A text in lower case, character by character.
pub open spec fn lowered_text(text: Seq<char>) -> Seq<char> {
    Seq::new(text.len(), |i: int| lower_char(text[i]))
}

/// `str::to_ascii_lowercase`: a copy of the text in which the letters from A
/// to Z are small and every other character is unchanged.
#[verifier::external_body]
pub(crate) fn ascii_lowercase(text: &str) -> (lowered: String)
    ensures
        lowered@ == lowered_text(text@),
{
    text.to_ascii_lowercase()
}

/// A text that is split at its last hyphen is split in one way only: where
/// two heads, each followed by a hyphen and a tail without hyphens, give the
/// same text, the heads are the same and the tails are the same.
pub proof fn lemma_split_at_last_hyphen(
    head1: Seq<char>,
    tail1: Seq<char>,
    head2: Seq<char>,
    tail2: Seq<char>,
)
    requires
        head1 + seq!['-'] + tail1 == head2 + seq!['-'] + tail2,
        forall|i: int| 0 <= i < tail1.len() ==> tail1[i] != '-',
        forall|i: int| 0 <= i < tail2.len() ==> tail2[i] != '-',
    ensures
        head1 == head2,
        tail1 == tail2,
{
    let text1 = head1 + seq!['-'] + tail1;
    let text2 = head2 + seq!['-'] + tail2;
    assert(text1.len() == head1.len() + 1 + tail1.len());
    assert(text2.len() == head2.len() + 1 + tail2.len());
    assert(text1[head1.len() as int] == '-');
    assert(text2[head2.len() as int] == '-');
    if tail1.len() < tail2.len() {
        let p = head1.len() as int;
        assert(text2[p] == tail2[p - head2.len() - 1]);
        assert(false);
    }
    if tail2.len() < tail1.len() {
        let p = head2.len() as int;
        assert(text1[p] == tail1[p - head1.len() - 1]);
        assert(false);
    }
    assert(head1 =~= text1.subrange(0, head1.len() as int));
    assert(head2 =~= text2.subrange(0, head2.len() as int));
    assert(tail1 =~= text1.subrange(head1.len() as int + 1, text1.len() as int));
    assert(tail2 =~= text2.subrange(head2.len() as int + 1, text2.len() as int));
}

} // verus!
