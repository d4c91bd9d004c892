//! Lines of input and output as text: trimming, and positions in decimal.

use vstd::prelude::*;
use vstd::string::*;

verus! {

/// Whether a character is white space, as Unicode's property `White_Space`
/// has it.
pub open spec fn is_space(c: char) -> bool {
    let n = c as u32;
    ||| 0x09 <= n <= 0x0d
    ||| n == 0x20
    ||| n == 0x85
    ||| n == 0xa0
    ||| n == 0x1680
    ||| 0x2000 <= n <= 0x200a
    ||| n == 0x2028
    ||| n == 0x2029
    ||| n == 0x202f
    ||| n == 0x205f
    ||| n == 0x3000
}

/// How many white-space characters `text` begins with.
pub open spec fn leading_spaces(text: Seq<char>) -> nat
    decreases text.len(),
{
    if text.len() > 0 && is_space(text.first()) {
        1 + leading_spaces(text.drop_first())
    } else {
        0
    }
}

/// How many white-space characters `text` ends with.
pub open spec fn trailing_spaces(text: Seq<char>) -> nat
    decreases text.len(),
{
    if text.len() > 0 && is_space(text.last()) {
        1 + trailing_spaces(text.drop_last())
    } else {
        0
    }
}

/// The text without the white space at its start and at its end.
pub open spec fn trimmed(text: Seq<char>) -> Seq<char> {
    let rest = text.skip(leading_spaces(text) as int);
    rest.take(rest.len() - trailing_spaces(rest))
}

/// Whether a character is one of the ten decimal digits.
pub open spec fn is_digit(c: char) -> bool {
    '0' <= c <= '9'
}

/// Whether a text consists of decimal digits only.
pub open spec fn all_digits(text: Seq<char>) -> bool {
    forall|i: int| 0 <= i < text.len() ==> is_digit(#[trigger] text[i])
}

/// The digit that a character stands for.
pub open spec fn digit_value(c: char) -> nat {
    (c as u32 - '0' as u32) as nat
}

/// The character that stands for a digit.
pub open spec fn digit_char(d: nat) -> char {
    if d == 0 {
        '0'
    } else if d == 1 {
        '1'
    } else if d == 2 {
        '2'
    } else if d == 3 {
        '3'
    } else if d == 4 {
        '4'
    } else if d == 5 {
        '5'
    } else if d == 6 {
        '6'
    } else if d == 7 {
        '7'
    } else if d == 8 {
        '8'
    } else {
        '9'
    }
}

/// The number that a text of decimal digits stands for; leading zeros count
/// for nothing.
pub open spec fn digits_value(digits: Seq<char>) -> nat
    decreases digits.len(),
{
    if digits.len() == 0 {
        0
    } else {
        digits_value(digits.drop_last()) * 10 + digit_value(digits.last())
    }
}

/// The number that a text stands for: one or more decimal digits, with or
/// without a `+` before them. Any other text stands for none.
pub open spec fn number_of(text: Seq<char>) -> Option<nat> {
    let digits = if text.len() > 0 && text[0] == '+' {
        text.drop_first()
    } else {
        text
    };
    if digits.len() > 0 && all_digits(digits) {
        Some(digits_value(digits))
    } else {
        None
    }
}

/// A number in decimal, without sign or leading zeros.
pub open spec fn decimal_of(n: nat) -> Seq<char>
    decreases n,
{
    if n < 10 {
        seq![digit_char(n)]
    } else {
        decimal_of(n / 10).push(digit_char(n % 10))
    }
}

/// Decides [`is_space`].
pub fn is_whitespace(c: char) -> (space: bool)
    ensures
        space == is_space(c),
{
    let n: u32 = c as u32;
    (0x09 <= n && n <= 0x0d) || n == 0x20 || n == 0x85 || n == 0xa0 || n == 0x1680 || (0x2000 <= n
        && n <= 0x200a) || n == 0x2028 || n == 0x2029 || n == 0x202f || n == 0x205f || n == 0x3000
}

/// The characters of a text, one by one.
fn chars_of(text: &str) -> (chars: Vec<char>)
    ensures
        chars@ == text@,
{
    let mut chars: Vec<char> = Vec::new();
    for c in it: text.chars()
        invariant
            chars@ == it.seq().take(it.index() as int),
            it.seq() == text@,
    {
        chars.push(c);
    }
    chars
}

/// Removes the white space at the start and at the end of a text.
pub fn trim(text: &str) -> (middle: &str)
    ensures
        middle@ == trimmed(text@),
{
    let chars = chars_of(text);
    let n = chars.len();
    let mut start: usize = 0;
    assert(text@.skip(0) =~= text@);
    while start < n && is_whitespace(chars[start])
        invariant
            n == chars.len(),
            chars@ == text@,
            start <= n,
            leading_spaces(text@) == start + leading_spaces(text@.skip(start as int)),
        decreases n - start,
    {
        assert(text@.skip(start as int).drop_first() =~= text@.skip(start + 1));
        start += 1;
    }
    let ghost rest = text@.skip(start as int);
    assert(leading_spaces(rest) == 0);
    let mut end: usize = n;
    assert(rest.take(end - start) =~= rest);
    while end > start && is_whitespace(chars[end - 1])
        invariant
            n == chars.len(),
            chars@ == text@,
            rest == text@.skip(start as int),
            start <= end <= n,
            trailing_spaces(rest) == (n - end) + trailing_spaces(rest.take(end - start)),
        decreases end,
    {
        assert(rest.take(end - start).drop_last() =~= rest.take(end - 1 - start));
        end -= 1;
    }
    assert(trailing_spaces(rest.take(end - start)) == 0);
    assert(rest.take(end - start) =~= text@.subrange(start as int, end as int));
    text.substring_char(start, end)
}

/// A text of digits stands for at least as much as any text it begins with.
proof fn lemma_digits_value_grows(digits: Seq<char>, k: int)
    requires
        0 <= k <= digits.len(),
    ensures
        digits_value(digits.take(k)) <= digits_value(digits),
    decreases digits.len(),
{
    if k == digits.len() {
        assert(digits.take(k) =~= digits);
    } else {
        lemma_digits_value_grows(digits.drop_last(), k);
        assert(digits.drop_last().take(k) =~= digits.take(k));
    }
}

/// Reads a number in decimal.
///
/// Gives the number that the text stands for, where it stands for one and
/// the number is not too large for `usize`.
pub fn parse_number(text: &str) -> (number: Option<usize>)
    ensures
        number == match number_of(text@) {
            Some(n) => if n <= usize::MAX {
                Some(n as usize)
            } else {
                None
            },
            None => None,
        },
{
    let chars = chars_of(text);
    let n = chars.len();
    let start: usize = if n > 0 && chars[0] == '+' {
        1
    } else {
        0
    };
    let ghost digits = text@.skip(start as int);
    assert(digits =~= if text@.len() > 0 && text@[0] == '+' {
        text@.drop_first()
    } else {
        text@
    });
    if start == n {
        return None;
    }
    let mut value: usize = 0;
    let mut i: usize = start;
    assert(digits.take(0) =~= Seq::<char>::empty());
    while i < n
        invariant
            n == chars.len(),
            chars@ == text@,
            digits == text@.skip(start as int),
            start <= i <= n,
            start < n,
            number_of(text@) == if all_digits(digits) {
                Some(digits_value(digits))
            } else {
                None
            },
            all_digits(digits.take(i - start)),
            value == digits_value(digits.take(i - start)),
        decreases n - i,
    {
        let c = chars[i];
        let ghost seen = digits.take(i + 1 - start);
        assert(seen.drop_last() =~= digits.take(i - start));
        assert(seen.last() == c);
        if !('0' <= c && c <= '9') {
            assert(!is_digit(digits[i - start]));
            return None;
        }
        let d: usize = (c as u32 - '0' as u32) as usize;
        let next = match value.checked_mul(10) {
            Some(tens) => tens.checked_add(d),
            None => None,
        };
        match next {
            Some(v) => {
                value = v;
            },
            None => {
                assert(digits_value(seen) > usize::MAX);
                proof {
                    if all_digits(digits) {
                        lemma_digits_value_grows(digits, i + 1 - start);
                    }
                }
                return None;
            },
        }
        i += 1;
    }
    assert(digits.take(n - start) =~= digits);
    Some(value)
}

/// The text of one digit.
fn digit_text(d: usize) -> (text: &'static str)
    requires
        d < 10,
    ensures
        text@ == seq![digit_char(d as nat)],
{
    proof {
        reveal_strlit("0");
        reveal_strlit("1");
        reveal_strlit("2");
        reveal_strlit("3");
        reveal_strlit("4");
        reveal_strlit("5");
        reveal_strlit("6");
        reveal_strlit("7");
        reveal_strlit("8");
        reveal_strlit("9");
    }
    let text = if d == 0 {
        "0"
    } else if d == 1 {
        "1"
    } else if d == 2 {
        "2"
    } else if d == 3 {
        "3"
    } else if d == 4 {
        "4"
    } else if d == 5 {
        "5"
    } else if d == 6 {
        "6"
    } else if d == 7 {
        "7"
    } else if d == 8 {
        "8"
    } else {
        "9"
    };
    assert(text@ =~= seq![digit_char(d as nat)]);
    text
}

/// Writes a number in decimal.
pub fn decimal(n: usize) -> (text: String)
    ensures
        text@ == decimal_of(n as nat),
    decreases n,
{
    if n < 10 {
        String::from_str(digit_text(n))
    } else {
        let mut text = decimal(n / 10);
        text.append(digit_text(n % 10));
        assert(text@ =~= decimal_of(n as nat));
        text
    }
}

/// A number written in decimal is a text of digits that stands for it.
proof fn lemma_decimal_digits(n: nat)
    ensures
        decimal_of(n).len() > 0,
        all_digits(decimal_of(n)),
        digits_value(decimal_of(n)) == n,
    decreases n,
{
    if n < 10 {
        assert(decimal_of(n).drop_last() =~= Seq::<char>::empty());
        assert(digits_value(decimal_of(n).drop_last()) == 0);
    } else {
        lemma_decimal_digits(n / 10);
        assert(decimal_of(n).drop_last() =~= decimal_of(n / 10));
    }
}

/// Reading back a number written in decimal gives that number.
pub proof fn lemma_decimal_round_trip(n: nat)
    ensures
        number_of(decimal_of(n)) == Some(n),
{
    lemma_decimal_digits(n);
    assert(is_digit(decimal_of(n)[0]));
}

/// Trimming changes nothing in a text that neither begins nor ends with
/// white space.
pub proof fn lemma_trimmed_unchanged(text: Seq<char>)
    requires
        text.len() > 0 ==> !is_space(text.first()) && !is_space(text.last()),
    ensures
        trimmed(text) == text,
{
    assert(leading_spaces(text) == 0);
    assert(text.skip(0) =~= text);
    assert(trailing_spaces(text) == 0);
    assert(text.take(text.len() as int) =~= text);
}

/// A number written in decimal has no white space to trim.
pub proof fn lemma_decimal_trimmed(n: nat)
    ensures
        trimmed(decimal_of(n)) == decimal_of(n),
{
    lemma_decimal_digits(n);
    let text = decimal_of(n);
    assert(is_digit(text[0]) && is_digit(text[text.len() - 1]));
    lemma_trimmed_unchanged(text);
}

} // verus!
