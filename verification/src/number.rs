//! Whole numbers as decimal text: what the files of a device hold.

use vstd::prelude::*;
use vstd::string::*;

verus! {

/// The characters that count as white space: the Unicode property
/// `White_Space`.
pub open spec fn is_whitespace(c: char) -> bool {
    let code = c as u32;
    (0x09 <= code <= 0x0d) || code == 0x20 || code == 0x85 || code == 0xa0 || code == 0x1680 || (
    0x2000 <= code <= 0x200a) || code == 0x2028 || code == 0x2029 || code == 0x202f || code
        == 0x205f || code == 0x3000
}

/// The text without the white space at its start.
pub open spec fn trimmed_start(text: Seq<char>) -> Seq<char>
    decreases text.len(),
{
    if text.len() > 0 && is_whitespace(text.first()) {
        trimmed_start(text.drop_first())
    } else {
        text
    }
}

/// The text without the white space at its end.
pub open spec fn trimmed_end(text: Seq<char>) -> Seq<char>
    decreases text.len(),
{
    if text.len() > 0 && is_whitespace(text.last()) {
        trimmed_end(text.drop_last())
    } else {
        text
    }
}

/// The text without the white space at its start and at its end.
pub open spec fn trimmed(text: Seq<char>) -> Seq<char> {
    trimmed_end(trimmed_start(text))
}

/// Whether a character is one of `0` to `9`.
pub open spec fn is_digit(c: char) -> bool {
    '0' <= c <= '9'
}

/// Whether a text is made of digits alone.
pub open spec fn is_digits(text: Seq<char>) -> bool {
    forall|i: int| 0 <= i < text.len() ==> is_digit(#[trigger] text[i])
}

/// The number that a run of digits writes in base ten.
pub open spec fn decimal(digits: Seq<char>) -> int
    decreases digits.len(),
{
    if digits.len() == 0 {
        0
    } else {
        decimal(digits.drop_last()) * 10 + (digits.last() as int - '0' as int)
    }
}

/// The number that a text writes: an optional sign, then one digit or
/// more, nothing else, and a value that fits 32 bits.
pub open spec fn parsed_i32(text: Seq<char>) -> Option<i32> {
    let signed = text.len() > 0 && (text.first() == '-' || text.first() == '+');
    let digits = if signed {
        text.drop_first()
    } else {
        text
    };
    let value = if signed && text.first() == '-' {
        -decimal(digits)
    } else {
        decimal(digits)
    };
    if digits.len() == 0 || !is_digits(digits) || value < i32::MIN || value > i32::MAX {
        None
    } else {
        Some(value as i32)
    }
}

/// The digits of a number in base ten, without leading zeros.
pub open spec fn digits_of(n: nat) -> Seq<char>
    decreases n,
{
    if n < 10 {
        seq![('0' as u8 + n as u8) as char]
    } else {
        digits_of(n / 10).push(('0' as u8 + (n % 10) as u8) as char)
    }
}

/// A number as text: its digits, behind `-` where it is negative.
pub open spec fn rendered(value: int) -> Seq<char> {
    if value < 0 {
        seq!['-'] + digits_of((-value) as nat)
    } else {
        digits_of(value as nat)
    }
}

/// Digits write no negative number, and more digits never write less.
pub proof fn lemma_decimal_grows(digits: Seq<char>, upto: int)
    requires
        is_digits(digits),
        0 <= upto <= digits.len(),
    ensures
        0 <= decimal(digits.subrange(0, upto)) <= decimal(digits),
    decreases digits.len() - upto,
{
    lemma_decimal_nonnegative(digits.subrange(0, upto));
    if upto == digits.len() {
        assert(digits.subrange(0, upto) == digits);
    } else {
        lemma_decimal_grows(digits, upto + 1);
        let longer = digits.subrange(0, upto + 1);
        assert(longer.drop_last() == digits.subrange(0, upto));
        assert(is_digit(longer.last()));
    }
}

pub proof fn lemma_decimal_nonnegative(digits: Seq<char>)
    requires
        is_digits(digits),
    ensures
        0 <= decimal(digits),
    decreases digits.len(),
{
    if digits.len() > 0 {
        assert(is_digit(digits.last()));
        assert forall|i: int| 0 <= i < digits.drop_last().len() implies is_digit(
            #[trigger] digits.drop_last()[i],
        ) by {
            assert(digits.drop_last()[i] == digits[i]);
        }
        lemma_decimal_nonnegative(digits.drop_last());
    }
}

fn whitespace(c: char) -> (white: bool)
    ensures
        white == is_whitespace(c),
{
    let code: u32 = c as u32;
    (0x09 <= code && code <= 0x0d) || code == 0x20 || code == 0x85 || code == 0xa0 || code
        == 0x1680 || (0x2000 <= code && code <= 0x200a) || code == 0x2028 || code == 0x2029
        || code == 0x202f || code == 0x205f || code == 0x3000
}

/// Where the text begins once the white space at its start is set aside.
fn start_of(text: &str, len: usize) -> (start: usize)
    requires
        len == text@.len(),
    ensures
        start <= len,
        trimmed_start(text@) == text@.subrange(start as int, len as int),
{
    let mut start: usize = 0;
    assert(text@.subrange(0, len as int) == text@);
    while start < len
        invariant
            len == text@.len(),
            start <= len,
            trimmed_start(text@) == trimmed_start(text@.subrange(start as int, len as int)),
        decreases len - start,
    {
        let ghost rest = text@.subrange(start as int, len as int);
        if !whitespace(text.get_char(start)) {
            assert(rest.first() == text@[start as int]);
            return start;
        }
        assert(rest.first() == text@[start as int]);
        assert(rest.drop_first() == text@.subrange(start + 1, len as int));
        start += 1;
    }
    start
}

/// Where the part of the text from `start` on ends once the white space at
/// its end is set aside.
fn end_of(text: &str, start: usize, len: usize) -> (end: usize)
    requires
        len == text@.len(),
        start <= len,
    ensures
        start <= end <= len,
        trimmed_end(text@.subrange(start as int, len as int)) == text@.subrange(
            start as int,
            end as int,
        ),
{
    let mut end: usize = len;
    while end > start
        invariant
            len == text@.len(),
            start <= end <= len,
            trimmed_end(text@.subrange(start as int, len as int)) == trimmed_end(
                text@.subrange(start as int, end as int),
            ),
        decreases end - start,
    {
        let ghost rest = text@.subrange(start as int, end as int);
        if !whitespace(text.get_char(end - 1)) {
            assert(rest.last() == text@[end - 1]);
            return end;
        }
        assert(rest.last() == text@[end - 1]);
        assert(rest.drop_last() == text@.subrange(start as int, end - 1));
        end -= 1;
    }
    end
}

/// Reads the number that a text writes, white space around it aside.
#[verifier::loop_isolation(false)]
pub fn parse_i32(text: &str) -> (value: Option<i32>)
    ensures
        value == parsed_i32(trimmed(text@)),
{
    let len: usize = text.unicode_len();
    let start: usize = start_of(text, len);
    let end: usize = end_of(text, start, len);
    let ghost body = text@.subrange(start as int, end as int);
    assert(body == trimmed(text@));
    if start == end {
        return None;
    }
    let sign = text.get_char(start);
    assert(body.first() == sign);
    let signed = sign == '-' || sign == '+';
    let negative = sign == '-';
    let first: usize = if signed {
        start + 1
    } else {
        start
    };
    let ghost digits = text@.subrange(first as int, end as int);
    assert(digits == if signed {
        body.drop_first()
    } else {
        body
    });
    if first == end {
        return None;
    }
    let mut at: usize = first;
    let mut value: i64 = 0;
    assert(digits.subrange(0, 0) == Seq::<char>::empty());
    while at < end
        invariant
            len == text@.len(),
            first <= at <= end <= len,
            digits == text@.subrange(first as int, end as int),
            is_digits(digits.subrange(0, at - first)),
            value == decimal(digits.subrange(0, at - first)),
            0 <= value <= 0x8000_0000,
        decreases end - at,
    {
        let c = text.get_char(at);
        let ghost seen = digits.subrange(0, at - first);
        let ghost more = digits.subrange(0, at - first + 1);
        assert(more.drop_last() == seen);
        assert(more.last() == c);
        assert(digits[at - first] == c);
        if !(c >= '0' && c <= '9') {
            assert(!is_digits(digits));
            return None;
        }
        assert(is_digits(more)) by {
            assert forall|i: int| 0 <= i < more.len() implies is_digit(#[trigger] more[i]) by {
                if i < seen.len() {
                    assert(more[i] == seen[i]);
                }
            }
        }
        let digit: i64 = (c as u32 - '0' as u32) as i64;
        value = value * 10 + digit;
        if value > 0x8000_0000 {
            proof {
                if is_digits(digits) {
                    lemma_decimal_grows(digits, at - first + 1);
                }
            }
            return None;
        }
        at += 1;
    }
    assert(digits.subrange(0, end - first) == digits);
    if negative {
        Some((-value) as i32)
    } else if value > 0x7fff_ffff {
        None
    } else {
        Some(value as i32)
    }
}

fn digit_text(digit: u32) -> (text: &'static str)
    requires
        digit < 10,
    ensures
        text@ == seq![('0' as u8 + digit as u8) as char],
{
    proof {
        reveal_strlit("0");
        reveal_strlit("1");
        reveal_strlit("2");
        reveal_strlit("3");
        reveal_strlit("4");
        reveal_strlit("5");
        reveal_strlit("6");
        reveal_strlit("7");
        reveal_strlit("8");
        reveal_strlit("9");
    }
    let text = if digit == 0 {
        "0"
    } else if digit == 1 {
        "1"
    } else if digit == 2 {
        "2"
    } else if digit == 3 {
        "3"
    } else if digit == 4 {
        "4"
    } else if digit == 5 {
        "5"
    } else if digit == 6 {
        "6"
    } else if digit == 7 {
        "7"
    } else if digit == 8 {
        "8"
    } else {
        "9"
    };
    assert(text@ =~= seq![('0' as u8 + digit as u8) as char]);
    text
}

fn render_digits(n: u32) -> (text: String)
    ensures
        text@ == digits_of(n as nat),
    decreases n,
{
    if n < 10 {
        digit_text(n).to_owned()
    } else {
        let mut text = render_digits(n / 10);
        let ghost before = text@;
        text.append(digit_text(n % 10));
        assert(text@ == before.push(('0' as u8 + (n % 10) as u8) as char));
        text
    }
}

/// Writes a number as text.
pub fn render_i32(value: i32) -> (text: String)
    ensures
        text@ == rendered(value as int),
{
    if value < 0 {
        let magnitude: u32 = (-(value as i64)) as u32;
        let mut text = "-".to_owned();
        proof {
            reveal_strlit("-");
            assert("-"@ =~= seq!['-']);
        }
        let digits = render_digits(magnitude);
        text.append(digits.as_str());
        text
    } else {
        render_digits(value as u32)
    }
}

} // verus!
