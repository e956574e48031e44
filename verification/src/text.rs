//! Text that users type into a field, and text that is written for them.

use vstd::prelude::*;

verus! {

/// Characters with the Unicode property `White_Space`.
pub open spec fn is_whitespace(c: char) -> bool {
    ||| '\u{9}' <= c <= '\u{d}'
    ||| c == ' '
    ||| c == '\u{85}'
    ||| c == '\u{a0}'
    ||| c == '\u{1680}'
    ||| '\u{2000}' <= c <= '\u{200a}'
    ||| c == '\u{2028}'
    ||| c == '\u{2029}'
    ||| c == '\u{202f}'
    ||| c == '\u{205f}'
    ||| c == '\u{3000}'
}

/// `s` without its leading whitespace.
pub open spec fn trim_start(s: Seq<char>) -> Seq<char>
    decreases s.len(),
{
    if s.len() > 0 && is_whitespace(s.first()) {
        trim_start(s.drop_first())
    } else {
        s
    }
}

/// `s` without its trailing whitespace.
pub open spec fn trim_end(s: Seq<char>) -> Seq<char>
    decreases s.len(),
{
    if s.len() > 0 && is_whitespace(s.last()) {
        trim_end(s.drop_last())
    } else {
        s
    }
}

/// `s` without whitespace at either end.
pub open spec fn trimmed(s: Seq<char>) -> Seq<char> {
    trim_end(trim_start(s))
}

pub open spec fn is_digit(c: char) -> bool {
    '0' <= c <= '9'
}

pub open spec fn all_digits(digits: Seq<char>) -> bool {
    forall|i: int| 0 <= i < digits.len() ==> is_digit(#[trigger] digits[i])
}

/// The number that a row of decimal digits stands for.
pub open spec fn decimal_value(digits: Seq<char>) -> int
    decreases digits.len(),
{
    if digits.len() == 0 {
        0
    } else {
        10 * decimal_value(digits.drop_last()) + (digits.last() as int - '0' as int)
    }
}

/// What `s` reads as: an optional plus sign, then at least one decimal digit
/// and nothing else, standing for a number of at most 255.
pub open spec fn read_u8(s: Seq<char>) -> Option<u8> {
    let digits = if s.len() > 0 && s.first() == '+' {
        s.drop_first()
    } else {
        s
    };
    if digits.len() > 0 && all_digits(digits) && decimal_value(digits) <= 255 {
        Some(decimal_value(digits) as u8)
    } else {
        None
    }
}

/// The decimal digit for `d`, which is below 10.
pub open spec fn decimal_digit(d: int) -> char {
    ('0' as int + d) as char
}

/// The shortest decimal text of `v`.
pub open spec fn decimal_text(v: int) -> Seq<char>
    decreases v,
{
    if v < 10 {
        seq![decimal_digit(v)]
    } else {
        decimal_text(v / 10).push(decimal_digit(v % 10))
    }
}

/// The lower-case hexadecimal digit for `d`, which is below 16.
pub open spec fn hex_digit(d: int) -> char {
    if d < 10 {
        ('0' as int + d) as char
    } else {
        ('a' as int + d - 10) as char
    }
}

/// Two lower-case hexadecimal digits, the upper four bits first.
pub open spec fn hex_byte_text(b: u8) -> Seq<char> {
    seq![hex_digit(b as int / 16), hex_digit(b as int % 16)]
}

/// What a lower-case hexadecimal digit counts, and -1 for any other character.
pub open spec fn hex_value(c: char) -> int {
    if '0' <= c <= '9' {
        c as int - '0' as int
    } else if 'a' <= c <= 'f' {
        c as int - 'a' as int + 10
    } else {
        -1
    }
}

/// The byte that two hexadecimal digits of `s` stand for, of which the first
/// is at `i`, and -1 where they are no such digits.
pub open spec fn byte_at(s: Seq<char>, i: int) -> int {
    if hex_value(s[i]) >= 0 && hex_value(s[i + 1]) >= 0 {
        16 * hex_value(s[i]) + hex_value(s[i + 1])
    } else {
        -1
    }
}

/// `str::trim` removes whitespace (Unicode `White_Space`) from both ends and
/// keeps everything between.
pub assume_specification[ str::trim ](s: &str) -> (res: &str)
    ensures
        res@ == trimmed(s@),
;

/// `str::parse::<u8>` takes an optional plus sign followed by decimal digits.
/// It fails on anything else, on no digits at all, and on numbers that `u8`
/// cannot hold.
#[verifier::external_body]
pub(crate) fn parse_u8(s: &str) -> (res: Option<u8>)
    ensures
        res == read_u8(s@),
{
    s.parse::<u8>().ok()
}

/// `ToString` of `u8` writes the shortest decimal text.
#[verifier::external_body]
pub(crate) fn u8_to_text(v: u8) -> (res: String)
    ensures
        res@ == decimal_text(v as int),
{
    v.to_string()
}

/// `format!` with `{:02x}` writes a byte as two lower-case hexadecimal digits.
#[verifier::external_body]
pub(crate) fn hex_byte(b: u8) -> (res: String)
    ensures
        res@ == hex_byte_text(b),
{
    format!("{:02x}", b)
}

/// Where the two characters of a byte stand in a text, the byte reads back.
pub proof fn hex_byte_text_reads_back(s: Seq<char>, i: int, b: u8)
    requires
        0 <= i,
        i + 1 < s.len(),
        s[i] == hex_byte_text(b)[0],
        s[i + 1] == hex_byte_text(b)[1],
    ensures
        hex_byte_text(b).len() == 2,
        byte_at(s, i) == b,
{
}

/// Two hexadecimal digits tell the byte that they stand for.
pub proof fn hex_byte_text_is_unambiguous(b1: u8, b2: u8, high: char, low: char)
    requires
        hex_byte_text(b1) == seq![high, low],
        hex_byte_text(b2) == seq![high, low],
    ensures
        b1 == b2,
{
}

/// The decimal text of a byte reads as that byte, also after trimming.
pub proof fn decimal_text_reads_back(v: u8)
    ensures
        read_u8(trimmed(decimal_text(v as int))) == Some(v),
{
    lemma_decimal_text(v as int);
}

proof fn lemma_decimal_text(v: int)
    requires
        0 <= v,
    ensures
        decimal_text(v).len() > 0,
        all_digits(decimal_text(v)),
        decimal_value(decimal_text(v)) == v,
    decreases v,
{
    let digits = decimal_text(v);
    if v < 10 {
        assert(decimal_value(digits.drop_last()) == 0);
    } else {
        lemma_decimal_text(v / 10);
        assert(digits.drop_last() =~= decimal_text(v / 10));
    }
}

/// The characters that count as whitespace, by their code points.
pub proof fn whitespace_by_code_point(c: char)
    ensures
        is_whitespace(c) == {
            let code = c as int;
            ||| 9 <= code <= 13
            ||| code == 32
            ||| code == 133
            ||| code == 160
            ||| code == 5760
            ||| 8192 <= code <= 8202
            ||| code == 8232
            ||| code == 8233
            ||| code == 8239
            ||| code == 8287
            ||| code == 12288
        },
{
}

/// Trimming takes away whitespace and nothing else, at either end, and leaves
/// none there.
pub proof fn trimming_leaves_the_middle(left: Seq<char>, middle: Seq<char>, right: Seq<char>)
    requires
        forall|i: int| 0 <= i < left.len() ==> is_whitespace(#[trigger] left[i]),
        forall|i: int| 0 <= i < right.len() ==> is_whitespace(#[trigger] right[i]),
        middle.len() > 0 ==> !is_whitespace(middle[0]) && !is_whitespace(
            middle[middle.len() - 1],
        ),
    ensures
        trimmed(left + middle + right) == middle,
    decreases left.len() + right.len(),
{
    let whole = left + middle + right;
    if left.len() > 0 {
        let rest = left.drop_first();
        assert(whole.drop_first() =~= rest + middle + right);
        trimming_leaves_the_middle(rest, middle, right);
    } else if middle.len() == 0 && right.len() > 0 {
        assert(whole =~= right);
        assert(whole.drop_first() =~= left + middle + right.drop_first());
        trimming_leaves_the_middle(left, middle, right.drop_first());
    } else {
        lemma_trim_end(middle, right);
        assert(whole =~= middle + right);
    }
}

proof fn lemma_trim_end(middle: Seq<char>, right: Seq<char>)
    requires
        forall|i: int| 0 <= i < right.len() ==> is_whitespace(#[trigger] right[i]),
        middle.len() > 0 ==> !is_whitespace(middle[middle.len() - 1]),
    ensures
        trim_end(middle + right) == middle,
    decreases right.len(),
{
    if right.len() > 0 {
        assert((middle + right).drop_last() =~= middle + right.drop_last());
        lemma_trim_end(middle, right.drop_last());
    } else {
        assert(middle + right =~= middle);
    }
}

/// Every text is what trimming leaves of it, with whitespace before and after.
pub proof fn trimming_takes_whitespace_alone(s: Seq<char>) -> (around: (Seq<char>, Seq<char>))
    ensures
        s == around.0 + trimmed(s) + around.1,
        forall|i: int| 0 <= i < around.0.len() ==> is_whitespace(#[trigger] around.0[i]),
        forall|i: int| 0 <= i < around.1.len() ==> is_whitespace(#[trigger] around.1[i]),
{
    let left = lemma_trim_start_takes(s);
    let right = lemma_trim_end_takes(trim_start(s));
    assert(s =~= left + trimmed(s) + right);
    (left, right)
}

proof fn lemma_trim_start_takes(s: Seq<char>) -> (left: Seq<char>)
    ensures
        s == left + trim_start(s),
        forall|i: int| 0 <= i < left.len() ==> is_whitespace(#[trigger] left[i]),
    decreases s.len(),
{
    if s.len() > 0 && is_whitespace(s.first()) {
        let rest = lemma_trim_start_takes(s.drop_first());
        let left = seq![s.first()] + rest;
        assert(s =~= seq![s.first()] + s.drop_first());
        assert(s =~= left + trim_start(s.drop_first()));
        left
    } else {
        assert(s =~= Seq::<char>::empty() + s);
        Seq::empty()
    }
}

proof fn lemma_trim_end_takes(s: Seq<char>) -> (right: Seq<char>)
    ensures
        s == trim_end(s) + right,
        forall|i: int| 0 <= i < right.len() ==> is_whitespace(#[trigger] right[i]),
    decreases s.len(),
{
    if s.len() > 0 && is_whitespace(s.last()) {
        let rest = lemma_trim_end_takes(s.drop_last());
        let right = rest + seq![s.last()];
        assert(s =~= s.drop_last() + seq![s.last()]);
        assert(s =~= trim_end(s.drop_last()) + right);
        right
    } else {
        assert(s =~= s + Seq::<char>::empty());
        Seq::empty()
    }
}

/// Decimal digits count by their place: one more digit makes what stands
/// before it count ten times as much.
pub proof fn decimal_digits_count_by_place(digits: Seq<char>, last: char)
    ensures
        decimal_value(Seq::empty()) == 0,
        decimal_value(digits.push(last)) == 10 * decimal_value(digits) + (last as int - 48),
        is_digit(last) <==> 48 <= last as int <= 57,
        all_digits(digits.push(last)) <==> all_digits(digits) && is_digit(last),
{
    let longer = digits.push(last);
    assert(longer.drop_last() =~= digits);
    if all_digits(longer) {
        assert forall|i: int| 0 <= i < digits.len() implies is_digit(#[trigger] digits[i]) by {
            assert(longer[i] == digits[i]);
        }
        assert(longer[digits.len() as int] == last);
    }
}

/// A text reads as a byte where it is a row of digits that stands for one,
/// after a plus sign or without it.
pub proof fn digits_read_as_byte(digits: Seq<char>)
    requires
        digits.len() > 0,
        all_digits(digits),
    ensures
        decimal_value(digits) <= 255 ==> read_u8(digits) == Some(decimal_value(digits) as u8),
        decimal_value(digits) <= 255 ==> read_u8(seq!['+'] + digits) == Some(
            decimal_value(digits) as u8,
        ),
        decimal_value(digits) > 255 ==> read_u8(digits) is None,
        decimal_value(digits) > 255 ==> read_u8(seq!['+'] + digits) is None,
        0 <= decimal_value(digits),
{
    assert((seq!['+'] + digits).drop_first() =~= digits);
    assert(is_digit(digits[0]));
    lemma_decimal_value_is_natural(digits);
}

proof fn lemma_decimal_value_is_natural(digits: Seq<char>)
    requires
        all_digits(digits),
    ensures
        0 <= decimal_value(digits),
    decreases digits.len(),
{
    if digits.len() > 0 {
        assert(is_digit(digits[digits.len() - 1]));
        assert(all_digits(digits.drop_last()));
        lemma_decimal_value_is_natural(digits.drop_last());
    }
}

/// Nothing else reads as a byte: no empty text, no lone plus sign, and no text
/// with another character in it.
pub proof fn only_digits_read_as_byte(s: Seq<char>)
    requires
        read_u8(s) is Some,
    ensures
        ({
            let digits = if s[0] == '+' {
                s.skip(1)
            } else {
                s
            };
            &&& digits.len() > 0
            &&& forall|i: int| 0 <= i < digits.len() ==> '0' <= #[trigger] digits[i] <= '9'
            &&& decimal_value(digits) == read_u8(s)->0
        }),
{
    if s[0] == '+' {
        assert(s.drop_first() =~= s.skip(1));
        lemma_decimal_value_is_natural(s.skip(1));
    } else {
        lemma_decimal_value_is_natural(s);
    }
}

/// The decimal text of a number is digits alone, which stand for the number,
/// and starts with a zero for zero alone.
pub proof fn decimal_text_is_shortest(v: int)
    requires
        0 <= v,
    ensures
        decimal_text(v).len() > 0,
        all_digits(decimal_text(v)),
        decimal_value(decimal_text(v)) == v,
        v > 0 ==> decimal_text(v)[0] != '0',
        v == 0 ==> decimal_text(v).len() == 1,
    decreases v,
{
    lemma_decimal_text(v);
    if v >= 10 {
        decimal_text_is_shortest(v / 10);
    }
}

} // verus!
