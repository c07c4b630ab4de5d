//! Plain text: equality, decimal numbers, lossy decoding and trimming.

use vstd::prelude::*;
use vstd::string::StrSliceExecFns;
use vstd::string::StringExecFns;

verus! {

/// The characters of an optional text.
pub open spec fn optional(text: Option<&str>) -> Option<Seq<char>> {
    match text {
        Some(t) => Some(t@),
        None => None,
    }
}

/// The characters of an optional owned text.
pub open spec fn optional_owned(text: Option<String>) -> Option<Seq<char>> {
    match text {
        Some(t) => Some(t@),
        None => None,
    }
}

/// Whether two texts hold the same characters.
pub fn same_text(a: &str, b: &str) -> (same: bool)
    ensures
        same == (a@ == b@),
{
    let left = a.as_bytes();
    let right = b.as_bytes();
    proof {
        vstd::utf8::encode_utf8_decode_utf8(a@);
        vstd::utf8::encode_utf8_decode_utf8(b@);
    }
    if left.len() != right.len() {
        return false;
    }
    let mut i: usize = 0;
    while i < left.len()
        invariant
            left@ == vstd::utf8::encode_utf8(a@),
            right@ == vstd::utf8::encode_utf8(b@),
            left@.len() == right@.len(),
            i <= left@.len(),
            forall|k: int| 0 <= k < i ==> left@[k] == right@[k],
        decreases left@.len() - i,
    {
        if left[i] != right[i] {
            return false;
        }
        i += 1;
    }
    assert(left@ =~= right@);
    true
}

/// The character of a decimal digit.
pub open spec fn digit(d: int) -> char {
    ('0' as int + d) as char
}

/// A natural number in decimal notation, without leading zeros.
pub open spec fn decimal(n: nat) -> Seq<char>
    decreases n,
{
    if n < 10 {
        seq![digit(n as int)]
    } else {
        decimal(n / 10).push(digit((n % 10) as int))
    }
}

/// An integer in decimal notation, with a leading `-` where it is negative.
pub open spec fn signed_decimal(n: int) -> Seq<char> {
    if n < 0 {
        seq!['-'] + decimal((-n) as nat)
    } else {
        decimal(n as nat)
    }
}

/// Decimal notation consists of digits.
proof fn decimal_has_digits(n: nat)
    ensures
        decimal(n).len() > 0,
        forall|i: int|
            0 <= i < decimal(n).len() ==> '0' <= #[trigger] decimal(n)[i] && decimal(n)[i] <= '9',
    decreases n,
{
    if n >= 10 {
        decimal_has_digits(n / 10);
    }
}

/// Decimal notation tells the number.
proof fn decimal_is_distinct(m: nat, n: nat)
    requires
        decimal(m) == decimal(n),
    ensures
        m == n,
    decreases m,
{
    decimal_has_digits(m);
    decimal_has_digits(n);
    if m >= 10 {
        decimal_has_digits(m / 10);
    }
    if n >= 10 {
        decimal_has_digits(n / 10);
    }
    assert(decimal(m).last() == digit((m % 10) as int));
    assert(decimal(n).last() == digit((n % 10) as int));
    assert(m % 10 == n % 10);
    if m >= 10 && n >= 10 {
        assert(decimal(m).drop_last() =~= decimal(m / 10));
        assert(decimal(n).drop_last() =~= decimal(n / 10));
        decimal_is_distinct(m / 10, n / 10);
    } else {
        assert(m < 10 ==> decimal(m).len() == 1);
        assert(n < 10 ==> decimal(n).len() == 1);
        assert(m >= 10 ==> decimal(m).len() > 1);
        assert(n >= 10 ==> decimal(n).len() > 1);
    }
}

/// A number that something other than a digit follows is told by what stands up to there.
pub proof fn decimal_is_read_back(m: nat, n: nat, x: Seq<char>, y: Seq<char>)
    requires
        decimal(m) + x == decimal(n) + y,
        x.len() > 0 && !('0' <= x[0] && x[0] <= '9'),
        y.len() > 0 && !('0' <= y[0] && y[0] <= '9'),
    ensures
        m == n,
        x == y,
{
    decimal_has_digits(m);
    decimal_has_digits(n);
    let left = decimal(m) + x;
    let right = decimal(n) + y;
    let k = decimal(m).len() as int;
    let l = decimal(n).len() as int;
    assert(left[k] == x[0]);
    assert(right[l] == y[0]);
    if k < l {
        assert(right[k] == decimal(n)[k]);
    }
    if l < k {
        assert(left[l] == decimal(m)[l]);
    }
    assert(decimal(m) =~= left.take(k));
    assert(decimal(n) =~= right.take(k));
    decimal_is_distinct(m, n);
    assert(x =~= left.skip(k));
    assert(y =~= right.skip(k));
}

/// The text of one decimal digit.
fn digit_text(d: u64) -> (text: &'static str)
    requires
        d < 10,
    ensures
        text@ == seq![digit(d as int)],
{
    proof {
        reveal_strlit("0");
        reveal_strlit("1");
        reveal_strlit("2");
        reveal_strlit("3");
        reveal_strlit("4");
        reveal_strlit("5");
        reveal_strlit("6");
        reveal_strlit("7");
        reveal_strlit("8");
        reveal_strlit("9");
    }
    match d {
        0 => "0",
        1 => "1",
        2 => "2",
        3 => "3",
        4 => "4",
        5 => "5",
        6 => "6",
        7 => "7",
        8 => "8",
        _ => "9",
    }
}

/// Writes a number in decimal notation.
pub fn decimal_text(n: u64) -> (text: String)
    ensures
        text@ == decimal(n as nat),
    decreases n,
{
    if n < 10 {
        digit_text(n).to_owned()
    } else {
        let mut text = decimal_text(n / 10);
        text.append(digit_text(n % 10));
        proof {
            assert(text@ =~= decimal((n / 10) as nat).push(digit((n % 10) as int)));
        }
        text
    }
}

/// Writes a signed number in decimal notation.
pub fn signed_decimal_text(n: i32) -> (text: String)
    ensures
        text@ == signed_decimal(n as int),
{
    if n < 0 {
        let magnitude: u64 = (-(n as i64)) as u64;
        proof {
            reveal_strlit("-");
        }
        let text = "-".to_owned().concat(decimal_text(magnitude).as_str());
        proof {
            assert(text@ =~= seq!['-'] + decimal((-(n as int)) as nat));
        }
        text
    } else {
        decimal_text(n as u64)
    }
}

/// What `String::from_utf8_lossy` makes of a byte sequence.
pub uninterp spec fn lossy_text(bytes: Seq<u8>) -> Seq<char>;

/// The text of a byte sequence: bytes that are valid UTF-8 are decoded as they stand.
pub open spec fn decoded(bytes: Seq<u8>) -> Seq<char> {
    if vstd::utf8::valid_utf8(bytes) {
        vstd::utf8::decode_utf8(bytes)
    } else {
        lossy_text(bytes)
    }
}

/// Calls `String::from_utf8_lossy`. The result depends on the bytes alone, and bytes that are
/// valid UTF-8 are decoded as they stand; what takes the place of an invalid sequence is not
/// stated.
#[verifier::external_body]
pub(crate) fn decode_lossy(bytes: &[u8]) -> (text: String)
    ensures
        text@ == lossy_text(bytes@),
        vstd::utf8::valid_utf8(bytes@) ==> text@ == vstd::utf8::decode_utf8(bytes@),
{
    String::from_utf8_lossy(bytes).into_owned()
}

/// The characters with the Unicode property `White_Space`.
pub open spec fn white_space(c: char) -> bool {
    let code = c as int;
    ||| 0x9 <= code <= 0xD
    ||| code == 0x20
    ||| code == 0x85
    ||| code == 0xA0
    ||| code == 0x1680
    ||| 0x2000 <= code <= 0x200A
    ||| code == 0x2028
    ||| code == 0x2029
    ||| code == 0x202F
    ||| code == 0x205F
    ||| code == 0x3000
}

/// Calls `char::is_whitespace`, which tells whether a character has the Unicode property
/// `White_Space`.
#[verifier::external_body]
fn is_white_space(c: char) -> (answer: bool)
    ensures
        answer == white_space(c),
{
    c.is_whitespace()
}

/// A text without the white space that it begins with.
pub open spec fn trim_start(text: Seq<char>) -> Seq<char>
    decreases text.len(),
{
    if text.len() > 0 && white_space(text.first()) {
        trim_start(text.drop_first())
    } else {
        text
    }
}

/// A text without the white space that it ends with.
pub open spec fn trim_end(text: Seq<char>) -> Seq<char>
    decreases text.len(),
{
    if text.len() > 0 && white_space(text.last()) {
        trim_end(text.drop_last())
    } else {
        text
    }
}

/// A text without the white space at its two ends.
pub open spec fn trim(text: Seq<char>) -> Seq<char> {
    trim_end(trim_start(text))
}

/// The characters of a text, in order.
fn characters(text: &str) -> (chars: Vec<char>)
    ensures
        chars@ == text@,
{
    let mut chars: Vec<char> = Vec::new();
    for c in iter: text.chars()
        invariant
            iter.seq() == text@,
            chars@ == text@.take(iter.index()),
    {
        chars.push(c);
    }
    chars
}

/// Removes the white space at the two ends of a text.
pub fn trim_text(text: &str) -> (trimmed: String)
    ensures
        trimmed@ == trim(text@),
        exists|start: int, end: int|
            0 <= start <= end <= text@.len() && trimmed@ == #[trigger] text@.subrange(start, end)
                && (forall|i: int|
                0 <= i < start || end <= i < text@.len() ==> white_space(#[trigger] text@[i])) && (
            start < end ==> !white_space(text@[start]) && !white_space(text@[end - 1])),
{
    let chars = characters(text);
    let mut start: usize = 0;
    assert(text@.skip(0) =~= text@);
    while start < chars.len() && is_white_space(chars[start])
        invariant
            chars@ == text@,
            start <= chars@.len(),
            trim_start(text@.skip(start as int)) == trim_start(text@),
            forall|i: int| 0 <= i < start ==> white_space(#[trigger] text@[i]),
        decreases chars@.len() - start,
    {
        assert(text@.skip(start as int).drop_first() =~= text@.skip(start + 1));
        start += 1;
    }
    let ghost rest = text@.skip(start as int);
    assert(start < chars.len() ==> !white_space(text@[start as int]));
    let mut end: usize = chars.len();
    assert(text@.subrange(start as int, end as int) =~= rest);
    while start < end && is_white_space(chars[end - 1])
        invariant
            chars@ == text@,
            start <= end <= chars@.len(),
            trim_end(text@.subrange(start as int, end as int)) == trim_end(rest),
            forall|i: int| end <= i < text@.len() ==> white_space(#[trigger] text@[i]),
        decreases end,
    {
        assert(text@.subrange(start as int, end as int).drop_last() =~= text@.subrange(
            start as int,
            end - 1,
        ));
        end -= 1;
    }
    assert(text@.subrange(start as int, end as int).len() == end - start);
    text.substring_char(start, end).to_owned()
}

/// An optional text's characters are those of the text.
pub proof fn optional_texts_keep_their_characters(text: Option<&str>, owned: Option<String>)
    ensures
        text is None ==> optional(text) is None,
        text matches Some(t) ==> optional(text) == Some(t@),
        owned is None ==> optional_owned(owned) is None,
        owned matches Some(t) ==> optional_owned(owned) == Some(t@),
{
}

/// Decimal notation is positional: ten times a number and a digit is written as the number followed
/// by the digit, and a digit alone as itself.
pub proof fn decimal_is_positional(n: nat, d: nat)
    requires
        d < 10,
    ensures
        n > 0 ==> decimal(10 * n + d) == decimal(n).push(('0' as int + d) as char),
        decimal(d) == seq![('0' as int + d) as char],
{
    assert((10 * n + d) / 10 == n);
    assert((10 * n + d) % 10 == d);
}

/// A negative number is written as the number without its sign, behind a `-`.
pub proof fn signs_are_written_in_front(n: nat)
    ensures
        signed_decimal(n as int) == decimal(n),
        n > 0 ==> signed_decimal(-n) == seq!['-'] + decimal(n),
{
}

/// Text in UTF-8 is decoded as it was encoded, and bytes that are not UTF-8 lossily.
pub proof fn utf8_is_decoded_as_encoded(text: Seq<char>, bytes: Seq<u8>)
    ensures
        decoded(vstd::utf8::encode_utf8(text)) == text,
        vstd::utf8::valid_utf8(bytes) ==> vstd::utf8::encode_utf8(decoded(bytes)) == bytes,
        !vstd::utf8::valid_utf8(bytes) ==> decoded(bytes) == lossy_text(bytes),
{
    vstd::utf8::encode_utf8_valid_utf8(text);
    vstd::utf8::encode_utf8_decode_utf8(text);
    if vstd::utf8::valid_utf8(bytes) {
        vstd::utf8::decode_utf8_encode_utf8(bytes);
    }
}

/// White space in ASCII is the tab, the line feed, the vertical tab, the form feed, the carriage
/// return and the space; beyond ASCII there are nineteen more characters.
pub proof fn white_space_is_a_fixed_set(c: char)
    ensures
        white_space(c) <==> seq![
            '\t',
            '\n',
            '\u{b}',
            '\u{c}',
            '\r',
            ' ',
            '\u{85}',
            '\u{a0}',
            '\u{1680}',
            '\u{2000}',
            '\u{2001}',
            '\u{2002}',
            '\u{2003}',
            '\u{2004}',
            '\u{2005}',
            '\u{2006}',
            '\u{2007}',
            '\u{2008}',
            '\u{2009}',
            '\u{200a}',
            '\u{2028}',
            '\u{2029}',
            '\u{202f}',
            '\u{205f}',
            '\u{3000}',
        ].contains(c),
{
    let all = seq![
        '\t',
        '\n',
        '\u{b}',
        '\u{c}',
        '\r',
        ' ',
        '\u{85}',
        '\u{a0}',
        '\u{1680}',
        '\u{2000}',
        '\u{2001}',
        '\u{2002}',
        '\u{2003}',
        '\u{2004}',
        '\u{2005}',
        '\u{2006}',
        '\u{2007}',
        '\u{2008}',
        '\u{2009}',
        '\u{200a}',
        '\u{2028}',
        '\u{2029}',
        '\u{202f}',
        '\u{205f}',
        '\u{3000}',
    ];
    if white_space(c) {
        let code = c as int;
        let i = if code <= 0xD {
            code - 0x9
        } else if code == 0x20 {
            5
        } else if code == 0x85 {
            6
        } else if code == 0xA0 {
            7
        } else if code == 0x1680 {
            8
        } else if code <= 0x200A {
            9 + (code - 0x2000)
        } else if code == 0x2028 {
            20
        } else if code == 0x2029 {
            21
        } else if code == 0x202F {
            22
        } else if code == 0x205F {
            23
        } else {
            24
        };
        assert(all[i] == c);
    }
}

/// What is trimmed at the start of a text is white space, and what is left does not begin with any.
proof fn trim_start_removes_white_space(text: Seq<char>) -> (front: Seq<char>)
    ensures
        text == front + trim_start(text),
        forall|i: int| 0 <= i < front.len() ==> white_space(#[trigger] front[i]),
        trim_start(text).len() > 0 ==> !white_space(trim_start(text).first()),
    decreases text.len(),
{
    if text.len() > 0 && white_space(text.first()) {
        let front = trim_start_removes_white_space(text.drop_first());
        let whole = seq![text.first()] + front;
        assert(text =~= seq![text.first()] + text.drop_first());
        assert(text =~= whole + trim_start(text));
        whole
    } else {
        assert(text =~= Seq::<char>::empty() + text);
        Seq::empty()
    }
}

/// What is trimmed at the end of a text is white space, and what is left does not end with any.
proof fn trim_end_removes_white_space(text: Seq<char>) -> (back: Seq<char>)
    ensures
        text == trim_end(text) + back,
        forall|i: int| 0 <= i < back.len() ==> white_space(#[trigger] back[i]),
        trim_end(text).len() > 0 ==> !white_space(trim_end(text).last()),
    decreases text.len(),
{
    if text.len() > 0 && white_space(text.last()) {
        let back = trim_end_removes_white_space(text.drop_last());
        let whole = back.push(text.last());
        assert(text =~= text.drop_last().push(text.last()));
        assert(text =~= trim_end(text) + whole);
        whole
    } else {
        assert(text =~= text + Seq::<char>::empty());
        Seq::empty()
    }
}

/// A trimmed text is the text without white space at its ends: it and what was removed, which is
/// white space alone, make up the text, and it is empty or neither begins nor ends with white
/// space.
pub proof fn trim_removes_white_space_at_the_ends(text: Seq<char>) -> (removed: (
    Seq<char>,
    Seq<char>,
))
    ensures
        text == removed.0 + trim(text) + removed.1,
        forall|i: int| 0 <= i < removed.0.len() ==> white_space(#[trigger] removed.0[i]),
        forall|i: int| 0 <= i < removed.1.len() ==> white_space(#[trigger] removed.1[i]),
        trim(text).len() > 0 ==> !white_space(trim(text).first()) && !white_space(
            trim(text).last(),
        ),
{
    let front = trim_start_removes_white_space(text);
    let back = trim_end_removes_white_space(trim_start(text));
    assert(text =~= front + trim(text) + back);
    if trim(text).len() > 0 {
        assert(trim_start(text).first() == trim(text).first());
    }
    (front, back)
}

/// There is only one way to trim a text: whatever makes up the text together with white space alone
/// at the ends, and does not itself begin or end with white space, is the trimmed text.
pub proof fn trimming_is_unique(front: Seq<char>, middle: Seq<char>, back: Seq<char>)
    requires
        forall|i: int| 0 <= i < front.len() ==> white_space(#[trigger] front[i]),
        forall|i: int| 0 <= i < back.len() ==> white_space(#[trigger] back[i]),
        middle.len() > 0 ==> !white_space(middle.first()) && !white_space(middle.last()),
    ensures
        trim(front + middle + back) == middle,
{
    let text = front + middle + back;
    let removed = trim_removes_white_space_at_the_ends(text);
    let kept = trim(text);
    let a = front.len() as int;
    let b = a + middle.len();
    let c = removed.0.len() as int;
    let d = c + kept.len();
    assert(text.subrange(a, b) =~= middle);
    assert(text.subrange(c, d) =~= kept);
    assert forall|i: int| 0 <= i < text.len() && !(a <= i < b) implies white_space(
        #[trigger] text[i],
    ) by {
        if i < a {
            assert(text[i] == front[i]);
        } else {
            assert(text[i] == back[i - b]);
        }
    }
    assert forall|i: int| 0 <= i < text.len() && !(c <= i < d) implies white_space(
        #[trigger] text[i],
    ) by {
        if i < c {
            assert(text[i] == removed.0[i]);
        } else {
            assert(text[i] == removed.1[i - d]);
        }
    }
    if middle.len() > 0 {
        assert(text[a] == middle.first());
        assert(text[b - 1] == middle.last());
    }
    if kept.len() > 0 {
        assert(text[c] == kept.first());
        assert(text[d - 1] == kept.last());
    }
    if middle.len() == 0 || kept.len() == 0 {
        assert(middle =~= kept);
    }
}

} // verus!
