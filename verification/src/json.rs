//! The parts of a JSON document: strings, paths and values that are JSON already.

use vstd::prelude::*;

verus! {

/// Declares `std::path::PathBuf`, a path of the file system.
#[verifier::external_type_specification]
#[verifier::external_body]
pub struct ExPathBuf(std::path::PathBuf);

/// Declares `serde_json::Value`, a JSON value.
#[verifier::external_type_specification]
#[verifier::external_body]
pub struct ExValue(serde_json::Value);

/// Specifies `PathBuf::clone`: the copy is the same path.
pub assume_specification[ <std::path::PathBuf as Clone>::clone ](
    path: &std::path::PathBuf,
) -> (copy: std::path::PathBuf)
    ensures
        copy == *path,
;

/// Specifies `serde_json::Value::clone`: the copy is the same value.
pub assume_specification[ <serde_json::Value as Clone>::clone ](
    value: &serde_json::Value,
) -> (copy: serde_json::Value)
    ensures
        copy == *value,
;

/// The character of a hexadecimal digit, in lower case.
pub open spec fn hex_digit(d: int) -> char {
    if d < 10 {
        ('0' as int + d) as char
    } else {
        ('a' as int + (d - 10)) as char
    }
}

/// How a character stands inside a JSON string.
pub open spec fn escape(c: char) -> Seq<char> {
    if c == '"' {
        seq!['\\', '"']
    } else if c == '\\' {
        seq!['\\', '\\']
    } else if c == '\u{8}' {
        seq!['\\', 'b']
    } else if c == '\t' {
        seq!['\\', 't']
    } else if c == '\n' {
        seq!['\\', 'n']
    } else if c == '\u{c}' {
        seq!['\\', 'f']
    } else if c == '\r' {
        seq!['\\', 'r']
    } else if (c as int) < 0x20 {
        seq!['\\', 'u', '0', '0', hex_digit(c as int / 16), hex_digit(c as int % 16)]
    } else {
        seq![c]
    }
}

/// How a text stands inside a JSON string.
pub open spec fn escaped(text: Seq<char>) -> Seq<char>
    decreases text.len(),
{
    if text.len() == 0 {
        Seq::empty()
    } else {
        escape(text.first()) + escaped(text.drop_first())
    }
}

/// A text as a JSON string.
pub open spec fn quoted(text: Seq<char>) -> Seq<char> {
    seq!['"'] + escaped(text) + seq!['"']
}

/// Calls `serde_json::to_string` on a text. It always succeeds, with the text between quotation
/// marks, in which quotation marks, backslashes and the characters below U+0020 are escaped.
#[verifier::external_body]
pub(crate) fn text_to_json(text: &str) -> (json: Result<String, String>)
    ensures
        json is Ok,
        json->Ok_0@ == quoted(text@),
{
    serde_json::to_string(text).map_err(|e| e.to_string())
}

/// The text that a path holds, as `Path::to_str` gives it: there is none where the path is not
/// Unicode.
pub uninterp spec fn path_text(path: std::path::PathBuf) -> Option<Seq<char>>;

/// Calls `serde_json::to_string` on a path. It succeeds where the path has a text, with that text
/// as a JSON string, and fails with one fixed message where it has none.
#[verifier::external_body]
pub(crate) fn path_to_json(path: &std::path::PathBuf) -> (json: Result<String, String>)
    ensures
        json is Ok <==> path_text(*path) is Some,
        json is Ok ==> json->Ok_0@ == quoted(path_text(*path)->0),
        json is Err ==> json->Err_0@ == "path contains invalid UTF-8 characters"@,
{
    serde_json::to_string(path).map_err(|e| e.to_string())
}

/// What a JSON value holds, as the compact text that `serde_json::to_string` writes for it.
pub uninterp spec fn value_text(value: serde_json::Value) -> Seq<char>;

/// Calls `serde_json::to_string` on a JSON value. It always succeeds, and the text depends on the
/// value alone; how a value is written out is not stated.
#[verifier::external_body]
pub(crate) fn value_to_json(value: &serde_json::Value) -> (json: Result<String, String>)
    ensures
        json is Ok,
        json->Ok_0@ == value_text(*value),
{
    serde_json::to_string(value).map_err(|e| e.to_string())
}

/// Two sequences that begin alike are alike if and only if what follows is.
pub(crate) proof fn same_front(front: Seq<char>, x: Seq<char>, y: Seq<char>)
    requires
        front + x == front + y,
    ensures
        x == y,
{
    assert(x =~= (front + x).skip(front.len() as int));
    assert(y =~= (front + y).skip(front.len() as int));
}

/// No character stands as a prefix of how another stands inside a JSON string.
proof fn escape_is_read_back(c: char, d: char, x: Seq<char>, y: Seq<char>)
    requires
        escape(c) + x == escape(d) + y,
    ensures
        c == d,
        x == y,
{
    let left = escape(c) + x;
    let right = escape(d) + y;
    assert(left[0] == escape(c)[0]);
    assert(right[0] == escape(d)[0]);
    if escape(c).len() > 1 {
        assert(left[1] == escape(c)[1]);
        assert(right[1] == escape(d)[1]);
        if escape(c).len() > 2 {
            assert(left[4] == escape(c)[4] && left[5] == escape(c)[5]);
            assert(right[4] == escape(d)[4] && right[5] == escape(d)[5]);
        }
    }
    same_front(escape(c), x, y);
}

/// A text inside a JSON string is told by what stands up to the closing quotation mark.
proof fn escaped_is_read_back(a: Seq<char>, b: Seq<char>, x: Seq<char>, y: Seq<char>)
    requires
        escaped(a) + (seq!['"'] + x) == escaped(b) + (seq!['"'] + y),
    ensures
        a == b,
        x == y,
    decreases a.len(),
{
    let p = seq!['"'] + x;
    let q = seq!['"'] + y;
    let left = escaped(a) + p;
    let right = escaped(b) + q;
    if a.len() == 0 || b.len() == 0 {
        assert(a.len() == 0 ==> left[0] == '"');
        assert(b.len() == 0 ==> right[0] == '"');
        assert(a.len() > 0 ==> left[0] == escape(a.first())[0]);
        assert(b.len() > 0 ==> right[0] == escape(b.first())[0]);
        assert(a =~= b);
        assert(left =~= p);
        assert(right =~= q);
        same_front(seq!['"'], x, y);
    } else {
        let ta = escaped(a.drop_first());
        let tb = escaped(b.drop_first());
        assert(left =~= escape(a.first()) + (ta + p));
        assert(right =~= escape(b.first()) + (tb + q));
        escape_is_read_back(a.first(), b.first(), ta + p, tb + q);
        escaped_is_read_back(a.drop_first(), b.drop_first(), x, y);
        assert(a =~= seq![a.first()] + a.drop_first());
        assert(b =~= seq![b.first()] + b.drop_first());
    }
}

/// A JSON string tells its text, and where it ends.
pub proof fn quoted_is_read_back(a: Seq<char>, b: Seq<char>, x: Seq<char>, y: Seq<char>)
    requires
        quoted(a) + x == quoted(b) + y,
    ensures
        a == b,
        x == y,
{
    assert(quoted(a) + x =~= seq!['"'] + (escaped(a) + (seq!['"'] + x)));
    assert(quoted(b) + y =~= seq!['"'] + (escaped(b) + (seq!['"'] + y)));
    same_front(
        seq!['"'],
        escaped(a) + (seq!['"'] + x),
        escaped(b) + (seq!['"'] + y),
    );
    escaped_is_read_back(a, b, x, y);
}

/// Texts are escaped character by character: a text and another behind it are escaped as each is.
pub proof fn escaping_goes_character_by_character(a: Seq<char>, b: Seq<char>)
    ensures
        escaped(a + b) == escaped(a) + escaped(b),
    decreases a.len(),
{
    if a.len() == 0 {
        assert(a + b =~= b);
        assert(escaped(a) + escaped(b) =~= escaped(b));
    } else {
        assert((a + b).drop_first() =~= a.drop_first() + b);
        escaping_goes_character_by_character(a.drop_first(), b);
        assert(escaped(a + b) =~= escaped(a) + escaped(b));
    }
}

/// A character stands for itself inside a JSON string unless it is a quotation mark, a backslash or
/// a control character of ASCII below the space. Those two stand behind a backslash, five of the
/// control characters have a letter, and the others are written by their number.
pub proof fn characters_are_escaped_as_json(c: char)
    ensures
        c != '"' && c != '\\' && c >= ' ' ==> escaped(seq![c]) == seq![c],
        c == '"' || c == '\\' ==> escaped(seq![c]) == seq!['\\', c],
        escaped(seq!['\u{8}']) == seq!['\\', 'b'],
        escaped(seq!['\t']) == seq!['\\', 't'],
        escaped(seq!['\n']) == seq!['\\', 'n'],
        escaped(seq!['\u{c}']) == seq!['\\', 'f'],
        escaped(seq!['\r']) == seq!['\\', 'r'],
        c < ' ' && !(c == '\u{8}' || c == '\t' || c == '\n' || c == '\u{c}' || c == '\r')
            ==> escaped(seq![c]) == seq![
            '\\',
            'u',
            '0',
            '0',
            if (c as int) < 16 {
                '0'
            } else {
                '1'
            },
            seq![
                '0',
                '1',
                '2',
                '3',
                '4',
                '5',
                '6',
                '7',
                '8',
                '9',
                'a',
                'b',
                'c',
                'd',
                'e',
                'f',
            ][c as int % 16],
        ],
{
    reveal_with_fuel(escaped, 2);
    assert forall|d: char| #[trigger] escaped(seq![d]) == escape(d) by {
        assert(seq![d].drop_first() =~= Seq::<char>::empty());
        assert(escape(d) + Seq::<char>::empty() =~= escape(d));
    }
}

/// A JSON string is the escaped text between quotation marks.
pub proof fn strings_stand_between_quotation_marks(text: Seq<char>)
    ensures
        quoted(text) == seq!['"'] + escaped(text) + seq!['"'],
        escaped(Seq::<char>::empty()) == Seq::<char>::empty(),
{
}

} // verus!
