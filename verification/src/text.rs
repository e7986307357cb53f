//! Operations on strings and characters that the rest of the library
//! builds its texts with.

use vstd::prelude::*;
use vstd::string::StringExecFns;

verus! {

/// Whether `c` has the Unicode property `White_Space`.
pub open spec fn is_white_space(c: char) -> bool {
    let u = c as u32;
    ||| 0x09 <= u <= 0x0d
    ||| u == 0x20
    ||| u == 0x85
    ||| u == 0xa0
    ||| u == 0x1680
    ||| 0x2000 <= u <= 0x200a
    ||| u == 0x2028
    ||| u == 0x2029
    ||| u == 0x202f
    ||| u == 0x205f
    ||| u == 0x3000
}

/// Calls `char::is_whitespace`, which tells whether the character has the
/// Unicode property `White_Space`.
#[verifier::external_body]
pub(crate) fn char_is_whitespace(c: char) -> (white: bool)
    ensures
        white == is_white_space(c),
{
    c.is_whitespace()
}

/// Calls `String::push`, which appends one character.
#[verifier::external_body]
pub(crate) fn push_char(text: &mut String, c: char)
    ensures
        final(text)@ == old(text)@.push(c),
{
    text.push(c)
}

/// Calls `String::from_utf8`, which accepts exactly the valid UTF-8 byte
/// strings and gives the text whose bytes they are.
#[verifier::external_body]
pub(crate) fn string_from_utf8(bytes: Vec<u8>) -> (text: Option<String>)
    ensures
        text is Some <==> vstd::utf8::valid_utf8(bytes@),
        text matches Some(s) ==> vstd::utf8::encode_utf8(s@) == bytes@,
{
    String::from_utf8(bytes).ok()
}

/// The characters of a text, in order.
pub fn chars_of(text: &str) -> (chars: Vec<char>)
    ensures
        chars@ == text@,
{
    let mut chars: Vec<char> = Vec::new();
    for c in it: text.chars()
        invariant
            it.seq() == text@,
            chars@ == text@.take(it.index() as int),
    {
        chars.push(c);
        assert(text@.take(it.index() + 1) =~= text@.take(it.index() as int).push(c));
    }
    assert(text@.take(text@.len() as int) =~= text@);
    chars
}

/// Whether two texts are the same.
pub fn same_text(a: &str, b: &str) -> (same: bool)
    ensures
        same == (a@ == b@),
{
    a.to_owned() == b.to_owned()
}

/// The text `head` followed by `tail`.
pub fn concat(head: &str, tail: &str) -> (joined: String)
    ensures
        joined@ == head@ + tail@,
{
    let mut joined = head.to_owned();
    joined.append(tail);
    joined
}

/// The character of a decimal digit.
pub open spec fn digit_char(d: nat) -> char {
    if d == 0 {
        '0'
    } else if d == 1 {
        '1'
    } else if d == 2 {
        '2'
    } else if d == 3 {
        '3'
    } else if d == 4 {
        '4'
    } else if d == 5 {
        '5'
    } else if d == 6 {
        '6'
    } else if d == 7 {
        '7'
    } else if d == 8 {
        '8'
    } else {
        '9'
    }
}

/// The decimal numeral of `n`, without leading zeros.
pub open spec fn decimal(n: nat) -> Seq<char>
    decreases n,
{
    if n < 10 {
        seq![digit_char(n)]
    } else {
        decimal(n / 10).push(digit_char(n % 10))
    }
}

fn digit(d: u64) -> (c: char)
    requires
        d < 10,
    ensures
        c == digit_char(d as nat),
{
    if d == 0 {
        '0'
    } else if d == 1 {
        '1'
    } else if d == 2 {
        '2'
    } else if d == 3 {
        '3'
    } else if d == 4 {
        '4'
    } else if d == 5 {
        '5'
    } else if d == 6 {
        '6'
    } else if d == 7 {
        '7'
    } else if d == 8 {
        '8'
    } else {
        '9'
    }
}

/// Writes `n` as a decimal numeral.
pub fn decimal_text(n: u64) -> (text: String)
    ensures
        text@ == decimal(n as nat),
    decreases n,
{
    if n < 10 {
        let mut text = String::new();
        push_char(&mut text, digit(n));
        assert(text@ =~= seq![digit_char(n as nat)]);
        text
    } else {
        let mut text = decimal_text(n / 10);
        push_char(&mut text, digit(n % 10));
        text
    }
}

/// The report of an error and of what caused it: the message, an empty
/// line, and one entry for each cause, outermost first.
pub open spec fn chain_text(message: Seq<char>, causes: Seq<Seq<char>>) -> Seq<char>
    decreases causes.len(),
{
    if causes.len() == 0 {
        message + "\n\n"@
    } else {
        chain_text(message, causes.drop_last()) + "Caused by:\n\t"@ + causes.last() + "\n"@
    }
}

/// Writes the report of an error: its message and the chain of its
/// causes.
pub fn error_chain_fmt(message: &str, causes: &Vec<String>) -> (report: String)
    ensures
        report@ == chain_text(message@, causes.deep_view()),
{
    let mut report = concat(message, "\n\n");
    let mut i: usize = 0;
    assert(causes.deep_view().take(0) =~= Seq::<Seq<char>>::empty());
    while i < causes.len()
        invariant
            i <= causes.len(),
            report@ == chain_text(message@, causes.deep_view().take(i as int)),
        decreases causes.len() - i,
    {
        report.append("Caused by:\n\t");
        report.append(causes[i].as_str());
        report.append("\n");
        proof {
            let all = causes.deep_view();
            assert(all.take(i + 1).drop_last() =~= all.take(i as int));
            assert(all.take(i + 1).last() == causes@[i as int]@);
        }
        i += 1;
    }
    assert(causes.deep_view().take(causes.len() as int) =~= causes.deep_view());
    report
}

/// A list that holds one text.
pub fn one_cause(text: &str) -> (causes: Vec<String>)
    ensures
        causes.deep_view() == seq![text@],
{
    let mut causes: Vec<String> = Vec::new();
    causes.push(text.to_owned());
    assert(causes.deep_view() =~= seq![text@]);
    causes
}

/// Appends one text to a list of causes.
pub fn push_cause(causes: &mut Vec<String>, text: String)
    ensures
        final(causes).deep_view() == old(causes).deep_view().push(text@),
{
    let ghost before = causes.deep_view();
    let ghost items = causes@;
    causes.push(text);
    proof {
        let after = causes.deep_view();
        assert(after.len() == before.len() + 1);
        assert forall|i: int| 0 <= i < after.len() implies after[i] == before.push(text@)[i] by {
            if i < before.len() {
                assert(causes@[i] == items[i]);
                assert(before[i] == items[i].deep_view());
            }
        }
        assert(after =~= before.push(text@));
    }
}

/// The report of an error that shows its first cause as its own message.
pub open spec fn transparent_text(causes: Seq<Seq<char>>) -> Seq<char> {
    if causes.len() == 0 {
        chain_text(Seq::empty(), Seq::empty())
    } else {
        chain_text(causes[0], causes.skip(1))
    }
}

/// Writes the report of an error that shows its first cause as its own
/// message, and the others as its causes.
pub fn transparent_report(causes: &Vec<String>) -> (report: String)
    ensures
        report@ == transparent_text(causes.deep_view()),
{
    if causes.len() == 0 {
        let none: Vec<String> = Vec::new();
        assert(none.deep_view() =~= Seq::<Seq<char>>::empty());
        let empty = String::new();
        error_chain_fmt(empty.as_str(), &none)
    } else {
        let mut rest: Vec<String> = Vec::new();
        let mut i: usize = 1;
        assert(rest.deep_view() =~= causes.deep_view().skip(1).take(0));
        while i < causes.len()
            invariant
                1 <= i <= causes.len(),
                rest.deep_view() == causes.deep_view().skip(1).take(i - 1),
            decreases causes.len() - i,
        {
            push_cause(&mut rest, causes[i].clone());
            proof {
                let all = causes.deep_view().skip(1);
                assert(all.take(i as int) =~= all.take(i - 1).push(causes@[i as int]@));
            }
            i += 1;
        }
        proof {
            let all = causes.deep_view().skip(1);
            assert(all.take(causes.len() - 1) =~= all);
            assert(causes.deep_view()[0] == causes@[0]@);
        }
        error_chain_fmt(causes[0].as_str(), &rest)
    }
}

} // verus!
