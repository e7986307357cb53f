//! Validated subscriber data.

use vstd::prelude::*;
use crate::email_grammar::{is_email, valid_email};
use crate::text::{char_is_whitespace, chars_of, concat, is_white_space};

verus! {

/// The number of extended grapheme clusters of a text.
pub uninterp spec fn grapheme_count(text: Seq<char>) -> nat;

/// Calls `graphemes(text, true)` of `unicode_segmentation::UnicodeSegmentation`
/// and counts what it yields: the extended grapheme clusters of the text,
/// a function of the text alone.
#[verifier::external_body]
pub(crate) fn count_graphemes(text: &str) -> (count: usize)
    ensures
        count == grapheme_count(text@),
{
    unicode_segmentation::UnicodeSegmentation::graphemes(text, true).count()
}

/// The longest name accepted, in grapheme clusters.
pub const MAX_NAME_GRAPHEMES: usize = 256;

/// Whether a name may not hold `c`.
pub open spec fn is_forbidden_in_name(c: char) -> bool {
    c == '/' || c == '(' || c == ')' || c == '"' || c == '<' || c == '>' || c == '\\' || c == '{'
        || c == '}'
}

/// Whether every character of `text` is white space; so it is for the
/// empty text.
pub open spec fn is_blank(text: Seq<char>) -> bool {
    forall|i: int| 0 <= i < text.len() ==> is_white_space(#[trigger] text[i])
}

/// Whether `text` holds a character that names may not hold.
pub open spec fn has_forbidden_character(text: Seq<char>) -> bool {
    exists|i: int| 0 <= i < text.len() && is_forbidden_in_name(#[trigger] text[i])
}

/// The rule for subscriber names: not blank, at most 256 grapheme
/// clusters, and none of the forbidden characters.
pub open spec fn valid_name(text: Seq<char>) -> bool {
    &&& !is_blank(text)
    &&& grapheme_count(text) <= MAX_NAME_GRAPHEMES
    &&& !has_forbidden_character(text)
}

fn blank(text: &str) -> (b: bool)
    ensures
        b == is_blank(text@),
{
    let mut b = true;
    for c in it: text.chars()
        invariant
            it.seq() == text@,
            b == (forall|j: int| 0 <= j < it.index() ==> is_white_space(#[trigger] text@[j])),
    {
        if !char_is_whitespace(c) {
            b = false;
        }
    }
    b
}

fn holds_forbidden(text: &str) -> (b: bool)
    ensures
        b == has_forbidden_character(text@),
{
    let mut b = false;
    for c in it: text.chars()
        invariant
            it.seq() == text@,
            b == (exists|j: int| 0 <= j < it.index() && is_forbidden_in_name(#[trigger] text@[j])),
    {
        if c == '/' || c == '(' || c == ')' || c == '"' || c == '<' || c == '>' || c == '\\'
            || c == '{' || c == '}' {
            b = true;
        }
    }
    b
}

/// Decides whether a text of the given number of grapheme clusters is a
/// name: it is not blank, has at most 256 grapheme clusters and holds
/// none of the forbidden characters.
pub fn is_valid_name_of_length(s: &str, graphemes: usize) -> (valid: bool)
    ensures
        valid == (!is_blank(s@) && graphemes <= MAX_NAME_GRAPHEMES && !has_forbidden_character(s@)),
{
    let is_empty_or_whitespace = blank(s);
    let is_too_long = graphemes > MAX_NAME_GRAPHEMES;
    let contains_forbidden_characters = holds_forbidden(s);
    !(is_empty_or_whitespace || is_too_long || contains_forbidden_characters)
}

/// Returns `true` if the input satisfies all the validation constraints
/// on subscriber names, `false` otherwise.
pub fn is_valid_name(s: &str) -> (valid: bool)
    ensures
        valid == valid_name(s@),
{
    is_valid_name_of_length(s, count_graphemes(s))
}

/// A subscriber's display name, which always meets the rule for names.
#[derive(Debug)]
pub struct SubscriberName {
    value: String,
}

/// A subscriber's e-mail address, which is always well formed.
#[derive(Debug)]
pub struct SubscriberEmail {
    value: String,
}

/// The validated data of a subscription request.
#[derive(Debug)]
pub struct NewSubscriber {
    pub email: SubscriberEmail,
    pub name: SubscriberName,
}

/// The message for a rejected name.
pub open spec fn name_rejection(text: Seq<char>) -> Seq<char> {
    text + " is not a valid subscriber name."@
}

/// The message for a rejected e-mail address.
pub open spec fn email_rejection(text: Seq<char>) -> Seq<char> {
    text + " is not a valid subscriber email."@
}

impl View for SubscriberName {
    type V = Seq<char>;

    closed spec fn view(&self) -> Seq<char> {
        self.value@
    }
}

impl View for SubscriberEmail {
    type V = Seq<char>;

    closed spec fn view(&self) -> Seq<char> {
        self.value@
    }
}

impl SubscriberName {
    #[verifier::type_invariant]
    spec fn well_formed(self) -> bool {
        valid_name(self.value@)
    }

    /// Accepts the text as a name exactly if it meets the rule for names;
    /// otherwise the error names the rejected text.
    pub fn parse(s: String) -> (parsed: Result<SubscriberName, String>)
        ensures
            valid_name(s@) ==> parsed is Ok && parsed->Ok_0@ == s@,
            !valid_name(s@) ==> parsed is Err && parsed->Err_0@ == name_rejection(s@),
    {
        if is_valid_name(s.as_str()) {
            Ok(SubscriberName { value: s })
        } else {
            Err(concat(s.as_str(), " is not a valid subscriber name."))
        }
    }

    /// The name as text.
    pub fn as_ref(&self) -> (text: &str)
        ensures
            text@ == self@,
            valid_name(text@),
    {
        proof {
            use_type_invariant(self);
        }
        self.value.as_str()
    }
}

impl SubscriberEmail {
    #[verifier::type_invariant]
    spec fn well_formed(self) -> bool {
        valid_email(self.value@)
    }

    /// Accepts the text as an address exactly if it is well formed;
    /// otherwise the error names the rejected text.
    pub fn parse(s: String) -> (parsed: Result<SubscriberEmail, String>)
        ensures
            valid_email(s@) ==> parsed is Ok && parsed->Ok_0@ == s@,
            !valid_email(s@) ==> parsed is Err && parsed->Err_0@ == email_rejection(s@),
    {
        let chars = chars_of(s.as_str());
        if is_email(chars.as_slice()) {
            Ok(SubscriberEmail { value: s })
        } else {
            Err(concat(s.as_str(), " is not a valid subscriber email."))
        }
    }

    /// The address as text.
    pub fn as_ref(&self) -> (text: &str)
        ensures
            text@ == self@,
            valid_email(text@),
    {
        proof {
            use_type_invariant(self);
        }
        self.value.as_str()
    }
}

} // verus!
