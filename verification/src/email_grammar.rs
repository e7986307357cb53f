//! The grammar of e-mail addresses: one or more characters of the local
//! part, `@`, and a domain of labels separated by dots.

use vstd::prelude::*;
use vstd::slice::slice_subrange;

verus! {

/// The longest label of a domain.
pub const MAX_LABEL_LENGTH: usize = 63;

/// Whether `c` is an ASCII letter or digit.
pub open spec fn is_letter_or_digit(c: char) -> bool {
    ('a' <= c <= 'z') || ('A' <= c <= 'Z') || ('0' <= c <= '9')
}

/// Whether `c` may stand in the local part, before the `@`.
pub open spec fn is_local_char(c: char) -> bool {
    ||| is_letter_or_digit(c)
    ||| c == '.'
    ||| c == '!'
    ||| c == '#'
    ||| c == '$'
    ||| c == '%'
    ||| c == '&'
    ||| c == '\''
    ||| c == '*'
    ||| c == '+'
    ||| c == '/'
    ||| c == '='
    ||| c == '?'
    ||| c == '^'
    ||| c == '_'
    ||| c == '`'
    ||| c == '{'
    ||| c == '|'
    ||| c == '}'
    ||| c == '~'
    ||| c == '-'
}

/// Whether `c` may stand in the domain, after the `@`.
pub open spec fn is_domain_char(c: char) -> bool {
    is_letter_or_digit(c) || c == '-' || c == '.'
}

/// A local part: not empty, and made of local characters.
pub open spec fn valid_local_part(local: Seq<char>) -> bool {
    &&& local.len() > 0
    &&& forall|i: int| 0 <= i < local.len() ==> is_local_char(#[trigger] local[i])
}

/// Whether position `i` of a domain is the first or the last of a label:
/// at either end of the domain or next to a dot.
pub open spec fn is_label_edge(domain: Seq<char>, i: int) -> bool {
    i == 0 || i == domain.len() - 1 || domain[i - 1] == '.' || domain[i + 1] == '.'
}

/// Whether no dot stands in `domain` from `from` up to `to`.
pub open spec fn dot_free(domain: Seq<char>, from: int, to: int) -> bool {
    forall|k: int| from <= k < to ==> #[trigger] domain[k] != '.'
}

/// A domain: labels separated by single dots, each label of one to 63
/// letters, digits and hyphens, with no hyphen at its start or end.
pub open spec fn valid_domain(domain: Seq<char>) -> bool {
    &&& domain.len() > 0
    &&& forall|i: int| 0 <= i < domain.len() ==> is_domain_char(#[trigger] domain[i])
    &&& forall|i: int|
        0 <= i < domain.len() && #[trigger] is_label_edge(domain, i) ==> is_letter_or_digit(
            domain[i],
        )
    &&& forall|i: int, j: int|
        0 <= i <= j <= domain.len() && #[trigger] dot_free(domain, i, j) ==> j - i
            <= MAX_LABEL_LENGTH
}

/// Whether `text` parts at position `at` into a local part, `@`, and a
/// domain.
pub open spec fn parts_at(text: Seq<char>, at: int) -> bool {
    &&& 0 <= at < text.len()
    &&& text[at] == '@'
    &&& valid_local_part(text.subrange(0, at))
    &&& valid_domain(text.subrange(at + 1, text.len() as int))
}

/// An e-mail address: a local part, `@`, and a domain.
pub open spec fn valid_email(text: Seq<char>) -> bool {
    exists|at: int| parts_at(text, at)
}

fn letter_or_digit(c: char) -> (b: bool)
    ensures
        b == is_letter_or_digit(c),
{
    ('a' <= c && c <= 'z') || ('A' <= c && c <= 'Z') || ('0' <= c && c <= '9')
}

fn local_char(c: char) -> (b: bool)
    ensures
        b == is_local_char(c),
{
    letter_or_digit(c) || c == '.' || c == '!' || c == '#' || c == '$' || c == '%' || c == '&'
        || c == '\'' || c == '*' || c == '+' || c == '/' || c == '=' || c == '?' || c == '^'
        || c == '_' || c == '`' || c == '{' || c == '|' || c == '}' || c == '~' || c == '-'
}

/// Decides whether `local` is a local part.
pub fn is_local_part(local: &[char]) -> (b: bool)
    ensures
        b == valid_local_part(local@),
{
    if local.len() == 0 {
        return false;
    }
    let mut i: usize = 0;
    while i < local.len()
        invariant
            i <= local.len(),
            forall|j: int| 0 <= j < i ==> is_local_char(#[trigger] local@[j]),
        decreases local.len() - i,
    {
        if !local_char(local[i]) {
            return false;
        }
        i += 1;
    }
    true
}

/// Decides whether `domain` is a domain.
pub fn is_domain(domain: &[char]) -> (b: bool)
    ensures
        b == valid_domain(domain@),
{
    let n = domain.len();
    if n == 0 {
        return false;
    }
    let mut i: usize = 0;
    let mut run: usize = 0;
    let ghost start: int = 0;
    while i < n
        invariant
            n == domain@.len(),
            i <= n,
            0 <= start <= i,
            run == i - start,
            run <= MAX_LABEL_LENGTH,
            start == 0 || domain@[start - 1] == '.',
            dot_free(domain@, start, i as int),
            forall|j: int| 0 <= j < i ==> is_domain_char(#[trigger] domain@[j]),
            forall|j: int|
                0 <= j < i && #[trigger] is_label_edge(domain@, j) ==> is_letter_or_digit(
                    domain@[j],
                ),
            forall|a: int, b: int|
                0 <= a <= b <= i && #[trigger] dot_free(domain@, a, b) ==> b - a
                    <= MAX_LABEL_LENGTH,
        decreases n - i,
    {
        let c = domain[i];
        let plain = letter_or_digit(c);
        if !plain && c != '-' && c != '.' {
            return false;
        }
        let at_edge = i == 0 || i == n - 1 || domain[i - 1] == '.' || domain[i + 1] == '.';
        assert(at_edge == is_label_edge(domain@, i as int));
        if at_edge && !plain {
            return false;
        }
        if c == '.' {
            proof {
                assert forall|a: int, b: int|
                    0 <= a <= b <= i + 1 && #[trigger] dot_free(domain@, a, b) implies b - a
                    <= MAX_LABEL_LENGTH by {
                    if b == i + 1 && a <= i {
                        assert(domain@[i as int] == '.');
                    }
                }
                start = i + 1;
            }
            run = 0;
        } else {
            if run == MAX_LABEL_LENGTH {
                proof {
                    assert(dot_free(domain@, start, i + 1));
                }
                return false;
            }
            proof {
                assert forall|a: int, b: int|
                    0 <= a <= b <= i + 1 && #[trigger] dot_free(domain@, a, b) implies b - a
                    <= MAX_LABEL_LENGTH by {
                    if b == i + 1 {
                        if a < start {
                            assert(domain@[start - 1] == '.');
                        }
                    } else {
                        assert(b <= i);
                    }
                }
            }
            run += 1;
        }
        i += 1;
    }
    true
}

/// Decides whether `text` is an e-mail address.
pub fn is_email(text: &[char]) -> (b: bool)
    ensures
        b == valid_email(text@),
{
    let n = text.len();
    let mut at: usize = 0;
    while at < n && text[at] != '@'
        invariant
            n == text@.len(),
            at <= n,
            forall|j: int| 0 <= j < at ==> #[trigger] text@[j] != '@',
        decreases n - at,
    {
        at += 1;
    }
    if at == n {
        proof {
            assert forall|k: int| !parts_at(text@, k) by {}
        }
        return false;
    }
    let local = slice_subrange(text, 0, at);
    let domain = slice_subrange(text, at + 1, n);
    let b = is_local_part(local) && is_domain(domain);
    proof {
        if b {
            assert(parts_at(text@, at as int));
        } else {
            assert forall|k: int| !parts_at(text@, k) by {
                if parts_at(text@, k) {
                    if k < at {
                    } else if k > at {
                        let l = text@.subrange(0, k);
                        assert(l[at as int] == '@');
                        assert(is_local_char(l[at as int]));
                    }
                }
            }
        }
    }
    b
}

} // verus!
