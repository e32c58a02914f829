//! Email addresses, checked against the grammar of an address.
//!
//! An address is a local part, an `@` and a domain. The local part is one
//! or more letters, digits or chars of ``.!#$%&'*+/=?^_`{|}~-``. The domain
//! is one or more labels, each followed by a dot, and a top-level name of
//! two or more letters. A label has 1 to 63 letters, digits or hyphens and
//! neither starts nor ends with a hyphen.

use vstd::prelude::*;
use crate::common::error::{AppError, ErrorData};
use crate::common::result::ResultApp;
use crate::text::{chars_of, find_from, index_of, is_digit, is_digit_char, trim, trimmed};

verus! {

/// An email address, held as it was given.
#[derive(Debug)]
pub struct Email(String);

/// A letter of an address: `a` to `z` in either case, and the two chars
/// that fold to a letter when case is ignored, the long s and the Kelvin
/// sign.
pub open spec fn is_letter(c: char) -> bool {
    ('a' <= c <= 'z') || ('A' <= c <= 'Z') || c == '\u{17f}' || c == '\u{212a}'
}

/// A letter or a digit.
pub open spec fn is_alnum(c: char) -> bool {
    is_letter(c) || is_digit(c)
}

/// A char that may stand in the local part.
pub open spec fn is_local_char(c: char) -> bool {
    ||| is_alnum(c)
    ||| c == '.'
    ||| c == '!'
    ||| c == '#'
    ||| c == '$'
    ||| c == '%'
    ||| c == '&'
    ||| c == '\''
    ||| c == '*'
    ||| c == '+'
    ||| c == '/'
    ||| c == '='
    ||| c == '?'
    ||| c == '^'
    ||| c == '_'
    ||| c == '`'
    ||| c == '{'
    ||| c == '|'
    ||| c == '}'
    ||| c == '~'
    ||| c == '-'
}

/// A label of a domain: 1 to 63 letters, digits or hyphens, the first and
/// the last not a hyphen.
pub open spec fn is_label(s: Seq<char>) -> bool {
    &&& 1 <= s.len() <= 63
    &&& is_alnum(s.first())
    &&& is_alnum(s.last())
    &&& forall|i: int| 0 <= i < s.len() ==> is_alnum(#[trigger] s[i]) || s[i] == '-'
}

/// A top-level name: two or more letters.
pub open spec fn is_top_level(s: Seq<char>) -> bool {
    &&& s.len() >= 2
    &&& forall|i: int| 0 <= i < s.len() ==> is_letter(#[trigger] s[i])
}

/// A domain: a label and a dot, then a top-level name or again a domain.
pub open spec fn is_domain(s: Seq<char>) -> bool
    decreases s.len(),
{
    let dot = index_of(s, '.') as int;
    if dot >= s.len() {
        false
    } else {
        let rest = s.subrange(dot + 1, s.len() as int);
        is_label(s.subrange(0, dot)) && (is_top_level(rest) || is_domain(rest))
    }
}

/// The grammar of an address: a local part that is not empty, the first
/// `@`, and a domain.
pub open spec fn is_address(s: Seq<char>) -> bool {
    let at = index_of(s, '@') as int;
    &&& 1 <= at < s.len()
    &&& forall|i: int| 0 <= i < at ==> is_local_char(#[trigger] s[i])
    &&& is_domain(s.subrange(at + 1, s.len() as int))
}

/// Whether the input `s` is accepted as an address: its trimmed form must
/// follow the grammar.
pub open spec fn is_email(s: Seq<char>) -> bool {
    is_address(trimmed(s))
}

/// The address that the input `s` stands for: `s` itself, where it is
/// accepted.
pub open spec fn email_of(s: Seq<char>) -> Option<Seq<char>> {
    if is_email(s) {
        Some(s)
    } else {
        None
    }
}

/// Every address held is accepted again and gives the same address.
pub proof fn lemma_email_round_trip(s: Seq<char>)
    requires
        is_email(s),
    ensures
        email_of(s) == Some(s),
{
}

/// Tells whether `c` is a letter of an address.
fn is_letter_char(c: char) -> (b: bool)
    ensures
        b == is_letter(c),
{
    ('a' <= c && c <= 'z') || ('A' <= c && c <= 'Z') || c == '\u{17f}' || c == '\u{212a}'
}

/// Tells whether `c` is a letter or a digit.
fn is_alnum_char(c: char) -> (b: bool)
    ensures
        b == is_alnum(c),
{
    is_letter_char(c) || is_digit_char(c)
}

/// Tells whether `c` may stand in the local part.
fn is_local(c: char) -> (b: bool)
    ensures
        b == is_local_char(c),
{
    is_alnum_char(c) || c == '.' || c == '!' || c == '#' || c == '$' || c == '%' || c == '&' || c
        == '\'' || c == '*' || c == '+' || c == '/' || c == '=' || c == '?' || c == '^' || c == '_'
        || c == '`' || c == '{' || c == '|' || c == '}' || c == '~' || c == '-'
}

/// Tells whether the chars of `v` from `from` up to `to` are a label.
fn is_label_range(v: &[char], from: usize, to: usize) -> (b: bool)
    requires
        from <= to <= v@.len(),
    ensures
        b == is_label(v@.subrange(from as int, to as int)),
{
    let ghost s = v@.subrange(from as int, to as int);
    if to - from < 1 || to - from > 63 {
        return false;
    }
    assert(s.first() == v@[from as int]);
    assert(s.last() == v@[to - 1]);
    if !is_alnum_char(v[from]) || !is_alnum_char(v[to - 1]) {
        return false;
    }
    let mut i: usize = from;
    while i < to
        invariant
            from <= i <= to <= v@.len(),
            s == v@.subrange(from as int, to as int),
            forall|j: int| 0 <= j < i - from ==> is_alnum(#[trigger] s[j]) || s[j] == '-',
        decreases to - i,
    {
        assert(s[i - from] == v@[i as int]);
        if !is_alnum_char(v[i]) && v[i] != '-' {
            return false;
        }
        i += 1;
    }
    true
}

/// Tells whether the chars of `v` from `from` on are a top-level name.
fn is_top_level_from(v: &[char], from: usize) -> (b: bool)
    requires
        from <= v@.len(),
    ensures
        b == is_top_level(v@.subrange(from as int, v@.len() as int)),
{
    let ghost s = v@.subrange(from as int, v@.len() as int);
    if v.len() - from < 2 {
        return false;
    }
    let mut i: usize = from;
    while i < v.len()
        invariant
            from <= i <= v@.len(),
            s == v@.subrange(from as int, v@.len() as int),
            forall|j: int| 0 <= j < i - from ==> is_letter(#[trigger] s[j]),
        decreases v.len() - i,
    {
        assert(s[i - from] == v@[i as int]);
        if !is_letter_char(v[i]) {
            return false;
        }
        i += 1;
    }
    true
}

/// Tells whether the chars of `v` from `start` on are a domain.
fn is_domain_from(v: &[char], start: usize) -> (b: bool)
    requires
        start <= v@.len(),
    ensures
        b == is_domain(v@.subrange(start as int, v@.len() as int)),
{
    let mut from: usize = start;
    loop
        invariant
            start <= from <= v@.len(),
            is_domain(v@.subrange(start as int, v@.len() as int)) == is_domain(
                v@.subrange(from as int, v@.len() as int),
            ),
        decreases v@.len() - from,
    {
        let ghost s = v@.subrange(from as int, v@.len() as int);
        let dot = find_from(v, '.', from);
        if dot >= v.len() {
            return false;
        }
        assert(s.subrange(0, dot - from) == v@.subrange(from as int, dot as int));
        assert(s.subrange(dot - from + 1, s.len() as int) == v@.subrange(
            dot + 1,
            v@.len() as int,
        ));
        if !is_label_range(v, from, dot) {
            return false;
        }
        if is_top_level_from(v, dot + 1) {
            return true;
        }
        from = dot + 1;
    }
}

/// Tells whether the chars of `v` follow the grammar of an address.
fn is_address_chars(v: &[char]) -> (b: bool)
    ensures
        b == is_address(v@),
{
    let at = find_from(v, '@', 0);
    assert(v@.subrange(0, v@.len() as int) == v@);
    if at < 1 || at >= v.len() {
        return false;
    }
    let mut i: usize = 0;
    while i < at
        invariant
            i <= at < v@.len(),
            at == index_of(v@, '@'),
            forall|j: int| 0 <= j < i ==> is_local_char(#[trigger] v@[j]),
        decreases at - i,
    {
        if !is_local(v[i]) {
            return false;
        }
        i += 1;
    }
    is_domain_from(v, at + 1)
}

impl View for Email {
    type V = Seq<char>;

    closed spec fn view(&self) -> Seq<char> {
        self.0@
    }
}

impl Clone for Email {
    fn clone(&self) -> (copy: Self)
        ensures
            copy@ == self@,
    {
        proof {
            use_type_invariant(self);
        }
        Email(self.0.clone())
    }
}

impl Email {
    #[verifier::type_invariant]
    spec fn holds_an_address(&self) -> bool {
        is_email(self.0@)
    }

    /// The failure that a rejected address is reported with.
    pub open spec fn is_rejection(e: AppError) -> bool {
        &&& e matches AppError::Validation(d)
        &&& d.code@ == "invalid-email"@
        &&& d.message@ == "Invalid email address"@
        &&& d.args is None
        &&& d.cause is None
    }

    /// Builds an address from `email` where `validate` accepts it, and
    /// keeps it as it was given.
    pub fn new(email: String) -> (r: ResultApp<Self>)
        ensures
            match r {
                Ok(e) => email_of(email@) == Some(e@),
                Err(e) => email_of(email@) is None && Self::is_rejection(e),
            },
    {
        match Self::validate(email.clone()) {
            Ok(_) => Ok(Self(email)),
            Err(e) => Err(e),
        }
    }

    /// Accepts `value` where its trimmed form follows the grammar of an
    /// address, and rejects it otherwise.
    pub fn validate(value: String) -> (r: ResultApp<()>)
        ensures
            match r {
                Ok(_) => is_email(value@),
                Err(e) => !is_email(value@) && Self::is_rejection(e),
            },
    {
        let chars = chars_of(value.as_str());
        let t = trim(chars.as_slice());
        if is_address_chars(t.as_slice()) {
            return Ok(());
        }
        proof {
            reveal_strlit("invalid-email");
        }
        Err(AppError::Validation(ErrorData::new("invalid-email", "Invalid email address")))
    }

    /// The address.
    pub fn value(&self) -> (s: String)
        ensures
            s@ == self@,
            is_email(s@),
    {
        proof {
            use_type_invariant(self);
        }
        self.0.clone()
    }
}

} // verus!
