//! Display names: trimmed, at least one byte and at most 120.

use vstd::prelude::*;
use vstd::std_specs::cmp::PartialEqSpecImpl;
use crate::common::error::{AppError, ErrorData};
use crate::common::result::ResultApp;
use crate::text::{
    byte_len, chars_of, lemma_trimmed_ends, lemma_unchanged_by_trim, string_of, trim, trimmed,
    utf8_len, is_white_space,
};

verus! {

/// The longest name, in bytes of UTF-8.
pub const NAME_MAX_LENGTH: usize = 120;

/// A display name.
#[derive(Debug, Eq)]
pub struct Name(String);

/// What a name is: a string that neither starts nor ends with white space
/// and takes 1 to 120 bytes.
pub open spec fn is_name(s: Seq<char>) -> bool {
    &&& 1 <= utf8_len(s) <= 120
    &&& s.len() > 0 ==> !is_white_space(s.first()) && !is_white_space(s.last())
}

/// The name that the input `s` stands for: its trimmed form, where that
/// takes 1 to 120 bytes.
pub open spec fn name_of(s: Seq<char>) -> Option<Seq<char>> {
    if 1 <= utf8_len(trimmed(s)) <= 120 {
        Some(trimmed(s))
    } else {
        None
    }
}

impl View for Name {
    type V = Seq<char>;

    closed spec fn view(&self) -> Seq<char> {
        self.0@
    }
}

impl PartialEq for Name {
    fn eq(&self, other: &Self) -> (same: bool) {
        self.0 == other.0
    }
}

impl PartialEqSpecImpl for Name {
    open spec fn obeys_eq_spec() -> bool {
        true
    }

    open spec fn eq_spec(&self, other: &Self) -> bool {
        self@ == other@
    }
}

impl Clone for Name {
    fn clone(&self) -> (copy: Self)
        ensures
            copy@ == self@,
    {
        proof {
            use_type_invariant(self);
        }
        Name(self.0.clone())
    }
}

impl Name {
    #[verifier::type_invariant]
    spec fn holds_a_name(&self) -> bool {
        is_name(self.0@)
    }

    /// The failure that a rejected name is reported with.
    pub open spec fn is_rejection(e: AppError) -> bool {
        &&& e matches AppError::Validation(d)
        &&& d.code@ == "invalid-field"@
        &&& d.message@ == "name must be 1..=120 characters"@
        &&& d.args is None
        &&& d.cause is None
    }

    /// Builds a name from `s`: trims it, and rejects it where nothing is
    /// left or more than 120 bytes are.
    pub fn new(s: &str) -> (r: ResultApp<Self>)
        ensures
            match r {
                Ok(name) => name_of(s@) == Some(name@) && is_name(name@),
                Err(e) => name_of(s@) is None && Self::is_rejection(e),
            },
    {
        let chars = chars_of(s);
        let t = string_of(trim(chars.as_slice()).as_slice());
        let n = byte_len(t.as_str());
        if n == 0 || n > NAME_MAX_LENGTH {
            proof {
                reveal_strlit("invalid-field");
            }
            return Err(
                AppError::Validation(
                    ErrorData::new("invalid-field", "name must be 1..=120 characters"),
                ),
            );
        }
        proof {
            lemma_trimmed_ends(s@);
        }
        Ok(Name(t))
    }

    /// The name.
    pub fn value(&self) -> (s: String)
        ensures
            s@ == self@,
            is_name(s@),
    {
        proof {
            use_type_invariant(self);
        }
        self.0.clone()
    }
}

/// Every name is accepted as it is: building a name from the text of a
/// name gives that text back.
pub proof fn lemma_name_round_trip(s: Seq<char>)
    requires
        is_name(s),
    ensures
        name_of(s) == Some(s),
{
    lemma_unchanged_by_trim(s);
}

} // verus!
