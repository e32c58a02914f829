//! Free text: trimmed, at most 2048 bytes.

use vstd::prelude::*;
use vstd::std_specs::cmp::PartialEqSpecImpl;
use crate::common::error::{AppError, ErrorData};
use crate::common::result::ResultApp;
use crate::text::{
    byte_len, chars_of, is_white_space, lemma_trimmed_ends, lemma_unchanged_by_trim, string_of,
    trim, trimmed, utf8_len,
};

verus! {

/// The longest description, in bytes of UTF-8.
pub const DESCRIPTION_MAX_LENGTH: usize = 2048;

/// A description.
#[derive(Debug, Eq)]
pub struct Description(String);

/// What a description is: a string that neither starts nor ends with white
/// space and takes at most 2048 bytes. It may be empty.
pub open spec fn is_description(s: Seq<char>) -> bool {
    &&& utf8_len(s) <= 2048
    &&& s.len() > 0 ==> !is_white_space(s.first()) && !is_white_space(s.last())
}

/// The description that the input `s` stands for: its trimmed form, where
/// that takes at most 2048 bytes.
pub open spec fn description_of(s: Seq<char>) -> Option<Seq<char>> {
    if utf8_len(trimmed(s)) <= 2048 {
        Some(trimmed(s))
    } else {
        None
    }
}

impl View for Description {
    type V = Seq<char>;

    closed spec fn view(&self) -> Seq<char> {
        self.0@
    }
}

impl PartialEq for Description {
    fn eq(&self, other: &Self) -> (same: bool) {
        self.0 == other.0
    }
}

impl PartialEqSpecImpl for Description {
    open spec fn obeys_eq_spec() -> bool {
        true
    }

    open spec fn eq_spec(&self, other: &Self) -> bool {
        self@ == other@
    }
}

impl Clone for Description {
    fn clone(&self) -> (copy: Self)
        ensures
            copy@ == self@,
    {
        proof {
            use_type_invariant(self);
        }
        Description(self.0.clone())
    }
}

impl Description {
    #[verifier::type_invariant]
    spec fn holds_a_description(&self) -> bool {
        is_description(self.0@)
    }

    /// The failure that a rejected description is reported with.
    pub open spec fn is_rejection(e: AppError) -> bool {
        &&& e matches AppError::Validation(d)
        &&& d.code@ == "invalid-description"@
        &&& d.message@ == "Invalid description."@
        &&& d.args is None
        &&& d.cause is None
    }

    /// Builds a description from `s`: trims it, and rejects it where more
    /// than 2048 bytes are left.
    pub fn new(s: String) -> (r: ResultApp<Self>)
        ensures
            match r {
                Ok(d) => description_of(s@) == Some(d@) && is_description(d@),
                Err(e) => description_of(s@) is None && Self::is_rejection(e),
            },
    {
        let chars = chars_of(s.as_str());
        let t = string_of(trim(chars.as_slice()).as_slice());
        if byte_len(t.as_str()) > DESCRIPTION_MAX_LENGTH {
            proof {
                reveal_strlit("invalid-description");
            }
            return Err(
                AppError::Validation(ErrorData::new("invalid-description", "Invalid description.")),
            );
        }
        proof {
            lemma_trimmed_ends(s@);
        }
        Ok(Description(t))
    }

    /// The description.
    pub fn value(&self) -> (s: String)
        ensures
            s@ == self@,
            is_description(s@),
    {
        proof {
            use_type_invariant(self);
        }
        self.0.clone()
    }
}

/// Every description is accepted as it is: building one from the text of a
/// description gives that text back.
pub proof fn lemma_description_round_trip(s: Seq<char>)
    requires
        is_description(s),
    ensures
        description_of(s) == Some(s),
{
    lemma_unchanged_by_trim(s);
}

} // verus!
