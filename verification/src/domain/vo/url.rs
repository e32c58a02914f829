//! Web addresses: trimmed, starting with `http://` or `https://`.

use vstd::prelude::*;
use vstd::std_specs::cmp::PartialEqSpecImpl;
use crate::text::{
    chars_of, has_prefix, is_white_space, lemma_trimmed_ends, lemma_unchanged_by_trim, string_of,
    trim, trimmed,
};

verus! {

/// A web address.
#[derive(Debug, Eq)]
pub struct Url(String);

/// The chars of `http://`.
pub open spec fn http_prefix() -> Seq<char> {
    seq!['h', 't', 't', 'p', ':', '/', '/']
}

/// The chars of `https://`.
pub open spec fn https_prefix() -> Seq<char> {
    seq!['h', 't', 't', 'p', 's', ':', '/', '/']
}

/// Whether `s` starts with one of the two schemes.
pub open spec fn has_web_scheme(s: Seq<char>) -> bool {
    has_prefix(s, http_prefix()) || has_prefix(s, https_prefix())
}

/// What a web address is: a string with one of the two schemes that does
/// not end with white space.
pub open spec fn is_url(s: Seq<char>) -> bool {
    has_web_scheme(s) && !is_white_space(s.last())
}

/// The web address that the input `s` stands for: its trimmed form, where
/// that starts with one of the two schemes.
pub open spec fn url_of(s: Seq<char>) -> Option<Seq<char>> {
    if has_web_scheme(trimmed(s)) {
        Some(trimmed(s))
    } else {
        None
    }
}

impl View for Url {
    type V = Seq<char>;

    closed spec fn view(&self) -> Seq<char> {
        self.0@
    }
}

impl PartialEq for Url {
    fn eq(&self, other: &Self) -> (same: bool) {
        self.0 == other.0
    }
}

impl PartialEqSpecImpl for Url {
    open spec fn obeys_eq_spec() -> bool {
        true
    }

    open spec fn eq_spec(&self, other: &Self) -> bool {
        self@ == other@
    }
}

impl Clone for Url {
    fn clone(&self) -> (copy: Self)
        ensures
            copy@ == self@,
    {
        proof {
            use_type_invariant(self);
        }
        Url(self.0.clone())
    }
}

/// Tells whether `v` starts with `h`, `t`, `t`, `p`, then `://` or `s://`.
fn starts_with_scheme(v: &[char]) -> (b: bool)
    ensures
        b == has_web_scheme(v@),
{
    let n = v.len();
    if n < 7 || v[0] != 'h' || v[1] != 't' || v[2] != 't' || v[3] != 'p' {
        proof {
            if n >= 7 {
                assert(v@.subrange(0, 7)[0] == v@[0]);
                assert(v@.subrange(0, 7)[1] == v@[1]);
                assert(v@.subrange(0, 7)[2] == v@[2]);
                assert(v@.subrange(0, 7)[3] == v@[3]);
            }
            if n >= 8 {
                assert(v@.subrange(0, 8)[0] == v@[0]);
                assert(v@.subrange(0, 8)[1] == v@[1]);
                assert(v@.subrange(0, 8)[2] == v@[2]);
                assert(v@.subrange(0, 8)[3] == v@[3]);
            }
        }
        return false;
    }
    if v[4] == ':' && v[5] == '/' && v[6] == '/' {
        assert(v@.subrange(0, 7) == http_prefix());
        return true;
    }
    if n >= 8 && v[4] == 's' && v[5] == ':' && v[6] == '/' && v[7] == '/' {
        assert(v@.subrange(0, 8) == https_prefix());
        return true;
    }
    proof {
        assert(v@.subrange(0, 7)[4] == v@[4]);
        assert(v@.subrange(0, 7)[5] == v@[5]);
        assert(v@.subrange(0, 7)[6] == v@[6]);
        if n >= 8 {
            assert(v@.subrange(0, 8)[4] == v@[4]);
            assert(v@.subrange(0, 8)[5] == v@[5]);
            assert(v@.subrange(0, 8)[6] == v@[6]);
            assert(v@.subrange(0, 8)[7] == v@[7]);
        }
    }
    false
}

impl Url {
    #[verifier::type_invariant]
    spec fn holds_a_url(&self) -> bool {
        is_url(self.0@)
    }

    /// The message that a rejected web address is reported with.
    pub open spec fn rejection() -> Seq<char> {
        "url must start with http:// or https://"@
    }

    /// Builds a web address from `s`: trims it, and rejects it unless it
    /// starts with `http://` or `https://`.
    pub fn new(s: &str) -> (r: Result<Self, &'static str>)
        ensures
            match r {
                Ok(url) => url_of(s@) == Some(url@) && is_url(url@),
                Err(e) => url_of(s@) is None && e@ == Self::rejection(),
            },
    {
        let chars = chars_of(s);
        let t = trim(chars.as_slice());
        if !starts_with_scheme(t.as_slice()) {
            return Err("url must start with http:// or https://");
        }
        proof {
            lemma_trimmed_ends(s@);
        }
        Ok(Url(string_of(t.as_slice())))
    }

    /// The address.
    pub fn as_str(&self) -> (s: &str)
        ensures
            s@ == self@,
            is_url(s@),
    {
        proof {
            use_type_invariant(self);
        }
        self.0.as_str()
    }
}

/// Every web address is accepted as it is: building one from the text of a
/// web address gives that text back.
pub proof fn lemma_url_round_trip(s: Seq<char>)
    requires
        is_url(s),
    ensures
        url_of(s) == Some(s),
{
    assert(s.first() == 'h') by {
        if has_prefix(s, http_prefix()) {
            assert(s.subrange(0, 7)[0] == s[0]);
        } else {
            assert(s.subrange(0, 8)[0] == s[0]);
        }
    }
    lemma_unchanged_by_trim(s);
}

} // verus!
