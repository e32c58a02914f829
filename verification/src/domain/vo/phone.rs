//! Phone numbers, normalised to E.164 and tagged with the pattern that
//! matched.

use vstd::prelude::*;
use crate::common::error::{AppError, ErrorData};
use crate::common::result::ResultApp;
use crate::text::{
    all_digits, chars_of, digits_in, digits_of, is_digit, is_digit_char, lemma_digits_are_not_trimmed,
    lemma_digits_of_digits, lemma_unchanged_by_trim, push_from, string_of, trim, trimmed,
};

verus! {

/// The pattern by which a number was recognised.
#[derive(Debug, Clone, Copy, PartialEq, Eq, Structural)]
pub enum Country {
    /// Only E.164 can be asserted.
    E164,
    US,
    BR,
}

/// What a phone number offers, whatever holds it.
pub trait PhoneLike {
    /// Checks that the number is in strict E.164 form.
    fn validate(&self) -> ResultApp<()>;

    /// The number in E.164 form.
    fn format(&self) -> String;
}

/// A phone number, always held in E.164 form with its leading `+`.
#[derive(Debug)]
pub struct Phone {
    country: Country,
    e164: String,
}

/// Strict E.164: a `+`, a digit from 1 to 9, then 1 to 14 more digits.
pub open spec fn is_e164(s: Seq<char>) -> bool {
    &&& 3 <= s.len() <= 16
    &&& s[0] == '+'
    &&& '1' <= s[1] <= '9'
    &&& forall|i: int| 2 <= i < s.len() ==> is_digit(#[trigger] s[i])
}

/// The ten digits of a US number: all of them where there are ten, those
/// after a leading `1` where there are eleven.
pub open spec fn us_national(digits: Seq<char>) -> Option<Seq<char>> {
    if digits.len() == 10 {
        Some(digits)
    } else if digits.len() == 11 && digits[0] == '1' {
        Some(digits.subrange(1, 11))
    } else {
        None
    }
}

/// The US reading of `s`: `+1` and the ten national digits, where the area
/// code and the exchange both start with a digit from 2 to 9.
pub open spec fn us_e164(s: Seq<char>) -> Option<Seq<char>> {
    match us_national(digits_in(s)) {
        Some(rest) => if '2' > rest[0] || '2' > rest[3] {
            None
        } else {
            Some(seq!['+', '1'] + rest)
        },
        None => None,
    }
}

/// The digits of a Brazilian number without the country code `55`.
pub open spec fn br_national(digits: Seq<char>) -> Seq<char> {
    if digits.len() >= 2 && digits[0] == '5' && digits[1] == '5' {
        digits.subrange(2, digits.len() as int)
    } else {
        digits
    }
}

/// The Brazilian reading of `s`: `+55` and the national digits, where
/// there are ten of them (a landline) or eleven (a mobile).
pub open spec fn br_e164(s: Seq<char>) -> Option<Seq<char>> {
    let rest = br_national(digits_in(s));
    if rest.len() == 11 || rest.len() == 10 {
        Some(seq!['+', '5', '5'] + rest)
    } else {
        None
    }
}

/// The permissive reading of `s`: a `+` and its digits, where there are 8
/// to 15 of them and the first is not `0`.
pub open spec fn guessed_e164(s: Seq<char>) -> Option<Seq<char>> {
    let digits = digits_in(s);
    if digits.len() < 8 || digits.len() > 15 || digits[0] == '0' {
        None
    } else {
        Some(seq!['+'] + digits)
    }
}

/// The number that the trimmed input `t` stands for, with its tag: the
/// strict form first, then the US and the Brazilian readings, then the
/// permissive one.
pub open spec fn normalized(t: Seq<char>) -> Option<(Country, Seq<char>)> {
    if is_e164(t) {
        Some((Country::E164, t))
    } else if us_e164(t) is Some {
        Some((Country::US, us_e164(t)->0))
    } else if br_e164(t) is Some {
        Some((Country::BR, br_e164(t)->0))
    } else if guessed_e164(t) is Some {
        Some((Country::E164, guessed_e164(t)->0))
    } else {
        None
    }
}

/// The string holds exactly the expected chars, or there is neither a
/// string nor anything expected.
pub open spec fn holds(result: Option<String>, expected: Option<Seq<char>>) -> bool {
    match (result, expected) {
        (Some(r), Some(e)) => r@ == e,
        (None, None) => true,
        _ => false,
    }
}

/// Every reading of every input is a number in strict E.164 form.
pub proof fn lemma_readings_are_e164(s: Seq<char>)
    requires
        all_digits(digits_in(s)),
    ensures
        us_e164(s) matches Some(n) ==> is_e164(n),
        br_e164(s) matches Some(n) ==> is_e164(n),
        guessed_e164(s) matches Some(n) ==> is_e164(n),
{
    let digits = digits_in(s);
    if us_e164(s) is Some {
        let rest = us_national(digits)->0;
        let n = seq!['+', '1'] + rest;
        assert forall|i: int| 2 <= i < n.len() implies is_digit(#[trigger] n[i]) by {
            assert(n[i] == rest[i - 2]);
            if digits.len() == 11 {
                assert(rest[i - 2] == digits[i - 1]);
            }
        }
    }
    if br_e164(s) is Some {
        let rest = br_national(digits);
        let n = seq!['+', '5', '5'] + rest;
        assert forall|i: int| 2 <= i < n.len() implies is_digit(#[trigger] n[i]) by {
            if i >= 3 {
                assert(n[i] == rest[i - 3]);
                if rest.len() != digits.len() {
                    assert(rest[i - 3] == digits[i - 1]);
                }
            }
        }
    }
    if guessed_e164(s) is Some {
        let n = seq!['+'] + digits;
        assert(n[1] == digits[0]);
        assert(is_digit(digits[0]));
        assert forall|i: int| 2 <= i < n.len() implies is_digit(#[trigger] n[i]) by {
            assert(n[i] == digits[i - 1]);
        }
    }
}

/// A number in strict E.164 form is accepted as it is and tagged `E164`,
/// whatever the other readings would make of its digits: the strict form
/// is tried before all of them. So every number that a phone holds builds
/// the same number again.
pub proof fn lemma_strict_form_is_kept(s: Seq<char>)
    requires
        is_e164(s),
    ensures
        trimmed(s) == s,
        normalized(trimmed(s)) == Some((Country::E164, s)),
{
    assert(is_digit(s.last())) by {
        if s.len() == 2 {
        } else {
            assert(is_digit(s[s.len() - 1]));
        }
    }
    lemma_unchanged_by_trim(s);
}

/// Every US number of ten digits whose area code and exchange start with
/// a digit from 2 to 9 is accepted, tagged `US`, and held as `+1` and the
/// ten digits.
pub proof fn lemma_us_number_is_read(d: Seq<char>)
    requires
        d.len() == 10,
        all_digits(d),
        '2' <= d[0],
        '2' <= d[3],
    ensures
        normalized(trimmed(d)) == Some((Country::US, seq!['+', '1'] + d)),
{
    lemma_digits_are_not_trimmed(d);
    lemma_digits_of_digits(d);
}

/// The same holds of a US number written with separators: an input that
/// is not in the strict form and whose digits are such a number is
/// accepted, tagged `US`, and held as `+1` and its digits.
pub proof fn lemma_us_number_with_separators_is_read(raw: Seq<char>)
    requires
        !is_e164(trimmed(raw)),
        digits_in(trimmed(raw)).len() == 10,
        '2' <= digits_in(trimmed(raw))[0],
        '2' <= digits_in(trimmed(raw))[3],
    ensures
        normalized(trimmed(raw)) == Some((Country::US, seq!['+', '1'] + digits_in(trimmed(raw)))),
{
}

/// Every Brazilian mobile number of eleven digits, the area code first, is
/// accepted, tagged `BR`, and held as `+55` and the eleven digits, unless
/// an earlier rule takes it: the US reading takes a number that starts with
/// `1` where the two digits it looks at are 2 or more, and a number that
/// starts with `55` loses those two digits as a country code.
pub proof fn lemma_br_mobile_is_read(d: Seq<char>)
    requires
        d.len() == 11,
        all_digits(d),
        d[2] == '9',
        !(d[0] == '1' && '2' <= d[1] && '2' <= d[4]),
        !(d[0] == '5' && d[1] == '5'),
    ensures
        normalized(trimmed(d)) == Some((Country::BR, seq!['+', '5', '5'] + d)),
{
    lemma_digits_are_not_trimmed(d);
    lemma_digits_of_digits(d);
    if d[0] == '1' {
        let rest = d.subrange(1, 11);
        assert(rest[0] == d[1]);
        assert(rest[3] == d[4]);
    }
}

/// Tells whether the chars are a number in strict E.164 form.
pub fn is_e164_chars(v: &[char]) -> (b: bool)
    ensures
        b == is_e164(v@),
{
    let n = v.len();
    if n < 3 || n > 16 {
        return false;
    }
    if v[0] != '+' || v[1] < '1' || v[1] > '9' {
        return false;
    }
    let mut i: usize = 2;
    while i < n
        invariant
            2 <= i <= n,
            n == v@.len(),
            forall|j: int| 2 <= j < i ==> is_digit(#[trigger] v@[j]),
        decreases n - i,
    {
        if !is_digit_char(v[i]) {
            return false;
        }
        i += 1;
    }
    true
}

/// The US reading of the chars.
fn us_chars(v: &[char]) -> (r: Option<Vec<char>>)
    ensures
        match r {
            Some(n) => us_e164(v@) == Some(n@),
            None => us_e164(v@) is None,
        },
{
    let digits = digits_of(v);
    let from: usize = if digits.len() == 10 {
        0
    } else if digits.len() == 11 && digits[0] == '1' {
        1
    } else {
        return None;
    };
    assert(us_national(digits@) == Some(digits@.subrange(from as int, digits@.len() as int))) by {
        assert(digits@.subrange(0, 10) == digits@ || digits@.len() == 11);
    }
    if '2' > digits[from] || '2' > digits[from + 3] {
        return None;
    }
    let mut n: Vec<char> = Vec::new();
    n.push('+');
    n.push('1');
    assert(n@ == seq!['+', '1']);
    push_from(&mut n, digits.as_slice(), from);
    Some(n)
}

/// The Brazilian reading of the chars.
fn br_chars(v: &[char]) -> (r: Option<Vec<char>>)
    ensures
        match r {
            Some(n) => br_e164(v@) == Some(n@),
            None => br_e164(v@) is None,
        },
{
    let digits = digits_of(v);
    let from: usize = if digits.len() >= 2 && digits[0] == '5' && digits[1] == '5' {
        2
    } else {
        0
    };
    assert(br_national(digits@) == digits@.subrange(from as int, digits@.len() as int)) by {
        assert(digits@.subrange(0, digits@.len() as int) == digits@);
    }
    let rest = digits.len() - from;
    if rest == 11 || rest == 10 {
        let mut n: Vec<char> = Vec::new();
        n.push('+');
        n.push('5');
        n.push('5');
        assert(n@ == seq!['+', '5', '5']);
        push_from(&mut n, digits.as_slice(), from);
        return Some(n);
    }
    None
}

/// The permissive reading of the chars.
fn guessed_chars(v: &[char]) -> (r: Option<Vec<char>>)
    ensures
        match r {
            Some(n) => guessed_e164(v@) == Some(n@),
            None => guessed_e164(v@) is None,
        },
{
    let digits = digits_of(v);
    if digits.len() < 8 || digits.len() > 15 {
        return None;
    }
    if digits[0] == '0' {
        return None;
    }
    let mut n: Vec<char> = Vec::new();
    n.push('+');
    assert(n@ == seq!['+']);
    push_from(&mut n, digits.as_slice(), 0);
    assert(digits@.subrange(0, digits@.len() as int) == digits@);
    Some(n)
}

/// The string of an optional list of chars.
fn string_of_option(r: Option<Vec<char>>) -> (s: Option<String>)
    ensures
        match (r, s) {
            (Some(v), Some(t)) => t@ == v@,
            (None, None) => true,
            _ => false,
        },
{
    match r {
        Some(v) => Some(string_of(v.as_slice())),
        None => None,
    }
}

/// Tells whether `s` is a number in strict E.164 form.
pub fn is_e164_str(s: &str) -> (b: bool)
    ensures
        b == is_e164(s@),
{
    let v = chars_of(s);
    is_e164_chars(v.as_slice())
}

/// The digits of `s`, everything else left out.
pub fn digits_only(s: &str) -> (digits: String)
    ensures
        digits@ == digits_in(s@),
{
    let v = chars_of(s);
    let d = digits_of(v.as_slice());
    string_of(d.as_slice())
}

/// Reads `s` as a US number in one of its common forms: ten digits, or
/// eleven with a leading `1`; the area code and the exchange must not start
/// with `0` or `1`. Gives `+1` and the ten digits.
pub fn normalize_us(s: &str) -> (r: Option<String>)
    ensures
        holds(r, us_e164(s@)),
{
    let v = chars_of(s);
    string_of_option(us_chars(v.as_slice()))
}

/// Reads `s` as a Brazilian number: ten or eleven digits after an optional
/// country code `55`. Gives `+55` and those digits.
pub fn normalize_br(s: &str) -> (r: Option<String>)
    ensures
        holds(r, br_e164(s@)),
{
    let v = chars_of(s);
    string_of_option(br_chars(v.as_slice()))
}

/// Reads `s` as a number that already carries its country code: 8 to 15
/// digits, the first not `0`. Gives `+` and the digits.
pub fn digits_to_e164_guess(s: &str) -> (r: Option<String>)
    ensures
        holds(r, guessed_e164(s@)),
{
    let v = chars_of(s);
    string_of_option(guessed_chars(v.as_slice()))
}

/// The failure that every rejected phone number is reported with.
fn invalid_phone() -> (e: AppError)
    ensures
        Phone::is_rejection(e),
{
    proof {
        reveal_strlit("invalid-phone");
    }
    AppError::Validation(ErrorData::new("invalid-phone", "Invalid or unsupported phone format"))
}

impl View for Phone {
    type V = Seq<char>;

    closed spec fn view(&self) -> Seq<char> {
        self.e164@
    }
}

impl Phone {
    #[verifier::type_invariant]
    spec fn stored_in_e164(&self) -> bool {
        is_e164(self.e164@)
    }

    /// The tag of the number.
    pub closed spec fn spec_country(&self) -> Country {
        self.country
    }

    /// The failure that a rejected phone number is reported with.
    pub open spec fn is_rejection(e: AppError) -> bool {
        &&& e matches AppError::Validation(d)
        &&& d.code@ == "invalid-phone"@
        &&& d.message@ == "Invalid or unsupported phone format"@
        &&& d.args is None
        &&& d.cause is None
    }

    /// Builds a phone number from raw input. The input is trimmed; then the
    /// strict E.164 form is tried, then the US and the Brazilian readings,
    /// then the permissive one. The first that matches gives the number and
    /// its tag; where none does, the input is rejected.
    pub fn new(raw: String) -> (r: ResultApp<Self>)
        ensures
            match r {
                Ok(p) => normalized(trimmed(raw@)) == Some((p.spec_country(), p@)) && is_e164(p@),
                Err(e) => normalized(trimmed(raw@)) is None && Self::is_rejection(e),
            },
    {
        let chars = chars_of(raw.as_str());
        let t = trim(chars.as_slice());
        proof {
            lemma_readings_are_e164(t@);
        }
        if is_e164_chars(t.as_slice()) {
            return Ok(Self { country: Country::E164, e164: string_of(t.as_slice()) });
        }
        if let Some(n) = us_chars(t.as_slice()) {
            return Ok(Self { country: Country::US, e164: string_of(n.as_slice()) });
        }
        if let Some(n) = br_chars(t.as_slice()) {
            return Ok(Self { country: Country::BR, e164: string_of(n.as_slice()) });
        }
        if let Some(n) = guessed_chars(t.as_slice()) {
            return Ok(Self { country: Country::E164, e164: string_of(n.as_slice()) });
        }
        Err(invalid_phone())
    }

    /// Checks that the number held is in strict E.164 form. It always is.
    pub fn validate(&self) -> (r: ResultApp<()>)
        ensures
            r is Ok,
            is_e164(self@),
    {
        proof {
            use_type_invariant(self);
        }
        if is_e164_str(self.e164.as_str()) {
            return Ok(());
        }
        Err(invalid_phone())
    }

    /// The number in E.164 form.
    pub fn value(&self) -> (s: String)
        ensures
            s@ == self@,
            is_e164(s@),
    {
        proof {
            use_type_invariant(self);
        }
        self.e164.clone()
    }

    /// The tag of the number.
    pub fn country(&self) -> (c: Country)
        ensures
            c == self.spec_country(),
    {
        self.country
    }
}

impl Clone for Phone {
    fn clone(&self) -> (copy: Self)
        ensures
            copy@ == self@,
            copy.spec_country() == self.spec_country(),
    {
        proof {
            use_type_invariant(self);
        }
        Self { country: self.country, e164: self.e164.clone() }
    }
}

impl PhoneLike for Phone {
    fn validate(&self) -> (r: ResultApp<()>)
        ensures
            r is Ok,
            is_e164(self@),
    {
        Phone::validate(self)
    }

    fn format(&self) -> (s: String)
        ensures
            s@ == self@,
    {
        self.value()
    }
}

} // verus!
