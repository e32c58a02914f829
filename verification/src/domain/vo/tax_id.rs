//! Brazilian tax identifiers: the CPF of a person and the CNPJ of a
//! company. Only the shape is checked, never a check digit.

use vstd::prelude::*;
use crate::common::error::{AppError, ErrorData};
use crate::common::result::ResultApp;
use crate::text::{
    all_digits, chars_of, is_digit, is_digit_char, lemma_digits_take_one_byte_each, string_of,
    utf8_len,
};

verus! {

/// The number of bytes of a CPF.
pub const TAX_ID_BRAZIL_CPF_LENGTH: usize = 11;

/// What a document number offers, whatever its kind.
pub trait Document {
    /// The number as it was given, by its chars.
    spec fn text(&self) -> Seq<char>;

    /// Checks the shape of the number.
    fn validate(&self) -> ResultApp<()>;

    /// The number as it was given.
    fn format(&self) -> (s: String)
        ensures
            s@ == self.text(),
    ;
}

/// A tax identifier, tagged by its length: eleven bytes make a CPF,
/// anything else a CNPJ.
#[derive(Debug, Clone)]
pub enum TaxId {
    BrazilCpf(String),
    BrazilCnpj(String),
}

/// The shape of a CPF: eleven digits.
pub open spec fn is_cpf(s: Seq<char>) -> bool {
    s.len() == 11 && all_digits(s)
}

/// The shape of a CNPJ: fourteen digits.
pub open spec fn is_cnpj(s: Seq<char>) -> bool {
    s.len() == 14 && all_digits(s)
}

/// A CPF with its punctuation: `XXX.XXX.XXX-XX`.
pub open spec fn cpf_text(s: Seq<char>) -> Seq<char> {
    s.subrange(0, 3) + seq!['.'] + s.subrange(3, 6) + seq!['.'] + s.subrange(6, 9) + seq!['-']
        + s.subrange(9, 11)
}

/// A CNPJ with its punctuation: `XX.XXX.XXX/XXXX-XX`.
pub open spec fn cnpj_text(s: Seq<char>) -> Seq<char> {
    s.subrange(0, 2) + seq!['.'] + s.subrange(2, 5) + seq!['.'] + s.subrange(5, 8) + seq!['/']
        + s.subrange(8, 12) + seq!['-'] + s.subrange(12, 14)
}

/// Tells whether `v` is made of exactly `count` digits.
fn is_digits(v: &[char], count: usize) -> (b: bool)
    ensures
        b == (v@.len() == count && all_digits(v@)),
{
    if v.len() != count {
        return false;
    }
    let mut i: usize = 0;
    while i < v.len()
        invariant
            i <= v.len(),
            forall|j: int| 0 <= j < i ==> is_digit(#[trigger] v@[j]),
        decreases v.len() - i,
    {
        if !is_digit_char(v[i]) {
            return false;
        }
        i += 1;
    }
    true
}

/// Appends to `out` the chars of `v` from `from` up to `to`.
fn push_range(out: &mut Vec<char>, v: &[char], from: usize, to: usize)
    requires
        from <= to <= v@.len(),
    ensures
        final(out)@ == old(out)@ + v@.subrange(from as int, to as int),
{
    let mut i: usize = from;
    while i < to
        invariant
            from <= i <= to <= v@.len(),
            out@ == old(out)@ + v@.subrange(from as int, i as int),
        decreases to - i,
    {
        out.push(v[i]);
        i += 1;
    }
}

impl TaxId {
    /// The number as it was given.
    pub open spec fn raw(&self) -> Seq<char> {
        match *self {
            TaxId::BrazilCpf(s) => s@,
            TaxId::BrazilCnpj(s) => s@,
        }
    }

    /// The number with its punctuation, where it has the shape of its
    /// kind; the number as it was given, where it has not.
    pub open spec fn formatted(&self) -> Seq<char> {
        match *self {
            TaxId::BrazilCpf(s) => if is_cpf(s@) {
                cpf_text(s@)
            } else {
                s@
            },
            TaxId::BrazilCnpj(s) => if is_cnpj(s@) {
                cnpj_text(s@)
            } else {
                s@
            },
        }
    }

    /// Whether the number has the shape of its kind.
    pub open spec fn well_shaped(&self) -> bool {
        match *self {
            TaxId::BrazilCpf(s) => is_cpf(s@),
            TaxId::BrazilCnpj(s) => is_cnpj(s@),
        }
    }

    /// The failure that an ill-shaped number of this kind is reported with.
    pub open spec fn is_rejection(&self, e: AppError) -> bool {
        &&& e matches AppError::Validation(d)
        &&& d.args is None
        &&& d.cause is None
        &&& match *self {
            TaxId::BrazilCpf(_) => d.code@ == "invalid-brazilian-cpf"@ && d.message@
                == "Invalid Brazilian CPF"@,
            TaxId::BrazilCnpj(_) => d.code@ == "invalid-brazilian-cnpj"@ && d.message@
                == "Invalid Brazilian CNPJ"@,
        }
    }

    /// Tags `value` by its length in bytes: eleven make a CPF, anything
    /// else a CNPJ. Nothing is rejected here.
    pub fn new(value: String) -> (id: Self)
        ensures
            tagged(value@, id),
    {
        if value.as_str().as_bytes().len() == TAX_ID_BRAZIL_CPF_LENGTH {
            TaxId::BrazilCpf(value)
        } else {
            TaxId::BrazilCnpj(value)
        }
    }

    /// The number with the punctuation of its kind: `XXX.XXX.XXX-XX` for a
    /// CPF, `XX.XXX.XXX/XXXX-XX` for a CNPJ. A number that has not the
    /// shape of its kind comes back as it was given.
    pub fn format(&self) -> (r: ResultApp<String>)
        ensures
            r matches Ok(s) && s@ == self.formatted(),
    {
        match self {
            TaxId::BrazilCpf(s) => {
                let v = chars_of(s.as_str());
                if !is_digits(v.as_slice(), 11) {
                    return Ok(s.clone());
                }
                let mut out: Vec<char> = Vec::new();
                push_range(&mut out, v.as_slice(), 0, 3);
                out.push('.');
                push_range(&mut out, v.as_slice(), 3, 6);
                out.push('.');
                push_range(&mut out, v.as_slice(), 6, 9);
                out.push('-');
                push_range(&mut out, v.as_slice(), 9, 11);
                assert(out@ == cpf_text(s@));
                Ok(string_of(out.as_slice()))
            },
            TaxId::BrazilCnpj(s) => {
                let v = chars_of(s.as_str());
                if !is_digits(v.as_slice(), 14) {
                    return Ok(s.clone());
                }
                let mut out: Vec<char> = Vec::new();
                push_range(&mut out, v.as_slice(), 0, 2);
                out.push('.');
                push_range(&mut out, v.as_slice(), 2, 5);
                out.push('.');
                push_range(&mut out, v.as_slice(), 5, 8);
                out.push('/');
                push_range(&mut out, v.as_slice(), 8, 12);
                out.push('-');
                push_range(&mut out, v.as_slice(), 12, 14);
                assert(out@ == cnpj_text(s@));
                Ok(string_of(out.as_slice()))
            },
        }
    }
}

/// The kind and the shape that `TaxId::new` gives to a string of digits.
pub open spec fn tagged(value: Seq<char>, id: TaxId) -> bool {
    id.raw() == value && (id is BrazilCpf <==> utf8_len(value) == 11)
}

/// Of a string of digits, tagged by its length: eleven digits are a CPF of
/// the right shape, fourteen a CNPJ of the right shape, and any other
/// count is a CNPJ of the wrong shape, which fails validation.
pub proof fn lemma_digit_count_decides(value: Seq<char>, id: TaxId)
    requires
        all_digits(value),
        tagged(value, id),
    ensures
        value.len() == 11 ==> id is BrazilCpf && id.well_shaped(),
        value.len() == 14 ==> id is BrazilCnpj && id.well_shaped(),
        value.len() != 11 && value.len() != 14 ==> id is BrazilCnpj && !id.well_shaped(),
{
    lemma_digits_take_one_byte_each(value);
}

impl Document for TaxId {
    open spec fn text(&self) -> Seq<char> {
        self.raw()
    }

    /// The number as it was given.
    fn format(&self) -> (s: String) {
        match self {
            TaxId::BrazilCpf(cpf) => cpf.clone(),
            TaxId::BrazilCnpj(cnpj) => cnpj.clone(),
        }
    }

    /// Accepts a CPF of eleven digits and a CNPJ of fourteen, and rejects
    /// everything else with the code of the kind.
    fn validate(&self) -> (r: ResultApp<()>)
        ensures
            match r {
                Ok(_) => self.well_shaped(),
                Err(e) => !self.well_shaped() && self.is_rejection(e),
            },
    {
        match self {
            TaxId::BrazilCpf(cpf) => {
                let v = chars_of(cpf.as_str());
                if is_digits(v.as_slice(), 11) {
                    return Ok(());
                }
                proof {
                    reveal_strlit("invalid-brazilian-cpf");
                }
                Err(
                    AppError::Validation(
                        ErrorData::new("invalid-brazilian-cpf", "Invalid Brazilian CPF"),
                    ),
                )
            },
            TaxId::BrazilCnpj(cnpj) => {
                let v = chars_of(cnpj.as_str());
                if is_digits(v.as_slice(), 14) {
                    return Ok(());
                }
                proof {
                    reveal_strlit("invalid-brazilian-cnpj");
                }
                Err(
                    AppError::Validation(
                        ErrorData::new("invalid-brazilian-cnpj", "Invalid Brazilian CNPJ"),
                    ),
                )
            },
        }
    }
}

} // verus!
