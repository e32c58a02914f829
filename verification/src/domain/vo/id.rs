//! Identifiers of entities: 128-bit values, written as UUIDs.

use vstd::prelude::*;
use vstd::arithmetic::power::pow;
use crate::common::error::{AppError, ErrorArgs, ErrorData};
use crate::common::result::ResultApp;
use crate::text::hex_digits;

verus! {

/// The failure of the `uuid` crate to read a UUID.
#[verifier::external_type_specification]
#[verifier::external_body]
pub struct ExUuidError(uuid::Error);

/// The value of the UUID that `text` spells, as `uuid::Uuid::parse_str`
/// reads it: `None` where it reads none.
pub uninterp spec fn parsed_uuid(text: Seq<char>) -> Option<u128>;

/// The hexadecimal digit of `value` at place `k`, counted from the left
/// among its 32 digits.
pub open spec fn hex_digit_at(value: u128, k: int) -> char {
    hex_digits()[(value as int / pow(16, (31 - k) as nat)) % 16]
}

/// The canonical text of a UUID: its 32 hexadecimal digits in lower case,
/// in groups of 8, 4, 4, 4 and 12 with a hyphen between them.
pub open spec fn hyphenated(value: u128) -> Seq<char> {
    Seq::new(
        36,
        |i: int|
            if i == 8 || i == 13 || i == 18 || i == 23 {
                '-'
            } else if i < 8 {
                hex_digit_at(value, i)
            } else if i < 13 {
                hex_digit_at(value, i - 1)
            } else if i < 18 {
                hex_digit_at(value, i - 2)
            } else if i < 23 {
                hex_digit_at(value, i - 3)
            } else {
                hex_digit_at(value, i - 4)
            },
    )
}

/// Whether `value` carries the marks of a version 7 UUID: the version in
/// bits 76 to 79, and the variant of RFC 9562 in bits 62 and 63.
pub open spec fn is_version_7(value: u128) -> bool {
    (value >> 76) & 0xf == 7 && (value >> 62) & 0x3 == 2
}

/// Reads a UUID with `uuid::Uuid::parse_str` and gives its 128-bit value
/// (`Uuid::as_u128`). The contract claims that the outcome is a function of
/// the text alone, named `parsed_uuid`.
#[verifier::external_body]
fn parse_uuid(text: &str) -> (r: Result<u128, uuid::Error>)
    ensures
        match r {
            Ok(value) => parsed_uuid(text@) == Some(value),
            Err(_) => parsed_uuid(text@) is None,
        },
{
    match uuid::Uuid::parse_str(text) {
        Ok(id) => Ok(id.as_u128()),
        Err(e) => Err(e),
    }
}

/// Writes the UUID of a 128-bit value (`uuid::Uuid::from_u128`) as text,
/// through its `Display`. The contract claims the hyphenated lower-case
/// form, and that `parse_str` reads that text back to the same value.
#[verifier::external_body]
fn uuid_text(value: u128) -> (text: String)
    ensures
        text@ == hyphenated(value),
        parsed_uuid(text@) == Some(value),
{
    uuid::Uuid::from_u128(value).to_string()
}

/// Makes a fresh version 7 UUID from the clock and random bits with
/// `uuid::Uuid::now_v7` and gives its 128-bit value. The contract claims
/// only the version and variant marks that every such UUID carries. The
/// crate stops the program where the clock stands before 1970.
#[verifier::external_body]
fn fresh_uuid_v7() -> (value: u128)
    ensures
        is_version_7(value),
{
    uuid::Uuid::now_v7().as_u128()
}

/// The identifier of an entity.
#[derive(Debug, Clone, Copy, PartialEq, Eq, Hash, Structural)]
pub struct Id(u128);

impl View for Id {
    type V = u128;

    closed spec fn view(&self) -> u128 {
        self.0
    }
}

impl Id {
    /// The failure that a text which spells no UUID is reported with: it
    /// names the text under `id`.
    pub open spec fn is_rejection(e: AppError, text: Seq<char>) -> bool {
        &&& e matches AppError::Validation(d)
        &&& d.code@ == "invalid-uuid"@
        &&& d.message@ == "Invalid UUID"@
        &&& d.args matches Some(args)
        &&& args.pairs() == seq![("id"@, text)]
        &&& args@ == map!["id"@ => text]
        &&& d.cause is None
    }

    /// A fresh identifier, ordered by the time of its making.
    pub fn new() -> (r: ResultApp<Self>)
        ensures
            r matches Ok(id) && is_version_7(id@),
    {
        Self::new_from_uuid(fresh_uuid_v7())
    }

    /// The identifier with the 128-bit value of a UUID.
    pub fn new_from_uuid(id: u128) -> (r: ResultApp<Self>)
        ensures
            r matches Ok(made) && made@ == id,
    {
        Ok(Id(id))
    }

    /// Reads an identifier from the text of a UUID, and rejects a text that
    /// spells none.
    pub fn new_from_string(id: String) -> (r: ResultApp<Self>)
        ensures
            match r {
                Ok(made) => parsed_uuid(id@) == Some(made@),
                Err(e) => parsed_uuid(id@) is None && Self::is_rejection(e, id@),
            },
    {
        match parse_uuid(id.as_str()) {
            Ok(value) => Ok(Id(value)),
            Err(_) => {
                proof {
                    reveal_strlit("invalid-uuid");
                }
                let mut args = ErrorArgs::new();
                args.insert("id".to_owned(), id);
                assert(args.pairs() == seq![("id"@, id@)]);
                Err(AppError::Validation(ErrorData::new("invalid-uuid", "Invalid UUID").with_args(args)))
            },
        }
    }

    /// The canonical text of the identifier. Reading that text gives the
    /// identifier back.
    pub fn value(&self) -> (text: String)
        ensures
            text@ == hyphenated(self@),
            parsed_uuid(text@) == Some(self@),
    {
        uuid_text(self.0)
    }
}

} // verus!
