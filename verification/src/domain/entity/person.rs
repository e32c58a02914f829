//! A person behind an account.

use vstd::prelude::*;
use crate::domain::vo::name::Name;
use crate::domain::vo::tax_id::TaxId;
use crate::domain::vo::temporal::Date;

verus! {

/// A person: the name on their papers, the day of their birth, the name
/// they go by and their tax identifier.
#[derive(Debug, Clone)]
pub struct Person {
    name: String,
    birth_date: Date,
    social_name: Name,
    tax_id: TaxId,
}

} // verus!
