//! A listing of the directory: a service that customers can look up.

use vstd::prelude::*;
use crate::domain::vo::description::Description;
use crate::domain::vo::geopoint::GeoPoint;
use crate::domain::vo::id::Id;
use crate::domain::vo::name::Name;
use crate::domain::vo::phone::Phone;
use crate::domain::vo::photo::Photo;
use crate::domain::vo::temporal::DateTime;
use crate::domain::vo::url::Url;

verus! {

/// A listing, with the user who owns it.
#[derive(Debug, Clone)]
pub struct CustomerService {
    pub id: Id,
    pub user_id: Id,
    pub name: Name,
    pub description: Description,
    pub location: GeoPoint,
    pub phone: Phone,
    pub website: Option<Url>,
    pub photos: Vec<Photo>,
    pub deleted: bool,
    pub created_at: DateTime,
    pub updated_at: DateTime,
    pub deleted_at: Option<DateTime>,
}

} // verus!
