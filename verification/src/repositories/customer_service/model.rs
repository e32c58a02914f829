//! The row of a listing.

use vstd::prelude::*;
use crate::common::error::{AppError, ErrorData};
use crate::common::result::ResultApp;
use crate::domain::entity::customer_service::CustomerService;
use crate::domain::entity::user::moment_of;
use crate::domain::vo::description::{description_of, lemma_description_round_trip, Description};
use crate::domain::vo::geopoint::{point_of, GeoPoint};
use crate::domain::vo::id::{hyphenated, parsed_uuid, Id};
use crate::domain::vo::name::{lemma_name_round_trip, name_of, Name};
use crate::domain::vo::phone::{lemma_strict_form_is_kept, normalized, Country, Phone};
use crate::domain::vo::temporal::DateTime;
use crate::domain::vo::url::{lemma_url_round_trip, url_of, Url};
use crate::text::trimmed;

verus! {

/// A listing as it is stored. The coordinates are the bits of two doubles.
#[derive(Debug)]
pub struct CustomerServiceModel {
    pub id: String,
    pub user_id: String,
    pub name: String,
    pub description: String,
    pub latitude: u64,
    pub longitude: u64,
    pub phone: String,
    pub website: Option<String>,
    pub deleted: bool,
    pub created_at: DateTime,
    pub updated_at: DateTime,
    pub deleted_at: Option<DateTime>,
}

/// The web address that a row holds, where it holds a valid one or none.
pub open spec fn website_of(website: Option<String>) -> Option<Option<Seq<char>>> {
    match website {
        Some(w) => match url_of(w@) {
            Some(u) => Some(Some(u)),
            None => None,
        },
        None => Some(None),
    }
}

/// The web address that a listing has, by its chars.
pub open spec fn website_in(website: Option<Url>) -> Option<Seq<char>> {
    match website {
        Some(u) => Some(u@),
        None => None,
    }
}

impl CustomerService {
    /// The failure that a web address which is none is reported with.
    pub open spec fn is_url_rejection(e: AppError) -> bool {
        &&& e matches AppError::Validation(d)
        &&& d.code@ == "invalid-url"@
        &&& d.message@ == Url::rejection()
        &&& d.args is None
        &&& d.cause is None
    }

    /// Whether a row stands for a listing: whether each of its fields is
    /// valid.
    pub open spec fn is_row(row: CustomerServiceModel) -> bool {
        &&& parsed_uuid(row.id@) is Some
        &&& parsed_uuid(row.user_id@) is Some
        &&& name_of(row.name@) is Some
        &&& description_of(row.description@) is Some
        &&& point_of(row.latitude, row.longitude) is Some
        &&& normalized(trimmed(row.phone@)) is Some
        &&& website_of(row.website) is Some
    }

    /// Whether a listing is the one that a row stands for. The tag of the
    /// phone number is the one under which the stored number is read.
    pub open spec fn stands_for(row: CustomerServiceModel, service: CustomerService) -> bool {
        &&& parsed_uuid(row.id@) == Some(service.id@)
        &&& parsed_uuid(row.user_id@) == Some(service.user_id@)
        &&& name_of(row.name@) == Some(service.name@)
        &&& description_of(row.description@) == Some(service.description@)
        &&& point_of(row.latitude, row.longitude) == Some(service.location@)
        &&& normalized(trimmed(row.phone@)) == Some((service.phone.spec_country(), service.phone@))
        &&& website_of(row.website) == Some(website_in(service.website))
        &&& service.photos@.len() == 0
        &&& service.deleted == row.deleted
        &&& service.created_at@ == row.created_at@
        &&& service.updated_at@ == row.updated_at@
        &&& moment_of(service.deleted_at) == moment_of(row.deleted_at)
    }

    /// The failure that a row which stands for no listing is reported
    /// with: that of the first of its fields that is not valid, in the
    /// order of identifier, owner, name, description, coordinates, phone
    /// number and web address.
    pub open spec fn is_row_rejection(row: CustomerServiceModel, e: AppError) -> bool {
        if parsed_uuid(row.id@) is None {
            Id::is_rejection(e, row.id@)
        } else if parsed_uuid(row.user_id@) is None {
            Id::is_rejection(e, row.user_id@)
        } else if name_of(row.name@) is None {
            Name::is_rejection(e)
        } else if description_of(row.description@) is None {
            Description::is_rejection(e)
        } else if point_of(row.latitude, row.longitude) is None {
            GeoPoint::is_rejection(e)
        } else if normalized(trimmed(row.phone@)) is None {
            Phone::is_rejection(e)
        } else {
            website_of(row.website) is None && Self::is_url_rejection(e)
        }
    }

    /// The listing that a row stands for, without photos. Each field is
    /// validated again; a row with a field that is not valid is rejected.
    pub fn from(m: CustomerServiceModel) -> (r: ResultApp<Self>)
        ensures
            match r {
                Ok(service) => Self::is_row(m) && Self::stands_for(m, service),
                Err(e) => !Self::is_row(m) && Self::is_row_rejection(m, e),
            },
    {
        let id = match Id::new_from_string(m.id) {
            Ok(v) => v,
            Err(e) => {
                return Err(e);
            },
        };
        let user_id = match Id::new_from_string(m.user_id) {
            Ok(v) => v,
            Err(e) => {
                return Err(e);
            },
        };
        let name = match Name::new(m.name.as_str()) {
            Ok(v) => v,
            Err(e) => {
                return Err(e);
            },
        };
        let description = match Description::new(m.description) {
            Ok(v) => v,
            Err(e) => {
                return Err(e);
            },
        };
        let location = match GeoPoint::new(m.latitude, m.longitude) {
            Ok(v) => v,
            Err(e) => {
                return Err(e);
            },
        };
        let phone = match Phone::new(m.phone) {
            Ok(v) => v,
            Err(e) => {
                return Err(e);
            },
        };
        let website = match m.website {
            Some(w) => match Url::new(w.as_str()) {
                Ok(url) => Some(url),
                Err(message) => {
                    proof {
                        reveal_strlit("invalid-url");
                    }
                    return Err(AppError::Validation(ErrorData::new("invalid-url", message)));
                },
            },
            None => None,
        };
        Ok(
            CustomerService {
                id,
                user_id,
                name,
                description,
                location,
                phone,
                website,
                photos: Vec::new(),
                deleted: m.deleted,
                created_at: m.created_at,
                updated_at: m.updated_at,
                deleted_at: m.deleted_at,
            },
        )
    }
}

impl CustomerServiceModel {
    /// The row in which a listing is stored. It stands for the listing it
    /// was made of, but for the photos, which have no place in the row, and
    /// for the tag of the phone number: the stored number is in the strict
    /// form and is read back as such.
    pub fn from(customer_service: CustomerService) -> (row: Self)
        ensures
            CustomerService::is_row(row),
            row.id@ == hyphenated(customer_service.id@),
            row.user_id@ == hyphenated(customer_service.user_id@),
            parsed_uuid(row.id@) == Some(customer_service.id@),
            parsed_uuid(row.user_id@) == Some(customer_service.user_id@),
            name_of(row.name@) == Some(customer_service.name@),
            description_of(row.description@) == Some(customer_service.description@),
            point_of(row.latitude, row.longitude) == Some(customer_service.location@),
            normalized(trimmed(row.phone@)) == Some((Country::E164, customer_service.phone@)),
            website_of(row.website) == Some(website_in(customer_service.website)),
            row.deleted == customer_service.deleted,
            row.created_at@ == customer_service.created_at@,
            row.updated_at@ == customer_service.updated_at@,
            moment_of(row.deleted_at) == moment_of(customer_service.deleted_at),
    {
        let name = customer_service.name.value();
        let description = customer_service.description.value();
        let phone = customer_service.phone.value();
        let (latitude, longitude) = customer_service.location.value();
        let website = match &customer_service.website {
            Some(w) => Some(w.as_str().to_owned()),
            None => None,
        };
        proof {
            lemma_name_round_trip(name@);
            lemma_description_round_trip(description@);
            lemma_strict_form_is_kept(phone@);
            if website is Some {
                lemma_url_round_trip(website->0@);
            }
        }
        Self {
            id: customer_service.id.value(),
            user_id: customer_service.user_id.value(),
            name,
            description,
            latitude,
            longitude,
            phone,
            website,
            deleted: customer_service.deleted,
            created_at: customer_service.created_at,
            updated_at: customer_service.updated_at,
            deleted_at: customer_service.deleted_at,
        }
    }
}

} // verus!
