//! Points on the globe, in degrees of latitude and longitude.
//!
//! A coordinate is carried as the 64 bits of an IEEE 754 double, so that
//! the range check is exact arithmetic on integers. Among the doubles that
//! are numbers, the one of greater magnitude has the greater bits once the
//! sign is cleared; the bits of an infinity or of a value that is no number
//! lie above those of every finite double.

use vstd::prelude::*;
use crate::common::error::{AppError, ErrorData};
use crate::common::result::ResultApp;

verus! {

/// The bits of the double 90.
pub const LATITUDE_LIMIT: u64 = 0x4056_8000_0000_0000;

/// The bits of the double 180.
pub const LONGITUDE_LIMIT: u64 = 0x4066_8000_0000_0000;

/// The bits of a double without its sign.
pub open spec fn magnitude(bits: u64) -> u64 {
    bits & 0x7fff_ffff_ffff_ffff
}

/// Whether the double with these bits lies between `-limit` and `limit`,
/// both included, where `limit` is the double whose bits are `limit_bits`.
/// A value that is no number lies in no range.
pub open spec fn within(bits: u64, limit_bits: u64) -> bool {
    magnitude(bits) <= limit_bits
}

/// Whether the two doubles are the coordinates of a point: a latitude from
/// -90 to 90 and a longitude from -180 to 180.
pub open spec fn is_point(lat: u64, lon: u64) -> bool {
    within(lat, LATITUDE_LIMIT) && within(lon, LONGITUDE_LIMIT)
}

/// The point that two doubles stand for, where they are coordinates.
pub open spec fn point_of(lat: u64, lon: u64) -> Option<(u64, u64)> {
    if is_point(lat, lon) {
        Some((lat, lon))
    } else {
        None
    }
}

/// The coordinates of every point build that point again.
pub proof fn lemma_point_round_trip(lat: u64, lon: u64)
    requires
        is_point(lat, lon),
    ensures
        point_of(lat, lon) == Some((lat, lon)),
{
}

/// A point on the globe.
#[derive(Debug, Clone, Copy, PartialEq, Eq, Structural)]
pub struct GeoPoint {
    lat: u64,
    lon: u64,
}

impl View for GeoPoint {
    type V = (u64, u64);

    closed spec fn view(&self) -> (u64, u64) {
        (self.lat, self.lon)
    }
}

impl GeoPoint {
    #[verifier::type_invariant]
    spec fn lies_on_the_globe(&self) -> bool {
        is_point(self.lat, self.lon)
    }

    /// The failure that coordinates out of range are reported with.
    pub open spec fn is_rejection(e: AppError) -> bool {
        &&& e matches AppError::Validation(d)
        &&& d.code@ == "invalid-latitude-longitude"@
        &&& d.message@ == "Invalid latitude/longitude"@
        &&& d.args is None
        &&& d.cause is None
    }

    /// Builds a point from the bits of its latitude and longitude, and
    /// rejects them where either is out of range.
    pub fn new(lat: u64, lon: u64) -> (r: ResultApp<Self>)
        ensures
            match r {
                Ok(p) => point_of(lat, lon) == Some(p@),
                Err(e) => point_of(lat, lon) is None && Self::is_rejection(e),
            },
    {
        if (lat & 0x7fff_ffff_ffff_ffff) > LATITUDE_LIMIT || (lon & 0x7fff_ffff_ffff_ffff)
            > LONGITUDE_LIMIT {
            proof {
                reveal_strlit("invalid-latitude-longitude");
            }
            return Err(
                AppError::Validation(
                    ErrorData::new("invalid-latitude-longitude", "Invalid latitude/longitude"),
                ),
            );
        }
        Ok(GeoPoint { lat, lon })
    }

    /// The bits of the latitude and of the longitude.
    pub fn value(&self) -> (pair: (u64, u64))
        ensures
            pair == self@,
            is_point(pair.0, pair.1),
    {
        proof {
            use_type_invariant(self);
        }
        (self.lat, self.lon)
    }
}

} // verus!
