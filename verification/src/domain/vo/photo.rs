//! Photos of a listing.

use vstd::prelude::*;
use crate::domain::vo::url::Url;

verus! {

/// A photo: where it is, and what it is called.
#[derive(Debug, Clone)]
pub struct Photo {
    pub url: Url,
    pub title: Option<String>,
}

} // verus!
