//! Registration data. The password is deliberately not a field here: it
//! travels separately, from form to hash to database.

use vstd::prelude::*;
use crate::domain::catalog::{opt_text, parse_legacy_description, split_legacy};

verus! {

pub struct NewAccount {
    pub username: String,
    pub email: String,
    pub first_name: String,
    pub last_name: String,
    pub address: String,
    pub city: String,
    pub state: String,
    pub zip: String,
    pub country: String,
    pub phone: String,
}

/// The banner image a stored banner row names: the file of its legacy
/// image tag, when the row exists, holds markup, and that markup names one.
pub open spec fn banner_of(legacy: Option<Option<String>>) -> Option<Seq<char>> {
    match legacy {
        Some(Some(html)) => split_legacy(html@).0,
        _ => None,
    }
}

/// The favorite category's banner image, parsed out of the legacy markup
/// the banner table stores (`None` for a missing row or a null column).
pub fn banner_image_from(legacy: Option<Option<String>>) -> (r: Option<String>)
    ensures
        opt_text(r) == banner_of(legacy),
{
    match legacy {
        Some(Some(html)) => parse_legacy_description(html.as_str()).image,
        _ => None,
    }
}

} // verus!
