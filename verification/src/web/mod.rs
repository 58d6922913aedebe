//! The decisions the request handlers make, as plain functions: what a
//! form turns into, who may see what, and which page comes next. The
//! handlers themselves (HTTP, sessions, the database) are not here.

pub mod account;
pub mod assets;
pub mod cart;
pub mod catalog;
pub mod checkout;
pub mod error;
pub mod orders;

use vstd::prelude::*;
use crate::text::{has_prefix, starts_with};

verus! {

/// The status line a healthy server answers `/healthz` with.
pub open spec fn healthy_status_line() -> Seq<char> {
    "HTTP/1.1 200"@
}

/// Whether a raw HTTP response is the healthy answer the health probe
/// waits for: it starts with `HTTP/1.1 200`.
pub fn healthy_response(response: &str) -> (r: bool)
    ensures
        r == has_prefix(response@, healthy_status_line()),
{
    starts_with(response, "HTTP/1.1 200")
}

} // verus!
