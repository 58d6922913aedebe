//! Catalog page decisions.

use vstd::prelude::*;
use crate::text::{trim, trimmed};

verus! {

/// The search query string; a bare `/search` means an empty keyword.
pub struct SearchParams {
    pub keyword: String,
}

/// The keyword a search runs with: the typed keyword trimmed. An empty
/// result means no search is run and no products are listed.
pub fn search_keyword(params: &SearchParams) -> (r: &str)
    ensures
        r@ == trimmed(params.keyword@),
{
    trim(params.keyword.as_str())
}

} // verus!
