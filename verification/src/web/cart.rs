//! Cart form decisions.

use vstd::prelude::*;
use vstd::string::*;

verus! {

/// The add-to-cart form.
pub struct AddForm {
    pub item_id: String,
}

/// The quantity-update form.
pub struct UpdateForm {
    pub item_id: String,
    pub quantity: u32,
}

/// The remove-from-cart form.
pub struct RemoveForm {
    pub item_id: String,
}

/// The name a cart line shows: the item's attribute, a space, and the
/// product name ("Large Angelfish"); the product name alone when the item
/// has no attribute.
pub open spec fn line_name_of(attribute: Option<Seq<char>>, product_name: Seq<char>) -> Seq<char> {
    match attribute {
        Some(a) => a + seq![' '] + product_name,
        None => product_name,
    }
}

/// The display name of a cart line for an item of a product.
pub fn line_name(attribute: Option<&str>, product_name: &str) -> (r: String)
    ensures
        r@ == line_name_of(
            match attribute {
                Some(a) => Some(a@),
                None => None,
            },
            product_name@,
        ),
{
    match attribute {
        Some(a) => {
            let mut name = String::from_str(a);
            name.append(" ");
            proof { reveal_strlit(" "); }
            name.append(product_name);
            name
        },
        None => String::from_str(product_name),
    }
}

} // verus!
