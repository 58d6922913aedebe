//! Checkout decisions: what the form becomes, and where each step sends a
//! visitor whose session is not ready for it.

use vstd::prelude::*;
use crate::domain::order::{
    address_complete, card_from_name, filled, Address, AddressView, CardType, OrderDraft,
};
use crate::text::is_blank;

verus! {

/// The checkout form. The card number is read to prove the flow works and
/// is then dropped: nothing keeps it.
pub struct CheckoutForm {
    pub ship_first_name: String,
    pub ship_last_name: String,
    pub ship_address: String,
    pub ship_city: String,
    pub ship_state: String,
    pub ship_zip: String,
    pub ship_country: String,
    pub bill_first_name: String,
    pub bill_last_name: String,
    pub bill_address: String,
    pub bill_city: String,
    pub bill_state: String,
    pub bill_zip: String,
    pub bill_country: String,
    pub card_type: String,
    pub card_number: String,
}

/// The shipping address as the form gives it.
pub open spec fn ship_of(f: CheckoutForm) -> AddressView {
    AddressView {
        first_name: f.ship_first_name@,
        last_name: f.ship_last_name@,
        address: f.ship_address@,
        city: f.ship_city@,
        state: f.ship_state@,
        zip: f.ship_zip@,
        country: f.ship_country@,
    }
}

/// The billing address as the form gives it.
pub open spec fn bill_of(f: CheckoutForm) -> AddressView {
    AddressView {
        first_name: f.bill_first_name@,
        last_name: f.bill_last_name@,
        address: f.bill_address@,
        city: f.bill_city@,
        state: f.bill_state@,
        zip: f.bill_zip@,
        country: f.bill_country@,
    }
}

/// A checkout form is accepted when both addresses are complete, the card
/// type is one of the three brands, and a card number was given.
pub open spec fn checkout_acceptable(f: CheckoutForm) -> bool {
    &&& address_complete(ship_of(f))
    &&& address_complete(bill_of(f))
    &&& card_from_name(f.card_type@) is Some
    &&& !is_blank(f.card_number@)
}

/// The order draft a checkout form yields, or `None` when a field is
/// missing (the page then asks again). The draft keeps both addresses as
/// typed and the card brand; the card number goes nowhere.
pub fn draft_from_form(form: CheckoutForm) -> (r: Option<OrderDraft>)
    ensures
        r is Some == checkout_acceptable(form),
        r is Some ==> {
            &&& !is_blank(form.ship_first_name@)
            &&& !is_blank(form.ship_last_name@)
            &&& !is_blank(form.ship_address@)
            &&& !is_blank(form.ship_city@)
            &&& !is_blank(form.ship_state@)
            &&& !is_blank(form.ship_zip@)
            &&& !is_blank(form.ship_country@)
            &&& !is_blank(form.bill_first_name@)
            &&& !is_blank(form.bill_last_name@)
            &&& !is_blank(form.bill_address@)
            &&& !is_blank(form.bill_city@)
            &&& !is_blank(form.bill_state@)
            &&& !is_blank(form.bill_zip@)
            &&& !is_blank(form.bill_country@)
            &&& !is_blank(form.card_number@)
            &&& card_from_name(form.card_type@) is Some
        },
        r matches Some(d) ==> {
            &&& d.ship@ == ship_of(form)
            &&& d.bill@ == bill_of(form)
            &&& card_from_name(form.card_type@) == Some(d.card_type)
        },
{
    let card_number_given = filled(form.card_number.as_str());
    let ship = Address {
        first_name: form.ship_first_name,
        last_name: form.ship_last_name,
        address: form.ship_address,
        city: form.ship_city,
        state: form.ship_state,
        zip: form.ship_zip,
        country: form.ship_country,
    };
    let bill = Address {
        first_name: form.bill_first_name,
        last_name: form.bill_last_name,
        address: form.bill_address,
        city: form.bill_city,
        state: form.bill_state,
        zip: form.bill_zip,
        country: form.bill_country,
    };
    let card_type = CardType::try_from(form.card_type);
    let valid = ship.is_complete() && bill.is_complete() && card_type.is_ok() && card_number_given;
    if !valid {
        return None;
    }
    match card_type {
        Ok(card_type) => Some(OrderDraft { ship, bill, card_type }),
        Err(()) => None,
    }
}

/// Where a checkout step goes next.
#[derive(Debug, Clone, Copy, PartialEq, Eq, Structural)]
pub enum CheckoutStep {
    /// No confirmed draft yet: back to the checkout form.
    ToCheckoutForm,
    /// Nothing in the cart: back to the cart.
    ToCart,
    /// Draft and cart are both there: go on.
    Proceed,
}

/// Where the confirm page and the place-order action go, checked in this
/// order: a missing draft sends the visitor to the checkout form, an empty
/// cart to the cart; only with both does an order get placed.
pub open spec fn next_step(has_draft: bool, cart_is_empty: bool) -> CheckoutStep {
    if !has_draft {
        CheckoutStep::ToCheckoutForm
    } else if cart_is_empty {
        CheckoutStep::ToCart
    } else {
        CheckoutStep::Proceed
    }
}

/// The step the confirm page and the place-order action take (see
/// `next_step`).
pub fn confirm_step(has_draft: bool, cart_is_empty: bool) -> (r: CheckoutStep)
    ensures
        r == next_step(has_draft, cart_is_empty),
        !has_draft ==> r == CheckoutStep::ToCheckoutForm,
        has_draft && cart_is_empty ==> r == CheckoutStep::ToCart,
        (r == CheckoutStep::Proceed) == (has_draft && !cart_is_empty),
{
    if !has_draft {
        CheckoutStep::ToCheckoutForm
    } else if cart_is_empty {
        CheckoutStep::ToCart
    } else {
        CheckoutStep::Proceed
    }
}

/// A checkout form with any address field left blank, no card number, or
/// an unknown card brand is never accepted; a form that has all of them is.
pub proof fn law_checkout_needs_every_field(f: CheckoutForm)
    ensures
        checkout_acceptable(f) == {
            &&& !is_blank(f.ship_first_name@)
            &&& !is_blank(f.ship_last_name@)
            &&& !is_blank(f.ship_address@)
            &&& !is_blank(f.ship_city@)
            &&& !is_blank(f.ship_state@)
            &&& !is_blank(f.ship_zip@)
            &&& !is_blank(f.ship_country@)
            &&& !is_blank(f.bill_first_name@)
            &&& !is_blank(f.bill_last_name@)
            &&& !is_blank(f.bill_address@)
            &&& !is_blank(f.bill_city@)
            &&& !is_blank(f.bill_state@)
            &&& !is_blank(f.bill_zip@)
            &&& !is_blank(f.bill_country@)
            &&& !is_blank(f.card_number@)
            &&& (f.card_type@ == "Visa"@ || f.card_type@ == "MasterCard"@ || f.card_type@
                == "American Express"@)
        },
{
}

/// Without a confirmed draft every step goes to the checkout form, whatever
/// the cart holds; with a draft, an empty cart goes to the cart; an order is
/// placed only with both a draft and a non-empty cart.
pub proof fn law_no_draft_no_order(has_draft: bool, cart_is_empty: bool)
    ensures
        next_step(false, cart_is_empty) == CheckoutStep::ToCheckoutForm,
        next_step(true, true) == CheckoutStep::ToCart,
        (next_step(has_draft, cart_is_empty) == CheckoutStep::Proceed) == (has_draft
            && !cart_is_empty),
{
}

} // verus!
