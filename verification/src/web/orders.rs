//! Order page decisions.

use vstd::prelude::*;
use vstd::string::*;
use crate::domain::cart::CartLineView;
use crate::domain::catalog::ItemId;
use crate::text::{push_signed_decimal, same_text, signed_decimal};
use crate::web::checkout::{next_step, CheckoutStep};

verus! {

/// Whether the order's owner, as read back (`None` for no such order), is
/// the signed-in user. "Not yours" and "not real" get the same `false`.
pub fn owns_order(owner: Option<&str>, username: &str) -> (r: bool)
    ensures
        r == (owner matches Some(o) && o@ == username@),
{
    match owner {
        Some(o) => same_text(o, username),
        None => false,
    }
}

/// The page a freshly placed order redirects to.
pub fn placed_path(order_id: i64) -> (r: String)
    ensures
        r@ == "/orders/placed/"@ + signed_decimal(order_id as int),
{
    let mut path = String::from_str("/orders/placed/");
    push_signed_decimal(&mut path, order_id);
    path
}

/// What the order-failed page says when an item ran out of stock.
pub fn out_of_stock_message(item_id: &ItemId) -> (r: String)
    ensures
        r@ == "Not enough stock for "@ + item_id@ + ". Adjust your cart and try again."@,
{
    let mut message = String::from_str("Not enough stock for ");
    message.append(item_id.as_str());
    message.append(". Adjust your cart and try again.");
    message
}

/// How an attempt to place an order ended, when the database answered.
pub enum PlaceOutcome {
    /// The order was written under this id.
    Placed(i64),
    /// This item did not have the stock; nothing was written.
    OutOfStock(ItemId),
}

/// What the visitor sees after an attempt to place an order.
pub enum PlaceNext {
    /// Redirect to this path.
    Redirect(String),
    /// Show the order-failed page with this message.
    FailurePage(String),
}

/// The session changes and the page that follow an attempt to place an
/// order.
pub struct AfterPlace {
    /// Remove the confirmed draft from the session.
    pub clear_draft: bool,
    /// Replace the session cart with the empty cart.
    pub empty_cart: bool,
    pub next: PlaceNext,
}

/// The checkout state a session holds: whether a confirmed draft is there,
/// and the cart's lines.
pub struct CheckoutSession {
    pub has_draft: bool,
    pub cart: Seq<CartLineView>,
}

/// The session after an attempt: a placed order takes the draft and empties
/// the cart; otherwise both stay.
pub open spec fn session_after(s: CheckoutSession, placed: bool) -> CheckoutSession {
    if placed {
        CheckoutSession { has_draft: false, cart: Seq::empty() }
    } else {
        s
    }
}

/// The step after an attempt to place an order. A placed order clears the
/// draft, empties the cart and redirects to its confirmation page; a
/// shortage keeps draft and cart and shows what ran out.
pub fn after_place(outcome: PlaceOutcome) -> (r: AfterPlace)
    ensures
        r.clear_draft == (outcome is Placed),
        r.empty_cart == (outcome is Placed),
        match outcome {
            PlaceOutcome::Placed(id) => r.next matches PlaceNext::Redirect(path) && path@
                == "/orders/placed/"@ + signed_decimal(id as int),
            PlaceOutcome::OutOfStock(item) => r.next matches PlaceNext::FailurePage(message)
                && message@ == "Not enough stock for "@ + item@
                + ". Adjust your cart and try again."@,
        },
{
    match outcome {
        PlaceOutcome::Placed(id) => AfterPlace {
            clear_draft: true,
            empty_cart: true,
            next: PlaceNext::Redirect(placed_path(id)),
        },
        PlaceOutcome::OutOfStock(item) => AfterPlace {
            clear_draft: false,
            empty_cart: false,
            next: PlaceNext::FailurePage(out_of_stock_message(&item)),
        },
    }
}

/// Placing the same checkout again after a success places nothing: the
/// session no longer holds a draft, so the next attempt goes to the
/// checkout form; and the cart it would have ordered is empty.
pub proof fn law_no_second_placement(s: CheckoutSession, outcome: PlaceOutcome)
    requires
        outcome is Placed,
    ensures
        next_step(
            session_after(s, outcome is Placed).has_draft,
            session_after(s, outcome is Placed).cart.len() == 0,
        ) == CheckoutStep::ToCheckoutForm,
        session_after(s, outcome is Placed).cart.len() == 0,
{
}

/// A shortage leaves the session as it was, so the visitor can adjust the
/// cart and place the same draft again.
pub proof fn law_shortage_keeps_session(s: CheckoutSession, outcome: PlaceOutcome)
    requires
        outcome is OutOfStock,
    ensures
        session_after(s, outcome is Placed) == s,
{
}

} // verus!
