//! Checkout data on its way to becoming an order. There is no card number
//! anywhere here: the checkout form collects one, and it ends there.

use vstd::prelude::*;
use vstd::string::*;
use crate::domain::cart::{Cart, CartLineView};
use crate::domain::catalog::{saturate, Cents, ItemId};
use crate::text::{is_blank, lemma_trimmed_empty_iff_blank, same_text, trim};

verus! {

#[derive(Debug)]
pub struct Address {
    pub first_name: String,
    pub last_name: String,
    pub address: String,
    pub city: String,
    pub state: String,
    pub zip: String,
    pub country: String,
}

/// An address by its plain values.
pub struct AddressView {
    pub first_name: Seq<char>,
    pub last_name: Seq<char>,
    pub address: Seq<char>,
    pub city: Seq<char>,
    pub state: Seq<char>,
    pub zip: Seq<char>,
    pub country: Seq<char>,
}

impl View for Address {
    type V = AddressView;

    open spec fn view(&self) -> AddressView {
        AddressView {
            first_name: self.first_name@,
            last_name: self.last_name@,
            address: self.address@,
            city: self.city@,
            state: self.state@,
            zip: self.zip@,
            country: self.country@,
        }
    }
}

/// Every field holds something besides white space.
pub open spec fn address_complete(a: AddressView) -> bool {
    &&& !is_blank(a.first_name)
    &&& !is_blank(a.last_name)
    &&& !is_blank(a.address)
    &&& !is_blank(a.city)
    &&& !is_blank(a.state)
    &&& !is_blank(a.zip)
    &&& !is_blank(a.country)
}

/// Whether the field holds something besides white space.
pub fn filled(field: &str) -> (r: bool)
    ensures
        r == !is_blank(field@),
{
    let t = trim(field);
    proof { lemma_trimmed_empty_iff_blank(field@); }
    !t.is_empty()
}

impl Address {
    /// An address is complete when no field is empty or only white space.
    pub fn is_complete(&self) -> (r: bool)
        ensures
            r == address_complete(self@),
            r == (!is_blank(self.first_name@) && !is_blank(self.last_name@) && !is_blank(
                self.address@,
            ) && !is_blank(self.city@) && !is_blank(self.state@) && !is_blank(self.zip@)
                && !is_blank(self.country@)),
    {
        filled(self.first_name.as_str()) && filled(self.last_name.as_str()) && filled(
            self.address.as_str(),
        ) && filled(self.city.as_str()) && filled(self.state.as_str()) && filled(
            self.zip.as_str(),
        ) && filled(self.country.as_str())
    }
}

impl Clone for Address {
    fn clone(&self) -> (r: Self)
        ensures
            r@ == self@,
    {
        Address {
            first_name: self.first_name.clone(),
            last_name: self.last_name.clone(),
            address: self.address.clone(),
            city: self.city.clone(),
            state: self.state.clone(),
            zip: self.zip.clone(),
            country: self.country.clone(),
        }
    }
}

/// The card brand; the card number itself is never kept.
#[derive(Debug, Clone, Copy, PartialEq, Eq, Structural)]
pub enum CardType {
    Visa,
    MasterCard,
    AmericanExpress,
}

/// The name a card brand goes by, on the form and in the database.
pub open spec fn card_name(c: CardType) -> Seq<char> {
    match c {
        CardType::Visa => "Visa"@,
        CardType::MasterCard => "MasterCard"@,
        CardType::AmericanExpress => "American Express"@,
    }
}

/// The card brand a name stands for; only the three exact names do.
pub open spec fn card_from_name(s: Seq<char>) -> Option<CardType> {
    if s == "Visa"@ {
        Some(CardType::Visa)
    } else if s == "MasterCard"@ {
        Some(CardType::MasterCard)
    } else if s == "American Express"@ {
        Some(CardType::AmericanExpress)
    } else {
        None
    }
}

impl CardType {
    /// The brand's name.
    pub fn as_str(&self) -> (r: &'static str)
        ensures
            r@ == card_name(*self),
    {
        match self {
            CardType::Visa => "Visa",
            CardType::MasterCard => "MasterCard",
            CardType::AmericanExpress => "American Express",
        }
    }
}

impl TryFrom<String> for CardType {
    type Error = ();

    /// Parses a brand name from the form; anything but the three exact
    /// names is refused.
    fn try_from(raw: String) -> (r: Result<Self, ()>)
        ensures
            match card_from_name(raw@) {
                Some(c) => r == Ok::<CardType, ()>(c),
                None => r == Err::<CardType, ()>(()),
            },
    {
        if same_text(raw.as_str(), "Visa") {
            Ok(CardType::Visa)
        } else if same_text(raw.as_str(), "MasterCard") {
            Ok(CardType::MasterCard)
        } else if same_text(raw.as_str(), "American Express") {
            Ok(CardType::AmericanExpress)
        } else {
            Err(())
        }
    }
}

impl vstd::std_specs::convert::TryFromSpecImpl<String> for CardType {
    open spec fn obeys_try_from_spec() -> bool {
        true
    }

    open spec fn try_from_spec(v: String) -> Result<Self, ()> {
        match card_from_name(v@) {
            Some(c) => Ok(c),
            None => Err(()),
        }
    }
}

/// A brand's name parses back to the brand, and a name that parses is
/// the name of the brand it parses to.
pub proof fn law_card_names_round_trip(c: CardType, s: Seq<char>)
    ensures
        card_from_name(card_name(c)) == Some(c),
        card_from_name(s) matches Some(d) ==> card_name(d) == s,
{
    reveal_strlit("Visa");
    reveal_strlit("MasterCard");
    reveal_strlit("American Express");
    assert("Visa"@.len() == 4);
    assert("MasterCard"@.len() == 10);
    assert("American Express"@.len() == 16);
    assert("Visa"@ != "MasterCard"@);
    assert("Visa"@ != "American Express"@);
    assert("MasterCard"@ != "American Express"@);
}

/// What the checkout confirms: where to ship, whom to bill, which card brand.
#[derive(Debug)]
pub struct OrderDraft {
    pub ship: Address,
    pub bill: Address,
    pub card_type: CardType,
}

impl Clone for OrderDraft {
    fn clone(&self) -> (r: Self)
        ensures
            r.ship@ == self.ship@,
            r.bill@ == self.bill@,
            r.card_type == self.card_type,
    {
        OrderDraft { ship: self.ship.clone(), bill: self.bill.clone(), card_type: self.card_type }
    }
}

/// One row of order history. The date is a plain "YYYY-MM-DD" string.
pub struct OrderSummary {
    pub id: i64,
    pub date: String,
    pub total: Cents,
}

/// A line read back from a placed order, with the price that was paid.
pub struct OrderLine {
    pub item_id: ItemId,
    pub name: String,
    pub attribute: Option<String>,
    pub quantity: i64,
    pub unit_price: Cents,
}

impl OrderLine {
    /// Unit price times quantity, the quantity taken as a `u32` the way a
    /// Rust `as` cast takes it, saturating at the bounds of `i64`.
    pub fn subtotal(&self) -> (r: Cents)
        ensures
            r.0 == saturate(self.unit_price.0 * (self.quantity as u32)),
    {
        self.unit_price.times(self.quantity as u32)
    }
}

/// A line item row to write for a placed order.
pub struct LineItemRow {
    pub linenum: i64,
    pub item_id: ItemId,
    pub quantity: i64,
    pub unit_price: Cents,
}

/// The row written for cart line `l` at position `i`: lines are numbered
/// from 1 in cart order and keep the cart's quantity and unit price.
pub open spec fn row_matches(row: LineItemRow, i: int, l: CartLineView) -> bool {
    &&& row.linenum == i + 1
    &&& row.item_id@ == l.item_id
    &&& row.quantity == l.quantity
    &&& row.unit_price.0 == l.unit_price
}

/// The line item rows for an order placed from `cart`: one per cart line,
/// in cart order, numbered from 1.
pub fn line_item_rows(cart: &Cart) -> (r: Vec<LineItemRow>)
    requires
        cart@.len() < 0x7fff_ffff_ffff_ffff,
    ensures
        r.len() == cart@.len(),
        forall|i: int| 0 <= i < r.len() ==> row_matches(#[trigger] r[i], i, cart@[i]),
{
    let lines = cart.lines();
    let n = lines.len();
    let mut rows: Vec<LineItemRow> = Vec::new();
    let mut i: usize = 0;
    while i < n
        invariant
            n == lines@.len(),
            n < 0x7fff_ffff_ffff_ffff,
            lines@.map_values(|l: crate::domain::cart::CartLine| l@) == cart@,
            i <= n,
            rows.len() == i,
            forall|k: int| 0 <= k < i ==> row_matches(#[trigger] rows[k], k, cart@[k]),
        decreases n - i,
    {
        let line = &lines[i];
        proof {
            assert(cart@[i as int] == line@);
        }
        rows.push(
            LineItemRow {
                linenum: i as i64 + 1,
                item_id: line.item_id.clone(),
                quantity: line.quantity as i64,
                unit_price: line.unit_price,
            },
        );
        i = i + 1;
    }
    rows
}

} // verus!
