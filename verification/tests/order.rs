use jpetstore_rs::domain::cart::Cart;
use jpetstore_rs::domain::catalog::{Cents, ItemId};
use jpetstore_rs::domain::order::{line_item_rows, Address, CardType, OrderLine};

fn full() -> Address {
    Address {
        first_name: "ABC".into(),
        last_name: "XYX".into(),
        address: "901 San Antonio Road".into(),
        city: "Palo Alto".into(),
        state: "CA".into(),
        zip: "94303".into(),
        country: "USA".into(),
    }
}

#[test]
fn an_address_needs_every_field() {
    assert!(full().is_complete());
    let mut missing = full();
    missing.zip = "   ".into();
    assert!(!missing.is_complete());
}

#[test]
fn card_types_parse_from_the_form_and_nothing_else() {
    assert_eq!(CardType::try_from("Visa".to_string()), Ok(CardType::Visa));
    assert_eq!(
        CardType::try_from("American Express".to_string()),
        Ok(CardType::AmericanExpress)
    );
    assert!(CardType::try_from("Diners Club".to_string()).is_err());
}

#[test]
fn card_names_round_trip() {
    for c in [CardType::Visa, CardType::MasterCard, CardType::AmericanExpress] {
        assert_eq!(CardType::try_from(c.as_str().to_string()), Ok(c));
    }
    assert!(CardType::try_from("visa".to_string()).is_err());
    assert!(CardType::try_from(" Visa".to_string()).is_err());
}

#[test]
fn empty_fields_make_an_address_incomplete() {
    let mut missing = full();
    missing.first_name = String::new();
    assert!(!missing.is_complete());
    let mut tabbed = full();
    tabbed.country = "\t\n".into();
    assert!(!tabbed.is_complete());
}

#[test]
fn order_line_subtotals_scale_the_paid_price() {
    let line = OrderLine {
        item_id: ItemId::try_from("EST-1".to_string()).unwrap(),
        name: "Angelfish".into(),
        attribute: Some("Large".into()),
        quantity: 2,
        unit_price: Cents(1650),
    };
    assert_eq!(line.subtotal(), Cents(3300));
}

#[test]
fn line_item_rows_number_cart_lines_from_one() {
    let mut cart = Cart::default();
    cart.add(ItemId::try_from("EST-1".to_string()).unwrap(), "Large Angelfish".into(), Cents(1650));
    cart.add(ItemId::try_from("EST-1".to_string()).unwrap(), "Large Angelfish".into(), Cents(1650));
    cart.add(ItemId::try_from("EST-20".to_string()).unwrap(), "Adult Male Goldfish".into(), Cents(550));
    let rows = line_item_rows(&cart);
    assert_eq!(rows.len(), 2);
    assert_eq!(rows[0].linenum, 1);
    assert_eq!(rows[0].item_id.as_str(), "EST-1");
    assert_eq!(rows[0].quantity, 2);
    assert_eq!(rows[0].unit_price, Cents(1650));
    assert_eq!(rows[1].linenum, 2);
    assert_eq!(rows[1].item_id.as_str(), "EST-20");
    assert_eq!(cart.total(), Cents(2 * 1650 + 550));
}
