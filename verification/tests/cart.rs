use jpetstore_rs::domain::cart::{Cart, CartLine};
use jpetstore_rs::domain::catalog::{Cents, ItemId};

fn item(id: &str) -> ItemId {
    ItemId::try_from(id.to_string()).unwrap()
}

fn cart_with_est1() -> Cart {
    let mut cart = Cart::default();
    cart.add(item("EST-1"), "Large Angelfish".into(), Cents(1650));
    cart
}

#[test]
fn adding_the_same_item_merges_lines() {
    let mut cart = cart_with_est1();
    cart.add(item("EST-1"), "Large Angelfish".into(), Cents(1650));
    assert_eq!(cart.lines().len(), 1);
    assert_eq!(cart.lines()[0].quantity, 2);
    assert_eq!(cart.total(), Cents(3300));
}

#[test]
fn zero_quantity_removes_the_line() {
    let mut cart = cart_with_est1();
    cart.set_quantity(&item("EST-1"), 0);
    assert!(cart.is_empty());
}

#[test]
fn totals_sum_across_lines() {
    let mut cart = cart_with_est1();
    cart.add(item("EST-20"), "Adult Male Goldfish".into(), Cents(550));
    cart.set_quantity(&item("EST-1"), 3);
    assert_eq!(cart.total(), Cents(3 * 1650 + 550));
}

#[test]
fn quantities_cap_instead_of_overflowing() {
    let mut cart = cart_with_est1();
    cart.set_quantity(&item("EST-1"), u32::MAX);
    assert_eq!(cart.lines()[0].quantity, 9999);
}

#[test]
fn updating_an_absent_item_is_a_no_op() {
    let mut cart = cart_with_est1();
    cart.set_quantity(&item("EST-99"), 5);
    assert_eq!(cart.lines().len(), 1);
    assert_eq!(cart.lines()[0].quantity, 1);
}

#[test]
fn adding_at_the_cap_stays_at_the_cap() {
    let mut cart = cart_with_est1();
    cart.set_quantity(&item("EST-1"), 9999);
    cart.add(item("EST-1"), "Large Angelfish".into(), Cents(1650));
    assert_eq!(cart.lines()[0].quantity, 9999);
    assert!(cart.has_room_for(&item("EST-1")));
}

#[test]
fn remove_drops_only_that_item_and_keeps_order() {
    let mut cart = cart_with_est1();
    cart.add(item("EST-20"), "Adult Male Goldfish".into(), Cents(550));
    cart.add(item("EST-4"), "Spotted Koi".into(), Cents(1850));
    cart.remove(&item("EST-20"));
    let ids: Vec<&str> = cart.lines().iter().map(|l| l.item_id.as_str()).collect();
    assert_eq!(ids, ["EST-1", "EST-4"]);
    cart.remove(&item("EST-99"));
    assert_eq!(cart.lines().len(), 2);
}

#[test]
fn new_items_go_at_the_end_with_quantity_one() {
    let mut cart = cart_with_est1();
    cart.add(item("EST-20"), "Adult Male Goldfish".into(), Cents(550));
    assert_eq!(cart.lines()[1].item_id.as_str(), "EST-20");
    assert_eq!(cart.lines()[1].name, "Adult Male Goldfish");
    assert_eq!(cart.lines()[1].quantity, 1);
    assert_eq!(cart.lines()[1].subtotal(), Cents(550));
}

#[test]
fn the_empty_cart_totals_zero() {
    let cart = Cart::default();
    assert!(cart.is_empty());
    assert_eq!(cart.total(), Cents(0));
}

#[test]
fn totals_saturate() {
    let mut cart = Cart::default();
    cart.add(item("A"), "a".into(), Cents(i64::MAX));
    cart.add(item("B"), "b".into(), Cents(1));
    assert_eq!(cart.total(), Cents(i64::MAX));
}

#[test]
fn a_cart_rebuilt_from_its_lines_is_the_same_cart() {
    let mut cart = cart_with_est1();
    cart.add(item("EST-20"), "Adult Male Goldfish".into(), Cents(550));
    let lines: Vec<CartLine> = cart.lines().to_vec();
    let again = Cart::from_lines(lines);
    assert_eq!(again.total(), cart.total());
    assert_eq!(again.lines().len(), 2);
    let copy = cart.clone();
    assert_eq!(copy.lines()[0].item_id.as_str(), "EST-1");
}

#[test]
fn removing_or_setting_twice_is_the_same_as_once() {
    let mut once = cart_with_est1();
    once.add(item("EST-20"), "Adult Male Goldfish".into(), Cents(550));
    let mut twice = once.clone();
    once.remove(&item("EST-1"));
    twice.remove(&item("EST-1"));
    twice.remove(&item("EST-1"));
    assert_eq!(once.lines().len(), twice.lines().len());
    assert_eq!(twice.lines()[0].item_id.as_str(), "EST-20");

    let mut set = cart_with_est1();
    set.set_quantity(&item("EST-1"), 7);
    set.set_quantity(&item("EST-1"), 7);
    assert_eq!(set.lines()[0].quantity, 7);
    assert_eq!(set.total(), Cents(7 * 1650));
}
