use jpetstore_rs::auth::hash_password;
use jpetstore_rs::domain::account::banner_image_from;
use jpetstore_rs::domain::catalog::ItemId;
use jpetstore_rs::domain::order::CardType;
use jpetstore_rs::web::account::{credentials_ok, new_account, RegisterForm};
use jpetstore_rs::web::assets::is_known_image;
use jpetstore_rs::web::cart::line_name;
use jpetstore_rs::web::catalog::{search_keyword, SearchParams};
use jpetstore_rs::web::checkout::{confirm_step, draft_from_form, CheckoutForm, CheckoutStep};
use jpetstore_rs::web::error::ErrorKind;
use jpetstore_rs::web::healthy_response;
use jpetstore_rs::web::orders::{
    after_place, out_of_stock_message, owns_order, placed_path, PlaceNext, PlaceOutcome,
};

fn register(username: &str, password: &str) -> RegisterForm {
    RegisterForm {
        username: username.into(),
        password: password.into(),
        email: "mike@example.com".into(),
        first_name: "Mike".into(),
        last_name: "Zupper".into(),
        address: "1 Main St".into(),
        city: "Tampa".into(),
        state: "FL".into(),
        zip: "33601".into(),
        country: "USA".into(),
        phone: "555-555-0100".into(),
    }
}

#[test]
fn registration_trims_the_username_and_checks_lengths() {
    let (account, password) = new_account(register("  mike ", "j2ee")).unwrap();
    assert_eq!(account.username, "mike");
    assert_eq!(account.city, "Tampa");
    assert_eq!(password, "j2ee");
    assert!(new_account(register("   ", "j2ee")).is_none());
    assert!(new_account(register("mike", "abc")).is_none());
    assert!(new_account(register(&"m".repeat(81), "j2ee")).is_none());
    assert!(new_account(register(&"m".repeat(80), "j2ee")).is_some());
}

#[test]
fn sign_in_needs_a_user_and_the_right_password() {
    let hash = hash_password("j2ee").unwrap();
    assert!(credentials_ok(Some(&hash), "j2ee"));
    assert!(!credentials_ok(Some(&hash), "J2EE"));
    assert!(!credentials_ok(None, "j2ee"));
}

fn checkout(card_type: &str, card_number: &str, ship_zip: &str) -> CheckoutForm {
    CheckoutForm {
        ship_first_name: "ABC".into(),
        ship_last_name: "XYX".into(),
        ship_address: "901 San Antonio Road".into(),
        ship_city: "Palo Alto".into(),
        ship_state: "CA".into(),
        ship_zip: ship_zip.into(),
        ship_country: "USA".into(),
        bill_first_name: "ABC".into(),
        bill_last_name: "XYX".into(),
        bill_address: "901 San Antonio Road".into(),
        bill_city: "Palo Alto".into(),
        bill_state: "CA".into(),
        bill_zip: "94303".into(),
        bill_country: "USA".into(),
        card_type: card_type.into(),
        card_number: card_number.into(),
    }
}

#[test]
fn checkout_needs_every_field_a_brand_and_a_card_number() {
    let draft = draft_from_form(checkout("Visa", "999 9999 9999 9999", "94303")).unwrap();
    assert_eq!(draft.card_type, CardType::Visa);
    assert_eq!(draft.ship.city, "Palo Alto");
    assert_eq!(draft.bill.zip, "94303");
    assert!(draft_from_form(checkout("Diners Club", "1", "94303")).is_none());
    assert!(draft_from_form(checkout("Visa", "   ", "94303")).is_none());
    assert!(draft_from_form(checkout("Visa", "1", " ")).is_none());
}

#[test]
fn confirm_checks_the_draft_before_the_cart() {
    assert_eq!(confirm_step(false, true), CheckoutStep::ToCheckoutForm);
    assert_eq!(confirm_step(true, true), CheckoutStep::ToCart);
    assert_eq!(confirm_step(true, false), CheckoutStep::Proceed);
}

#[test]
fn cart_line_names_put_the_attribute_first() {
    assert_eq!(line_name(Some("Large"), "Angelfish"), "Large Angelfish");
    assert_eq!(line_name(None, "Angelfish"), "Angelfish");
}

#[test]
fn search_keywords_are_trimmed() {
    let params = SearchParams { keyword: "  fish \n".into() };
    assert_eq!(search_keyword(&params), "fish");
    let blank = SearchParams { keyword: String::new() };
    assert_eq!(search_keyword(&blank), "");
}

#[test]
fn orders_belong_only_to_their_owner() {
    assert!(owns_order(Some("j2ee"), "j2ee"));
    assert!(!owns_order(Some("j2ee"), "ACID"));
    assert!(!owns_order(None, "j2ee"));
}

#[test]
fn order_pages_and_messages() {
    assert_eq!(placed_path(7), "/orders/placed/7");
    assert_eq!(placed_path(1234), "/orders/placed/1234");
    let item = ItemId::try_from("EST-20".to_string()).unwrap();
    assert_eq!(
        out_of_stock_message(&item),
        "Not enough stock for EST-20. Adjust your cart and try again."
    );
}

#[test]
fn errors_map_to_statuses_and_messages() {
    assert_eq!(ErrorKind::NotFound.status(), 404);
    assert_eq!(ErrorKind::Database.status(), 500);
    assert_eq!(ErrorKind::NotFound.message(), "That page doesn't exist.");
}

#[test]
fn only_the_known_pictures_are_served() {
    assert!(is_known_image("fish1.gif"));
    assert!(is_known_image("bird2.gif"));
    assert!(!is_known_image("fish5.gif"));
    assert!(!is_known_image("../secrets"));
}

#[test]
fn the_health_probe_wants_a_200() {
    assert!(healthy_response("HTTP/1.1 200 OK\r\n\r\nok"));
    assert!(!healthy_response("HTTP/1.1 500 Internal Server Error"));
    assert!(!healthy_response(""));
}

#[test]
fn banners_come_from_the_legacy_markup() {
    let row = Some(Some(r#"<image src="../images/banner_fish.gif">"#.to_string()));
    assert_eq!(banner_image_from(row).as_deref(), Some("banner_fish.gif"));
    assert_eq!(banner_image_from(Some(None)), None);
    assert_eq!(banner_image_from(None), None);
}

#[test]
fn a_placed_order_clears_the_session_and_redirects() {
    let step = after_place(PlaceOutcome::Placed(42));
    assert!(step.clear_draft);
    assert!(step.empty_cart);
    match step.next {
        PlaceNext::Redirect(path) => assert_eq!(path, "/orders/placed/42"),
        PlaceNext::FailurePage(_) => panic!("a placed order redirects"),
    }
    // The session now holds no draft: the next attempt goes to the form.
    assert_eq!(confirm_step(false, true), CheckoutStep::ToCheckoutForm);
}

#[test]
fn a_shortage_keeps_the_session_and_says_what_ran_out() {
    let item = ItemId::try_from("EST-20".to_string()).unwrap();
    let step = after_place(PlaceOutcome::OutOfStock(item));
    assert!(!step.clear_draft);
    assert!(!step.empty_cart);
    match step.next {
        PlaceNext::FailurePage(message) => assert_eq!(
            message,
            "Not enough stock for EST-20. Adjust your cart and try again."
        ),
        PlaceNext::Redirect(_) => panic!("a shortage shows the failure page"),
    }
}
