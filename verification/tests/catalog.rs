use jpetstore_rs::domain::catalog::{
    parse_legacy_description, validate_id, CategoryId, Cents, ItemId, Product, ProductId,
};

#[test]
fn ids_reject_garbage() {
    assert!(CategoryId::try_from(String::new()).is_err());
    assert!(ItemId::try_from("X".repeat(11)).is_err());
    assert!(ProductId::try_from("FI-SW-01".to_string()).is_ok());
}

#[test]
fn cents_compare_exactly() {
    assert!(Cents(1650) > Cents(1649));
    assert_eq!(Cents(550), Cents(550));
}

#[test]
fn cents_display_as_dollars() {
    assert_eq!(Cents(1650).to_string(), "$16.50");
    assert_eq!(Cents(529).to_string(), "$5.29");
    assert_eq!(Cents(200).to_string(), "$2.00");
}

#[test]
fn legacy_descriptions_parse_into_parts() {
    let d = parse_legacy_description(
        r#"<image src="../images/fish1.gif">Salt Water fish from Australia"#,
    );
    assert_eq!(d.image.as_deref(), Some("fish1.gif"));
    assert_eq!(d.text, "Salt Water fish from Australia");

    let d = parse_legacy_description(
        r#"<image src="../images/fish_icon.gif"><font size="5" color="blue"> Fish</font>"#,
    );
    assert_eq!(d.image.as_deref(), Some("fish_icon.gif"));
    assert_eq!(d.text, "Fish");

    let d = parse_legacy_description("Just words");
    assert_eq!(d.image, None);
    assert_eq!(d.text, "Just words");
}

#[test]
fn id_errors_name_their_reason() {
    let empty = ItemId::try_from(String::new()).unwrap_err();
    assert_eq!(empty.reason(), "empty");
    assert_eq!(empty.message(), "not a valid id: empty");
    let long = CategoryId::try_from("ABCDEFGHIJK".to_string()).unwrap_err();
    assert_eq!(long.reason(), "longer than 10 characters");
}

#[test]
fn id_length_counts_characters() {
    // Ten characters is the limit, however many bytes they take.
    assert!(validate_id("ÄÄÄÄÄÄ").is_ok());
    assert!(validate_id("ÄÄÄÄÄÄÄÄÄÄ").is_ok());
    assert!(validate_id("ÄÄÄÄÄÄÄÄÄÄÄ").is_err());
    assert!(validate_id("ABCDEFGHIJ").is_ok());
    assert!(validate_id("ABCDEFGHIJK").is_err());
}

#[test]
fn ids_keep_their_text() {
    let id = ItemId::try_from("EST-1".to_string()).unwrap();
    assert_eq!(id.as_str(), "EST-1");
    assert_eq!(id.clone().as_str(), "EST-1");
    assert!(id.same(&ItemId::try_from("EST-1".to_string()).unwrap()));
    assert!(!id.same(&ItemId::try_from("EST-2".to_string()).unwrap()));
}

#[test]
fn times_scales_and_saturates() {
    assert_eq!(Cents(1650).times(3), Cents(4950));
    assert_eq!(Cents(0).times(u32::MAX), Cents(0));
    assert_eq!(Cents(i64::MAX).times(2), Cents(i64::MAX));
    assert_eq!(Cents(i64::MIN).times(2), Cents(i64::MIN));
    assert_eq!(Cents(-5).times(3), Cents(-15));
}

#[test]
fn saturating_add_pins_at_the_bounds() {
    assert_eq!(Cents(1).saturating_add(Cents(2)), Cents(3));
    assert_eq!(Cents(i64::MAX).saturating_add(Cents(1)), Cents(i64::MAX));
    assert_eq!(Cents(i64::MIN).saturating_add(Cents(-1)), Cents(i64::MIN));
}

#[test]
fn dollars_follow_integer_division() {
    assert_eq!(Cents(0).to_string(), "$0.00");
    assert_eq!(Cents(5).to_string(), "$0.05");
    assert_eq!(Cents(123456).to_string(), "$1234.56");
    // Rust's `/` and `%` truncate toward zero; the sign shows on both parts.
    assert_eq!(Cents(-150).to_string(), "$-1.-50");
    assert_eq!(Cents(-5).to_string(), "$0.-5");
    assert_eq!(Cents(-200).to_string(), "$-2.00");
    assert_eq!(Cents(i64::MIN).to_string(), format!("${}.{:02}", i64::MIN / 100, i64::MIN % 100));
    assert_eq!(Cents(i64::MAX).to_string(), format!("${}.{:02}", i64::MAX / 100, i64::MAX % 100));
}

#[test]
fn unterminated_image_tags_leave_the_text_alone() {
    let d = parse_legacy_description(r#"<image src="../images/fish1.gif Fish"#);
    assert_eq!(d.image, None);
    assert_eq!(d.text, "");
    let d = parse_legacy_description("  a <b>bold</b> move  ");
    assert_eq!(d.image, None);
    assert_eq!(d.text, "a bold move");
    let d = parse_legacy_description("\u{3000}x > y\u{a0}");
    assert_eq!(d.text, "x  y");
}

#[test]
fn products_parse_their_descriptions() {
    let p = Product {
        id: ProductId::try_from("FI-SW-01".to_string()).unwrap(),
        category_id: CategoryId::try_from("FISH".to_string()).unwrap(),
        name: "Angelfish".to_string(),
        description: r#"<image src="../images/fish1.gif">Salt Water fish from Australia"#
            .to_string(),
    };
    let d = p.description_parts();
    assert_eq!(d.image.as_deref(), Some("fish1.gif"));
    assert_eq!(d.text, "Salt Water fish from Australia");
}

#[test]
fn ids_compare_by_text() {
    let a = ItemId::try_from("EST-1".to_string()).unwrap();
    let b = ItemId::try_from("EST-1".to_string()).unwrap();
    let c = ItemId::try_from("EST-2".to_string()).unwrap();
    assert_eq!(a, b);
    assert_ne!(a, c);
}
