use bazaar_realm_api::accept::{body_content_type, negotiate, AcceptHeader};
use bazaar_realm_api::params::{ListParams, Order};
use bazaar_realm_api::resource::{
    authorize_owner, resource_path, shop_create_defaults, transaction_quantity_delta,
};
use bazaar_realm_api::response::ContentType;

#[test]
fn order_by_clause_is_column_then_direction() {
    let p = ListParams::new(None, None, Some("created_at".to_string()), Some(Order::Asc));
    assert_eq!(p.get_order_by(), Some("created_at ASC".to_string()));

    let p = ListParams::new(None, None, Some("updated_at".to_string()), None);
    assert_eq!(p.get_order_by(), Some("updated_at DESC".to_string()));

    let p = ListParams::new(Some(10), Some(20), None, Some(Order::Asc));
    assert_eq!(p.get_order_by(), None);
}

#[test]
fn accept_header_parsing_recognizes_the_binary_media_type() {
    let h = AcceptHeader::from_str("application/octet-stream").unwrap();
    assert!(h.accepts_bincode());

    let h = AcceptHeader::from_str(" Application/OCTET-Stream , text/html").unwrap();
    assert!(h.accepts_bincode());

    let h = AcceptHeader::from_str("application/json").unwrap();
    assert!(!h.accepts_bincode());

    let h = AcceptHeader::from_str("text/html, application/xhtml+xml, */*").unwrap();
    assert!(!h.accepts_bincode());

    // a parameter makes the entry a different media type: selection compares
    // whole entries, not essences
    let h = AcceptHeader::from_str("application/octet-stream;q=0.9").unwrap();
    assert!(!h.accepts_bincode());
}

#[test]
fn malformed_accept_headers_are_refused() {
    assert!(AcceptHeader::from_str("").is_none());
    assert!(AcceptHeader::from_str("not-a-mime").is_none());
    assert!(AcceptHeader::from_str("a/b,,c/d").is_none());
    assert!(AcceptHeader::from_str("a/b, /c").is_none());
    assert!(AcceptHeader::from_str("caf\u{e9}/latte").is_none());
}

#[test]
fn negotiation_defaults_to_json() {
    assert_eq!(negotiate(&None), ContentType::Json);
    let h = AcceptHeader::from_str("application/json").unwrap();
    assert_eq!(negotiate(&Some(h)), ContentType::Json);
    let h = AcceptHeader::from_str("application/octet-stream").unwrap();
    assert_eq!(negotiate(&Some(h)), ContentType::Bincode);
}

#[test]
fn body_decoder_follows_the_content_type_header() {
    assert_eq!(body_content_type(&None), ContentType::Json);
    assert_eq!(
        body_content_type(&Some(b"application/octet-stream".to_vec())),
        ContentType::Bincode
    );
    assert_eq!(
        body_content_type(&Some(b" Application/Octet-Stream ".to_vec())),
        ContentType::Bincode
    );
    assert_eq!(body_content_type(&Some(b"application/json".to_vec())), ContentType::Json);
}

#[test]
fn resource_paths_pluralize_and_append_the_key() {
    assert_eq!(resource_path("shop", 5), "shops/5");
    assert_eq!(resource_path("owner", 120), "owners/120");
    assert_eq!(resource_path("transaction", 0), "transactions/0");
    assert_eq!(resource_path("shop", -3), "shops/-3");
}

#[test]
fn ownership_guards_writes() {
    assert!(authorize_owner(4, 4).is_ok());
    let p = authorize_owner(4, 5).err().unwrap();
    assert_eq!(p.status(), 403);
}

#[test]
fn transaction_quantity_delta_signs() {
    assert_eq!(transaction_quantity_delta(true, 3), 3);
    assert_eq!(transaction_quantity_delta(false, 3), -3);
}

#[test]
fn posted_shop_defaults() {
    let (gold, shop_type, keywords, exclude) = shop_create_defaults(None, None, None, None);
    assert_eq!(gold, 0);
    assert_eq!(shop_type, "general_store");
    assert_eq!(keywords, vec!["VendorItemKey".to_string(), "VendorNoSale".to_string()]);
    assert!(exclude);

    let (gold, shop_type, keywords, exclude) = shop_create_defaults(
        Some(20),
        Some("alchemist".to_string()),
        Some(vec!["VendorItemPotion".to_string()]),
        Some(false),
    );
    assert_eq!(gold, 20);
    assert_eq!(shop_type, "alchemist");
    assert_eq!(keywords, vec!["VendorItemPotion".to_string()]);
    assert!(!exclude);
}

#[test]
fn list_params_duplicate_is_equal() {
    let p = ListParams::new(Some(1), Some(2), Some("name".to_string()), Some(Order::Desc));
    let d = p.dup();
    assert_eq!(d.limit, p.limit);
    assert_eq!(d.offset, p.offset);
    assert_eq!(d.order_by, p.order_by);
    assert!(matches!(d.order, Some(Order::Desc)));
}
