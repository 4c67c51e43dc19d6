use bazaar_realm_api::params::{ListParams, Order};
use bazaar_realm_api::registry::Caches;
use bazaar_realm_api::response::{CachedResponse, ContentType, ETagReply};

fn response_with_body(bytes: &[u8], ct: ContentType) -> CachedResponse {
    CachedResponse::from_reply(ETagReply::from_bytes(bytes.to_vec(), ct), 200)
}

#[test]
fn initialize_builds_the_fixed_table() {
    let caches = Caches::initialize();
    assert_eq!(caches.shop.name(), "shop");
    assert_eq!(caches.shop_bin.name(), "shop_bin");
    assert_eq!(caches.list_transactions.name(), "list_transaction");
    assert_eq!(caches.list_transactions_by_shop_id_bin.name(), "list_transaction_by_shop_id_bin");
    assert_eq!(caches.shop.capacity(), 100);
    assert_eq!(caches.owner_ids_by_api_key.capacity(), 100);
    assert!(!caches.owner_ids_by_api_key.logs_keys());
    assert!(caches.shop.logs_keys());
    assert_eq!(caches.shop.len(), 0);
    assert_eq!(caches.merchandise_list_by_shop_id_bin.len(), 0);
}

#[test]
fn shop_update_drops_both_variants_and_clears_lists() {
    let mut caches = Caches::initialize();
    let _ = caches.shop.get_response(7, || Ok(response_with_body(b"shop-7", ContentType::Json)));
    let _ = caches
        .shop_bin
        .get_response(7, || Ok(response_with_body(b"shop-7-bin", ContentType::Bincode)));
    let params = ListParams::new(Some(10), Some(0), None, None);
    let _ = caches
        .list_shops
        .get_response(params.dup(), || Ok(response_with_body(b"[]", ContentType::Json)));
    assert_eq!(caches.shop.len(), 1);
    assert_eq!(caches.shop_bin.len(), 1);
    assert_eq!(caches.list_shops.len(), 1);

    caches.after_shop_update(7);
    assert_eq!(caches.shop.len(), 0);
    assert_eq!(caches.shop_bin.len(), 0);
    assert_eq!(caches.list_shops.len(), 0);

    // the next read recomputes in both variants
    let mut calls = 0;
    let _ = caches.shop.get_response(7, || {
        calls += 1;
        Ok(response_with_body(b"shop-7-v2", ContentType::Json))
    });
    let _ = caches.shop_bin.get_response(7, || {
        calls += 1;
        Ok(response_with_body(b"shop-7-v2-bin", ContentType::Bincode))
    });
    assert_eq!(calls, 2);
}

#[test]
fn shop_update_leaves_unrelated_caches_alone() {
    let mut caches = Caches::initialize();
    let _ = caches
        .owner
        .get_response(3, || Ok(response_with_body(b"owner-3", ContentType::Json)));
    caches.after_shop_update(7);
    assert_eq!(caches.owner.len(), 1);
}

#[test]
fn transaction_create_invalidates_dependent_merchandise_caches() {
    let mut caches = Caches::initialize();
    let _ = caches
        .merchandise_list
        .get_response(11, || Ok(response_with_body(b"m11", ContentType::Json)));
    let _ = caches
        .merchandise_list_bin
        .get_response(11, || Ok(response_with_body(b"m11b", ContentType::Bincode)));
    let _ = caches
        .merchandise_list_by_shop_id
        .get_response(5, || Ok(response_with_body(b"m-shop5", ContentType::Json)));
    let params = ListParams::new(None, None, None, None);
    let _ = caches
        .list_transactions_by_shop_id
        .get_response((5, params.dup()), || Ok(response_with_body(b"txs", ContentType::Json)));

    caches.after_transaction_create(11, 5);
    assert_eq!(caches.merchandise_list.len(), 0);
    assert_eq!(caches.merchandise_list_bin.len(), 0);
    assert_eq!(caches.merchandise_list_by_shop_id.len(), 0);
    assert_eq!(caches.list_transactions_by_shop_id.len(), 0);
}

#[test]
fn owner_delete_forgets_the_api_key() {
    let mut caches = Caches::initialize();
    let key: u128 = 99;
    let _ = caches.authenticate(Some(key), || Ok(12));
    caches.after_owner_delete(12, key);
    let mut calls = 0;
    let _ = caches.authenticate(Some(key), || {
        calls += 1;
        Ok(12)
    });
    assert_eq!(calls, 1);
}

#[test]
fn logically_equal_list_params_share_one_entry() {
    let mut caches = Caches::initialize();
    let first = ListParams::new(Some(10), Some(0), Some("name".to_string()), Some(Order::Asc));
    let again = ListParams::new(Some(10), Some(0), Some("name".to_string()), Some(Order::Asc));
    let mut calls = 0;
    let _ = caches.list_shops.get_response(first, || {
        calls += 1;
        Ok(response_with_body(b"page", ContentType::Json))
    });
    let mut calls2 = 0;
    let _ = caches.list_shops.get_response(again, || {
        calls2 += 1;
        Ok(response_with_body(b"page2", ContentType::Json))
    });
    assert_eq!(calls, 1);
    assert_eq!(calls2, 0);
    assert_eq!(caches.list_shops.len(), 1);
}
