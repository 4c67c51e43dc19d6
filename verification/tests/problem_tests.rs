use bazaar_realm_api::problem::{
    forbidden_permission, merchandise_not_found, problem_for_db_error, unauthorized_no_api_key,
    unauthorized_no_owner, DbConstraint, Problem,
};

#[test]
fn named_problems_carry_status_and_detail() {
    let p = forbidden_permission();
    assert_eq!(p.status(), 403);
    assert_eq!(p.title(), "Forbidden");
    assert_eq!(
        p.detail().as_ref().map(|s| s.as_str()),
        Some("Api-Key does not have required permissions")
    );

    let p = unauthorized_no_owner();
    assert_eq!(p.status(), 401);
    assert_eq!(p.detail().as_ref().map(|s| s.as_str()), Some("Api-Key not recognized"));

    let p = unauthorized_no_api_key();
    assert_eq!(p.status(), 401);
    assert_eq!(p.detail().as_ref().map(|s| s.as_str()), Some("Api-Key header not present"));
}

#[test]
fn db_errors_map_to_their_messages() {
    let cases: Vec<(u32, DbConstraint, &str)> = vec![
        (23503, DbConstraint::ShopsOwnerIdFkey, "Owner does not exist"),
        (23503, DbConstraint::InteriorRefListsOwnerIdFkey, "Owner does not exist"),
        (23503, DbConstraint::MerchandiseListsOwnerIdFkey, "Owner does not exist"),
        (23503, DbConstraint::TransactionsOwnerIdFkey, "Owner does not exist"),
        (23503, DbConstraint::InteriorRefListsShopIdFkey, "Shop does not exist"),
        (23503, DbConstraint::MerchandiseListsShopIdFkey, "Shop does not exist"),
        (23503, DbConstraint::TransactionsShopIdFkey, "Shop does not exist"),
        (23505, DbConstraint::OwnersApiKeyKey, "Owner with Api-Key already exists"),
        (
            23505,
            DbConstraint::OwnersUniqueNameAndApiKey,
            "Duplicate owner with same name and Api-Key exists",
        ),
        (
            23505,
            DbConstraint::ShopsUniqueNameAndOwnerId,
            "Owner already has a shop with that name",
        ),
        (
            23505,
            DbConstraint::InteriorRefListsShopIdKey,
            "Interior ref list already exists for that shop",
        ),
        (
            23505,
            DbConstraint::MerchandiseListsShopIdKey,
            "Merchandise list already exists for that shop",
        ),
        (
            23514,
            DbConstraint::MerchandiseQuantityGtZero,
            "Quantity of merchandise must be greater than zero",
        ),
    ];
    for (code, constraint, message) in cases {
        let p = problem_for_db_error(code, Some(constraint)).expect("recognized pair");
        assert_eq!(p.status(), 400);
        assert_eq!(p.detail().as_ref().map(|s| s.as_str()), Some(message));
    }
}

#[test]
fn unrecognized_db_errors_are_not_translated() {
    assert!(problem_for_db_error(23503, None).is_none());
    assert!(problem_for_db_error(23505, Some(DbConstraint::ShopsOwnerIdFkey)).is_none());
    assert!(problem_for_db_error(42, Some(DbConstraint::OwnersApiKeyKey)).is_none());
}

#[test]
fn merchandise_not_found_formats_the_form_id() {
    let p = merchandise_not_found("Skyrim.esm", 31);
    assert_eq!(p.status(), 404);
    assert_eq!(
        p.detail().as_ref().map(|s| s.as_str()),
        Some("Cannot find merchandise to buy with mod_name: Skyrim.esm and local_form_id: 0x0000001F")
    );
    let p = merchandise_not_found("m", -1);
    assert_eq!(
        p.detail().as_ref().map(|s| s.as_str()),
        Some("Cannot find merchandise to buy with mod_name: m and local_form_id: 0xFFFFFFFF")
    );
}

#[test]
fn problem_renders_as_problem_json() {
    let resp = Problem::from_status(404).to_response();
    assert_eq!(resp.status, 404);
    assert_eq!(
        resp.headers,
        vec![("content-type".to_string(), "application/problem+json".to_string())]
    );
    assert_eq!(
        String::from_utf8(resp.body.clone()).unwrap(),
        "{\"type\":\"https://httpstatuses.com/404\",\"title\":\"Not Found\",\"status\":404}"
    );

    let resp = forbidden_permission().to_response();
    assert_eq!(
        String::from_utf8(resp.body.clone()).unwrap(),
        "{\"type\":\"https://httpstatuses.com/403\",\"title\":\"Forbidden\",\"status\":403,\
         \"detail\":\"Api-Key does not have required permissions\"}"
    );
}

#[test]
fn problem_body_is_valid_json_with_escaping() {
    let p = Problem::from_status(400).set_detail("say \"hi\" \\ and\ttab");
    let resp = p.to_response();
    let parsed: serde_json::Value = serde_json::from_slice(&resp.body).unwrap();
    assert_eq!(parsed["status"], 400);
    assert_eq!(parsed["title"], "Bad Request");
    assert_eq!(parsed["detail"], "say \"hi\" \\ and\ttab");
    assert_eq!(parsed["type"], "https://httpstatuses.com/400");
}

#[test]
fn custom_titles_survive() {
    let p = Problem::from_status(400).set_title("Json Body Deserialization Error").set_detail(
        "expected value at line 1 column 1",
    );
    assert_eq!(p.title(), "Json Body Deserialization Error");
    assert_eq!(p.status(), 400);
    let parsed: serde_json::Value = serde_json::from_slice(&p.to_response().body).unwrap();
    assert_eq!(parsed["title"], "Json Body Deserialization Error");
}
