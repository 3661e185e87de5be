use systemet::date::CalendarDate;
use systemet::decode::{
    classify_product_list_response, classify_product_response,
    classify_products_with_store_response,
};
use systemet::records::Error;

fn stub_product_body() -> String {
    "{\"ProductId\":\"1\",\"ProductNumber\":\"1\",\"ProductNameBold\":\"Test\",\"AlcoholPercentage\":12.5,\"Price\":99.0,\"RecycleFee\":0.5,\"RestrictedParcelQuantity\":0,\"SellStartDate\":\"2020-01-01T00:00:00\",\"Vintage\":2019,\"Volume\":750.0,\"IsCompletelyOutOfStock\":false,\"IsEthical\":false,\"IsKosher\":false,\"IsManufacturingCountry\":true,\"IsNews\":false,\"IsOrganic\":false,\"IsRegionalRestricted\":false,\"IsWebLaunch\":false}".to_string()
}

#[test]
fn stub_product_body_yields_the_typed_product() {
    let product = classify_product_response(&stub_product_body()).unwrap();
    assert_eq!(product.product_id, "1");
    assert_eq!(product.product_number, "1");
    assert_eq!(product.product_name_bold, "Test");
    assert_eq!(product.price.as_text(), "99.0");
    assert_eq!(product.alcohol_percentage.as_text(), "12.5");
    assert_eq!(product.recycle_fee.as_text(), "0.5");
    assert_eq!(product.volume.as_text(), "750.0");
    assert_eq!(product.vintage, 2019);
    assert_eq!(product.restricted_parcel_quantity, 0);
    assert_eq!(product.sell_start_date, CalendarDate::new(2020, 1, 1).unwrap());
    assert!(product.is_manufacturing_country);
    assert!(!product.is_organic);
    assert!(product.kind.is_none());
    assert!(product.is_temporarily_out_of_stock.is_none());
}

#[test]
fn unknown_keys_are_ignored_and_known_ones_populated() {
    let body = stub_product_body().replace(
        "\"ProductId\":\"1\",",
        "\"ProductId\":\"1\",\"SomeFutureKey\":\"whatever\",\"Another\":[1,2],",
    );
    let product = classify_product_response(&body).unwrap();
    assert_eq!(product.product_id, "1");
}

#[test]
fn kind_maps_from_the_wire_key_type_and_back() {
    let body = stub_product_body().replace(
        "\"ProductId\":\"1\",",
        "\"ProductId\":\"1\",\"Type\":\"Rött vin\",",
    );
    let product = classify_product_response(&body).unwrap();
    assert_eq!(product.kind.as_deref(), Some("Rött vin"));
    let rendered = product.to_wire_json();
    assert!(rendered.contains("\"Type\":\"Rött vin\""));
    assert!(!rendered.contains("\"kind\""));
}

#[test]
fn reserialized_product_parses_back_identically() {
    let product = classify_product_response(&stub_product_body()).unwrap();
    let rendered = product.to_wire_json();
    let again = classify_product_response(&rendered).unwrap();
    assert_eq!(again.product_id, product.product_id);
    assert_eq!(again.price.as_text(), product.price.as_text());
    assert_eq!(again.sell_start_date, product.sell_start_date);
    assert_eq!(again.is_manufacturing_country, product.is_manufacturing_country);
}

#[test]
fn a_body_valid_for_both_shapes_classifies_as_success() {
    // The empty array is a clean parse both as a product list and as an
    // error list; precedence must pick the success shape.
    let result = classify_product_list_response("[]").unwrap();
    assert_eq!(result.len(), 0);
}

#[test]
fn an_ambiguous_error_like_list_still_prefers_success() {
    let one_product = stub_product_body();
    let body = format!(
        "[{}]",
        one_product.replace(
            "\"ProductId\":\"1\",",
            "\"ProductId\":\"1\",\"Error\":\"E\",\"Message\":\"M\",",
        )
    );
    let result = classify_product_list_response(&body).unwrap();
    assert_eq!(result.len(), 1);
    assert_eq!(result[0].product_id, "1");
}

#[test]
fn an_error_body_classifies_as_api_failure() {
    let body = "[{\"Error\":\"E\",\"Message\":\"M\"},{\"Error\":\"F\",\"Message\":\"N\"}]";
    match classify_product_response(body) {
        Err(Error::Api(errors)) => {
            assert_eq!(errors.len(), 2);
            assert_eq!(errors[0].error, "E");
            assert_eq!(errors[0].message, "M");
            assert_eq!(errors[1].error, "F");
            assert_eq!(errors[1].message, "N");
        },
        _ => panic!("expected an API failure"),
    }
}

#[test]
fn a_body_matching_neither_shape_is_a_parse_failure_with_the_raw_body() {
    match classify_product_response("not json") {
        Err(Error::Parse { body, .. }) => assert_eq!(body, "not json"),
        _ => panic!("expected a parse failure"),
    }
    match classify_product_response("{\"ProductId\":7}") {
        Err(Error::Parse { body, .. }) => assert_eq!(body, "{\"ProductId\":7}"),
        _ => panic!("expected a parse failure"),
    }
}

#[test]
fn missing_required_fields_name_the_field() {
    let body = stub_product_body().replace("\"Price\":99.0,", "");
    match classify_product_response(&body) {
        Err(Error::Parse { err, .. }) => assert_eq!(err, "missing or invalid field 'Price'"),
        _ => panic!("expected a parse failure"),
    }
}

#[test]
fn a_fractional_integer_field_fails_the_parse() {
    let body = stub_product_body().replace("\"Vintage\":2019", "\"Vintage\":2019.5");
    match classify_product_response(&body) {
        Err(Error::Parse { err, .. }) => assert_eq!(err, "missing or invalid field 'Vintage'"),
        _ => panic!("expected a parse failure"),
    }
}

#[test]
fn an_out_of_range_integer_field_fails_the_parse() {
    let body = stub_product_body().replace(
        "\"RestrictedParcelQuantity\":0",
        "\"RestrictedParcelQuantity\":3000000000",
    );
    match classify_product_response(&body) {
        Err(Error::Parse { err, .. }) => {
            assert_eq!(err, "missing or invalid field 'RestrictedParcelQuantity'")
        },
        _ => panic!("expected a parse failure"),
    }
}

#[test]
fn malformed_dates_fail_the_product_parse() {
    let body = stub_product_body().replace("2020-01-01T00:00:00", "2020-13-01T00:00:00");
    match classify_product_response(&body) {
        Err(Error::Parse { err, .. }) => {
            assert_eq!(
                err,
                "field 'SellStartDate' holds an invalid date: '2020-13-01T00:00:00'"
            )
        },
        _ => panic!("expected a parse failure"),
    }
}

#[test]
fn store_bodies_decode_site_by_site() {
    let body = "[{\"SiteId\":\"0102\",\"Products\":[{\"ProductId\":\"1\",\"ProductNumber\":\"101\"},{\"ProductId\":\"2\",\"ProductNumber\":\"102\"}]},{\"SiteId\":\"0203\",\"Products\":[]}]";
    let stores = classify_products_with_store_response(body).unwrap();
    assert_eq!(stores.len(), 2);
    assert_eq!(stores[0].site_id, "0102");
    assert_eq!(stores[0].products.len(), 2);
    assert_eq!(stores[0].products[1].product_number, "102");
    assert_eq!(stores[1].site_id, "0203");
    assert_eq!(stores[1].products.len(), 0);
}

#[test]
fn product_list_bodies_decode_in_order() {
    let one = stub_product_body();
    let two = one.replace("\"ProductId\":\"1\"", "\"ProductId\":\"2\"");
    let body = format!("[{},{}]", one, two);
    let products = classify_product_list_response(&body).unwrap();
    assert_eq!(products.len(), 2);
    assert_eq!(products[0].product_id, "1");
    assert_eq!(products[1].product_id, "2");
}
