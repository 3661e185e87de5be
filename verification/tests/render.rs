use systemet::client::{all_products_url, api_key_header, product_url, products_with_store_url, search_url};
use systemet::records::{ApiError, Error};

fn entry(code: &str, message: &str) -> ApiError {
    ApiError {
        error: code.to_string(),
        message: message.to_string(),
    }
}

#[test]
fn zero_entries_render_the_generic_message() {
    let rendered = Error::Api(Vec::new()).render();
    assert_eq!(
        rendered,
        "API error: Got error response from API, but no error code or message"
    );
}

#[test]
fn one_entry_renders_its_code_and_message() {
    let rendered = Error::Api(vec![entry("E", "M")]).render();
    assert_eq!(rendered, "API error: error code: E, message: M");
}

#[test]
fn two_entries_render_parenthesized_and_joined() {
    let rendered = Error::Api(vec![entry("A", "B"), entry("C", "D")]).render();
    assert_eq!(
        rendered,
        "API errors: (error code: A, message: B), (error code: C, message: D)"
    );
}

#[test]
fn three_entries_join_every_form() {
    let rendered = Error::Api(vec![entry("A", "B"), entry("C", "D"), entry("E", "F")]).render();
    assert_eq!(
        rendered,
        "API errors: (error code: A, message: B), (error code: C, message: D), (error code: E, message: F)"
    );
}

#[test]
fn parse_errors_render_the_diagnostic_and_the_body() {
    let rendered = Error::Parse {
        err: "oops".to_string(),
        body: "raw".to_string(),
    }
    .render();
    assert_eq!(
        rendered,
        "Serialization/deserialization error: oops. Response body: 'raw'"
    );
}

#[test]
fn transport_errors_render_the_diagnostic() {
    let rendered = Error::Transport("timed out".to_string()).render();
    assert_eq!(rendered, "Network error: timed out");
}

#[test]
fn api_error_entries_render_alone() {
    assert_eq!(entry("X", "Y").render(), "error code: X, message: Y");
}

#[test]
fn an_error_payload_converts_to_the_api_failure_kind() {
    let e = Error::from(vec![entry("E", "M")]);
    assert_eq!(e.render(), "API error: error code: E, message: M");
}

#[test]
fn endpoint_urls_follow_the_fixed_table() {
    assert_eq!(
        product_url("1"),
        "https://api-extern.systembolaget.se/product/v1/product/1"
    );
    assert_eq!(
        all_products_url(),
        "https://api-extern.systembolaget.se/product/v1/product"
    );
    assert_eq!(
        products_with_store_url(),
        "https://api-extern.systembolaget.se/product/v1/getproductswithstore"
    );
    assert_eq!(
        search_url(),
        "https://api-extern.systembolaget.se/product/v1/search"
    );
    assert_eq!(api_key_header(), "Ocp-Apim-Subscription-Key");
}
