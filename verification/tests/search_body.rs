use systemet::date::CalendarDate;
use systemet::num::JsonNum;
use systemet::records::{SortDirection, SortKey};
use systemet::search::SearchRequest;

fn num(text: &str) -> JsonNum {
    JsonNum::new(text.to_string()).unwrap()
}

#[test]
fn empty_request_serializes_every_field_as_null() {
    let body = SearchRequest::new().to_body();
    let expected = "{\"alcohol_percentage_max\":null,\"alcohol_percentage_min\":null,\"assortment_text\":null,\"bottle_type_group\":null,\"country\":null,\"csr\":null,\"type\":null,\"news\":null,\"origin_level_1\":null,\"origin_level_2\":null,\"other_selections\":null,\"page\":null,\"price_max\":null,\"price_min\":null,\"seal\":null,\"search_query\":null,\"sell_start_date_from\":null,\"sell_start_date_to\":null,\"sort_by\":null,\"sort_direction\":null,\"style\":null,\"sub_category\":null,\"vintage\":null}";
    assert_eq!(body, expected);
}

#[test]
fn set_fields_serialize_with_their_values() {
    let body = SearchRequest::new()
        .sort_by(Some(SortKey::Price))
        .country(Some("Sweden".to_string()))
        .page(Some(2))
        .price_min(Some(num("10.5")))
        .sell_start_date_from(CalendarDate::new(2020, 1, 1))
        .sort_direction(Some(SortDirection::Descending))
        .to_body();
    assert!(body.contains("\"country\":\"Sweden\""));
    assert!(body.contains("\"page\":2"));
    assert!(body.contains("\"price_min\":10.5"));
    assert!(body.contains("\"sell_start_date_from\":\"2020-01-01T00:00:00\""));
    assert!(body.contains("\"sort_by\":0"));
    assert!(body.contains("\"sort_direction\":1"));
    assert!(body.contains("\"price_max\":null"));
}

#[test]
fn serialized_body_parses_back_to_the_same_field_values() {
    let body = SearchRequest::new()
        .search_query(Some("dry riesling".to_string()))
        .kind(Some("Vitt vin".to_string()))
        .page(Some(-3))
        .alcohol_percentage_max(Some(num("13")))
        .to_body();
    let v: serde_json::Value = serde_json::from_str(&body).unwrap();
    assert_eq!(v.get("search_query").unwrap().as_str().unwrap(), "dry riesling");
    assert_eq!(v.get("type").unwrap().as_str().unwrap(), "Vitt vin");
    assert_eq!(v.get("page").unwrap().as_i64().unwrap(), -3);
    assert_eq!(v.get("alcohol_percentage_max").unwrap().as_i64().unwrap(), 13);
    assert!(v.get("country").unwrap().is_null());
    assert!(v.get("sell_start_date_to").unwrap().is_null());
    assert_eq!(v.as_object().unwrap().len(), 23);
}

#[test]
fn string_values_are_escaped() {
    let body = SearchRequest::new()
        .search_query(Some("say \"hi\" \\ there".to_string()))
        .to_body();
    assert!(body.contains("\"search_query\":\"say \\\"hi\\\" \\\\ there\""));
    let v: serde_json::Value = serde_json::from_str(&body).unwrap();
    assert_eq!(
        v.get("search_query").unwrap().as_str().unwrap(),
        "say \"hi\" \\ there"
    );
}

#[test]
fn control_characters_are_escaped() {
    let body = SearchRequest::new()
        .search_query(Some("a\u{1}b\u{1f}c".to_string()))
        .to_body();
    assert!(body.contains("\"search_query\":\"a\\u0001b\\u001fc\""));
    let v: serde_json::Value = serde_json::from_str(&body).unwrap();
    assert_eq!(v.get("search_query").unwrap().as_str().unwrap(), "a\u{1}b\u{1f}c");
}

#[test]
fn setters_update_one_field_and_keep_the_rest() {
    let req = SearchRequest::new()
        .country(Some("France".to_string()))
        .style(Some("Crisp".to_string()))
        .country(Some("Italy".to_string()));
    assert_eq!(req.country.as_deref(), Some("Italy"));
    assert_eq!(req.style.as_deref(), Some("Crisp"));
    assert!(req.seal.is_none());
}

#[test]
fn validate_reports_whether_anything_is_set() {
    assert!(!SearchRequest::new().validate());
    assert!(SearchRequest::new().page(Some(1)).validate());
    assert!(!SearchRequest::new().page(Some(1)).page(None).validate());
}

#[test]
fn extreme_page_values_print_exactly() {
    let body = SearchRequest::new().page(Some(i32::MIN)).to_body();
    assert!(body.contains("\"page\":-2147483648"));
    let body = SearchRequest::new().page(Some(i32::MAX)).to_body();
    assert!(body.contains("\"page\":2147483647"));
}

#[test]
fn number_literals_are_validated() {
    assert!(JsonNum::new("99.0".to_string()).is_some());
    assert!(JsonNum::new("-1.5e10".to_string()).is_some());
    assert!(JsonNum::new("0".to_string()).is_some());
    assert!(JsonNum::new("1E+3".to_string()).is_some());
    assert!(JsonNum::new("01".to_string()).is_none());
    assert!(JsonNum::new("1.".to_string()).is_none());
    assert!(JsonNum::new(".5".to_string()).is_none());
    assert!(JsonNum::new("--1".to_string()).is_none());
    assert!(JsonNum::new("".to_string()).is_none());
    assert!(JsonNum::new("1e".to_string()).is_none());
    assert!(JsonNum::new("nan".to_string()).is_none());
}

#[test]
fn sort_enums_use_stable_wire_integers() {
    assert_eq!(SortKey::Price.wire_value(), 0);
    assert_eq!(SortKey::Name.wire_value(), 1);
    assert_eq!(SortKey::Volume.wire_value(), 2);
    assert_eq!(SortKey::Vintage.wire_value(), 3);
    assert_eq!(SortKey::Rank.wire_value(), 4);
    assert_eq!(SortKey::City.wire_value(), 5);
    assert_eq!(SortKey::SellStartDate.wire_value(), 6);
    assert_eq!(SortKey::DisplayName.wire_value(), 7);
    assert_eq!(SortDirection::Ascending.wire_value(), 0);
    assert_eq!(SortDirection::Descending.wire_value(), 1);
    assert_eq!(SortKey::from_wire(3), Some(SortKey::Vintage));
    assert_eq!(SortKey::from_wire(8), None);
    assert_eq!(SortDirection::from_wire(1), Some(SortDirection::Descending));
    assert_eq!(SortDirection::from_wire(2), None);
}
