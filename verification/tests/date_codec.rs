use systemet::date::{parse_wire_date, CalendarDate};

#[test]
fn round_trips_an_ordinary_date() {
    let d = CalendarDate::new(2020, 1, 1).unwrap();
    let wire = d.to_wire();
    assert_eq!(wire, "2020-01-01T00:00:00");
    let back = parse_wire_date(&wire).unwrap();
    assert_eq!(back, d);
}

#[test]
fn round_trips_extreme_years() {
    for (y, m, day) in [(1u32, 1u32, 1u32), (9999, 12, 31), (2000, 2, 29)] {
        let d = CalendarDate::new(y, m, day).unwrap();
        let back = parse_wire_date(&d.to_wire()).unwrap();
        assert_eq!(back, d);
    }
}

#[test]
fn parsing_discards_the_time_component() {
    let d = parse_wire_date("2021-07-15T13:45:59").unwrap();
    assert_eq!(d, CalendarDate::new(2021, 7, 15).unwrap());
}

#[test]
fn rejects_out_of_range_times() {
    assert!(parse_wire_date("2021-07-15T24:00:00").is_none());
    assert!(parse_wire_date("2021-07-15T00:60:00").is_none());
    assert!(parse_wire_date("2021-07-15T00:00:60").is_none());
}

#[test]
fn rejects_malformed_text() {
    assert!(parse_wire_date("").is_none());
    assert!(parse_wire_date("not a date").is_none());
    assert!(parse_wire_date("2021-07-15").is_none());
    assert!(parse_wire_date("2021/07/15T00:00:00").is_none());
    assert!(parse_wire_date("2021-07-15T00:00:0x").is_none());
}

#[test]
fn rejects_impossible_days() {
    assert!(parse_wire_date("2021-13-01T00:00:00").is_none());
    assert!(parse_wire_date("2021-00-01T00:00:00").is_none());
    assert!(parse_wire_date("2021-04-31T00:00:00").is_none());
    assert!(parse_wire_date("2021-02-29T00:00:00").is_none());
    assert!(parse_wire_date("2020-02-29T00:00:00").is_some());
    assert!(parse_wire_date("1900-02-29T00:00:00").is_none());
    assert!(parse_wire_date("2000-02-29T00:00:00").is_some());
}

#[test]
fn is_valid_agrees_with_new() {
    assert!(CalendarDate::new(2024, 2, 29).unwrap().is_valid());
    let junk = CalendarDate {
        year: 2024,
        month: 2,
        day: 30,
    };
    assert!(!junk.is_valid());
}

#[test]
fn new_rejects_non_days() {
    assert!(CalendarDate::new(0, 1, 1).is_none());
    assert!(CalendarDate::new(10000, 1, 1).is_none());
    assert!(CalendarDate::new(2021, 2, 29).is_none());
    assert!(CalendarDate::new(2021, 6, 31).is_none());
}
