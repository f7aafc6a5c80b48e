use geocode_broker::google::{clean, parse_google_geocoding_response};
use geocode_broker::record::ExampleResult;

fn payload(text: &str) -> serde_json::Value {
    serde_json::from_str(text).unwrap()
}

const HANOI: &str = r#"{
  "status": "OK",
  "results": [
    {
      "formatted_address": "12A Pham Hung, Me Tri, Nam Tu Liem, Hanoi, Vietnam",
      "place_id": "ChIJ-place",
      "plus_code": { "compound_code": "2QHM+4M Hanoi", "global_code": "7PH72QHM+4M" },
      "formatted_phone_number": "024 1234 5678",
      "website": "https://example.vn",
      "geometry": { "location": { "lat": 21.0278, "lng": 105.8342 } },
      "address_components": [
        { "long_name": "12A", "short_name": "12A", "types": ["street_number"] },
        { "long_name": "Pham Hung", "short_name": "Pham Hung", "types": ["route"] },
        { "long_name": "Keangnam", "types": ["premise"] },
        { "long_name": "Floor 5", "types": ["floor"] },
        { "long_name": "Me Tri", "types": ["sublocality_level_1", "sublocality", "political"] },
        { "long_name": "To 3", "types": ["sublocality_level_2"] },
        { "long_name": "Phường Mễ Trì", "types": ["administrative_area_level_3", "political"] },
        { "long_name": "Quận Nam Từ Liêm", "types": ["administrative_area_level_2", "political"] },
        { "long_name": "Thành phố Hà Nội", "types": ["administrative_area_level_1", "political"] },
        { "long_name": "Vietnam", "types": ["country", "political"] }
      ]
    },
    { "formatted_address": "second result, never read" }
  ]
}"#;

#[test]
fn route_and_street_number_fill_street_and_house() {
    let record = parse_google_geocoding_response(payload(
        r#"{"status":"OK","results":[{"address_components":[
            {"long_name":"Pham Hung","types":["route"]},
            {"long_name":"12A","types":["street_number"]}]}]}"#,
    ));
    assert_eq!(record.house_num.as_deref(), Some("12A"));
    assert_eq!(record.st_name.as_deref(), Some("Pham Hung"));
    assert_eq!(record.status, "ok");
}

#[test]
fn a_full_google_result_fills_the_record() {
    let record = parse_google_geocoding_response(payload(HANOI));
    let expected = ExampleResult {
        address: "12A Pham Hung, Me Tri, Nam Tu Liem, Hanoi, Vietnam".to_string(),
        province: Some("Hà Nội".to_string()),
        district: Some("Nam Từ Liêm".to_string()),
        ward: Some("Mễ Trì".to_string()),
        poi_vn: Some("Keangnam".to_string()),
        room: Some("Floor 5".to_string()),
        house_num: Some("12A".to_string()),
        buaname: Some("Me Tri".to_string()),
        st_name: Some("Pham Hung".to_string()),
        sub_com: Some("To 3".to_string()),
        phone: Some("024 1234 5678".to_string()),
        web: Some("https://example.vn".to_string()),
        google_id: Some("ChIJ-place".to_string()),
        plus_code: Some("7PH72QHM+4M".to_string()),
        latitude: Some(21.0278f64.to_bits()),
        longitude: Some(105.8342f64.to_bits()),
        ..ExampleResult::bare("ok", "")
    };
    assert_eq!(record, expected);
}

#[test]
fn the_last_component_of_a_kind_counts() {
    let record = parse_google_geocoding_response(payload(
        r#"{"results":[{"address_components":[
            {"long_name":"First","types":["premise"]},
            {"long_name":"Second","types":["point_of_interest"]},
            {"long_name":"Room 2","types":["room"]},
            {"long_name":"Floor 1","types":["floor"]}]}]}"#,
    ));
    assert_eq!(record.poi_vn.as_deref(), Some("Second"));
    assert_eq!(record.room.as_deref(), Some("Floor 1"));
}

#[test]
fn a_component_without_a_name_supplies_nothing() {
    let record = parse_google_geocoding_response(payload(
        r#"{"results":[{"address_components":[{"types":["route"]},
            {"long_name":7,"types":["premise"]},{"long_name":null,"types":["floor"]}]}]}"#,
    ));
    assert_eq!(record, ExampleResult::bare("ok", ""));
}

#[test]
fn a_component_without_a_name_takes_nothing_away() {
    let record = parse_google_geocoding_response(payload(
        r#"{"results":[{"address_components":[{"long_name":"Pham Hung","types":["route"]},
            {"types":["route"]}]}]}"#,
    ));
    assert_eq!(record.st_name.as_deref(), Some("Pham Hung"));
}

#[test]
fn an_empty_name_is_still_a_name() {
    let record = parse_google_geocoding_response(payload(
        r#"{"results":[{"address_components":[{"long_name":"","types":["room"]}]}]}"#,
    ));
    assert_eq!(record.room.as_deref(), Some(""));
}

#[test]
fn a_google_status_other_than_ok_is_passed_through() {
    let record = parse_google_geocoding_response(payload(
        r#"{"status":"REQUEST_DENIED","results":[{"formatted_address":"ignored"}]}"#,
    ));
    assert_eq!(record, ExampleResult::bare("REQUEST_DENIED", ""));
}

#[test]
fn zero_results_give_the_record_that_says_so() {
    let nothing = ExampleResult {
        status_detail: Some("no_results".to_string()),
        ..ExampleResult::bare("error", "")
    };
    for text in [
        r#"{"status":"ZERO_RESULTS","results":[]}"#,
        r#"{"status":"ZERO_RESULTS"}"#,
        r#"{"status":"ZERO_RESULTS","results":[{"formatted_address":"never read"}]}"#,
        r#"{"status":"OK","results":[]}"#,
        r#"{"status":"OK"}"#,
        r#"{"results":{"0":"no list"}}"#,
        "{}",
        "[1, 2, 3]",
        "null",
        "7",
        "\"text\"",
    ] {
        assert_eq!(parse_google_geocoding_response(payload(text)), nothing, "{}", text);
    }
}

#[test]
fn a_first_result_that_is_no_object_gives_a_bare_success() {
    for text in [r#"{"results":[null]}"#, r#"{"results":[7]}"#, r#"{"status":"OK","results":[[]]}"#] {
        assert_eq!(parse_google_geocoding_response(payload(text)), ExampleResult::bare("ok", ""));
    }
}

#[test]
fn sublocalities_are_cleaned_of_their_prefixes() {
    let record = parse_google_geocoding_response(payload(
        r#"{"status":"OK","results":[{"address_components":[
            {"long_name":"Phường Mễ Trì","types":["sublocality_level_1"]},
            {"long_name":"  Xã  Kim Chung ","types":["sublocality_level_2"]}]}]}"#,
    ));
    assert_eq!(record.buaname.as_deref(), Some("Mễ Trì"));
    assert_eq!(record.sub_com.as_deref(), Some("Kim Chung"));
}

#[test]
fn the_address_gives_house_number_and_street_where_no_component_does() {
    let record = parse_google_geocoding_response(payload(
        r#"{"status":"OK","results":[{"formatted_address":"12 Pham Hung, Ha Noi"}]}"#,
    ));
    assert_eq!(
        record,
        ExampleResult {
            house_num: Some("12".to_string()),
            st_name: Some("Pham Hung".to_string()),
            ..ExampleResult::bare("ok", "12 Pham Hung, Ha Noi")
        }
    );
}

#[test]
fn the_place_name_is_read_before_the_address() {
    let record = parse_google_geocoding_response(payload(
        r#"{"results":[{"formatted_address":"5 Elsewhere, Ha Noi","address_components":[
            {"long_name":"72 Keangnam","types":["premise"]}]}]}"#,
    ));
    assert_eq!(record.poi_vn.as_deref(), Some("72 Keangnam"));
    assert_eq!(record.house_num.as_deref(), Some("72"));
    assert_eq!(record.st_name.as_deref(), Some("Keangnam"));
}

#[test]
fn components_come_before_what_is_derived() {
    let record = parse_google_geocoding_response(payload(
        r#"{"results":[{"formatted_address":"12 Pham Hung, Ha Noi","address_components":[
            {"long_name":"Duong Pham Hung","types":["route"]}]}]}"#,
    ));
    assert_eq!(record.house_num.as_deref(), Some("12"));
    assert_eq!(record.st_name.as_deref(), Some("Duong Pham Hung"));
    let record = parse_google_geocoding_response(payload(
        r#"{"results":[{"formatted_address":"12 Pham Hung, Ha Noi","address_components":[
            {"long_name":"12A","types":["street_number"]}]}]}"#,
    ));
    assert_eq!(record.house_num.as_deref(), Some("12A"));
    assert_eq!(record.st_name.as_deref(), Some("Pham Hung"));
}

#[test]
fn a_status_that_is_no_string_counts_as_success() {
    let record = parse_google_geocoding_response(payload(
        r#"{"status":7,"results":[{"formatted_address":"Somewhere"}]}"#,
    ));
    assert_eq!(
        record,
        ExampleResult { st_name: Some("Somewhere".to_string()), ..ExampleResult::bare("ok", "Somewhere") }
    );
}

#[test]
fn values_of_the_wrong_type_stay_absent() {
    let record = parse_google_geocoding_response(payload(
        r#"{"results":[{"formatted_address":12,"place_id":null,"website":["x"],
            "geometry":{"location":{"lat":"21.0","lng":true}},
            "address_components":{"long_name":"x"}}]}"#,
    ));
    assert_eq!(record, ExampleResult::bare("ok", ""));
}

#[test]
fn whole_numbers_are_read_as_floats() {
    let record = parse_google_geocoding_response(payload(
        r#"{"results":[{"geometry":{"location":{"lat":21,"lng":-105}}}]}"#,
    ));
    assert_eq!(record.latitude, Some(21.0f64.to_bits()));
    assert_eq!(record.longitude, Some((-105.0f64).to_bits()));
}

#[test]
fn the_same_payload_gives_the_same_record() {
    let first = parse_google_geocoding_response(payload(HANOI));
    let second = parse_google_geocoding_response(payload(HANOI));
    assert_eq!(first, second);
    assert_eq!(first.wire_fields(), second.wire_fields());
}

#[test]
fn clean_normalizes_a_name_that_is_there() {
    assert_eq!(clean(Some("Quận 1".to_string())), Some("1".to_string()));
    assert_eq!(clean(None), None);
}
