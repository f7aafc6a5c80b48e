use geocode_broker::record::{ExampleResult, Field, WireEntry, WireValue, FIELD_COUNT};

fn text(field: Field, value: &str) -> WireEntry {
    WireEntry { field, value: WireValue::Text(value.to_string()) }
}

#[test]
fn the_default_record_is_an_error_without_anything() {
    let record = ExampleResult::default();
    assert_eq!(record.status, "error");
    assert_eq!(record.address, "");
    assert_eq!(record, ExampleResult::bare("error", ""));
    assert_eq!(record.wire_fields(), vec![text(Field::Status, "error"), text(Field::Address, "")]);
}

#[test]
fn absent_fields_have_no_member_on_the_wire() {
    let record = ExampleResult {
        house_num: Some("12A".to_string()),
        latitude: Some(21.0278f64.to_bits()),
        ..ExampleResult::bare("ok", "12A Pham Hung")
    };
    assert_eq!(
        record.wire_fields(),
        vec![
            text(Field::Status, "ok"),
            text(Field::Address, "12A Pham Hung"),
            text(Field::HouseNum, "12A"),
            WireEntry { field: Field::Latitude, value: WireValue::Number(21.0278f64.to_bits()) },
        ]
    );
    assert_eq!(record.value(Field::StName), None);
    assert_eq!(record.value(Field::Longitude), None);
    assert_eq!(record.value(Field::HouseNum), Some(WireValue::Text("12A".to_string())));
}

#[test]
fn an_empty_text_is_still_a_member() {
    let record = ExampleResult { note: Some(String::new()), ..ExampleResult::bare("ok", "") };
    assert_eq!(record.wire_fields().len(), 3);
    assert_eq!(record.wire_fields()[2], text(Field::Note, ""));
}

#[test]
fn a_full_record_has_every_member_in_order() {
    let some = |s: &str| Some(s.to_string());
    let record = ExampleResult {
        status: "ok".to_string(),
        address: "a".to_string(),
        province: some("province"),
        district: some("district"),
        ward: some("ward"),
        poi_vn: some("poi_vn"),
        poi_en: some("poi_en"),
        poi_ex: some("poi_ex"),
        type_: some("type"),
        sub_type: some("sub_type"),
        poi_st_sd: some("poi_st_sd"),
        room: some("room"),
        house_num: some("house_num"),
        buaname: some("buaname"),
        st_name: some("st_name"),
        sub_com: some("sub_com"),
        phone: some("phone"),
        fax: some("fax"),
        web: some("web"),
        mail: some("mail"),
        brandname: some("brandname"),
        import: some("import"),
        status_detail: some("status_detail"),
        note: some("note"),
        done: some("done"),
        update_: some("update_"),
        source: some("source"),
        gen_type: some("gen_type"),
        perform: some("perform"),
        dup: some("dup"),
        explain: some("explain"),
        classify: some("classify"),
        dtrend: some("dtrend"),
        google_id: some("google_id"),
        be_id: some("be_id"),
        plus_code: some("plus_code"),
        latitude: Some(1),
        longitude: Some(2),
    };
    let wire = record.wire_fields();
    assert_eq!(wire.len(), FIELD_COUNT);
    assert_eq!(FIELD_COUNT, 38);
    for (place, entry) in wire.iter().enumerate() {
        assert_eq!(Some(entry.field), Field::at(place));
        match &entry.value {
            WireValue::Text(value) if place >= 2 => assert_eq!(value, entry.field.name()),
            WireValue::Text(_) => assert!(place < 2),
            WireValue::Number(bits) => assert_eq!(*bits as usize, place - 35),
        }
    }
}

#[test]
fn member_names_are_distinct() {
    let mut names: Vec<&str> = (0..FIELD_COUNT).map(|i| Field::at(i).unwrap().name()).collect();
    assert_eq!(Field::at(FIELD_COUNT), None);
    assert_eq!(names[0], "status");
    assert_eq!(names[1], "address");
    assert_eq!(Field::Type.name(), "type");
    assert_eq!(Field::Update.name(), "update_");
    names.sort();
    names.dedup();
    assert_eq!(names.len(), FIELD_COUNT);
}

#[test]
fn a_copy_equals_what_it_copies() {
    let record = ExampleResult {
        phone: Some("024".to_string()),
        longitude: Some(7),
        ..ExampleResult::bare("ok", "somewhere")
    };
    assert_eq!(record.clone(), record);
}
