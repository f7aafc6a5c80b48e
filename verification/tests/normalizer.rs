use geocode_broker::normalizer::{
    derive_street, normalize_admin_name, split_house_number, StreetParts,
};

fn parts(house: Option<&str>, street: Option<&str>) -> StreetParts {
    StreetParts {
        house_number: house.map(|h| h.to_string()),
        street: street.map(|s| s.to_string()),
    }
}

#[test]
fn strips_vietnamese_city_prefix() {
    assert_eq!(normalize_admin_name("Thành phố Hà Nội"), "Hà Nội");
}

#[test]
fn strips_every_known_prefix() {
    assert_eq!(normalize_admin_name("City Hanoi"), "Hanoi");
    assert_eq!(normalize_admin_name("City of Hanoi"), "Hanoi");
    assert_eq!(normalize_admin_name("Tỉnh Bắc Ninh"), "Bắc Ninh");
    assert_eq!(normalize_admin_name("Province Bac Ninh"), "Bac Ninh");
    assert_eq!(normalize_admin_name("Quận Cầu Giấy"), "Cầu Giấy");
    assert_eq!(normalize_admin_name("District Cau Giay"), "Cau Giay");
    assert_eq!(normalize_admin_name("Huyện Đông Anh"), "Đông Anh");
    assert_eq!(normalize_admin_name("Rural District Dong Anh"), "Dong Anh");
    assert_eq!(normalize_admin_name("Phường Trung Hòa"), "Trung Hòa");
    assert_eq!(normalize_admin_name("Ward Trung Hoa"), "Trung Hoa");
    assert_eq!(normalize_admin_name("Xã Kim Chung"), "Kim Chung");
    assert_eq!(normalize_admin_name("Commune Kim Chung"), "Kim Chung");
}

#[test]
fn strips_ward_prefix_and_white_space() {
    assert_eq!(normalize_admin_name("  Ward 7  "), "7");
    assert_eq!(normalize_admin_name("\tQuận   1\n"), "1");
}

#[test]
fn strips_prefixes_that_follow_one_another() {
    assert_eq!(normalize_admin_name("City District 5"), "5");
}

#[test]
fn leaves_words_that_only_begin_like_a_prefix() {
    assert_eq!(normalize_admin_name("Wardrobe Lane"), "Wardrobe Lane");
    assert_eq!(normalize_admin_name("Cityscape"), "Cityscape");
}

#[test]
fn leaves_a_bare_prefix_word() {
    assert_eq!(normalize_admin_name("Ward"), "Ward");
    assert_eq!(normalize_admin_name(" District "), "District");
}

#[test]
fn leaves_a_clean_name_unchanged() {
    for name in ["Hà Nội", "Cầu Giấy", "Trung Hòa", "7", ""] {
        assert_eq!(normalize_admin_name(name), name);
    }
}

#[test]
fn normalizing_twice_is_normalizing_once() {
    for name in [
        "Thành phố Hà Nội",
        "  City of   District  Ward 3 ",
        "Xã",
        "   ",
        "Rural District Province X",
    ] {
        let once = normalize_admin_name(name);
        assert_eq!(normalize_admin_name(&once), once);
    }
}

#[test]
fn all_white_space_normalizes_to_nothing() {
    assert_eq!(normalize_admin_name(" \t "), "");
}

#[test]
fn splits_leading_digits_from_street() {
    assert_eq!(split_house_number("91 Trung Kính"), parts(Some("91"), Some("Trung Kính")));
    assert_eq!(split_house_number("  12   Pham Hung "), parts(Some("12"), Some("Pham Hung")));
}

#[test]
fn a_first_word_with_a_letter_is_no_house_number() {
    assert_eq!(split_house_number("12A Pham Hung"), parts(None, Some("12A Pham Hung")));
    assert_eq!(split_house_number("Pham Hung"), parts(None, Some("Pham Hung")));
}

#[test]
fn digits_alone_are_a_house_number_without_street() {
    assert_eq!(split_house_number("123"), parts(Some("123"), None));
}

#[test]
fn an_empty_name_gives_neither_part() {
    assert_eq!(split_house_number(""), parts(None, None));
    assert_eq!(split_house_number("   "), parts(None, None));
}

#[test]
fn street_comes_from_the_name_when_it_has_a_number() {
    assert_eq!(
        derive_street(Some("91 Trung Kính"), "5 Elsewhere, Hà Nội"),
        parts(Some("91"), Some("Trung Kính"))
    );
}

#[test]
fn street_falls_back_to_the_first_address_segment() {
    assert_eq!(
        derive_street(Some("Keangnam Tower"), "72 Phạm Hùng, Mễ Trì, Nam Từ Liêm"),
        parts(Some("72"), Some("Phạm Hùng"))
    );
    assert_eq!(
        derive_street(None, "72 Phạm Hùng, Mễ Trì"),
        parts(Some("72"), Some("Phạm Hùng"))
    );
}

#[test]
fn without_any_number_the_name_is_the_street() {
    assert_eq!(
        derive_street(Some("Keangnam Tower"), "Phạm Hùng, Mễ Trì"),
        parts(None, Some("Keangnam Tower"))
    );
    assert_eq!(derive_street(None, "Phạm Hùng, Mễ Trì"), parts(None, Some("Phạm Hùng")));
    assert_eq!(derive_street(None, ""), parts(None, None));
}
