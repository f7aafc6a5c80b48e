use geocode_broker::mapview::{map_view_url, map_window_label, map_window_title, MapKind};

#[test]
fn each_map_has_its_page() {
    assert_eq!(
        map_view_url(MapKind::Google, "21.0278", "105.8342"),
        "https://www.google.com/maps?q=21.0278,105.8342"
    );
    assert_eq!(
        map_view_url(MapKind::OpenStreetMap, "21.0278", "105.8342"),
        "https://www.openstreetmap.org/?mlat=21.0278&mlon=105.8342&zoom=17"
    );
}

#[test]
fn map_names_round_trip() {
    assert_eq!(MapKind::from_name("google"), Some(MapKind::Google));
    assert_eq!(MapKind::from_name("openstreetmap"), Some(MapKind::OpenStreetMap));
    assert_eq!(MapKind::from_name("bing"), None);
    assert_eq!(MapKind::Google.name(), "google");
    assert_eq!(MapKind::OpenStreetMap.name(), "openstreetmap");
}

#[test]
fn windows_are_labelled_by_point_and_map() {
    assert_eq!(map_window_label("pt-7", MapKind::Google), "map_view_pt-7_google");
    assert_eq!(
        map_window_title(MapKind::OpenStreetMap, "pt-7", "21.5", "105"),
        "openstreetmap - pt-7 (21.5, 105)"
    );
}
