//! The map viewer's addresses: which page shows a point on which map.

use crate::text::same_text;
use vstd::prelude::*;

verus! {

/// The maps that a point can be shown on.
#[derive(Clone, Copy, Debug, PartialEq, Eq, Structural)]
pub enum MapKind {
    Google,
    OpenStreetMap,
}

/// The map that a name stands for.
pub open spec fn map_of_name(name: Seq<char>) -> Option<MapKind> {
    if name == "google"@ {
        Some(MapKind::Google)
    } else if name == "openstreetmap"@ {
        Some(MapKind::OpenStreetMap)
    } else {
        None
    }
}

impl MapKind {
    /// The name of this map.
    pub open spec fn name_text(self) -> Seq<char> {
        match self {
            MapKind::Google => "google"@,
            MapKind::OpenStreetMap => "openstreetmap"@,
        }
    }

    /// The name of this map.
    pub fn name(self) -> (r: &'static str)
        ensures
            r@ == self.name_text(),
    {
        match self {
            MapKind::Google => "google",
            MapKind::OpenStreetMap => "openstreetmap",
        }
    }

    /// The map that a name stands for; `None` for an unknown name.
    pub fn from_name(name: &str) -> (r: Option<MapKind>)
        ensures
            r == map_of_name(name@),
    {
        if same_text(name, "google") {
            Some(MapKind::Google)
        } else if same_text(name, "openstreetmap") {
            Some(MapKind::OpenStreetMap)
        } else {
            None
        }
    }
}

/// The page that shows a point, given as decimal texts, on a map.
pub open spec fn map_page(map: MapKind, lat: Seq<char>, lng: Seq<char>) -> Seq<char> {
    match map {
        MapKind::Google => "https://www.google.com/maps?q="@ + lat + ","@ + lng,
        MapKind::OpenStreetMap => "https://www.openstreetmap.org/?mlat="@ + lat + "&mlon="@ + lng
            + "&zoom=17"@,
    }
}

/// The address of the page that shows a point on a map.
pub fn map_view_url(map: MapKind, lat: &str, lng: &str) -> (r: String)
    ensures
        r@ == map_page(map, lat@, lng@),
{
    match map {
        MapKind::Google => {
            let mut url = String::from_str("https://www.google.com/maps?q=");
            url.append(lat);
            url.append(",");
            url.append(lng);
            url
        },
        MapKind::OpenStreetMap => {
            let mut url = String::from_str("https://www.openstreetmap.org/?mlat=");
            url.append(lat);
            url.append("&mlon=");
            url.append(lng);
            url.append("&zoom=17");
            url
        },
    }
}

/// The label of the window that shows a point on a map: one per point and
/// map.
pub open spec fn window_label(point_id: Seq<char>, map: MapKind) -> Seq<char> {
    "map_view_"@ + point_id + "_"@ + map.name_text()
}

/// The label of the window that shows a point on a map.
pub fn map_window_label(point_id: &str, map: MapKind) -> (r: String)
    ensures
        r@ == window_label(point_id@, map),
{
    let mut label = String::from_str("map_view_");
    label.append(point_id);
    label.append("_");
    label.append(map.name());
    label
}

/// The title of the window that shows a point on a map.
pub open spec fn window_title(map: MapKind, point_id: Seq<char>, lat: Seq<char>, lng: Seq<char>) -> Seq<
    char,
> {
    map.name_text() + " - "@ + point_id + " ("@ + lat + ", "@ + lng + ")"@
}

/// The title of the window that shows a point on a map.
pub fn map_window_title(map: MapKind, point_id: &str, lat: &str, lng: &str) -> (r: String)
    ensures
        r@ == window_title(map, point_id@, lat@, lng@),
{
    let mut title = String::from_str(map.name());
    title.append(" - ");
    title.append(point_id);
    title.append(" (");
    title.append(lat);
    title.append(", ");
    title.append(lng);
    title.append(")");
    title
}

} // verus!
