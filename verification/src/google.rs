//! The adapter for payloads in the shape of Google's geocoding service.
//!
//! A payload is an object with a `status` and a list of `results`. Only the
//! first result is read. Its `address_components` carry a `long_name` and a
//! list of `types` each; where several components are of a wanted type, the
//! last one that has a name counts.

use crate::json::{
    child_of, documents, item_of, items_of, json_of, node, number_of, text_of, Json,
};
use crate::normalizer::{
    derive_street, derived_street, is_clean, lemma_normalized_is_clean, normalize_admin_name,
    normalized,
};
use crate::payload::{
    classify, empty_result, first_of, no_results_record, or_else, payload_kind, refusal,
    refusal_record, PayloadKind, PayloadKindView,
};
use crate::record::{text_view, ExampleResult, RecordView};
use crate::text::{lemma_empty_literal, same_text};
use vstd::prelude::*;

verus! {

/// The long name of an address component; `None` where it has none.
pub open spec fn component_name(component: Json) -> Option<Seq<char>> {
    component.field("long_name"@).text()
}

/// The component lists `kind` among its types.
pub open spec fn has_kind(component: Json, kind: Seq<char>) -> bool {
    exists|i: int|
        0 <= i < component.field("types"@).items().len() && (
        #[trigger] component.field("types"@).items()[i]).text() == Some(kind)
}

/// The component is of `first` or of `second` kind, and has a name.
pub open spec fn names_either(component: Json, first: Seq<char>, second: Seq<char>) -> bool {
    (has_kind(component, first) || has_kind(component, second)) && component_name(component)
        is Some
}

/// The long name of the last component that is of `first` or of `second`
/// kind and has a name, or `None` where there is no such component. A
/// component without a name supplies nothing, and takes nothing away.
pub open spec fn last_named(components: Seq<Json>, first: Seq<char>, second: Seq<char>) -> Option<
    Seq<char>,
>
    decreases components.len(),
{
    if components.len() == 0 {
        None
    } else if names_either(components.last(), first, second) {
        component_name(components.last())
    } else {
        last_named(components.drop_last(), first, second)
    }
}

/// What [`last_named`] gives is the name of one of the components, and it
/// gives none only where no component of the kind has a name: a name that no
/// component supplies is never made up.
pub proof fn lemma_last_named_is_supplied(
    components: Seq<Json>,
    first: Seq<char>,
    second: Seq<char>,
)
    ensures
        match last_named(components, first, second) {
            Some(name) => exists|i: int|
                0 <= i < components.len() && names_either(#[trigger] components[i], first, second)
                    && component_name(components[i]) == Some(name),
            None => forall|i: int|
                0 <= i < components.len() ==> !names_either(
                    #[trigger] components[i],
                    first,
                    second,
                ),
        },
    decreases components.len(),
{
    if components.len() > 0 {
        let shorter = components.drop_last();
        lemma_last_named_is_supplied(shorter, first, second);
        let last = components.len() - 1;
        if names_either(components.last(), first, second) {
            assert(names_either(components[last], first, second));
        } else {
            match last_named(shorter, first, second) {
                Some(name) => {
                    let i = choose|i: int|
                        0 <= i < shorter.len() && names_either(#[trigger] shorter[i], first, second)
                            && component_name(shorter[i]) == Some(name);
                    assert(components[i] == shorter[i]);
                },
                None => {
                    assert forall|i: int| 0 <= i < components.len() implies !names_either(
                        #[trigger] components[i],
                        first,
                        second,
                    ) by {
                        if i < last {
                            assert(components[i] == shorter[i]);
                        }
                    }
                },
            }
        }
    }
}

/// The clean form of a name, where there is one.
pub open spec fn cleaned(name: Option<Seq<char>>) -> Option<Seq<char>> {
    match name {
        Some(n) => Some(normalized(n)),
        None => None,
    }
}

/// The record that the first result of a payload stands for.
///
/// Typed components fill the fields, the last of each kind that has a name.
/// Administrative names are cleaned. Where no component gives the house
/// number or the street, it is derived from the place's name and from the
/// first segment of the formatted address. What the result lacks stays
/// absent.
pub open spec fn google_result(first: Json) -> RecordView {
    let parts = first.field("address_components"@).items();
    let location = first.field("geometry"@).field("location"@);
    let address = match first.field("formatted_address"@).text() {
        Some(a) => a,
        None => Seq::empty(),
    };
    let place = last_named(parts, "premise"@, "point_of_interest"@);
    let street = derived_street(place, address);
    RecordView {
        address,
        province: cleaned(
            last_named(parts, "administrative_area_level_1"@, "administrative_area_level_1"@),
        ),
        district: cleaned(
            last_named(parts, "administrative_area_level_2"@, "administrative_area_level_2"@),
        ),
        ward: cleaned(
            last_named(parts, "administrative_area_level_3"@, "administrative_area_level_3"@),
        ),
        poi_vn: place,
        room: last_named(parts, "floor"@, "room"@),
        house_num: or_else(
            last_named(parts, "street_number"@, "street_number"@),
            street.house_number,
        ),
        buaname: cleaned(last_named(parts, "sublocality_level_1"@, "sublocality_level_1"@)),
        st_name: or_else(last_named(parts, "route"@, "route"@), street.street),
        sub_com: cleaned(last_named(parts, "sublocality_level_2"@, "sublocality_level_2"@)),
        phone: first.field("formatted_phone_number"@).text(),
        web: first.field("website"@).text(),
        google_id: first.field("place_id"@).text(),
        plus_code: first.field("plus_code"@).field("global_code"@).text(),
        latitude: location.field("lat"@).number(),
        longitude: location.field("lng"@).number(),
        ..RecordView::bare("ok"@, Seq::empty())
    }
}

/// The record that a payload stands for.
///
/// A refusal gives a record with the provider's own status and nothing else.
/// A call that found nothing gives the record that says so. Any other
/// payload is a success, and its first result fills the record.
pub open spec fn google_record(payload: Json) -> RecordView {
    match payload_kind(payload) {
        PayloadKindView::Refused(status) => refusal(status),
        PayloadKindView::Empty => empty_result(),
        PayloadKindView::Found => google_result(payload.field("results"@).item(0)),
    }
}

/// Every administrative name of a result is clean: it has no white space
/// around it and no administrative prefix before it.
pub proof fn lemma_google_units_are_clean(first: Json)
    ensures
        ({
            let r = google_result(first);
            &&& r.province matches Some(name) ==> is_clean(name)
            &&& r.district matches Some(name) ==> is_clean(name)
            &&& r.ward matches Some(name) ==> is_clean(name)
            &&& r.buaname matches Some(name) ==> is_clean(name)
            &&& r.sub_com matches Some(name) ==> is_clean(name)
        }),
{
    let parts = first.field("address_components"@).items();
    lemma_cleaned_is_clean(
        last_named(parts, "administrative_area_level_1"@, "administrative_area_level_1"@),
    );
    lemma_cleaned_is_clean(
        last_named(parts, "administrative_area_level_2"@, "administrative_area_level_2"@),
    );
    lemma_cleaned_is_clean(
        last_named(parts, "administrative_area_level_3"@, "administrative_area_level_3"@),
    );
    lemma_cleaned_is_clean(last_named(parts, "sublocality_level_1"@, "sublocality_level_1"@));
    lemma_cleaned_is_clean(last_named(parts, "sublocality_level_2"@, "sublocality_level_2"@));
}

/// What cleaning gives is clean.
pub proof fn lemma_cleaned_is_clean(name: Option<Seq<char>>)
    ensures
        cleaned(name) matches Some(clean) ==> is_clean(clean),
{
    if name is Some {
        lemma_normalized_is_clean(name->0);
    }
}

/// Where a result has no component that gives the house number or the
/// street, both are what the place's name and the first segment of the
/// formatted address yield; where it has no components at all, the address
/// alone decides.
pub proof fn lemma_google_street_is_derived(first: Json)
    requires
        last_named(
            first.field("address_components"@).items(),
            "street_number"@,
            "street_number"@,
        ) is None,
        last_named(first.field("address_components"@).items(), "route"@, "route"@) is None,
    ensures
        ({
            let r = google_result(first);
            let street = derived_street(r.poi_vn, r.address);
            &&& r.house_num == street.house_number
            &&& r.st_name == street.street
            &&& first.field("address_components"@).items().len() == 0 ==> r.poi_vn is None
        }),
{
}

/// Whether a component lists `kind` among its types.
fn component_has_kind(component: &serde_json::Value, kind: &str) -> (r: bool)
    ensures
        r == has_kind(json_of(*component), kind@),
{
    let ghost types = json_of(*component).field("types"@).items();
    match items_of(child_of(Some(component), "types")) {
        Some(items) => {
            let mut i: usize = 0;
            while i < items.len()
                invariant
                    i <= items.len(),
                    documents(items@) == types,
                    types == json_of(*component).field("types"@).items(),
                    forall|j: int| 0 <= j < i ==> (#[trigger] types[j]).text() != Some(kind@),
                decreases items.len() - i,
            {
                assert(types[i as int] == json_of(items@[i as int]));
                match text_of(Some(&items[i])) {
                    Some(t) => {
                        if same_text(t.as_str(), kind) {
                            assert(types[i as int].text() == Some(kind@));
                            return true;
                        }
                    },
                    None => {},
                }
                i += 1;
            }
            false
        },
        None => false,
    }
}

/// The long name of the last of `components` that is of `first` or of
/// `second` kind and has a name.
fn last_component_named(components: Option<&Vec<serde_json::Value>>, first: &str, second: &str) -> (r:
    Option<String>)
    ensures
        text_view(r) == last_named(
            match components {
                Some(c) => documents(c@),
                None => Seq::empty(),
            },
            first@,
            second@,
        ),
{
    let mut found: Option<String> = None;
    match components {
        Some(items) => {
            let ghost all = documents(items@);
            let mut i: usize = 0;
            while i < items.len()
                invariant
                    i <= items.len(),
                    all == documents(items@),
                    text_view(found) == last_named(all.take(i as int), first@, second@),
                decreases items.len() - i,
            {
                let component = &items[i];
                assert(all.take(i + 1).drop_last() == all.take(i as int));
                assert(all.take(i + 1).last() == json_of(*component));
                if component_has_kind(component, first) || component_has_kind(component, second) {
                    match text_of(child_of(Some(component), "long_name")) {
                        Some(name) => {
                            found = Some(name);
                        },
                        None => {},
                    }
                }
                i += 1;
            }
            assert(all.take(items.len() as int) == all);
        },
        None => {},
    }
    found
}

/// The clean form of a name, where there is one.
pub fn clean(name: Option<String>) -> (r: Option<String>)
    ensures
        text_view(r) == cleaned(text_view(name)),
{
    match name {
        Some(n) => Some(normalize_admin_name(n.as_str())),
        None => None,
    }
}

/// Reads the first result of a payload; see [`google_result`].
fn read_result(first: Option<&serde_json::Value>) -> (r: ExampleResult)
    ensures
        r@ == google_result(node(first)),
{
    let parts = items_of(child_of(first, "address_components"));
    let location = child_of(child_of(first, "geometry"), "location");
    let address = match text_of(child_of(first, "formatted_address")) {
        Some(a) => a,
        None => String::new(),
    };
    let place = last_component_named(parts, "premise", "point_of_interest");
    let street = derive_street(
        match &place {
            Some(name) => Some(name.as_str()),
            None => None,
        },
        address.as_str(),
    );
    let mut record = ExampleResult::bare("ok", "");
    proof {
        lemma_empty_literal();
    }
    record.address = address;
    record.province = clean(
        last_component_named(parts, "administrative_area_level_1", "administrative_area_level_1"),
    );
    record.district = clean(
        last_component_named(parts, "administrative_area_level_2", "administrative_area_level_2"),
    );
    record.ward = clean(
        last_component_named(parts, "administrative_area_level_3", "administrative_area_level_3"),
    );
    record.poi_vn = place;
    record.room = last_component_named(parts, "floor", "room");
    record.house_num = first_of(
        last_component_named(parts, "street_number", "street_number"),
        street.house_number,
    );
    record.buaname = clean(
        last_component_named(parts, "sublocality_level_1", "sublocality_level_1"),
    );
    record.st_name = first_of(last_component_named(parts, "route", "route"), street.street);
    record.sub_com = clean(
        last_component_named(parts, "sublocality_level_2", "sublocality_level_2"),
    );
    record.phone = text_of(child_of(first, "formatted_phone_number"));
    record.web = text_of(child_of(first, "website"));
    record.google_id = text_of(child_of(first, "place_id"));
    record.plus_code = text_of(child_of(child_of(first, "plus_code"), "global_code"));
    record.latitude = number_of(child_of(location, "lat"));
    record.longitude = number_of(child_of(location, "lng"));
    record
}

/// Turns a payload in the shape of Google's geocoding service into a record;
/// see [`google_record`].
pub fn parse_google_geocoding_response(response: serde_json::Value) -> (r: ExampleResult)
    ensures
        r@ == google_record(json_of(response)),
{
    match classify(&response) {
        PayloadKind::Refused(status) => refusal_record(status.as_str()),
        PayloadKind::Empty => no_results_record(),
        PayloadKind::Found => read_result(item_of(child_of(Some(&response), "results"), 0)),
    }
}

} // verus!
