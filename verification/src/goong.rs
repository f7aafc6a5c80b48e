//! The adapter for payloads in the shape of Goong's geocoding service.
//!
//! A result names its place (`name`), carries a formatted address, and tells
//! its administrative units in up to three ways. They are tried in this
//! order: the `compound` block, where the result has one; the position in
//! `address_components`, where that list has three or four entries; the
//! administrative keyword that a component's name begins with.

use crate::google::{clean, cleaned, component_name};
use crate::json::{
    child_of, documents, item_of, items_of, json_of, missing, node, number_of, text_of, Json,
};
use crate::normalizer::{
    announces, derive_street, derived_street, leading_prefix, level_prefixes, prefix_table,
    AdminLevel,
};
use crate::payload::{
    classify, empty_result, no_results_record, payload_kind, refusal, refusal_record, PayloadKind,
    PayloadKindView,
};
use crate::record::{clone_text, text_view, ExampleResult, RecordView};
use crate::text::{chars_of, lemma_empty_literal, skip_spaces, skip_spaces_from};
use vstd::prelude::*;

verus! {

/// The administrative units of a place, each of which may be unknown.
#[derive(Debug, PartialEq)]
pub struct AdminUnits {
    pub province: Option<String>,
    pub district: Option<String>,
    pub ward: Option<String>,
}

/// What an [`AdminUnits`] holds.
pub struct AdminUnitsView {
    pub province: Option<Seq<char>>,
    pub district: Option<Seq<char>>,
    pub ward: Option<Seq<char>>,
}

impl View for AdminUnits {
    type V = AdminUnitsView;

    open spec fn view(&self) -> AdminUnitsView {
        AdminUnitsView {
            province: text_view(self.province),
            district: text_view(self.district),
            ward: text_view(self.ward),
        }
    }
}

/// The long names of a list of components, in order; `None` for a component
/// that has none.
pub open spec fn component_names(components: Seq<Json>) -> Seq<Option<Seq<char>>> {
    components.map_values(|c: Json| component_name(c))
}

/// Whether a name begins, after any white space, with a keyword of `level`.
pub open spec fn names_level(name: Seq<char>, level: AdminLevel) -> bool {
    announces(skip_spaces(name), level_prefixes(level))
}

/// The first of `names` that begins with a keyword of `level`. A component
/// without a name is passed over.
pub open spec fn first_of_level(names: Seq<Option<Seq<char>>>, level: AdminLevel) -> Option<
    Seq<char>,
>
    decreases names.len(),
{
    if names.len() == 0 {
        None
    } else if names[0] is Some && names_level(names[0]->0, level) {
        names[0]
    } else {
        first_of_level(names.drop_first(), level)
    }
}

/// The administrative units of a result, cleaned.
///
/// Where the result has a `compound` block, its `province`, `district` and
/// `commune` count. Otherwise a list of four components is read as street,
/// ward, district, province, and a list of three as ward, district, province;
/// a component without a name leaves its unit unknown. Any other list is
/// searched, level by level, for the first name that begins with a keyword
/// of that level.
pub open spec fn admin_units(result: Json) -> AdminUnitsView {
    let compound = result.field("compound"@);
    let names = component_names(result.field("address_components"@).items());
    if !(compound is Null) {
        AdminUnitsView {
            province: cleaned(compound.field("province"@).text()),
            district: cleaned(compound.field("district"@).text()),
            ward: cleaned(compound.field("commune"@).text()),
        }
    } else if names.len() == 4 {
        AdminUnitsView {
            province: cleaned(names[3]),
            district: cleaned(names[2]),
            ward: cleaned(names[1]),
        }
    } else if names.len() == 3 {
        AdminUnitsView {
            province: cleaned(names[2]),
            district: cleaned(names[1]),
            ward: cleaned(names[0]),
        }
    } else {
        AdminUnitsView {
            province: cleaned(first_of_level(names, AdminLevel::Province)),
            district: cleaned(first_of_level(names, AdminLevel::District)),
            ward: cleaned(first_of_level(names, AdminLevel::Ward)),
        }
    }
}

/// The record that the first result of a payload stands for. What the
/// result lacks stays absent.
pub open spec fn goong_result(first: Json) -> RecordView {
    let name = first.field("name"@).text();
    let address = match first.field("formatted_address"@).text() {
        Some(a) => a,
        None => Seq::empty(),
    };
    let units = admin_units(first);
    let street = derived_street(name, address);
    let location = first.field("geometry"@).field("location"@);
    RecordView {
        address,
        province: units.province,
        district: units.district,
        ward: units.ward,
        poi_vn: name,
        house_num: street.house_number,
        st_name: street.street,
        google_id: first.field("place_id"@).text(),
        plus_code: first.field("plus_code"@).field("global_code"@).text(),
        latitude: location.field("lat"@).number(),
        longitude: location.field("lng"@).number(),
        ..RecordView::bare("ok"@, Seq::empty())
    }
}

/// The record that a payload stands for.
///
/// A refusal gives a record with the provider's own status and nothing else.
/// A call that found nothing gives the record that says so. Any other
/// payload is a success, and its first result fills the record.
pub open spec fn goong_record(payload: Json) -> RecordView {
    match payload_kind(payload) {
        PayloadKindView::Refused(status) => refusal(status),
        PayloadKindView::Empty => empty_result(),
        PayloadKindView::Found => goong_result(payload.field("results"@).item(0)),
    }
}

/// The views of a list of names, each of which may be missing.
pub open spec fn texts(names: Seq<Option<String>>) -> Seq<Option<Seq<char>>> {
    names.map_values(|n: Option<String>| text_view(n))
}

/// Copies the long names out of a list of components.
fn names_of(components: Option<&Vec<serde_json::Value>>) -> (r: Vec<Option<String>>)
    ensures
        texts(r@) == component_names(
            match components {
                Some(c) => documents(c@),
                None => Seq::empty(),
            },
        ),
{
    let mut names: Vec<Option<String>> = Vec::new();
    match components {
        Some(items) => {
            let mut i: usize = 0;
            while i < items.len()
                invariant
                    i <= items.len(),
                    texts(names@) == component_names(documents(items@).take(i as int)),
                decreases items.len() - i,
            {
                let name = text_of(child_of(Some(&items[i]), "long_name"));
                let ghost before = names@;
                let ghost held = text_view(name);
                names.push(name);
                assert(texts(names@) == texts(before).push(held));
                assert(documents(items@).take(i + 1) == documents(items@).take(i as int).push(
                    json_of(items@[i as int]),
                ));
                assert(component_names(documents(items@).take(i + 1)) == component_names(
                    documents(items@).take(i as int),
                ).push(component_name(json_of(items@[i as int]))));
                i += 1;
            }
            assert(documents(items@).take(items.len() as int) == documents(items@));
        },
        None => {
            assert(texts(names@) == Seq::<Option<Seq<char>>>::empty());
            assert(component_names(Seq::<Json>::empty()) == Seq::<Option<Seq<char>>>::empty());
        },
    }
    names
}

/// Whether a name begins with a keyword of `level`; see [`names_level`].
fn begins_with_level(name: &str, level: AdminLevel) -> (r: bool)
    ensures
        r == names_level(name@, level),
{
    let v = chars_of(name);
    let table = prefix_table(level);
    assert(v@.subrange(0, v.len() as int) == v@);
    let start = skip_spaces_from(&v, 0, v.len());
    leading_prefix(&v, start, v.len(), &table).is_some()
}

/// A copy of the first of `names` that begins with a keyword of `level`.
fn find_level(names: &Vec<Option<String>>, level: AdminLevel) -> (r: Option<String>)
    ensures
        text_view(r) == first_of_level(texts(names@), level),
{
    let ghost all = texts(names@);
    let mut i: usize = 0;
    assert(all.skip(0) == all);
    while i < names.len()
        invariant
            i <= names.len(),
            all == texts(names@),
            first_of_level(all, level) == first_of_level(all.skip(i as int), level),
        decreases names.len() - i,
    {
        assert(all.skip(i as int)[0] == text_view(names@[i as int]));
        assert(all.skip(i as int).drop_first() == all.skip(i + 1));
        match &names[i] {
            Some(name) => {
                if begins_with_level(name.as_str(), level) {
                    return Some(name.clone());
                }
            },
            None => {},
        }
        i += 1;
    }
    assert(all.skip(names.len() as int).len() == 0);
    None
}

/// A clean copy of the name at `index`.
fn clean_at(names: &Vec<Option<String>>, index: usize) -> (r: Option<String>)
    requires
        index < names.len(),
    ensures
        text_view(r) == cleaned(texts(names@)[index as int]),
{
    clean(clone_text(&names[index]))
}

/// Works out the administrative units of a result; see [`admin_units`].
pub fn extract_admin_units(result: Option<&serde_json::Value>) -> (r: AdminUnits)
    ensures
        r@ == admin_units(node(result)),
{
    let compound = child_of(result, "compound");
    if !missing(compound) {
        return AdminUnits {
            province: clean(text_of(child_of(compound, "province"))),
            district: clean(text_of(child_of(compound, "district"))),
            ward: clean(text_of(child_of(compound, "commune"))),
        };
    }
    let names = names_of(items_of(child_of(result, "address_components")));
    if names.len() == 4 {
        AdminUnits {
            province: clean_at(&names, 3),
            district: clean_at(&names, 2),
            ward: clean_at(&names, 1),
        }
    } else if names.len() == 3 {
        AdminUnits {
            province: clean_at(&names, 2),
            district: clean_at(&names, 1),
            ward: clean_at(&names, 0),
        }
    } else {
        AdminUnits {
            province: clean(find_level(&names, AdminLevel::Province)),
            district: clean(find_level(&names, AdminLevel::District)),
            ward: clean(find_level(&names, AdminLevel::Ward)),
        }
    }
}

/// Reads the first result of a payload; see [`goong_result`].
fn read_result(first: Option<&serde_json::Value>) -> (r: ExampleResult)
    ensures
        r@ == goong_result(node(first)),
{
    let location = child_of(child_of(first, "geometry"), "location");
    let name = text_of(child_of(first, "name"));
    let address = match text_of(child_of(first, "formatted_address")) {
        Some(a) => a,
        None => String::new(),
    };
    let units = extract_admin_units(first);
    let street = derive_street(
        match &name {
            Some(n) => Some(n.as_str()),
            None => None,
        },
        address.as_str(),
    );
    let mut record = ExampleResult::bare("ok", "");
    proof {
        lemma_empty_literal();
    }
    record.address = address;
    record.province = units.province;
    record.district = units.district;
    record.ward = units.ward;
    record.poi_vn = name;
    record.house_num = street.house_number;
    record.st_name = street.street;
    record.google_id = text_of(child_of(first, "place_id"));
    record.plus_code = text_of(child_of(child_of(first, "plus_code"), "global_code"));
    record.latitude = number_of(child_of(location, "lat"));
    record.longitude = number_of(child_of(location, "lng"));
    record
}

/// Turns a payload in the shape of Goong's geocoding service into a record;
/// see [`goong_record`].
pub fn parse_goong_response(response: serde_json::Value) -> (r: ExampleResult)
    ensures
        r@ == goong_record(json_of(response)),
{
    match classify(&response) {
        PayloadKind::Refused(status) => refusal_record(status.as_str()),
        PayloadKind::Empty => no_results_record(),
        PayloadKind::Found => read_result(item_of(child_of(Some(&response), "results"), 0)),
    }
}

} // verus!
