//! Cleaning of administrative names, and the house-number heuristic.
//!
//! Everything here is a function of its argument alone.

use crate::text::{
    all_digits, chars_of, digits_only, drop_trailing_spaces, drop_trailing_spaces_to, is_space,
    lemma_drop_trailing_shape, matches_at, segment_end, segment_len, skip_spaces, skip_spaces_from,
    space, string_of, trimmed, word_end, word_len,
};
use vstd::prelude::*;

verus! {

/// The three administrative levels of an address.
#[derive(Clone, Copy, Debug, PartialEq, Eq, Structural)]
pub enum AdminLevel {
    Province,
    District,
    Ward,
}

/// The words that announce a unit of the given level, in the order in which
/// they are tried.
pub open spec fn level_prefixes(level: AdminLevel) -> Seq<Seq<char>> {
    match level {
        AdminLevel::Province => seq![
            "Thành phố"@,
            "City of"@,
            "City"@,
            "Tỉnh"@,
            "Province"@,
        ],
        AdminLevel::District => seq!["Quận"@, "District"@, "Huyện"@, "Rural District"@],
        AdminLevel::Ward => seq!["Phường"@, "Ward"@, "Xã"@, "Commune"@],
    }
}

/// Every administrative prefix, provinces first.
pub open spec fn admin_prefixes() -> Seq<Seq<char>> {
    level_prefixes(AdminLevel::Province) + level_prefixes(AdminLevel::District) + level_prefixes(
        AdminLevel::Ward,
    )
}

/// `s` begins with the word `p`: `p` itself, then white space, then more.
pub open spec fn leads_with(s: Seq<char>, p: Seq<char>) -> bool {
    p.len() < s.len() && s.subrange(0, p.len() as int) == p && is_space(s[p.len() as int])
}

/// The first index at or after `k` of a prefix in `table` that `s` begins with.
pub open spec fn first_prefix_from(s: Seq<char>, table: Seq<Seq<char>>, k: int) -> Option<int>
    decreases table.len() - k,
{
    if k < 0 || k >= table.len() {
        None
    } else if leads_with(s, table[k]) {
        Some(k)
    } else {
        first_prefix_from(s, table, k + 1)
    }
}

/// `s` begins with one of the words of `table`.
pub open spec fn announces(s: Seq<char>, table: Seq<Seq<char>>) -> bool {
    first_prefix_from(s, table, 0) is Some
}

/// Strips leading white space and administrative prefixes until none is
/// left. Where several prefixes fit, the first of the table goes.
pub open spec fn strip_prefixes(s: Seq<char>) -> Seq<char>
    decreases s.len(),
{
    if s.len() > 0 && is_space(s[0]) {
        strip_prefixes(s.drop_first())
    } else {
        match first_prefix_from(s, admin_prefixes(), 0) {
            Some(k) => {
                proof {
                    lemma_first_prefix_leads(s, admin_prefixes(), 0);
                }
                strip_prefixes(s.subrange(admin_prefixes()[k].len() as int + 1, s.len() as int))
            },
            None => s,
        }
    }
}

/// The clean form of an administrative name: no white space around it and no
/// administrative prefix before it.
pub open spec fn normalized(s: Seq<char>) -> Seq<char> {
    strip_prefixes(drop_trailing_spaces(s))
}

/// A name that normalising leaves alone.
pub open spec fn is_clean(s: Seq<char>) -> bool {
    &&& s.len() > 0 ==> !is_space(s[0]) && !is_space(s.last())
    &&& !announces(s, admin_prefixes())
}

/// The characters of each entry of a table.
pub open spec fn views_of(t: Seq<Vec<char>>) -> Seq<Seq<char>> {
    Seq::new(t.len(), |i: int| t[i]@)
}

/// The prefixes of one level, as characters.
pub fn prefix_table(level: AdminLevel) -> (t: Vec<Vec<char>>)
    ensures
        views_of(t@) == level_prefixes(level),
{
    let mut t: Vec<Vec<char>> = Vec::new();
    match level {
        AdminLevel::Province => {
            t.push(chars_of("Thành phố"));
            t.push(chars_of("City of"));
            t.push(chars_of("City"));
            t.push(chars_of("Tỉnh"));
            t.push(chars_of("Province"));
        },
        AdminLevel::District => {
            t.push(chars_of("Quận"));
            t.push(chars_of("District"));
            t.push(chars_of("Huyện"));
            t.push(chars_of("Rural District"));
        },
        AdminLevel::Ward => {
            t.push(chars_of("Phường"));
            t.push(chars_of("Ward"));
            t.push(chars_of("Xã"));
            t.push(chars_of("Commune"));
        },
    }
    assert(views_of(t@) =~= level_prefixes(level));
    t
}

/// Every administrative prefix, as characters.
pub fn all_prefixes() -> (t: Vec<Vec<char>>)
    ensures
        views_of(t@) == admin_prefixes(),
{
    let mut t = prefix_table(AdminLevel::Province);
    let mut d = prefix_table(AdminLevel::District);
    let mut w = prefix_table(AdminLevel::Ward);
    let ghost t0 = t@;
    let ghost d0 = d@;
    let ghost w0 = w@;
    t.append(&mut d);
    t.append(&mut w);
    assert(views_of(t@) =~= views_of(t0) + views_of(d0) + views_of(w0));
    t
}

/// The first prefix of `table` that `v[from..to]` begins with.
pub(crate) fn leading_prefix(v: &Vec<char>, from: usize, to: usize, table: &Vec<Vec<char>>) -> (r: Option<
    usize,
>)
    requires
        from <= to <= v.len(),
    ensures
        match r {
            Some(k) => first_prefix_from(
                v@.subrange(from as int, to as int),
                views_of(table@),
                0,
            ) == Some(k as int) && k < table.len() && from + table[k as int].len() < to,
            None => first_prefix_from(v@.subrange(from as int, to as int), views_of(table@), 0)
                is None,
        },
{
    let ghost s = v@.subrange(from as int, to as int);
    let ghost tv = views_of(table@);
    let mut k: usize = 0;
    while k < table.len()
        invariant
            from <= to <= v.len(),
            k <= table.len(),
            s == v@.subrange(from as int, to as int),
            tv == views_of(table@),
            first_prefix_from(s, tv, 0) == first_prefix_from(s, tv, k as int),
        decreases table.len() - k,
    {
        let p = &table[k];
        let n = p.len();
        if n < to - from && matches_at(v, p, from) && space(v[from + n]) {
            assert(s.subrange(0, n as int) == v@.subrange(from as int, from + n));
            assert(leads_with(s, tv[k as int]));
            return Some(k);
        }
        proof {
            if n < to - from {
                assert(s.subrange(0, n as int) == v@.subrange(from as int, from + n));
            }
            assert(!leads_with(s, tv[k as int]));
        }
        k += 1;
    }
    None
}

/// Cleans an administrative name: surrounding white space goes, and so does
/// every administrative prefix that stands before the name proper.
pub fn normalize_admin_name(name: &str) -> (r: String)
    ensures
        r@ == normalized(name@),
{
    let v = chars_of(name);
    let table = all_prefixes();
    let end = drop_trailing_spaces_to(&v, 0, v.len());
    assert(v@.subrange(0, v.len() as int) == v@);
    let mut start: usize = 0;
    loop
        invariant
            start <= end <= v.len(),
            views_of(table@) == admin_prefixes(),
            strip_prefixes(v@.subrange(start as int, end as int)) == normalized(name@),
        ensures
            start <= end <= v.len(),
            v@.subrange(start as int, end as int) == normalized(name@),
        decreases end - start,
    {
        let ghost before = v@.subrange(start as int, end as int);
        let next = skip_spaces_from(&v, start, end);
        proof {
            lemma_strip_skips_spaces(before);
        }
        start = next;
        let ghost s = v@.subrange(start as int, end as int);
        assert(s.len() > 0 ==> s[0] == v@[start as int]);
        match leading_prefix(&v, start, end, &table) {
            Some(k) => {
                let n = table[k].len();
                assert(s.subrange(n as int + 1, s.len() as int) == v@.subrange(
                    start + n + 1,
                    end as int,
                ));
                start = start + n + 1;
            },
            None => {
                break ;
            },
        }
    }
    string_of(&v, start, end)
}

/// A house number and a street name, either of which may be missing.
#[derive(Debug, PartialEq)]
pub struct StreetParts {
    pub house_number: Option<String>,
    pub street: Option<String>,
}

/// What a [`StreetParts`] holds.
pub struct StreetPartsView {
    pub house_number: Option<Seq<char>>,
    pub street: Option<Seq<char>>,
}

impl View for StreetParts {
    type V = StreetPartsView;

    open spec fn view(&self) -> StreetPartsView {
        StreetPartsView {
            house_number: match self.house_number {
                Some(h) => Some(h@),
                None => None,
            },
            street: match self.street {
                Some(s) => Some(s@),
                None => None,
            },
        }
    }
}

/// Reads a house number off the front of a name.
///
/// Where the first word of the trimmed name is all digits, it is the house
/// number and what follows it is the street. Otherwise the whole trimmed name
/// is the street. An empty name gives neither.
pub open spec fn street_parts(name: Seq<char>) -> StreetPartsView {
    let t = trimmed(name);
    let n = word_len(t);
    let rest = skip_spaces(t.subrange(n, t.len() as int));
    if t.len() == 0 {
        StreetPartsView { house_number: None, street: None }
    } else if all_digits(t.subrange(0, n)) {
        StreetPartsView {
            house_number: Some(t.subrange(0, n)),
            street: if rest.len() > 0 {
                Some(rest)
            } else {
                None
            },
        }
    } else {
        StreetPartsView { house_number: None, street: Some(t) }
    }
}

/// The part of an address before its first comma.
pub open spec fn first_segment(address: Seq<char>) -> Seq<char> {
    address.subrange(0, segment_len(address))
}

/// House number and street of a place: read off its name where that yields a
/// number, else off the first segment of its address where that yields one,
/// else whichever of the two gives a street, the name first.
pub open spec fn derived_street(name: Option<Seq<char>>, address: Seq<char>) -> StreetPartsView {
    let from_name = match name {
        Some(n) => street_parts(n),
        None => StreetPartsView { house_number: None, street: None },
    };
    let from_address = street_parts(first_segment(address));
    if from_name.house_number is Some {
        from_name
    } else if from_address.house_number is Some {
        from_address
    } else if from_name.street is Some {
        from_name
    } else {
        from_address
    }
}

/// [`street_parts`] of the characters `v[from..to]`.
fn split_range(v: &Vec<char>, from: usize, to: usize) -> (r: StreetParts)
    requires
        from <= to <= v.len(),
    ensures
        r@ == street_parts(v@.subrange(from as int, to as int)),
{
    let ghost s = v@.subrange(from as int, to as int);
    let end = drop_trailing_spaces_to(v, from, to);
    let start = skip_spaces_from(v, from, end);
    let ghost t = v@.subrange(start as int, end as int);
    assert(t == trimmed(s));
    if start == end {
        return StreetParts { house_number: None, street: None };
    }
    let stop = word_end(v, start, end);
    assert(t.subrange(0, stop - start) == v@.subrange(start as int, stop as int));
    assert(t.subrange(stop - start, t.len() as int) == v@.subrange(stop as int, end as int));
    if digits_only(v, start, stop) {
        let rest = skip_spaces_from(v, stop, end);
        let street = if rest < end {
            Some(string_of(v, rest, end))
        } else {
            None
        };
        StreetParts { house_number: Some(string_of(v, start, stop)), street }
    } else {
        StreetParts { house_number: None, street: Some(string_of(v, start, end)) }
    }
}

/// Splits a place name into house number and street; see [`street_parts`].
pub fn split_house_number(name: &str) -> (r: StreetParts)
    ensures
        r@ == street_parts(name@),
{
    let v = chars_of(name);
    assert(v@.subrange(0, v.len() as int) == v@);
    split_range(&v, 0, v.len())
}

/// Derives house number and street from a place's name and its formatted
/// address; see [`derived_street`]. Never fails: a place without a number
/// simply has none.
pub fn derive_street(name: Option<&str>, address: &str) -> (r: StreetParts)
    ensures
        r@ == derived_street(
            match name {
                Some(n) => Some(n@),
                None => None,
            },
            address@,
        ),
{
    let from_name = match name {
        Some(n) => split_house_number(n),
        None => StreetParts { house_number: None, street: None },
    };
    if from_name.house_number.is_some() {
        return from_name;
    }
    let v = chars_of(address);
    let cut = segment_end(&v, 0, v.len());
    assert(v@.subrange(0, v.len() as int) == v@);
    let from_address = split_range(&v, 0, cut);
    if from_address.house_number.is_some() {
        from_address
    } else if from_name.street.is_some() {
        from_name
    } else {
        from_address
    }
}

/// Leading white space does not change what stripping yields.
pub proof fn lemma_strip_skips_spaces(s: Seq<char>)
    ensures
        strip_prefixes(skip_spaces(s)) == strip_prefixes(s),
    decreases s.len(),
{
    if s.len() > 0 && is_space(s[0]) {
        lemma_strip_skips_spaces(s.drop_first());
    }
}

/// What stripping yields is a tail of its argument, begins with no white
/// space and announces nothing.
pub proof fn lemma_strip_prefixes_shape(s: Seq<char>)
    requires
        s.len() > 0 ==> !is_space(s.last()),
    ensures
        is_clean(strip_prefixes(s)),
        strip_prefixes(s).len() <= s.len(),
    decreases s.len(),
{
    if s.len() > 0 && is_space(s[0]) {
        let t = s.drop_first();
        assert(t.len() > 0 ==> t.last() == s.last());
        lemma_strip_prefixes_shape(t);
    } else {
        match first_prefix_from(s, admin_prefixes(), 0) {
            Some(k) => {
                let n = admin_prefixes()[k].len();
                lemma_first_prefix_leads(s, admin_prefixes(), 0);
                let t = s.subrange(n as int + 1, s.len() as int);
                assert(t.len() > 0 ==> t.last() == s.last());
                lemma_strip_prefixes_shape(t);
            },
            None => {},
        }
    }
}

/// The prefix that `first_prefix_from` finds is one that `s` begins with.
pub proof fn lemma_first_prefix_leads(s: Seq<char>, table: Seq<Seq<char>>, k: int)
    requires
        first_prefix_from(s, table, k) is Some,
    ensures
        k <= first_prefix_from(s, table, k)->0 < table.len(),
        leads_with(s, table[first_prefix_from(s, table, k)->0]),
    decreases table.len() - k,
{
    if !(k < 0 || k >= table.len()) && !leads_with(s, table[k]) {
        lemma_first_prefix_leads(s, table, k + 1);
    }
}

/// A clean name is its own normal form.
pub proof fn lemma_clean_is_fixed(s: Seq<char>)
    requires
        is_clean(s),
    ensures
        normalized(s) == s,
{
}

/// Normalising yields a clean name.
pub proof fn lemma_normalized_is_clean(s: Seq<char>)
    ensures
        is_clean(normalized(s)),
{
    lemma_drop_trailing_shape(s);
    lemma_strip_prefixes_shape(drop_trailing_spaces(s));
}

/// Normalising twice is normalising once.
pub proof fn lemma_normalize_idempotent(s: Seq<char>)
    ensures
        normalized(normalized(s)) == normalized(s),
{
    lemma_normalized_is_clean(s);
    lemma_clean_is_fixed(normalized(s));
}

} // verus!
