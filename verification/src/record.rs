//! The canonical address record: the one shape in which every provider's
//! answer, every failure and every operator decision reaches the caller.

use vstd::prelude::*;

verus! {

/// A canonical address record.
///
/// `status` and `address` are always there. Every other field is optional,
/// and a field that is `None` does not appear in the wire form at all.
#[derive(Debug, PartialEq)]
pub struct ExampleResult {
    /// The outcome: `ok`, `error`, `rejected`, or a provider's own status.
    pub status: String,
    /// The formatted full address; empty when unresolved.
    pub address: String,
    // Administrative units, cleaned of their prefixes.
    pub province: Option<String>,
    pub district: Option<String>,
    pub ward: Option<String>,
    // The point of interest: its names, its category and descriptors.
    pub poi_vn: Option<String>,
    pub poi_en: Option<String>,
    pub poi_ex: Option<String>,
    pub type_: Option<String>,
    pub sub_type: Option<String>,
    pub poi_st_sd: Option<String>,
    // The structure of the address.
    pub room: Option<String>,
    pub house_num: Option<String>,
    pub buaname: Option<String>,
    pub st_name: Option<String>,
    pub sub_com: Option<String>,
    // How to reach the place.
    pub phone: Option<String>,
    pub fax: Option<String>,
    pub web: Option<String>,
    pub mail: Option<String>,
    // Provenance and workflow.
    pub brandname: Option<String>,
    pub import: Option<String>,
    pub status_detail: Option<String>,
    pub note: Option<String>,
    pub done: Option<String>,
    pub update_: Option<String>,
    pub source: Option<String>,
    pub gen_type: Option<String>,
    pub perform: Option<String>,
    pub dup: Option<String>,
    pub explain: Option<String>,
    pub classify: Option<String>,
    pub dtrend: Option<String>,
    // Identifiers: the provider's place id, and the business id.
    pub google_id: Option<String>,
    pub be_id: Option<String>,
    // Geometry. A coordinate is held as the bit pattern of a 64-bit float.
    pub plus_code: Option<String>,
    pub latitude: Option<u64>,
    pub longitude: Option<u64>,
}

/// What an [`ExampleResult`] holds.
pub struct RecordView {
    pub status: Seq<char>,
    pub address: Seq<char>,
    pub province: Option<Seq<char>>,
    pub district: Option<Seq<char>>,
    pub ward: Option<Seq<char>>,
    pub poi_vn: Option<Seq<char>>,
    pub poi_en: Option<Seq<char>>,
    pub poi_ex: Option<Seq<char>>,
    pub type_: Option<Seq<char>>,
    pub sub_type: Option<Seq<char>>,
    pub poi_st_sd: Option<Seq<char>>,
    pub room: Option<Seq<char>>,
    pub house_num: Option<Seq<char>>,
    pub buaname: Option<Seq<char>>,
    pub st_name: Option<Seq<char>>,
    pub sub_com: Option<Seq<char>>,
    pub phone: Option<Seq<char>>,
    pub fax: Option<Seq<char>>,
    pub web: Option<Seq<char>>,
    pub mail: Option<Seq<char>>,
    pub brandname: Option<Seq<char>>,
    pub import: Option<Seq<char>>,
    pub status_detail: Option<Seq<char>>,
    pub note: Option<Seq<char>>,
    pub done: Option<Seq<char>>,
    pub update_: Option<Seq<char>>,
    pub source: Option<Seq<char>>,
    pub gen_type: Option<Seq<char>>,
    pub perform: Option<Seq<char>>,
    pub dup: Option<Seq<char>>,
    pub explain: Option<Seq<char>>,
    pub classify: Option<Seq<char>>,
    pub dtrend: Option<Seq<char>>,
    pub google_id: Option<Seq<char>>,
    pub be_id: Option<Seq<char>>,
    pub plus_code: Option<Seq<char>>,
    pub latitude: Option<u64>,
    pub longitude: Option<u64>,
}

/// The characters of an optional string.
pub open spec fn text_view(t: Option<String>) -> Option<Seq<char>> {
    match t {
        Some(s) => Some(s@),
        None => None,
    }
}

/// The characters of an optional string slice.
pub open spec fn slice_view(t: Option<&str>) -> Option<Seq<char>> {
    match t {
        Some(s) => Some(s@),
        None => None,
    }
}

/// A copy of an optional string.
pub fn clone_text(t: &Option<String>) -> (r: Option<String>)
    ensures
        r == *t,
{
    match t {
        Some(s) => Some(s.clone()),
        None => None,
    }
}

impl View for ExampleResult {
    type V = RecordView;

    open spec fn view(&self) -> RecordView {
        RecordView {
            status: self.status@,
            address: self.address@,
            province: text_view(self.province),
            district: text_view(self.district),
            ward: text_view(self.ward),
            poi_vn: text_view(self.poi_vn),
            poi_en: text_view(self.poi_en),
            poi_ex: text_view(self.poi_ex),
            type_: text_view(self.type_),
            sub_type: text_view(self.sub_type),
            poi_st_sd: text_view(self.poi_st_sd),
            room: text_view(self.room),
            house_num: text_view(self.house_num),
            buaname: text_view(self.buaname),
            st_name: text_view(self.st_name),
            sub_com: text_view(self.sub_com),
            phone: text_view(self.phone),
            fax: text_view(self.fax),
            web: text_view(self.web),
            mail: text_view(self.mail),
            brandname: text_view(self.brandname),
            import: text_view(self.import),
            status_detail: text_view(self.status_detail),
            note: text_view(self.note),
            done: text_view(self.done),
            update_: text_view(self.update_),
            source: text_view(self.source),
            gen_type: text_view(self.gen_type),
            perform: text_view(self.perform),
            dup: text_view(self.dup),
            explain: text_view(self.explain),
            classify: text_view(self.classify),
            dtrend: text_view(self.dtrend),
            google_id: text_view(self.google_id),
            be_id: text_view(self.be_id),
            plus_code: text_view(self.plus_code),
            latitude: self.latitude,
            longitude: self.longitude,
        }
    }
}

impl RecordView {
    /// The record with this status and address and no optional field.
    pub open spec fn bare(status: Seq<char>, address: Seq<char>) -> RecordView {
        RecordView {
            status,
            address,
            province: None,
            district: None,
            ward: None,
            poi_vn: None,
            poi_en: None,
            poi_ex: None,
            type_: None,
            sub_type: None,
            poi_st_sd: None,
            room: None,
            house_num: None,
            buaname: None,
            st_name: None,
            sub_com: None,
            phone: None,
            fax: None,
            web: None,
            mail: None,
            brandname: None,
            import: None,
            status_detail: None,
            note: None,
            done: None,
            update_: None,
            source: None,
            gen_type: None,
            perform: None,
            dup: None,
            explain: None,
            classify: None,
            dtrend: None,
            google_id: None,
            be_id: None,
            plus_code: None,
            latitude: None,
            longitude: None,
        }
    }

    /// No optional field is present.
    pub open spec fn is_bare(self) -> bool {
        self == RecordView::bare(self.status, self.address)
    }
}

impl Clone for ExampleResult {
    fn clone(&self) -> (r: Self)
        ensures
            r == *self,
    {
        ExampleResult {
            status: self.status.clone(),
            address: self.address.clone(),
            province: clone_text(&self.province),
            district: clone_text(&self.district),
            ward: clone_text(&self.ward),
            poi_vn: clone_text(&self.poi_vn),
            poi_en: clone_text(&self.poi_en),
            poi_ex: clone_text(&self.poi_ex),
            type_: clone_text(&self.type_),
            sub_type: clone_text(&self.sub_type),
            poi_st_sd: clone_text(&self.poi_st_sd),
            room: clone_text(&self.room),
            house_num: clone_text(&self.house_num),
            buaname: clone_text(&self.buaname),
            st_name: clone_text(&self.st_name),
            sub_com: clone_text(&self.sub_com),
            phone: clone_text(&self.phone),
            fax: clone_text(&self.fax),
            web: clone_text(&self.web),
            mail: clone_text(&self.mail),
            brandname: clone_text(&self.brandname),
            import: clone_text(&self.import),
            status_detail: clone_text(&self.status_detail),
            note: clone_text(&self.note),
            done: clone_text(&self.done),
            update_: clone_text(&self.update_),
            source: clone_text(&self.source),
            gen_type: clone_text(&self.gen_type),
            perform: clone_text(&self.perform),
            dup: clone_text(&self.dup),
            explain: clone_text(&self.explain),
            classify: clone_text(&self.classify),
            dtrend: clone_text(&self.dtrend),
            google_id: clone_text(&self.google_id),
            be_id: clone_text(&self.be_id),
            plus_code: clone_text(&self.plus_code),
            latitude: self.latitude,
            longitude: self.longitude,
        }
    }
}

impl Default for ExampleResult {
    /// The record of an unresolved request: status `error`, nothing else.
    fn default() -> (r: Self)
        ensures
            r@ == RecordView::bare("error"@, ""@),
    {
        ExampleResult::bare("error", "")
    }
}

impl ExampleResult {
    /// The record with this status and address and no optional field.
    pub fn bare(status: &str, address: &str) -> (r: Self)
        ensures
            r@ == RecordView::bare(status@, address@),
    {
        ExampleResult {
            status: String::from_str(status),
            address: String::from_str(address),
            province: None,
            district: None,
            ward: None,
            poi_vn: None,
            poi_en: None,
            poi_ex: None,
            type_: None,
            sub_type: None,
            poi_st_sd: None,
            room: None,
            house_num: None,
            buaname: None,
            st_name: None,
            sub_com: None,
            phone: None,
            fax: None,
            web: None,
            mail: None,
            brandname: None,
            import: None,
            status_detail: None,
            note: None,
            done: None,
            update_: None,
            source: None,
            gen_type: None,
            perform: None,
            dup: None,
            explain: None,
            classify: None,
            dtrend: None,
            google_id: None,
            be_id: None,
            plus_code: None,
            latitude: None,
            longitude: None,
        }
    }
}

/// The fields of a record, in the order of the wire form.
#[derive(Clone, Copy, Debug, PartialEq, Eq, Structural)]
pub enum Field {
    Status,
    Address,
    Province,
    District,
    Ward,
    PoiVn,
    PoiEn,
    PoiEx,
    Type,
    SubType,
    PoiStSd,
    Room,
    HouseNum,
    Buaname,
    StName,
    SubCom,
    Phone,
    Fax,
    Web,
    Mail,
    Brandname,
    Import,
    StatusDetail,
    Note,
    Done,
    Update,
    Source,
    GenType,
    Perform,
    Dup,
    Explain,
    Classify,
    Dtrend,
    GoogleId,
    BeId,
    PlusCode,
    Latitude,
    Longitude,
}

/// The value of a field on the wire: a text, or a number as the bit pattern
/// of a 64-bit float.
#[derive(Debug, PartialEq)]
pub enum WireValue {
    Text(String),
    Number(u64),
}

/// What a [`WireValue`] holds.
pub enum WireValueView {
    Text(Seq<char>),
    Number(u64),
}

impl View for WireValue {
    type V = WireValueView;

    open spec fn view(&self) -> WireValueView {
        match self {
            WireValue::Text(s) => WireValueView::Text(s@),
            WireValue::Number(n) => WireValueView::Number(*n),
        }
    }
}

/// One member of the wire form.
#[derive(Debug, PartialEq)]
pub struct WireEntry {
    pub field: Field,
    pub value: WireValue,
}

/// What a [`WireEntry`] holds.
pub struct WireEntryView {
    pub field: Field,
    pub value: WireValueView,
}

impl View for WireEntry {
    type V = WireEntryView;

    open spec fn view(&self) -> WireEntryView {
        WireEntryView { field: self.field, value: self.value@ }
    }
}

/// A text as a wire value, where there is one.
pub open spec fn wire_text(t: Option<Seq<char>>) -> Option<WireValueView> {
    match t {
        Some(s) => Some(WireValueView::Text(s)),
        None => None,
    }
}

/// A number as a wire value, where there is one.
pub open spec fn wire_number(n: Option<u64>) -> Option<WireValueView> {
    match n {
        Some(bits) => Some(WireValueView::Number(bits)),
        None => None,
    }
}

/// The number of fields.
pub const FIELD_COUNT: usize = 38;

/// Every field, in the order of the wire form.
pub open spec fn all_fields() -> Seq<Field> {
    seq![
        Field::Status,
        Field::Address,
        Field::Province,
        Field::District,
        Field::Ward,
        Field::PoiVn,
        Field::PoiEn,
        Field::PoiEx,
        Field::Type,
        Field::SubType,
        Field::PoiStSd,
        Field::Room,
        Field::HouseNum,
        Field::Buaname,
        Field::StName,
        Field::SubCom,
        Field::Phone,
        Field::Fax,
        Field::Web,
        Field::Mail,
        Field::Brandname,
        Field::Import,
        Field::StatusDetail,
        Field::Note,
        Field::Done,
        Field::Update,
        Field::Source,
        Field::GenType,
        Field::Perform,
        Field::Dup,
        Field::Explain,
        Field::Classify,
        Field::Dtrend,
        Field::GoogleId,
        Field::BeId,
        Field::PlusCode,
        Field::Latitude,
        Field::Longitude,
    ]
}

impl Field {
    /// The place of this field in the wire form.
    pub open spec fn position(self) -> int {
        match self {
            Field::Status => 0,
            Field::Address => 1,
            Field::Province => 2,
            Field::District => 3,
            Field::Ward => 4,
            Field::PoiVn => 5,
            Field::PoiEn => 6,
            Field::PoiEx => 7,
            Field::Type => 8,
            Field::SubType => 9,
            Field::PoiStSd => 10,
            Field::Room => 11,
            Field::HouseNum => 12,
            Field::Buaname => 13,
            Field::StName => 14,
            Field::SubCom => 15,
            Field::Phone => 16,
            Field::Fax => 17,
            Field::Web => 18,
            Field::Mail => 19,
            Field::Brandname => 20,
            Field::Import => 21,
            Field::StatusDetail => 22,
            Field::Note => 23,
            Field::Done => 24,
            Field::Update => 25,
            Field::Source => 26,
            Field::GenType => 27,
            Field::Perform => 28,
            Field::Dup => 29,
            Field::Explain => 30,
            Field::Classify => 31,
            Field::Dtrend => 32,
            Field::GoogleId => 33,
            Field::BeId => 34,
            Field::PlusCode => 35,
            Field::Latitude => 36,
            Field::Longitude => 37,
        }
    }

    /// The member name of this field in the wire form.
    pub open spec fn wire_name(self) -> Seq<char> {
        match self {
            Field::Status => "status"@,
            Field::Address => "address"@,
            Field::Province => "province"@,
            Field::District => "district"@,
            Field::Ward => "ward"@,
            Field::PoiVn => "poi_vn"@,
            Field::PoiEn => "poi_en"@,
            Field::PoiEx => "poi_ex"@,
            Field::Type => "type"@,
            Field::SubType => "sub_type"@,
            Field::PoiStSd => "poi_st_sd"@,
            Field::Room => "room"@,
            Field::HouseNum => "house_num"@,
            Field::Buaname => "buaname"@,
            Field::StName => "st_name"@,
            Field::SubCom => "sub_com"@,
            Field::Phone => "phone"@,
            Field::Fax => "fax"@,
            Field::Web => "web"@,
            Field::Mail => "mail"@,
            Field::Brandname => "brandname"@,
            Field::Import => "import"@,
            Field::StatusDetail => "status_detail"@,
            Field::Note => "note"@,
            Field::Done => "done"@,
            Field::Update => "update_"@,
            Field::Source => "source"@,
            Field::GenType => "gen_type"@,
            Field::Perform => "perform"@,
            Field::Dup => "dup"@,
            Field::Explain => "explain"@,
            Field::Classify => "classify"@,
            Field::Dtrend => "dtrend"@,
            Field::GoogleId => "google_id"@,
            Field::BeId => "be_id"@,
            Field::PlusCode => "plus_code"@,
            Field::Latitude => "latitude"@,
            Field::Longitude => "longitude"@,
        }
    }

    /// The field at a place in the wire form; `None` beyond the last place.
    pub fn at(i: usize) -> (f: Option<Field>)
        ensures
            match f {
                Some(f) => i < FIELD_COUNT && f == all_fields()[i as int] && f.position() == i,
                None => i >= FIELD_COUNT,
            },
    {
        match i {
            0 => Some(Field::Status),
            1 => Some(Field::Address),
            2 => Some(Field::Province),
            3 => Some(Field::District),
            4 => Some(Field::Ward),
            5 => Some(Field::PoiVn),
            6 => Some(Field::PoiEn),
            7 => Some(Field::PoiEx),
            8 => Some(Field::Type),
            9 => Some(Field::SubType),
            10 => Some(Field::PoiStSd),
            11 => Some(Field::Room),
            12 => Some(Field::HouseNum),
            13 => Some(Field::Buaname),
            14 => Some(Field::StName),
            15 => Some(Field::SubCom),
            16 => Some(Field::Phone),
            17 => Some(Field::Fax),
            18 => Some(Field::Web),
            19 => Some(Field::Mail),
            20 => Some(Field::Brandname),
            21 => Some(Field::Import),
            22 => Some(Field::StatusDetail),
            23 => Some(Field::Note),
            24 => Some(Field::Done),
            25 => Some(Field::Update),
            26 => Some(Field::Source),
            27 => Some(Field::GenType),
            28 => Some(Field::Perform),
            29 => Some(Field::Dup),
            30 => Some(Field::Explain),
            31 => Some(Field::Classify),
            32 => Some(Field::Dtrend),
            33 => Some(Field::GoogleId),
            34 => Some(Field::BeId),
            35 => Some(Field::PlusCode),
            36 => Some(Field::Latitude),
            37 => Some(Field::Longitude),
            _ => None,
        }
    }

    /// The member name of this field in the wire form.
    pub fn name(self) -> (r: &'static str)
        ensures
            r@ == self.wire_name(),
    {
        match self {
            Field::Status => "status",
            Field::Address => "address",
            Field::Province => "province",
            Field::District => "district",
            Field::Ward => "ward",
            Field::PoiVn => "poi_vn",
            Field::PoiEn => "poi_en",
            Field::PoiEx => "poi_ex",
            Field::Type => "type",
            Field::SubType => "sub_type",
            Field::PoiStSd => "poi_st_sd",
            Field::Room => "room",
            Field::HouseNum => "house_num",
            Field::Buaname => "buaname",
            Field::StName => "st_name",
            Field::SubCom => "sub_com",
            Field::Phone => "phone",
            Field::Fax => "fax",
            Field::Web => "web",
            Field::Mail => "mail",
            Field::Brandname => "brandname",
            Field::Import => "import",
            Field::StatusDetail => "status_detail",
            Field::Note => "note",
            Field::Done => "done",
            Field::Update => "update_",
            Field::Source => "source",
            Field::GenType => "gen_type",
            Field::Perform => "perform",
            Field::Dup => "dup",
            Field::Explain => "explain",
            Field::Classify => "classify",
            Field::Dtrend => "dtrend",
            Field::GoogleId => "google_id",
            Field::BeId => "be_id",
            Field::PlusCode => "plus_code",
            Field::Latitude => "latitude",
            Field::Longitude => "longitude",
        }
    }
}

impl RecordView {
    /// The value of a field, or `None` where the record has none.
    pub open spec fn get(self, f: Field) -> Option<WireValueView> {
        match f {
            Field::Status => Some(WireValueView::Text(self.status)),
            Field::Address => Some(WireValueView::Text(self.address)),
            Field::Province => wire_text(self.province),
            Field::District => wire_text(self.district),
            Field::Ward => wire_text(self.ward),
            Field::PoiVn => wire_text(self.poi_vn),
            Field::PoiEn => wire_text(self.poi_en),
            Field::PoiEx => wire_text(self.poi_ex),
            Field::Type => wire_text(self.type_),
            Field::SubType => wire_text(self.sub_type),
            Field::PoiStSd => wire_text(self.poi_st_sd),
            Field::Room => wire_text(self.room),
            Field::HouseNum => wire_text(self.house_num),
            Field::Buaname => wire_text(self.buaname),
            Field::StName => wire_text(self.st_name),
            Field::SubCom => wire_text(self.sub_com),
            Field::Phone => wire_text(self.phone),
            Field::Fax => wire_text(self.fax),
            Field::Web => wire_text(self.web),
            Field::Mail => wire_text(self.mail),
            Field::Brandname => wire_text(self.brandname),
            Field::Import => wire_text(self.import),
            Field::StatusDetail => wire_text(self.status_detail),
            Field::Note => wire_text(self.note),
            Field::Done => wire_text(self.done),
            Field::Update => wire_text(self.update_),
            Field::Source => wire_text(self.source),
            Field::GenType => wire_text(self.gen_type),
            Field::Perform => wire_text(self.perform),
            Field::Dup => wire_text(self.dup),
            Field::Explain => wire_text(self.explain),
            Field::Classify => wire_text(self.classify),
            Field::Dtrend => wire_text(self.dtrend),
            Field::GoogleId => wire_text(self.google_id),
            Field::BeId => wire_text(self.be_id),
            Field::PlusCode => wire_text(self.plus_code),
            Field::Latitude => wire_number(self.latitude),
            Field::Longitude => wire_number(self.longitude),
        }
    }

    /// The wire form of the first `n` fields: one member for each field that
    /// has a value, in order, and none for a field that has not.
    pub open spec fn wire_prefix(self, n: int) -> Seq<WireEntryView>
        decreases n,
    {
        if n <= 0 {
            Seq::empty()
        } else {
            match self.get(all_fields()[n - 1]) {
                Some(value) => self.wire_prefix(n - 1).push(
                    WireEntryView { field: all_fields()[n - 1], value },
                ),
                None => self.wire_prefix(n - 1),
            }
        }
    }

    /// The wire form of the record.
    pub open spec fn wire_form(self) -> Seq<WireEntryView> {
        self.wire_prefix(FIELD_COUNT as int)
    }
}

/// A copy of a text as a wire value, where there is one.
fn text_value(t: &Option<String>) -> (r: Option<WireValue>)
    ensures
        match r {
            Some(v) => Some(v@),
            None => None,
        } == wire_text(text_view(*t)),
{
    match t {
        Some(s) => Some(WireValue::Text(s.clone())),
        None => None,
    }
}

/// A number as a wire value, where there is one.
fn number_value(n: Option<u64>) -> (r: Option<WireValue>)
    ensures
        match r {
            Some(v) => Some(v@),
            None => None,
        } == wire_number(n),
{
    match n {
        Some(bits) => Some(WireValue::Number(bits)),
        None => None,
    }
}

impl ExampleResult {
    /// The value of a field, or `None` where the record has none.
    pub fn value(&self, f: Field) -> (r: Option<WireValue>)
        ensures
            match r {
                Some(v) => Some(v@),
                None => None,
            } == self@.get(f),
    {
        match f {
            Field::Status => Some(WireValue::Text(self.status.clone())),
            Field::Address => Some(WireValue::Text(self.address.clone())),
            Field::Province => text_value(&self.province),
            Field::District => text_value(&self.district),
            Field::Ward => text_value(&self.ward),
            Field::PoiVn => text_value(&self.poi_vn),
            Field::PoiEn => text_value(&self.poi_en),
            Field::PoiEx => text_value(&self.poi_ex),
            Field::Type => text_value(&self.type_),
            Field::SubType => text_value(&self.sub_type),
            Field::PoiStSd => text_value(&self.poi_st_sd),
            Field::Room => text_value(&self.room),
            Field::HouseNum => text_value(&self.house_num),
            Field::Buaname => text_value(&self.buaname),
            Field::StName => text_value(&self.st_name),
            Field::SubCom => text_value(&self.sub_com),
            Field::Phone => text_value(&self.phone),
            Field::Fax => text_value(&self.fax),
            Field::Web => text_value(&self.web),
            Field::Mail => text_value(&self.mail),
            Field::Brandname => text_value(&self.brandname),
            Field::Import => text_value(&self.import),
            Field::StatusDetail => text_value(&self.status_detail),
            Field::Note => text_value(&self.note),
            Field::Done => text_value(&self.done),
            Field::Update => text_value(&self.update_),
            Field::Source => text_value(&self.source),
            Field::GenType => text_value(&self.gen_type),
            Field::Perform => text_value(&self.perform),
            Field::Dup => text_value(&self.dup),
            Field::Explain => text_value(&self.explain),
            Field::Classify => text_value(&self.classify),
            Field::Dtrend => text_value(&self.dtrend),
            Field::GoogleId => text_value(&self.google_id),
            Field::BeId => text_value(&self.be_id),
            Field::PlusCode => text_value(&self.plus_code),
            Field::Latitude => number_value(self.latitude),
            Field::Longitude => number_value(self.longitude),
        }
    }

    /// The wire form: the members to serialise, in order. A field without a
    /// value has no member.
    pub fn wire_fields(&self) -> (r: Vec<WireEntry>)
        ensures
            r@.map_values(|e: WireEntry| e@) == self@.wire_form(),
    {
        let mut out: Vec<WireEntry> = Vec::new();
        let mut i: usize = 0;
        while i < FIELD_COUNT
            invariant
                i <= FIELD_COUNT,
                out@.map_values(|e: WireEntry| e@) == self@.wire_prefix(i as int),
            decreases FIELD_COUNT - i,
        {
            let ghost before = out@;
            match Field::at(i) {
                Some(field) => match self.value(field) {
                    Some(value) => {
                        let entry = WireEntry { field, value };
                        out.push(entry);
                        assert(out@.map_values(|e: WireEntry| e@) == before.map_values(
                            |e: WireEntry| e@,
                        ).push(entry@));
                    },
                    None => {},
                },
                None => {},
            }
            i += 1;
        }
        out
    }
}

/// A field stands in the first `n` places of the wire form exactly where it
/// is one of the first `n` fields and has a value, and then with that value.
pub proof fn lemma_wire_prefix_members(r: RecordView, n: int, f: Field)
    requires
        0 <= n <= FIELD_COUNT,
    ensures
        (exists|i: int| 0 <= i < r.wire_prefix(n).len() && (#[trigger] r.wire_prefix(n)[i]).field == f)
            <==> (f.position() < n && r.get(f) is Some),
        forall|i: int|
            0 <= i < r.wire_prefix(n).len() && (#[trigger] r.wire_prefix(n)[i]).field == f
                ==> r.get(f) == Some(r.wire_prefix(n)[i].value),
    decreases n,
{
    if n > 0 {
        lemma_wire_prefix_members(r, n - 1, f);
        let g = all_fields()[n - 1];
        let shorter = r.wire_prefix(n - 1);
        let whole = r.wire_prefix(n);
        assert(g.position() == n - 1);
        assert(all_fields()[f.position()] == f);
        match r.get(g) {
            Some(value) => {
                assert(whole == shorter.push(WireEntryView { field: g, value }));
                assert(whole[shorter.len() as int].field == g);
                if f.position() < n && r.get(f) is Some {
                    if f == g {
                        assert(whole[shorter.len() as int].field == f);
                    } else {
                        let i = choose|i: int|
                            0 <= i < shorter.len() && (#[trigger] shorter[i]).field == f;
                        assert(whole[i].field == f);
                    }
                }
                assert forall|i: int|
                    0 <= i < whole.len() && (#[trigger] whole[i]).field == f implies f.position()
                    < n && r.get(f) == Some(whole[i].value) by {
                    if i < shorter.len() {
                        assert(shorter[i].field == f);
                    }
                }
            },
            None => {},
        }
    }
}

/// A field has a member in the wire form exactly where the record has a
/// value for it, and the member carries that value: what is absent from the
/// record is absent from the wire.
pub proof fn lemma_wire_form_members(r: RecordView, f: Field)
    ensures
        (exists|i: int| 0 <= i < r.wire_form().len() && (#[trigger] r.wire_form()[i]).field == f)
            <==> r.get(f) is Some,
        forall|i: int|
            0 <= i < r.wire_form().len() && (#[trigger] r.wire_form()[i]).field == f ==> r.get(f)
                == Some(r.wire_form()[i].value),
{
    lemma_wire_prefix_members(r, FIELD_COUNT as int, f);
}

/// The members of the wire form stand in the order of the fields, each field
/// at most once.
pub proof fn lemma_wire_form_ordered(r: RecordView)
    ensures
        forall|i: int, j: int|
            0 <= i < j < r.wire_form().len() ==> (#[trigger] r.wire_form()[i]).field.position() < (
            #[trigger] r.wire_form()[j]).field.position(),
{
    lemma_wire_prefix_ordered(r, FIELD_COUNT as int);
}

/// The members of the wire form of the first `n` fields stand in the order
/// of the fields.
pub proof fn lemma_wire_prefix_ordered(r: RecordView, n: int)
    requires
        0 <= n <= FIELD_COUNT,
    ensures
        forall|i: int, j: int|
            0 <= i < j < r.wire_prefix(n).len() ==> (#[trigger] r.wire_prefix(n)[i]).field.position()
                < (#[trigger] r.wire_prefix(n)[j]).field.position(),
        forall|i: int|
            0 <= i < r.wire_prefix(n).len() ==> (#[trigger] r.wire_prefix(n)[i]).field.position() < n,
    decreases n,
{
    if n > 0 {
        lemma_wire_prefix_ordered(r, n - 1);
        let g = all_fields()[n - 1];
        assert(g.position() == n - 1);
    }
}

/// The wire form of a record without optional fields is its status and its
/// address, and nothing else.
pub proof fn lemma_bare_wire_form(r: RecordView)
    requires
        r.is_bare(),
    ensures
        r.wire_form() == seq![
            WireEntryView { field: Field::Status, value: WireValueView::Text(r.status) },
            WireEntryView { field: Field::Address, value: WireValueView::Text(r.address) },
        ],
{
    reveal_with_fuel(RecordView::wire_prefix, 39);
}

/// What tells one member name from another: its length and its first,
/// fifth and sixth character, with a blank where the name is too short.
pub open spec fn mark(name: Seq<char>) -> (nat, char, char, char) {
    (
        name.len(),
        name[0],
        if name.len() > 4 {
            name[4]
        } else {
            ' '
        },
        if name.len() > 5 {
            name[5]
        } else {
            ' '
        },
    )
}

/// The mark of each field's member name.
pub open spec fn field_mark(f: Field) -> (nat, char, char, char) {
    match f {
        Field::Status => (6, 's', 'u', 's'),
        Field::Address => (7, 'a', 'e', 's'),
        Field::Province => (8, 'p', 'i', 'n'),
        Field::District => (8, 'd', 'r', 'i'),
        Field::Ward => (4, 'w', ' ', ' '),
        Field::PoiVn => (6, 'p', 'v', 'n'),
        Field::PoiEn => (6, 'p', 'e', 'n'),
        Field::PoiEx => (6, 'p', 'e', 'x'),
        Field::Type => (4, 't', ' ', ' '),
        Field::SubType => (8, 's', 't', 'y'),
        Field::PoiStSd => (9, 'p', 's', 't'),
        Field::Room => (4, 'r', ' ', ' '),
        Field::HouseNum => (9, 'h', 'e', '_'),
        Field::Buaname => (7, 'b', 'a', 'm'),
        Field::StName => (7, 's', 'a', 'm'),
        Field::SubCom => (7, 's', 'c', 'o'),
        Field::Phone => (5, 'p', 'e', ' '),
        Field::Fax => (3, 'f', ' ', ' '),
        Field::Web => (3, 'w', ' ', ' '),
        Field::Mail => (4, 'm', ' ', ' '),
        Field::Brandname => (9, 'b', 'd', 'n'),
        Field::Import => (6, 'i', 'r', 't'),
        Field::StatusDetail => (13, 's', 'u', 's'),
        Field::Note => (4, 'n', ' ', ' '),
        Field::Done => (4, 'd', ' ', ' '),
        Field::Update => (7, 'u', 't', 'e'),
        Field::Source => (6, 's', 'c', 'e'),
        Field::GenType => (8, 'g', 't', 'y'),
        Field::Perform => (7, 'p', 'o', 'r'),
        Field::Dup => (3, 'd', ' ', ' '),
        Field::Explain => (7, 'e', 'a', 'i'),
        Field::Classify => (8, 'c', 's', 'i'),
        Field::Dtrend => (6, 'd', 'n', 'd'),
        Field::GoogleId => (9, 'g', 'l', 'e'),
        Field::BeId => (5, 'b', 'd', ' '),
        Field::PlusCode => (9, 'p', '_', 'c'),
        Field::Latitude => (8, 'l', 't', 'u'),
        Field::Longitude => (9, 'l', 'i', 't'),
    }
}

/// No two fields share a member name, so a member name is absent from the
/// wire exactly where its field is absent from the record.
pub proof fn lemma_wire_names_distinct(f: Field, g: Field)
    requires
        f != g,
    ensures
        f.wire_name() != g.wire_name(),
{
    lemma_field_marks(f);
    lemma_field_marks(g);
}

/// Each member name has the mark that the table gives it.
proof fn lemma_field_marks(f: Field)
    ensures
        mark(f.wire_name()) == field_mark(f),
{
    reveal_strlit("status");
    reveal_strlit("address");
    reveal_strlit("province");
    reveal_strlit("district");
    reveal_strlit("ward");
    reveal_strlit("poi_vn");
    reveal_strlit("poi_en");
    reveal_strlit("poi_ex");
    reveal_strlit("type");
    reveal_strlit("sub_type");
    reveal_strlit("poi_st_sd");
    reveal_strlit("room");
    reveal_strlit("house_num");
    reveal_strlit("buaname");
    reveal_strlit("st_name");
    reveal_strlit("sub_com");
    reveal_strlit("phone");
    reveal_strlit("fax");
    reveal_strlit("web");
    reveal_strlit("mail");
    reveal_strlit("brandname");
    reveal_strlit("import");
    reveal_strlit("status_detail");
    reveal_strlit("note");
    reveal_strlit("done");
    reveal_strlit("update_");
    reveal_strlit("source");
    reveal_strlit("gen_type");
    reveal_strlit("perform");
    reveal_strlit("dup");
    reveal_strlit("explain");
    reveal_strlit("classify");
    reveal_strlit("dtrend");
    reveal_strlit("google_id");
    reveal_strlit("be_id");
    reveal_strlit("plus_code");
    reveal_strlit("latitude");
    reveal_strlit("longitude");
}

} // verus!
