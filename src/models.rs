//! The records that the holidays service returns, and their mapping to and
//! from JSON.
use vstd::prelude::*;
use crate::decimal::{integer_text, parse_i32};
use crate::error::FetchError;
use crate::json::{
    field, json_text, lemma_array_view, lemma_object_view, member, members_view, opt_model,
    parse_json, Json, JsonModel,
};

verus! {

/// A holiday returned by the service.
#[derive(Debug, Clone, PartialEq, Eq)]
pub struct Holiday {
    pub name: String,
    pub description: Option<String>,
    pub date: HolidayDate,
    /// The holiday's category tags, carried under the JSON key `type`.
    pub types: Option<Vec<String>>,
    pub locations: Option<String>,
    pub states: Option<String>,
}

/// The date of a holiday, as the ISO-8601 text that the service sent.
#[derive(Debug, Clone, PartialEq, Eq)]
pub struct HolidayDate {
    pub iso: String,
}

/// The status that the service reports with its answer.
#[derive(Debug, Clone, Copy, PartialEq, Eq, Structural)]
pub struct Meta {
    pub code: i32,
}

/// The part of an answer that holds the holidays.
#[derive(Debug, Clone, PartialEq, Eq)]
pub struct HolidaysResponse {
    pub holidays: Vec<Holiday>,
}

/// The whole answer of the service.
#[derive(Debug, Clone, PartialEq, Eq)]
pub struct ApiResponse {
    pub meta: Meta,
    pub response: HolidaysResponse,
}

/// The model of a `Holiday`: texts as character sequences.
pub struct HolidayView {
    pub name: Seq<char>,
    pub description: Option<Seq<char>>,
    pub date: Seq<char>,
    pub types: Option<Seq<Seq<char>>>,
    pub locations: Option<Seq<char>>,
    pub states: Option<Seq<char>>,
}

/// The model of an `ApiResponse`.
pub struct ApiResponseView {
    pub code: int,
    pub holidays: Seq<HolidayView>,
}

pub open spec fn text_opt(o: Option<String>) -> Option<Seq<char>> {
    match o {
        Some(s) => Some(s@),
        None => None,
    }
}

pub open spec fn texts(v: Seq<String>) -> Seq<Seq<char>> {
    v.map_values(|s: String| s@)
}

pub open spec fn texts_opt(o: Option<Vec<String>>) -> Option<Seq<Seq<char>>> {
    match o {
        Some(v) => Some(texts(v@)),
        None => None,
    }
}

pub open spec fn holidays_view(v: Seq<Holiday>) -> Seq<HolidayView> {
    v.map_values(|h: Holiday| h@)
}

impl View for Holiday {
    type V = HolidayView;

    open spec fn view(&self) -> HolidayView {
        HolidayView {
            name: self.name@,
            description: text_opt(self.description),
            date: self.date.iso@,
            types: texts_opt(self.types),
            locations: text_opt(self.locations),
            states: text_opt(self.states),
        }
    }
}

impl View for HolidayDate {
    type V = Seq<char>;

    open spec fn view(&self) -> Seq<char> {
        self.iso@
    }
}

impl View for ApiResponse {
    type V = ApiResponseView;

    open spec fn view(&self) -> ApiResponseView {
        ApiResponseView {
            code: self.meta.code as int,
            holidays: holidays_view(self.response.holidays@),
        }
    }
}

// ---- Reading records from a JSON document ----
//
// A required text must be present and a string. An optional text or list may
// be absent or null, and is then no value; present, it must have its type.
// Members that no record has are passed over.

/// A required text member.
pub open spec fn required_text(v: Option<JsonModel>) -> Option<Seq<char>> {
    match v {
        Some(JsonModel::Str(s)) => Some(s),
        _ => None,
    }
}

/// An optional text member: `None` where it is malformed, `Some(None)` where
/// it is absent or null.
pub open spec fn optional_text(v: Option<JsonModel>) -> Option<Option<Seq<char>>> {
    match v {
        None => Some(None),
        Some(JsonModel::Null) => Some(None),
        Some(JsonModel::Str(s)) => Some(Some(s)),
        _ => None,
    }
}

/// An array of strings.
pub open spec fn text_list(items: Seq<JsonModel>) -> Option<Seq<Seq<char>>> {
    if forall|i: int| 0 <= i < items.len() ==> #[trigger] items[i] is Str {
        Some(items.map_values(|j: JsonModel| j->Str_0))
    } else {
        None
    }
}

/// An optional list of texts, as `optional_text` for a text.
pub open spec fn optional_text_list(v: Option<JsonModel>) -> Option<Option<Seq<Seq<char>>>> {
    match v {
        None => Some(None),
        Some(JsonModel::Null) => Some(None),
        Some(JsonModel::Array(items)) => match text_list(items) {
            Some(l) => Some(Some(l)),
            None => None,
        },
        _ => None,
    }
}

/// The date that a JSON document denotes: an object with a string `iso`.
pub open spec fn decode_date(j: JsonModel) -> Option<Seq<char>> {
    match j {
        JsonModel::Object(m) => required_text(field(m, "iso"@)),
        _ => None,
    }
}

/// The holiday that a JSON document denotes, if any.
pub open spec fn decode_holiday(j: JsonModel) -> Option<HolidayView> {
    match j {
        JsonModel::Object(m) => {
            let name = required_text(field(m, "name"@));
            let description = optional_text(field(m, "description"@));
            let date = match field(m, "date"@) {
                Some(d) => decode_date(d),
                None => None,
            };
            let types = optional_text_list(field(m, "type"@));
            let locations = optional_text(field(m, "locations"@));
            let states = optional_text(field(m, "states"@));
            if name is Some && description is Some && date is Some && types is Some
                && locations is Some && states is Some {
                Some(
                    HolidayView {
                        name: name->0,
                        description: description->0,
                        date: date->0,
                        types: types->0,
                        locations: locations->0,
                        states: states->0,
                    },
                )
            } else {
                None
            }
        },
        _ => None,
    }
}

/// The holidays that a JSON array denotes, in its order.
pub open spec fn decode_holiday_list(j: JsonModel) -> Option<Seq<HolidayView>> {
    match j {
        JsonModel::Array(items) => if forall|i: int|
            0 <= i < items.len() ==> #[trigger] decode_holiday(items[i]) is Some {
            Some(items.map_values(|x: JsonModel| decode_holiday(x)->0))
        } else {
            None
        },
        _ => None,
    }
}

/// The status code that a JSON document denotes: an object whose `code` is
/// an integer that fits in an `i32`.
pub open spec fn decode_meta(j: JsonModel) -> Option<int> {
    match j {
        JsonModel::Object(m) => match field(m, "code"@) {
            Some(JsonModel::Number(t)) => match integer_text(t) {
                Some(v) => if i32::MIN <= v <= i32::MAX {
                    Some(v)
                } else {
                    None
                },
                None => None,
            },
            _ => None,
        },
        _ => None,
    }
}

/// The envelope that a JSON document denotes: `meta` and
/// `response.holidays`.
pub open spec fn decode_response(j: JsonModel) -> Option<ApiResponseView> {
    match j {
        JsonModel::Object(m) => {
            let meta = match field(m, "meta"@) {
                Some(x) => decode_meta(x),
                None => None,
            };
            let holidays = match field(m, "response"@) {
                Some(JsonModel::Object(r)) => match field(r, "holidays"@) {
                    Some(x) => decode_holiday_list(x),
                    None => None,
                },
                _ => None,
            };
            if meta is Some && holidays is Some {
                Some(ApiResponseView { code: meta->0, holidays: holidays->0 })
            } else {
                None
            }
        },
        _ => None,
    }
}

/// A JSON document read as a record: `Ok` with the model where it denotes
/// one, `Err(MalformedPayload)` where it does not.
pub open spec fn decoded<T>(d: Option<T>) -> Result<T, FetchError> {
    match d {
        Some(v) => Ok(v),
        None => Err(FetchError::MalformedPayload),
    }
}

/// `r` is the outcome of reading a record whose model, where the document
/// denotes one, is `d`.
pub open spec fn read_as<T: View>(r: Result<T, FetchError>, d: Option<T::V>) -> bool {
    match r {
        Ok(v) => d == Some(v@),
        Err(e) => d is None && e == FetchError::MalformedPayload,
    }
}

/// What a text denotes when read as JSON and then as a record with `decode`.
pub open spec fn text_as<T>(text: Seq<char>, decode: spec_fn(JsonModel) -> Option<T>) -> Option<T> {
    match json_text(text) {
        Some(doc) => decode(doc),
        None => None,
    }
}

// ---- Writing records as JSON ----

pub open spec fn encode_text_opt(o: Option<Seq<char>>) -> JsonModel {
    match o {
        Some(s) => JsonModel::Str(s),
        None => JsonModel::Null,
    }
}

pub open spec fn encode_text_list(o: Option<Seq<Seq<char>>>) -> JsonModel {
    match o {
        Some(l) => JsonModel::Array(l.map_values(|s: Seq<char>| JsonModel::Str(s))),
        None => JsonModel::Null,
    }
}

pub open spec fn encode_date(iso: Seq<char>) -> JsonModel {
    JsonModel::Object(seq![("iso"@, JsonModel::Str(iso))])
}

/// The JSON document of a holiday: every field under its own key, the
/// category tags under `type`, a missing value as null.
pub open spec fn encode_holiday(h: HolidayView) -> JsonModel {
    JsonModel::Object(
        seq![
            ("name"@, JsonModel::Str(h.name)),
            ("description"@, encode_text_opt(h.description)),
            ("date"@, encode_date(h.date)),
            ("type"@, encode_text_list(h.types)),
            ("locations"@, encode_text_opt(h.locations)),
            ("states"@, encode_text_opt(h.states)),
        ],
    )
}

fn read_required_text(v: Option<&Json>) -> (r: Option<String>)
    ensures
        text_opt(r) == required_text(opt_model(v)),
{
    match v {
        Some(Json::Str(s)) => Some(s.clone()),
        _ => None,
    }
}

fn read_optional_text(v: Option<&Json>) -> (r: Result<Option<String>, FetchError>)
    ensures
        match r {
            Ok(o) => optional_text(opt_model(v)) == Some(text_opt(o)),
            Err(e) => optional_text(opt_model(v)) is None && e == FetchError::MalformedPayload,
        },
{
    match v {
        None => Ok(None),
        Some(Json::Null) => Ok(None),
        Some(Json::Str(s)) => Ok(Some(s.clone())),
        _ => Err(FetchError::MalformedPayload),
    }
}

fn read_text_list(items: &Vec<Json>) -> (r: Option<Vec<String>>)
    ensures
        match r {
            Some(l) => text_list(items@.map_values(|j: Json| j@)) == Some(texts(l@)),
            None => text_list(items@.map_values(|j: Json| j@)) is None,
        },
{
    let ghost model = items@.map_values(|j: Json| j@);
    let mut out: Vec<String> = Vec::new();
    let mut i: usize = 0;
    while i < items.len()
        invariant
            i <= items.len(),
            model == items@.map_values(|j: Json| j@),
            out@.len() == i,
            forall|k: int| 0 <= k < i ==> #[trigger] model[k] is Str && model[k]->Str_0 == out@[k]@,
        decreases items.len() - i,
    {
        match &items[i] {
            Json::Str(s) => {
                out.push(s.clone());
            },
            _ => {
                assert(!(model[i as int] is Str));
                return None;
            },
        }
        i = i + 1;
    }
    assert(model.map_values(|j: JsonModel| j->Str_0) =~= texts(out@));
    Some(out)
}

fn read_optional_text_list(v: Option<&Json>) -> (r: Result<Option<Vec<String>>, FetchError>)
    ensures
        match r {
            Ok(o) => optional_text_list(opt_model(v)) == Some(texts_opt(o)),
            Err(e) => optional_text_list(opt_model(v)) is None && e == FetchError::MalformedPayload,
        },
{
    match v {
        None => Ok(None),
        Some(Json::Null) => Ok(None),
        Some(Json::Array(items)) => {
            proof {
                lemma_array_view(items);
            }
            match read_text_list(items) {
                Some(l) => Ok(Some(l)),
                None => Err(FetchError::MalformedPayload),
            }
        },
        _ => Err(FetchError::MalformedPayload),
    }
}

impl HolidayDate {
    /// Reads a date from a JSON document: an object whose `iso` is a string.
    pub fn from_json(j: &Json) -> (r: Result<HolidayDate, FetchError>)
        ensures
            read_as(r, decode_date(j@)),
    {
        match j {
            Json::Object(m) => {
                proof {
                    lemma_object_view(m);
                }
                match read_required_text(member(m, "iso")) {
                    Some(iso) => Ok(HolidayDate { iso }),
                    None => Err(FetchError::MalformedPayload),
                }
            },
            _ => Err(FetchError::MalformedPayload),
        }
    }

    /// Reads a date from a JSON text.
    pub fn from_json_text(text: &str) -> (r: Result<HolidayDate, FetchError>)
        ensures
            read_as(r, text_as(text@, |d: JsonModel| decode_date(d))),
    {
        match parse_json(text) {
            Some(j) => HolidayDate::from_json(&j),
            None => Err(FetchError::MalformedPayload),
        }
    }
}

impl Holiday {
    /// Reads a holiday from a JSON document. `name` and `date.iso` are
    /// required; `description`, `type`, `locations` and `states` may be
    /// absent or null, and are then no value.
    pub fn from_json(j: &Json) -> (r: Result<Holiday, FetchError>)
        ensures
            read_as(r, decode_holiday(j@)),
    {
        let m = match j {
            Json::Object(m) => m,
            _ => {
                return Err(FetchError::MalformedPayload);
            },
        };
        proof {
            lemma_object_view(m);
        }
        let name = match read_required_text(member(m, "name")) {
            Some(s) => s,
            None => {
                return Err(FetchError::MalformedPayload);
            },
        };
        let description = read_optional_text(member(m, "description"))?;
        let date = match member(m, "date") {
            Some(d) => HolidayDate::from_json(d)?,
            None => {
                return Err(FetchError::MalformedPayload);
            },
        };
        let types = read_optional_text_list(member(m, "type"))?;
        let locations = read_optional_text(member(m, "locations"))?;
        let states = read_optional_text(member(m, "states"))?;
        Ok(Holiday { name, description, date, types, locations, states })
    }

    /// Reads a holiday from a JSON text.
    pub fn from_json_text(text: &str) -> (r: Result<Holiday, FetchError>)
        ensures
            read_as(r, text_as(text@, |d: JsonModel| decode_holiday(d))),
    {
        match parse_json(text) {
            Some(j) => Holiday::from_json(&j),
            None => Err(FetchError::MalformedPayload),
        }
    }
}

fn read_holiday_list(j: &Json) -> (r: Result<Vec<Holiday>, FetchError>)
    ensures
        match r {
            Ok(l) => decode_holiday_list(j@) == Some(holidays_view(l@)),
            Err(e) => decode_holiday_list(j@) is None && e == FetchError::MalformedPayload,
        },
{
    let items = match j {
        Json::Array(items) => items,
        _ => {
            return Err(FetchError::MalformedPayload);
        },
    };
    proof {
        lemma_array_view(items);
    }
    let ghost model = items@.map_values(|x: Json| x@);
    assert(j@ == JsonModel::Array(model));
    let mut out: Vec<Holiday> = Vec::new();
    let mut i: usize = 0;
    while i < items.len()
        invariant
            i <= items.len(),
            model == items@.map_values(|x: Json| x@),
            j@ == JsonModel::Array(model),
            out@.len() == i,
            forall|k: int|
                0 <= k < i ==> #[trigger] decode_holiday(model[k]) == Some(out@[k]@),
        decreases items.len() - i,
    {
        match Holiday::from_json(&items[i]) {
            Ok(h) => out.push(h),
            Err(e) => {
                assert(decode_holiday(model[i as int]) is None);
                return Err(e);
            },
        }
        i = i + 1;
    }
    assert(model.map_values(|x: JsonModel| decode_holiday(x)->0) =~= holidays_view(out@));
    Ok(out)
}

impl ApiResponse {
    /// Reads the service's envelope from a JSON document: `meta.code`, an
    /// integer that fits in an `i32`, and `response.holidays`, an array of
    /// holidays whose order is kept.
    pub fn from_json(j: &Json) -> (r: Result<ApiResponse, FetchError>)
        ensures
            read_as(r, decode_response(j@)),
    {
        let m = match j {
            Json::Object(m) => m,
            _ => {
                return Err(FetchError::MalformedPayload);
            },
        };
        proof {
            lemma_object_view(m);
        }
        let code = match member(m, "meta") {
            Some(Json::Object(meta)) => {
                proof {
                    lemma_object_view(meta);
                }
                match member(meta, "code") {
                    Some(Json::Number(t)) => match parse_i32(t.as_str()) {
                        Some(c) => c,
                        None => {
                            return Err(FetchError::MalformedPayload);
                        },
                    },
                    _ => {
                        return Err(FetchError::MalformedPayload);
                    },
                }
            },
            _ => {
                return Err(FetchError::MalformedPayload);
            },
        };
        let holidays = match member(m, "response") {
            Some(Json::Object(resp)) => {
                proof {
                    lemma_object_view(resp);
                }
                match member(resp, "holidays") {
                    Some(list) => read_holiday_list(list)?,
                    None => {
                        return Err(FetchError::MalformedPayload);
                    },
                }
            },
            _ => {
                return Err(FetchError::MalformedPayload);
            },
        };
        Ok(ApiResponse { meta: Meta { code }, response: HolidaysResponse { holidays } })
    }

    /// Reads the service's envelope from a JSON text.
    pub fn from_json_text(text: &str) -> (r: Result<ApiResponse, FetchError>)
        ensures
            read_as(r, text_as(text@, |d: JsonModel| decode_response(d))),
    {
        match parse_json(text) {
            Some(j) => ApiResponse::from_json(&j),
            None => Err(FetchError::MalformedPayload),
        }
    }
}


fn text_json(o: &Option<String>) -> (r: Json)
    ensures
        r@ == encode_text_opt(text_opt(*o)),
{
    match o {
        Some(s) => Json::Str(s.clone()),
        None => Json::Null,
    }
}

fn text_list_json(o: &Option<Vec<String>>) -> (r: Json)
    ensures
        r@ == encode_text_list(texts_opt(*o)),
{
    match o {
        Some(l) => {
            let mut items: Vec<Json> = Vec::new();
            let mut i: usize = 0;
            while i < l.len()
                invariant
                    i <= l.len(),
                    items@.len() == i,
                    forall|k: int| 0 <= k < i ==> #[trigger] items@[k]@ == JsonModel::Str(l@[k]@),
                decreases l.len() - i,
            {
                items.push(Json::Str(l[i].clone()));
                i = i + 1;
            }
            proof {
                lemma_array_view(&items);
                assert(items@.map_values(|j: Json| j@) =~= texts(l@).map_values(
                    |s: Seq<char>| JsonModel::Str(s),
                ));
            }
            Json::Array(items)
        },
        None => Json::Null,
    }
}

impl HolidayDate {
    /// Writes a date as a JSON document: an object with its `iso` text.
    pub fn to_json(&self) -> (r: Json)
        ensures
            r@ == encode_date(self.iso@),
    {
        let mut members: Vec<(String, Json)> = Vec::new();
        members.push((String::from_str("iso"), Json::Str(self.iso.clone())));
        proof {
            lemma_object_view(&members);
            assert(members_view(members@) =~= seq![("iso"@, JsonModel::Str(self.iso@))]);
        }
        Json::Object(members)
    }
}

impl Holiday {
    /// Writes a holiday as a JSON document, under the keys that
    /// `from_json` reads; the category tags go under `type`, and a missing
    /// value is written as null.
    pub fn to_json(&self) -> (r: Json)
        ensures
            r@ == encode_holiday(self@),
    {
        let mut members: Vec<(String, Json)> = Vec::new();
        members.push((String::from_str("name"), Json::Str(self.name.clone())));
        members.push((String::from_str("description"), text_json(&self.description)));
        members.push((String::from_str("date"), self.date.to_json()));
        members.push((String::from_str("type"), text_list_json(&self.types)));
        members.push((String::from_str("locations"), text_json(&self.locations)));
        members.push((String::from_str("states"), text_json(&self.states)));
        proof {
            lemma_object_view(&members);
            let h = self@;
            assert(members_view(members@) =~= seq![
                ("name"@, JsonModel::Str(h.name)),
                ("description"@, encode_text_opt(h.description)),
                ("date"@, encode_date(h.date)),
                ("type"@, encode_text_list(h.types)),
                ("locations"@, encode_text_opt(h.locations)),
                ("states"@, encode_text_opt(h.states)),
            ]);
        }
        Json::Object(members)
    }
}


// ---- Laws of the mapping ----

/// Writing a holiday as JSON and reading it back gives the same holiday,
/// field for field.
pub proof fn lemma_holiday_round_trip(h: HolidayView)
    ensures
        decode_holiday(encode_holiday(h)) == Some(h),
{
    reveal_strlit("name");
    reveal_strlit("description");
    reveal_strlit("date");
    reveal_strlit("type");
    reveal_strlit("locations");
    reveal_strlit("states");
    reveal_strlit("iso");
    reveal_with_fuel(field, 7);
    let m = encode_holiday(h)->Object_0;
    assert(m.drop_first() =~= m.subrange(1, 6));
    assert(m.subrange(1, 6).drop_first() =~= m.subrange(2, 6));
    assert(m.subrange(2, 6).drop_first() =~= m.subrange(3, 6));
    assert(m.subrange(3, 6).drop_first() =~= m.subrange(4, 6));
    assert(m.subrange(4, 6).drop_first() =~= m.subrange(5, 6));
    assert(field(m, "name"@) == Some(JsonModel::Str(h.name)));
    assert("name"@.len() == 4 && "description"@.len() == 11 && "date"@.len() == 4);
    assert("type"@.len() == 4 && "locations"@.len() == 9 && "states"@.len() == 6);
    assert("name"@[0] == 'n' && "date"@[0] == 'd' && "type"@[0] == 't');
    assert(field(m, "description"@) == Some(encode_text_opt(h.description)));
    assert(field(m, "date"@) == Some(encode_date(h.date)));
    assert(field(m, "type"@) == Some(encode_text_list(h.types)));
    assert(field(m, "locations"@) == Some(encode_text_opt(h.locations)));
    assert(field(m, "states"@) == Some(encode_text_opt(h.states)));
    assert(decode_date(encode_date(h.date)) == Some(h.date));
    if let Some(l) = h.types {
        let items = l.map_values(|s: Seq<char>| JsonModel::Str(s));
        assert(items.map_values(|j: JsonModel| j->Str_0) =~= l);
    }
}

/// A holiday object without `description`, `type`, `locations` and `states`
/// is read with each of them as no value.
pub proof fn lemma_absent_members_are_none(m: Seq<(Seq<char>, JsonModel)>, name: Seq<char>, iso: Seq<char>)
    requires
        field(m, "name"@) == Some(JsonModel::Str(name)),
        field(m, "date"@) == Some(JsonModel::Object(seq![("iso"@, JsonModel::Str(iso))])),
        field(m, "description"@) is None,
        field(m, "type"@) is None,
        field(m, "locations"@) is None,
        field(m, "states"@) is None,
    ensures
        decode_holiday(JsonModel::Object(m)) == Some(
            HolidayView {
                name,
                description: None,
                date: iso,
                types: None,
                locations: None,
                states: None,
            },
        ),
{
    reveal_with_fuel(field, 2);
}

/// A holiday object without `name`, without `date`, or whose `date` has no
/// `iso`, denotes no holiday.
pub proof fn lemma_required_members(m: Seq<(Seq<char>, JsonModel)>)
    requires
        field(m, "name"@) is None || field(m, "date"@) is None || (field(m, "date"@) matches Some(
            JsonModel::Object(d),
        ) && field(d, "iso"@) is None),
    ensures
        decode_holiday(JsonModel::Object(m)) is None,
{
}

/// The holiday read from an object has as category tags the strings under
/// its key `type`, in their order.
pub proof fn lemma_type_key_gives_tags(m: Seq<(Seq<char>, JsonModel)>, tags: Seq<Seq<char>>)
    requires
        field(m, "type"@) == Some(JsonModel::Array(tags.map_values(|s: Seq<char>| JsonModel::Str(s)))),
        decode_holiday(JsonModel::Object(m)) is Some,
    ensures
        decode_holiday(JsonModel::Object(m))->0.types == Some(tags),
{
    let items = tags.map_values(|s: Seq<char>| JsonModel::Str(s));
    assert(items.map_values(|j: JsonModel| j->Str_0) =~= tags);
}

/// The envelope read from a document holds one holiday for each element of
/// its `response.holidays`, in the same order.
pub proof fn lemma_envelope_keeps_holidays(
    m: Seq<(Seq<char>, JsonModel)>,
    r: Seq<(Seq<char>, JsonModel)>,
    items: Seq<JsonModel>,
)
    requires
        field(m, "response"@) == Some(JsonModel::Object(r)),
        field(r, "holidays"@) == Some(JsonModel::Array(items)),
        decode_response(JsonModel::Object(m)) is Some,
    ensures
        decode_response(JsonModel::Object(m))->0.holidays.len() == items.len(),
        forall|i: int|
            0 <= i < items.len() ==> Some(#[trigger] decode_response(JsonModel::Object(m))->0.holidays[i])
                == decode_holiday(items[i]),
{
}

} // verus!
