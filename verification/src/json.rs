//! JSON values as plain data, and the calls into `serde_json` that work on them.

use vstd::prelude::*;

use crate::text::same_text;

verus! {

/// A JSON number. An integer is kept as such; a number with a fraction or an exponent is kept
/// as the shortest decimal text that denotes it.
#[derive(Debug, PartialEq)]
pub enum JsonNumber {
    PosInt(u64),
    NegInt(i64),
    Float(String),
}

/// A JSON value. Where an object names a key twice, the later entry counts.
#[derive(Debug, PartialEq)]
pub enum Json {
    Null,
    Bool(bool),
    Number(JsonNumber),
    Str(String),
    Array(Vec<Json>),
    Object(Vec<(String, Json)>),
}

/// The number that a `JsonNumber` stands for.
pub enum NumberView {
    PosInt(u64),
    NegInt(i64),
    Float(Seq<char>),
}

/// The mathematical value of a `Json`.
pub enum JsonView {
    Null,
    Bool(bool),
    Number(NumberView),
    Str(Seq<char>),
    Array(Seq<JsonView>),
    Object(Seq<(Seq<char>, JsonView)>),
}

impl View for JsonNumber {
    type V = NumberView;

    open spec fn view(&self) -> NumberView {
        match self {
            JsonNumber::PosInt(n) => NumberView::PosInt(*n),
            JsonNumber::NegInt(n) => NumberView::NegInt(*n),
            JsonNumber::Float(t) => NumberView::Float(t@),
        }
    }
}

/// The view of a value, by recursion over its parts.
pub open spec fn json_view(j: Json) -> JsonView
    decreases j,
{
    match j {
        Json::Null => JsonView::Null,
        Json::Bool(b) => JsonView::Bool(b),
        Json::Number(n) => JsonView::Number(n@),
        Json::Str(s) => JsonView::Str(s@),
        Json::Array(items) => JsonView::Array(
            Seq::new(
                items@.len(),
                |i: int|
                    if 0 <= i < items@.len() {
                        json_view(items@[i])
                    } else {
                        JsonView::Null
                    },
            ),
        ),
        Json::Object(fields) => JsonView::Object(
            Seq::new(
                fields@.len(),
                |i: int|
                    if 0 <= i < fields@.len() {
                        (fields@[i].0@, json_view(fields@[i].1))
                    } else {
                        (Seq::empty(), JsonView::Null)
                    },
            ),
        ),
    }
}

impl View for Json {
    type V = JsonView;

    open spec fn view(&self) -> JsonView {
        json_view(*self)
    }
}

/// The value that the entries of an object give to `key`.
pub open spec fn lookup(fields: Seq<(Seq<char>, JsonView)>, key: Seq<char>) -> Option<JsonView>
    decreases fields.len(),
{
    if fields.len() == 0 {
        None
    } else if fields.last().0 == key {
        Some(fields.last().1)
    } else {
        lookup(fields.drop_last(), key)
    }
}

/// An entry that is added counts for its key, and changes nothing for any other.
pub proof fn added_entry_counts(
    fields: Seq<(Seq<char>, JsonView)>,
    key: Seq<char>,
    value: JsonView,
    other: Seq<char>,
)
    ensures
        lookup(fields.push((key, value)), key) == Some(value),
        other != key ==> lookup(fields.push((key, value)), other) == lookup(fields, other),
{
    assert(fields.push((key, value)).drop_last() =~= fields);
}

impl NumberView {
    /// The number as a 64-bit unsigned integer, where it is one.
    pub open spec fn as_u64(self) -> Option<u64> {
        match self {
            NumberView::PosInt(n) => Some(n),
            NumberView::NegInt(n) => if n >= 0 {
                Some(n as u64)
            } else {
                None
            },
            NumberView::Float(_) => None,
        }
    }
}

impl JsonView {
    /// The value under `key`, where this is an object that has that key.
    pub open spec fn field(self, key: Seq<char>) -> Option<JsonView> {
        match self {
            JsonView::Object(fields) => lookup(fields, key),
            _ => None,
        }
    }

    /// The text of a string value.
    pub open spec fn as_str(self) -> Option<Seq<char>> {
        match self {
            JsonView::Str(s) => Some(s),
            _ => None,
        }
    }

    /// The value of an unsigned integer.
    pub open spec fn as_u64(self) -> Option<u64> {
        match self {
            JsonView::Number(n) => n.as_u64(),
            _ => None,
        }
    }

    /// The members of an array whose members are all unsigned integers.
    pub open spec fn as_u64_list(self) -> Option<Seq<u64>> {
        match self {
            JsonView::Array(items) => if forall|i: int|
                0 <= i < items.len() ==> (#[trigger] items[i]).as_u64() is Some {
                Some(Seq::new(items.len(), |i: int| items[i].as_u64()->0))
            } else {
                None
            },
            _ => None,
        }
    }

    /// The text under `key`, where that value is a string.
    pub open spec fn str_field(self, key: Seq<char>) -> Option<Seq<char>> {
        match self.field(key) {
            Some(v) => v.as_str(),
            None => None,
        }
    }

    /// The number under `key`, where that value is an unsigned integer.
    pub open spec fn u64_field(self, key: Seq<char>) -> Option<u64> {
        match self.field(key) {
            Some(v) => v.as_u64(),
            None => None,
        }
    }
}

/// Of the entries with a key the last one counts, and a key that no entry has gives nothing.
pub proof fn last_entry_counts(fields: Seq<(Seq<char>, JsonView)>, key: Seq<char>, i: int)
    ensures
        0 <= i < fields.len() && fields[i].0 == key && (forall|j: int|
            i < j < fields.len() ==> (#[trigger] fields[j]).0 != key) ==> lookup(fields, key)
            == Some(fields[i].1),
        (forall|j: int| 0 <= j < fields.len() ==> (#[trigger] fields[j]).0 != key) ==> lookup(
            fields,
            key,
        ) is None,
        JsonView::Object(fields).field(key) == lookup(fields, key),
    decreases fields.len(),
{
    if fields.len() > 0 {
        last_entry_counts(fields.drop_last(), key, i);
        assert(fields[fields.len() - 1] == fields.last());
    }
}

/// What is read from a value: an object gives entries and nothing else does; a string gives its
/// text; a number its value where it is an integer that is not negative.
pub proof fn values_are_read_by_their_kind(v: JsonView, key: Seq<char>, n: u64, m: i64)
    ensures
        !(v is Object) ==> v.field(key) is None,
        v is Str ==> v.as_str() == Some(v->Str_0),
        !(v is Str) ==> v.as_str() is None,
        v == JsonView::Number(NumberView::PosInt(n)) ==> v.as_u64() == Some(n),
        v == JsonView::Number(NumberView::NegInt(m)) && m < 0 ==> v.as_u64() is None,
        v == JsonView::Number(NumberView::NegInt(m)) && m >= 0 ==> v.as_u64() is Some
            && v.as_u64()->0 == m,
        v is Number && v->Number_0 is Float ==> v.as_u64() is None,
        !(v is Number) ==> v.as_u64() is None,
        v.field(key) is None ==> v.str_field(key) is None && v.u64_field(key) is None,
        v.field(key) is Some ==> v.str_field(key) == v.field(key)->0.as_str(),
        v.field(key) is Some ==> v.u64_field(key) == v.field(key)->0.as_u64(),
{
}

/// A list of numbers is read where the value is an array of them, each in its place.
pub proof fn lists_are_read_member_by_member(v: JsonView, i: int)
    ensures
        v.as_u64_list() is Some ==> v is Array,
        v.as_u64_list() matches Some(list) ==> list.len() == v->Array_0.len(),
        v.as_u64_list() matches Some(list) ==> 0 <= i < list.len() ==> v->Array_0[i].as_u64()
            == Some(list[i]),
        v is Array && (forall|j: int|
            0 <= j < v->Array_0.len() ==> (#[trigger] v->Array_0[j]).as_u64() is Some)
            ==> v.as_u64_list() is Some,
{
}

/// The view of a value shows every part of it.
pub proof fn view_shows_every_part(j: Json, i: int)
    ensures
        match j {
            Json::Null => j@ is Null,
            Json::Bool(b) => j@ == JsonView::Bool(b),
            Json::Number(JsonNumber::PosInt(n)) => j@ == JsonView::Number(NumberView::PosInt(n)),
            Json::Number(JsonNumber::NegInt(n)) => j@ == JsonView::Number(NumberView::NegInt(n)),
            Json::Number(JsonNumber::Float(t)) => j@ == JsonView::Number(NumberView::Float(t@)),
            Json::Str(s) => j@ == JsonView::Str(s@),
            Json::Array(items) => {
                &&& j@ is Array
                &&& j@->Array_0.len() == items@.len()
                &&& 0 <= i < items@.len() ==> j@->Array_0[i] == items@[i]@
            },
            Json::Object(fields) => {
                &&& j@ is Object
                &&& j@->Object_0.len() == fields@.len()
                &&& 0 <= i < fields@.len() ==> j@->Object_0[i] == (
                    fields@[i].0@,
                    fields@[i].1@,
                )
            },
        },
{
}

/// The view of an optional value.
pub open spec fn opt_json_view(v: Option<Json>) -> Option<JsonView> {
    match v {
        Some(j) => Some(j@),
        None => None,
    }
}

/// The view of an optional text.
pub open spec fn opt_text(v: Option<String>) -> Option<Seq<char>> {
    match v {
        Some(s) => Some(s@),
        None => None,
    }
}

/// A copy of an optional text.
pub fn copy_text(v: &Option<String>) -> (res: Option<String>)
    ensures
        opt_text(res) == opt_text(*v),
{
    match v {
        Some(s) => Some(s.clone()),
        None => None,
    }
}

/// A copy of an optional value.
pub fn copy_json(v: &Option<Json>) -> (res: Option<Json>)
    ensures
        opt_json_view(res) == opt_json_view(*v),
{
    match v {
        Some(j) => Some(j.clone()),
        None => None,
    }
}

impl Clone for JsonNumber {
    fn clone(&self) -> (res: JsonNumber)
        ensures
            res@ == self@,
    {
        match self {
            JsonNumber::PosInt(n) => JsonNumber::PosInt(*n),
            JsonNumber::NegInt(n) => JsonNumber::NegInt(*n),
            JsonNumber::Float(t) => JsonNumber::Float(t.clone()),
        }
    }
}

impl Clone for Json {
    fn clone(&self) -> (res: Json)
        ensures
            res@ == self@,
        decreases self,
    {
        match self {
            Json::Null => Json::Null,
            Json::Bool(b) => Json::Bool(*b),
            Json::Number(n) => Json::Number(n.clone()),
            Json::Str(s) => Json::Str(s.clone()),
            Json::Array(items) => {
                let mut out: Vec<Json> = Vec::new();
                let mut i: usize = 0;
                while i < items.len()
                    invariant
                        *self == Json::Array(*items),
                        i <= items.len(),
                        out@.len() == i,
                        forall|k: int| 0 <= k < i ==> (#[trigger] out@[k])@ == items@[k]@,
                    decreases items.len() - i,
                {
                    assert(decreases_to!(*self => self->Array_0));
                    assert(decreases_to!(*items => items@));
                    assert(decreases_to!(items@ => items@[i as int]));
                    out.push(items[i].clone());
                    i = i + 1;
                }
                let res = Json::Array(out);
                assert(res@->Array_0 =~= self@->Array_0);
                res
            },
            Json::Object(fields) => {
                let mut out: Vec<(String, Json)> = Vec::new();
                let mut i: usize = 0;
                while i < fields.len()
                    invariant
                        *self == Json::Object(*fields),
                        i <= fields.len(),
                        out@.len() == i,
                        forall|k: int|
                            0 <= k < i ==> (#[trigger] out@[k]).0@ == fields@[k].0@ && out@[k].1@
                                == fields@[k].1@,
                    decreases fields.len() - i,
                {
                    let key = fields[i].0.clone();
                    assert(decreases_to!(*self => self->Object_0));
                    assert(decreases_to!(*fields => fields@));
                    assert(decreases_to!(fields@ => fields@[i as int]));
                    assert(decreases_to!(fields@[i as int] => fields@[i as int].1));
                    let value = fields[i].1.clone();
                    out.push((key, value));
                    i = i + 1;
                }
                let res = Json::Object(out);
                assert(res@->Object_0 =~= self@->Object_0);
                res
            },
        }
    }
}

impl Json {
    /// A string value with the text `s`.
    pub fn text(s: &str) -> (res: Json)
        ensures
            res@ == JsonView::Str(s@),
    {
        Json::Str(s.to_owned())
    }

    /// The number `n`.
    pub fn number(n: u64) -> (res: Json)
        ensures
            res@ == JsonView::Number(NumberView::PosInt(n)),
    {
        Json::Number(JsonNumber::PosInt(n))
    }

    /// The value under `key`, where this is an object that has that key.
    pub fn get(&self, key: &str) -> (res: Option<&Json>)
        ensures
            match res {
                Some(v) => self@.field(key@) == Some(v@),
                None => self@.field(key@) is None,
            },
    {
        match self {
            Json::Object(fields) => {
                let ghost all = self@->Object_0;
                let mut n: usize = fields.len();
                assert(all.take(n as int) =~= all);
                while n > 0
                    invariant
                        n <= fields.len() == all.len(),
                        *self == Json::Object(*fields),
                        all == self@->Object_0,
                        lookup(all.take(n as int), key@) == lookup(all, key@),
                    decreases n,
                {
                    assert(all.take(n as int).last() == all[n - 1]);
                    assert(all.take(n as int).drop_last() =~= all.take(n - 1));
                    if same_text(fields[n - 1].0.as_str(), key) {
                        return Some(&fields[n - 1].1);
                    }
                    n = n - 1;
                }
                None
            },
            _ => None,
        }
    }

    /// The text of a string value.
    pub fn as_str(&self) -> (res: Option<&str>)
        ensures
            match res {
                Some(s) => self@.as_str() == Some(s@),
                None => self@.as_str() is None,
            },
    {
        match self {
            Json::Str(s) => Some(s.as_str()),
            _ => None,
        }
    }

    /// The value of an unsigned integer.
    pub fn as_u64(&self) -> (res: Option<u64>)
        ensures
            res == self@.as_u64(),
    {
        match self {
            Json::Number(JsonNumber::PosInt(n)) => Some(*n),
            Json::Number(JsonNumber::NegInt(n)) => if *n >= 0 {
                Some(*n as u64)
            } else {
                None
            },
            _ => None,
        }
    }

    /// Whether this is `null` or an object without entries.
    pub fn is_blank(&self) -> (res: bool)
        ensures
            res == (self@ == JsonView::Null || self@ == JsonView::Object(Seq::empty())),
    {
        let ghost view = self@;
        match self {
            Json::Null => {
                assert(view == JsonView::Null);
                true
            },
            Json::Object(fields) => {
                assert(view is Object && view->Object_0.len() == fields@.len());
                assert(fields@.len() == 0 ==> view->Object_0 =~= Seq::empty());
                fields.len() == 0
            },
            _ => {
                assert(!(view is Null) && !(view is Object));
                false
            },
        }
    }

    /// A copy of the text under `key`, where that value is a string.
    pub fn str_field(&self, key: &str) -> (res: Option<String>)
        ensures
            opt_text(res) == self@.str_field(key@),
    {
        match self.get(key) {
            Some(v) => match v.as_str() {
                Some(s) => Some(s.to_owned()),
                None => None,
            },
            None => None,
        }
    }

    /// The number under `key`, where that value is an unsigned integer.
    pub fn u64_field(&self, key: &str) -> (res: Option<u64>)
        ensures
            res == self@.u64_field(key@),
    {
        match self.get(key) {
            Some(v) => v.as_u64(),
            None => None,
        }
    }
}

/// The entries of an object under construction.
pub struct Fields {
    entries: Vec<(String, Json)>,
}

impl View for Fields {
    type V = Seq<(Seq<char>, JsonView)>;

    closed spec fn view(&self) -> Seq<(Seq<char>, JsonView)> {
        Seq::new(self.entries@.len(), |i: int| (self.entries@[i].0@, self.entries@[i].1@))
    }
}

impl Fields {
    /// No entries.
    pub fn new() -> (res: Fields)
        ensures
            res@ == Seq::<(Seq<char>, JsonView)>::empty(),
    {
        let res = Fields { entries: Vec::new() };
        assert(res@ =~= Seq::empty());
        res
    }

    /// These entries and one more.
    pub fn with(self, key: &str, value: Json) -> (res: Fields)
        ensures
            res@ == self@.push((key@, value@)),
    {
        let ghost before = self@;
        let mut entries = self.entries;
        entries.push((key.to_owned(), value));
        let res = Fields { entries };
        assert(res@ =~= before.push((key@, value@)));
        res
    }

    /// The object with these entries.
    pub fn object(self) -> (res: Json)
        ensures
            res@ == JsonView::Object(self@),
    {
        let ghost entries = self@;
        let res = Json::Object(self.entries);
        assert(res@->Object_0 =~= entries);
        res
    }
}

/// `serde_json::Value`, as an opaque type.
#[verifier::external_type_specification]
#[verifier::external_body]
pub struct ExValue(serde_json::Value);

/// The compact notation in which `serde_json` writes a value.
pub uninterp spec fn json_text(v: JsonView) -> Seq<char>;

/// What `serde_json` makes of a text: the value that it denotes, or the message that says why
/// it denotes none.
pub uninterp spec fn json_parse(text: Seq<char>) -> Result<JsonView, Seq<char>>;

/// The message with which `serde_json` refuses a value as a list of unsigned integers.
pub uninterp spec fn u64_list_error(v: JsonView) -> Seq<char>;

/// The number as `serde_json::Number` holds it: an integer through `Value::from`, any other
/// through `Number::from_f64`. A text that denotes no finite number stays a text.
#[verifier::external_body]
fn to_number(n: &JsonNumber) -> serde_json::Value {
    match n {
        JsonNumber::PosInt(u) => serde_json::Value::from(*u),
        JsonNumber::NegInt(i) => serde_json::Value::from(*i),
        JsonNumber::Float(t) => t.parse().ok().and_then(serde_json::Number::from_f64).map_or(
            serde_json::Value::String(t.clone()),
            serde_json::Value::Number,
        ),
    }
}

/// The number that a numeric `serde_json::Value` holds, through `as_u64`, `as_i64` and
/// `to_string`.
#[verifier::external_body]
fn from_number(v: &serde_json::Value) -> JsonNumber {
    match (v.as_u64(), v.as_i64()) {
        (Some(u), _) => JsonNumber::PosInt(u),
        (None, Some(i)) => JsonNumber::NegInt(i),
        (None, None) => JsonNumber::Float(v.to_string()),
    }
}

/// The `serde_json::Value` that holds the same data, variant by variant.
#[verifier::external_body]
fn to_value(j: &Json) -> serde_json::Value {
    match j {
        Json::Null => serde_json::Value::Null,
        Json::Bool(b) => serde_json::Value::Bool(*b),
        Json::Number(n) => to_number(n),
        Json::Str(s) => serde_json::Value::String(s.clone()),
        Json::Array(items) => serde_json::Value::Array(items.iter().map(to_value).collect()),
        Json::Object(fields) => serde_json::Value::Object(
            fields.iter().map(|f| (f.0.clone(), to_value(&f.1))).collect(),
        ),
    }
}

/// The `Json` that holds the same data, variant by variant.
#[verifier::external_body]
fn from_value(v: &serde_json::Value) -> Json {
    match v {
        serde_json::Value::Null => Json::Null,
        serde_json::Value::Bool(b) => Json::Bool(*b),
        serde_json::Value::Number(_) => Json::Number(from_number(v)),
        serde_json::Value::String(s) => Json::Str(s.clone()),
        serde_json::Value::Array(items) => Json::Array(items.iter().map(from_value).collect()),
        serde_json::Value::Object(fields) => Json::Object(
            fields.iter().map(|f| (f.0.clone(), from_value(f.1))).collect(),
        ),
    }
}

/// Calls `serde_json::Value::to_string`: the value in compact notation, which depends on the
/// value alone.
#[verifier::external_body]
pub(crate) fn write_json(j: &Json) -> (res: String)
    ensures
        res@ == json_text(j@),
{
    to_value(j).to_string()
}

/// Calls `serde_json::from_str`: the value that a text denotes, or the text of the error. Both
/// depend on the text alone.
#[verifier::external_body]
pub(crate) fn parse_json(text: &str) -> (res: Result<Json, String>)
    ensures
        match res {
            Ok(v) => json_parse(text@) == Ok::<JsonView, Seq<char>>(v@),
            Err(e) => json_parse(text@) == Err::<JsonView, Seq<char>>(e@),
        },
{
    serde_json::from_str::<serde_json::Value>(text).map(|v| from_value(&v)).map_err(
        |e| e.to_string(),
    )
}

/// Calls `serde_json::from_value` for a list of unsigned integers. It succeeds on the arrays
/// whose members are all unsigned integers, and otherwise tells why not, in a message that
/// depends on the value alone.
#[verifier::external_body]
pub(crate) fn u64_list(j: &Json) -> (res: Result<Vec<u64>, String>)
    ensures
        match res {
            Ok(list) => j@.as_u64_list() == Some(list@),
            Err(e) => j@.as_u64_list() is None && e@ == u64_list_error(j@),
        },
{
    serde_json::from_value::<Vec<u64>>(to_value(j)).map_err(|e| e.to_string())
}

} // verus!
