//! The fields of a JSON object from an OpenAPI reply, as the decoders read them.

use vstd::prelude::*;
use crate::text::{parse_i64, parsed_i64, str_equals, trim_char, trim_matches_char};

verus! {

/// The shape of a JSON value.
pub enum JsonKind {
    Null,
    Bool(bool),
    /// A number, with its value when it is an integer in the range of `i64`.
    Number(Option<i64>),
    Text(String),
    Array,
    Object,
}

/// A JSON value: its shape, and its text as `serde_json` writes it.
pub struct JsonField {
    pub kind: JsonKind,
    pub rendered: String,
}

/// The members of a JSON object, in order.
pub struct JsonRow {
    pub entries: Vec<(String, JsonField)>,
}

/// A plain view of a JSON value.
pub enum FieldView {
    Null,
    Bool(bool),
    Number(Option<i64>),
    Text(Seq<char>),
    Array,
    Object,
}

/// A JSON value's shape and written text.
pub struct FieldValue {
    pub kind: FieldView,
    pub rendered: Seq<char>,
}

impl View for JsonField {
    type V = FieldValue;

    open spec fn view(&self) -> FieldValue {
        FieldValue {
            kind: match self.kind {
                JsonKind::Null => FieldView::Null,
                JsonKind::Bool(b) => FieldView::Bool(b),
                JsonKind::Number(n) => FieldView::Number(n),
                JsonKind::Text(s) => FieldView::Text(s@),
                JsonKind::Array => FieldView::Array,
                JsonKind::Object => FieldView::Object,
            },
            rendered: self.rendered@,
        }
    }
}

impl View for JsonRow {
    type V = Seq<(Seq<char>, FieldValue)>;

    open spec fn view(&self) -> Seq<(Seq<char>, FieldValue)> {
        self.entries@.map_values(|e: (String, JsonField)| (e.0@, e.1@))
    }
}

/// The value of the first member named `key`.
pub open spec fn get_field(row: Seq<(Seq<char>, FieldValue)>, key: Seq<char>) -> Option<FieldValue>
    decreases row.len(),
{
    if row.len() == 0 {
        None
    } else if row[0].0 == key {
        Some(row[0].1)
    } else {
        get_field(row.drop_first(), key)
    }
}

/// The value of the first of `keys` that the object has (later keys are not
/// consulted once one is present, whatever its value).
pub open spec fn first_present(row: Seq<(Seq<char>, FieldValue)>, keys: Seq<Seq<char>>) -> Option<FieldValue>
    decreases keys.len(),
{
    if keys.len() == 0 {
        None
    } else {
        match get_field(row, keys[0]) {
            Some(v) => Some(v),
            None => first_present(row, keys.drop_first()),
        }
    }
}

/// The views of a list of keys.
pub open spec fn key_views(keys: Seq<&str>) -> Seq<Seq<char>> {
    keys.map_values(|k: &str| k@)
}

/// A value as text: a JSON string as it is, anything else as written, without surrounding quotes.
pub open spec fn field_text(v: FieldValue) -> Seq<char> {
    match v.kind {
        FieldView::Text(s) => s,
        _ => trim_char(v.rendered, '"'),
    }
}

/// A value as an integer: a JSON integer, or a JSON string that parses as one.
pub open spec fn field_i64(v: FieldValue) -> Option<i64> {
    match v.kind {
        FieldView::Number(n) => n,
        FieldView::Text(s) => parsed_i64(s),
        _ => None,
    }
}

/// The text of the first of `keys` present, or the empty text.
pub open spec fn text_of(row: Seq<(Seq<char>, FieldValue)>, keys: Seq<Seq<char>>) -> Seq<char> {
    match first_present(row, keys) {
        Some(v) => field_text(v),
        None => Seq::empty(),
    }
}

/// The integer of the first of `keys` present.
pub open spec fn i64_of(row: Seq<(Seq<char>, FieldValue)>, keys: Seq<Seq<char>>) -> Option<i64> {
    match first_present(row, keys) {
        Some(v) => field_i64(v),
        None => None,
    }
}

/// The positive count held by the first of `keys` present.
pub open spec fn count_of(row: Seq<(Seq<char>, FieldValue)>, keys: Seq<Seq<char>>) -> Option<usize> {
    match i64_of(row, keys) {
        Some(v) => if 0 < v && v <= usize::MAX { Some(v as usize) } else { None },
        None => None,
    }
}

impl JsonField {
    /// The value as text (`Value::as_str`, else its written form without quotes).
    pub fn text(&self) -> (r: String)
        ensures
            r@ == field_text(self@),
    {
        match &self.kind {
            JsonKind::Text(s) => s.clone(),
            _ => trim_matches_char(self.rendered.as_str(), '"'),
        }
    }

    /// The value as an integer (`Value::as_i64`, else a string parsed as `i64`).
    pub fn integer(&self) -> (r: Option<i64>)
        ensures
            r == field_i64(self@),
    {
        match &self.kind {
            JsonKind::Number(n) => *n,
            JsonKind::Text(s) => parse_i64(s.as_str()),
            _ => None,
        }
    }

    /// The value when it is a JSON string.
    pub fn as_text(&self) -> (r: Option<&str>)
        ensures
            match self@.kind {
                FieldView::Text(s) => r matches Some(t) && t@ == s,
                _ => r is None,
            },
    {
        match &self.kind {
            JsonKind::Text(s) => Some(s.as_str()),
            _ => None,
        }
    }
}

impl JsonRow {
    /// The value of the member named `key` (`Value::get`).
    pub fn get(&self, key: &str) -> (r: Option<&JsonField>)
        ensures
            match get_field(self@, key@) {
                Some(v) => r matches Some(f) && f@ == v,
                None => r is None,
            },
    {
        let mut i: usize = 0;
        proof {
            assert(self@.subrange(0, self@.len() as int) == self@);
        }
        while i < self.entries.len()
            invariant
                i <= self.entries@.len(),
                get_field(self@, key@) == get_field(self@.subrange(i as int, self@.len() as int), key@),
            decreases self.entries@.len() - i,
        {
            let ghost rest = self@.subrange(i as int, self@.len() as int);
            if str_equals(self.entries[i].0.as_str(), key) {
                proof {
                    assert(rest[0] == self@[i as int]);
                }
                return Some(&self.entries[i].1);
            }
            proof {
                assert(rest.drop_first() == self@.subrange(i + 1, self@.len() as int));
            }
            i = i + 1;
        }
        None
    }

    /// The value of the first of `keys` that the object has.
    pub fn first_present(&self, keys: &[&str]) -> (r: Option<&JsonField>)
        ensures
            match first_present(self@, key_views(keys@)) {
                Some(v) => r matches Some(f) && f@ == v,
                None => r is None,
            },
    {
        let mut i: usize = 0;
        proof {
            assert(key_views(keys@).subrange(0, keys@.len() as int) == key_views(keys@));
        }
        while i < keys.len()
            invariant
                i <= keys@.len(),
                first_present(self@, key_views(keys@)) == first_present(self@, key_views(keys@).subrange(i as int, keys@.len() as int)),
            decreases keys@.len() - i,
        {
            let ghost rest = key_views(keys@).subrange(i as int, keys@.len() as int);
            proof {
                assert(rest[0] == keys@[i as int]@);
                assert(rest.drop_first() == key_views(keys@).subrange(i + 1, keys@.len() as int));
            }
            match self.get(keys[i]) {
                Some(f) => { return Some(f); },
                None => {},
            }
            i = i + 1;
        }
        None
    }

    /// `value_as_string`: the text of the first of `keys` present, or the empty text.
    pub fn value_as_string(&self, keys: &[&str]) -> (r: String)
        ensures
            r@ == text_of(self@, key_views(keys@)),
    {
        match self.first_present(keys) {
            Some(f) => f.text(),
            None => String::new(),
        }
    }

    /// `value_as_i64`: the integer of the first of `keys` present.
    pub fn value_as_i64(&self, keys: &[&str]) -> (r: Option<i64>)
        ensures
            r == i64_of(self@, key_views(keys@)),
    {
        match self.first_present(keys) {
            Some(f) => f.integer(),
            None => None,
        }
    }

    /// `value_as_usize`: the positive count held by the first of `keys` present.
    pub fn value_as_usize(&self, keys: &[&str]) -> (r: Option<usize>)
        ensures
            r == count_of(self@, key_views(keys@)),
    {
        match self.value_as_i64(keys) {
            Some(v) => if 0 < v && v as u64 <= usize::MAX as u64 { Some(v as usize) } else { None },
            None => None,
        }
    }
}

} // verus!
