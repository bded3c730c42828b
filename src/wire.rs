//! The JSON payloads that the client sends: which fields go out, under which
//! keys, and in which order, before serde_json encodes them.

use crate::json::{
    array_value, bool_value, empty_object, json_array, json_bool, json_data, json_object,
    json_string, json_string_map, map_value, no_entries, object_entries, object_insert, object_keys,
    object_value, string_map_value, string_value, JsonObject,
};
use std::collections::HashMap;
use vstd::prelude::*;
use vstd::seq_lib::*;

verus! {

/// A field's value as it goes on the wire.
#[derive(Debug, Clone, PartialEq)]
pub enum WireValue {
    /// A JSON string.
    Text(String),
    /// A JSON boolean.
    Flag(bool),
    /// A JSON array of strings.
    Texts(Vec<String>),
    /// A JSON object of string fields, in order.
    Record(Vec<(String, String)>),
    /// A JSON array of such objects.
    Records(Vec<Vec<(String, String)>>),
    /// A JSON object of arbitrary values supplied by the caller.
    Data(HashMap<String, serde_json::Value>),
    /// A JSON object of string values supplied by the caller.
    Headers(HashMap<String, String>),
}

/// The mathematical form of a [`WireValue`].
pub enum WireView {
    Text(Seq<char>),
    Flag(bool),
    Texts(Seq<Seq<char>>),
    Record(Seq<(Seq<char>, Seq<char>)>),
    Records(Seq<Seq<(Seq<char>, Seq<char>)>>),
    Data(Map<String, serde_json::Value>),
    Headers(Map<String, String>),
}

/// The texts of a list of strings.
pub open spec fn texts_view(v: Seq<String>) -> Seq<Seq<char>> {
    v.map_values(|s: String| s@)
}

/// The texts of a record's fields.
pub open spec fn record_view(r: Seq<(String, String)>) -> Seq<(Seq<char>, Seq<char>)> {
    r.map_values(|e: (String, String)| (e.0@, e.1@))
}

/// The texts of a list of records.
pub open spec fn records_view(rs: Seq<Vec<(String, String)>>) -> Seq<
    Seq<(Seq<char>, Seq<char>)>,
> {
    rs.map_values(|r: Vec<(String, String)>| record_view(r@))
}

impl View for WireValue {
    type V = WireView;

    open spec fn view(&self) -> WireView {
        match self {
            WireValue::Text(s) => WireView::Text(s@),
            WireValue::Flag(b) => WireView::Flag(*b),
            WireValue::Texts(v) => WireView::Texts(texts_view(v@)),
            WireValue::Record(r) => WireView::Record(record_view(r@)),
            WireValue::Records(rs) => WireView::Records(records_view(rs@)),
            WireValue::Data(d) => WireView::Data(d@),
            WireValue::Headers(h) => WireView::Headers(h@),
        }
    }
}

/// One entry for `key` when `v` is present, none otherwise.
pub open spec fn entry_if<T>(key: Seq<char>, v: Option<T>) -> Seq<(Seq<char>, T)> {
    match v {
        Some(x) => seq![(key, x)],
        None => seq![],
    }
}

/// An optional string field, as a record entry or a payload entry.
pub open spec fn text_entry_if(key: Seq<char>, v: Option<String>) -> Seq<(Seq<char>, Seq<char>)> {
    match v {
        Some(s) => seq![(key, s@)],
        None => seq![],
    }
}

/// The wire value of an optional string.
pub open spec fn opt_text(v: Option<String>) -> Option<WireView> {
    match v {
        Some(s) => Some(WireView::Text(s@)),
        None => None,
    }
}

/// The wire value of an optional string list.
pub open spec fn opt_texts(v: Option<Vec<String>>) -> Option<WireView> {
    match v {
        Some(t) => Some(WireView::Texts(texts_view(t@))),
        None => None,
    }
}

/// The wire value of optional free-form data.
pub open spec fn opt_data(v: Option<HashMap<String, serde_json::Value>>) -> Option<WireView> {
    match v {
        Some(d) => Some(WireView::Data(d@)),
        None => None,
    }
}

/// The fields of a JSON object that the client sends, in order.
#[derive(Debug, Clone, PartialEq)]
pub struct Payload {
    pub fields: Vec<(String, WireValue)>,
}

impl View for Payload {
    type V = Seq<(Seq<char>, WireView)>;

    open spec fn view(&self) -> Seq<(Seq<char>, WireView)> {
        self.fields@.map_values(|f: (String, WireValue)| (f.0@, f.1@))
    }
}

/// The keys of a list of fields, in order.
pub open spec fn keys_of(p: Seq<(Seq<char>, WireView)>) -> Seq<Seq<char>> {
    p.map_values(|f: (Seq<char>, WireView)| f.0)
}

/// The entries of the JSON object of a record; a later field of the same key
/// replaces an earlier one.
pub open spec fn record_entries(r: Seq<(Seq<char>, Seq<char>)>) -> Map<Seq<char>, serde_json::Value>
    decreases r.len(),
{
    if r.len() == 0 {
        no_entries()
    } else {
        record_entries(r.drop_last()).insert(r.last().0, json_string(r.last().1))
    }
}

/// The JSON value of a record.
pub open spec fn record_json(r: Seq<(Seq<char>, Seq<char>)>) -> serde_json::Value {
    json_object(record_entries(r))
}

/// The JSON value of a field.
pub open spec fn wire_json(v: WireView) -> serde_json::Value {
    match v {
        WireView::Text(s) => json_string(s),
        WireView::Flag(b) => json_bool(b),
        WireView::Texts(ts) => json_array(ts.map_values(|t: Seq<char>| json_string(t))),
        WireView::Record(r) => record_json(r),
        WireView::Records(rs) => json_array(
            rs.map_values(|r: Seq<(Seq<char>, Seq<char>)>| record_json(r)),
        ),
        WireView::Data(d) => json_data(d),
        WireView::Headers(h) => json_string_map(h),
    }
}

/// The entries of the JSON object of a payload; a later field of the same
/// key replaces an earlier one.
pub open spec fn payload_entries(p: Seq<(Seq<char>, WireView)>) -> Map<Seq<char>, serde_json::Value>
    decreases p.len(),
{
    if p.len() == 0 {
        no_entries()
    } else {
        payload_entries(p.drop_last()).insert(p.last().0, wire_json(p.last().1))
    }
}

fn record_to_json(r: &Vec<(String, String)>) -> (j: serde_json::Value)
    ensures
        j == record_json(record_view(r@)),
{
    let ghost rv = record_view(r@);
    let mut m = empty_object();
    for i in 0..r.len()
        invariant
            rv == record_view(r@),
            object_entries(m) == record_entries(rv.take(i as int)),
    {
        let (k, v) = &r[i];
        object_insert(&mut m, k.clone(), string_value(v.clone()));
        proof {
            assert(rv.take(i + 1).drop_last() =~= rv.take(i as int));
            assert(rv.take(i + 1).last() == rv[i as int]);
        }
    }
    assert(rv.take(r@.len() as int) =~= rv);
    object_value(m)
}

impl WireValue {
    /// The serde_json value of this field.
    pub fn to_json(&self) -> (r: serde_json::Value)
        ensures
            r == wire_json(self@),
    {
        match self {
            WireValue::Text(s) => string_value(s.clone()),
            WireValue::Flag(b) => bool_value(*b),
            WireValue::Texts(v) => {
                let ghost tv = texts_view(v@);
                let mut items: Vec<serde_json::Value> = Vec::new();
                for i in 0..v.len()
                    invariant
                        tv == texts_view(v@),
                        items@ == tv.take(i as int).map_values(|t: Seq<char>| json_string(t)),
                {
                    items.push(string_value(v[i].clone()));
                    assert(items@ =~= tv.take(i + 1).map_values(|t: Seq<char>| json_string(t)));
                }
                assert(tv.take(v@.len() as int) =~= tv);
                array_value(items)
            },
            WireValue::Record(r) => record_to_json(r),
            WireValue::Records(rs) => {
                let ghost rv = records_view(rs@);
                let mut items: Vec<serde_json::Value> = Vec::new();
                for i in 0..rs.len()
                    invariant
                        rv == records_view(rs@),
                        items@ == rv.take(i as int).map_values(
                            |r: Seq<(Seq<char>, Seq<char>)>| record_json(r),
                        ),
                {
                    items.push(record_to_json(&rs[i]));
                    assert(items@ =~= rv.take(i + 1).map_values(
                        |r: Seq<(Seq<char>, Seq<char>)>| record_json(r),
                    ));
                }
                assert(rv.take(rs@.len() as int) =~= rv);
                array_value(items)
            },
            WireValue::Data(d) => map_value(d),
            WireValue::Headers(h) => string_map_value(h),
        }
    }
}

impl Payload {
    /// A payload without fields.
    pub fn new() -> (r: Payload)
        ensures
            r@ == Seq::<(Seq<char>, WireView)>::empty(),
    {
        let r = Payload { fields: Vec::new() };
        assert(r@ =~= Seq::<(Seq<char>, WireView)>::empty());
        r
    }

    /// Appends the field `key`.
    pub fn push(&mut self, key: &str, value: WireValue)
        ensures
            final(self)@ == old(self)@.push((key@, value@)),
    {
        let k = key.to_owned();
        self.fields.push((k, value));
        assert(self@ =~= old(self)@.push((key@, value@)));
    }

    /// Appends the string field `key` when `value` is present.
    pub fn push_text_if(&mut self, key: &str, value: &Option<String>)
        ensures
            final(self)@ == old(self)@ + entry_if(key@, opt_text(*value)),
    {
        match value {
            Some(s) => self.push(key, WireValue::Text(s.clone())),
            None => {},
        }
        assert(self@ =~= old(self)@ + entry_if(key@, opt_text(*value)));
    }

    /// Appends the string-list field `key` when `value` is present.
    pub fn push_texts_if(&mut self, key: &str, value: &Option<Vec<String>>)
        ensures
            final(self)@ == old(self)@ + entry_if(key@, opt_texts(*value)),
    {
        match value {
            Some(t) => {
                let c = t.clone();
                assert(c@ =~= t@);
                self.push(key, WireValue::Texts(c));
            },
            None => {},
        }
        assert(self@ =~= old(self)@ + entry_if(key@, opt_texts(*value)));
    }

    /// Appends the free-form data field `key` when `value` is present.
    pub fn push_data_if(&mut self, key: &str, value: &Option<HashMap<String, serde_json::Value>>)
        ensures
            final(self)@ == old(self)@ + entry_if(key@, opt_data(*value)),
    {
        match value {
            Some(d) => self.push(key, WireValue::Data(d.clone())),
            None => {},
        }
        assert(self@ =~= old(self)@ + entry_if(key@, opt_data(*value)));
    }

    /// The JSON object holding these fields.
    pub fn to_json(&self) -> (r: JsonObject)
        ensures
            object_keys(r) == keys_of(self@).to_set(),
            object_entries(r) == payload_entries(self@),
    {
        let mut m = empty_object();
        let n = self.fields.len();
        for i in 0..n
            invariant
                n == self.fields@.len(),
                object_keys(m) == keys_of(self@.take(i as int)).to_set(),
                object_entries(m) == payload_entries(self@.take(i as int)),
        {
            let (k, v) = &self.fields[i];
            object_insert(&mut m, k.clone(), v.to_json());
            proof {
                assert(keys_of(self@.take(i + 1)) =~= keys_of(self@.take(i as int)).push(k@));
                keys_of(self@.take(i as int)).lemma_push_to_set_commute(k@);
                assert(self@.take(i + 1).drop_last() =~= self@.take(i as int));
                assert(self@.take(i + 1).last() == self@[i as int]);
            }
        }
        assert(self@.take(n as int) =~= self@);
        m
    }
}

/// The object of two joined field lists holds the entries of the first,
/// replaced and extended by those of the second.
pub proof fn lemma_payload_entries_concat(
    p: Seq<(Seq<char>, WireView)>,
    q: Seq<(Seq<char>, WireView)>,
)
    ensures
        payload_entries(p + q) == payload_entries(p).union_prefer_right(payload_entries(q)),
    decreases q.len(),
{
    if q.len() == 0 {
        assert(p + q =~= p);
        assert(payload_entries(p).union_prefer_right(payload_entries(q)) =~= payload_entries(p));
    } else {
        lemma_payload_entries_concat(p, q.drop_last());
        assert((p + q).drop_last() =~= p + q.drop_last());
        assert((p + q).last() == q.last());
        assert(payload_entries(p + q) =~= payload_entries(p).union_prefer_right(
            payload_entries(q),
        ));
    }
}

} // verus!
