//! A JSON document model that the verified logic can read.

use vstd::prelude::*;

verus! {

/// A JSON number as serde_json keeps it: a non-negative integer, a negative
/// integer, or any other number (kept as its decimal text).
#[derive(Debug, PartialEq)]
pub enum JsonNumber {
    PosInt(u64),
    NegInt(i64),
    Float(String),
}

/// A JSON value.
#[derive(Debug, PartialEq)]
pub enum JsonValue {
    Null,
    Bool(bool),
    Number(JsonNumber),
    Str(String),
    Array(Vec<JsonValue>),
    Object(JsonObject),
}

/// A JSON object: an association list in which the last binding of a key wins.
#[derive(Debug, PartialEq)]
pub struct JsonObject {
    pub entries: Vec<(String, JsonValue)>,
}

/// The mathematical model of a JSON number.
pub enum NumberModel {
    PosInt(u64),
    NegInt(i64),
    Float(Seq<char>),
}

/// The mathematical model of a JSON value.
pub enum Json {
    Null,
    Bool(bool),
    Number(NumberModel),
    Str(Seq<char>),
    Array(Seq<Json>),
    Object(Seq<(Seq<char>, Json)>),
}

impl JsonNumber {
    pub open spec fn model(&self) -> NumberModel {
        match self {
            JsonNumber::PosInt(n) => NumberModel::PosInt(*n),
            JsonNumber::NegInt(n) => NumberModel::NegInt(*n),
            JsonNumber::Float(s) => NumberModel::Float(s@),
        }
    }
}

impl JsonValue {
    pub open spec fn model(&self) -> Json
        decreases self,
    {
        match self {
            JsonValue::Null => Json::Null,
            JsonValue::Bool(b) => Json::Bool(*b),
            JsonValue::Number(n) => Json::Number(n.model()),
            JsonValue::Str(s) => Json::Str(s@),
            JsonValue::Array(items) => Json::Array(
                Seq::new(items@.len(), |i: int| if 0 <= i < items@.len() { items@[i].model() } else { Json::Null }),
            ),
            JsonValue::Object(o) => Json::Object(
                Seq::new(o.entries@.len(), |i: int| if 0 <= i < o.entries@.len() { (o.entries@[i].0@, o.entries@[i].1.model()) } else { (Seq::empty(), Json::Null) }),
            ),
        }
    }
}


/// The binding of `k` in an object model: the last entry with that key.
pub open spec fn model_lookup(entries: Seq<(Seq<char>, Json)>, k: Seq<char>) -> Option<Json>
    decreases entries.len(),
{
    if entries.len() == 0 {
        None
    } else if entries.last().0 == k {
        Some(entries.last().1)
    } else {
        model_lookup(entries.drop_last(), k)
    }
}

/// A read of a key gives back the value last written under it, and a write
/// leaves the other keys as they were (`insert` followed by `get`).
pub proof fn lemma_object_read_after_write(entries: Seq<(Seq<char>, Json)>, k: Seq<char>, v: Json, other: Seq<char>)
    ensures
        model_lookup(entries.push((k, v)), k) == Some(v),
        other != k ==> model_lookup(entries.push((k, v)), other) == model_lookup(entries, other),
{
    assert(entries.push((k, v)).drop_last() =~= entries);
}

/// The unsigned integer that a model holds, if it is one (`Value::as_u64`).
pub open spec fn model_as_u64(v: Json) -> Option<u64> {
    match v {
        Json::Number(NumberModel::PosInt(n)) => Some(n),
        _ => None,
    }
}

/// `model_lookup` followed by `model_as_u64`.
pub open spec fn lookup_u64(entries: Seq<(Seq<char>, Json)>, k: Seq<char>) -> Option<u64> {
    match model_lookup(entries, k) {
        Some(v) => model_as_u64(v),
        None => None,
    }
}

/// The model of an object's entries.
pub open spec fn entries_model(entries: Seq<(String, JsonValue)>) -> Seq<(Seq<char>, Json)> {
    Seq::new(entries.len(), |i: int| (entries[i].0@, entries[i].1.model()))
}

impl JsonObject {
    pub open spec fn model(&self) -> Seq<(Seq<char>, Json)> {
        entries_model(self.entries@)
    }

    /// A deep copy of the object.
    pub fn duplicate(&self) -> (r: JsonObject)
        ensures
            r.model() == self.model(),
    {
        let mut out: Vec<(String, JsonValue)> = Vec::new();
        let mut i: usize = 0;
        while i < self.entries.len()
            invariant
                i <= self.entries@.len(),
                out@.len() == i,
                forall|k: int| 0 <= k < i ==> #[trigger] out@[k].0@ == self.entries@[k].0@
                    && out@[k].1.model() == self.entries@[k].1.model(),
            decreases self.entries.len() - i,
        {
            out.push((self.entries[i].0.clone(), self.entries[i].1.duplicate()));
            i = i + 1;
        }
        let r = JsonObject { entries: out };
        assert(r.model() =~= self.model());
        r
    }

    /// An empty object.
    pub fn new() -> (r: JsonObject)
        ensures
            r.model() == Seq::<(Seq<char>, Json)>::empty(),
    {
        let r = JsonObject { entries: Vec::new() };
        assert(r.model() =~= Seq::<(Seq<char>, Json)>::empty());
        r
    }

    /// Binds `k` to `v`; a later binding of a key hides earlier ones.
    pub fn insert(&mut self, k: String, v: JsonValue)
        ensures
            final(self).model() == old(self).model().push((k@, v.model())),
    {
        self.entries.push((k, v));
        assert(self.model() =~= old(self).model().push((k@, v.model())));
    }

    /// Appends copies of all of `other`'s bindings, in order.
    pub fn append_copy(&mut self, other: &JsonObject)
        ensures
            final(self).model() == old(self).model() + other.model(),
    {
        let mut i: usize = 0;
        while i < other.entries.len()
            invariant
                i <= other.entries@.len(),
                self.model() == old(self).model() + other.model().take(i as int),
            decreases other.entries.len() - i,
        {
            let v = other.entries[i].1.duplicate();
            self.insert(other.entries[i].0.clone(), v);
            assert(other.model().take(i + 1) =~= other.model().take(i as int).push(other.model()[i as int]));
            assert(old(self).model() + other.model().take(i + 1) =~= (old(self).model() + other.model().take(i as int)).push(other.model()[i as int]));
            i = i + 1;
        }
        assert(other.model().take(other.entries@.len() as int) =~= other.model());
    }

    /// Whether the object has no entries.
    pub fn is_empty(&self) -> (r: bool)
        ensures
            r == (self.model().len() == 0),
    {
        self.entries.len() == 0
    }

    /// The value bound to `k` (`Map::get`).
    pub fn get(&self, k: &str) -> (r: Option<&JsonValue>)
        ensures
            match model_lookup(self.model(), k@) {
                Some(m) => r matches Some(v) && v.model() == m,
                None => r is None,
            },
    {
        let mut i = self.entries.len();
        assert(self.model().take(i as int) =~= self.model());
        while i > 0
            invariant
                i <= self.entries.len(),
                model_lookup(self.model(), k@) == model_lookup(self.model().take(i as int), k@),
            decreases i,
        {
            let ghost m = self.model().take(i as int);
            assert(m.drop_last() =~= self.model().take(i - 1));
            if crate::text::str_eq(self.entries[i - 1].0.as_str(), k) {
                return Some(&self.entries[i - 1].1);
            }
            i = i - 1;
        }
        proof {
            assert(self.model().take(0).len() == 0);
        }
        None
    }

    /// Whether `k` is bound.
    pub fn contains_key(&self, k: &str) -> (r: bool)
        ensures
            r == model_lookup(self.model(), k@).is_some(),
    {
        self.get(k).is_some()
    }

    /// Removes every binding of `k` and returns the value that was bound
    /// (`Map::remove`).
    pub fn remove(&mut self, k: &str) -> (r: Option<JsonValue>)
        ensures
            match model_lookup(old(self).model(), k@) {
                Some(m) => r matches Some(v) && v.model() == m,
                None => r is None,
            },
            model_lookup(final(self).model(), k@) is None,
            forall|other: Seq<char>|
                other != k@ ==> model_lookup(final(self).model(), other) == model_lookup(
                    old(self).model(),
                    other,
                ),
    {
        let ghost old_model = self.model();
        let mut rest: Vec<(String, JsonValue)> = Vec::new();
        std::mem::swap(&mut rest, &mut self.entries);
        let ghost total = rest@;
        assert(entries_model(total) == old_model);
        let mut found: Option<JsonValue> = None;
        let mut i: usize = 0;
        let n = rest.len();
        assert(entries_model(total).take(0) =~= Seq::<(Seq<char>, Json)>::empty());
        while rest.len() > 0
            invariant
                i + rest@.len() == total.len(),
                total.len() <= usize::MAX,
                rest@ == total.subrange(i as int, total.len() as int),
                old_model == entries_model(total),
                match model_lookup(entries_model(total).take(i as int), k@) {
                    Some(m) => found matches Some(v) && v.model() == m,
                    None => found is None,
                },
                model_lookup(entries_model(self.entries@), k@) is None,
                forall|other: Seq<char>|
                    other != k@ ==> model_lookup(entries_model(self.entries@), other)
                        == model_lookup(entries_model(total).take(i as int), other),
            decreases rest.len(),
        {
            let entry = rest.remove(0);
            let ghost before = entries_model(self.entries@);
            assert(entry == total[i as int]);
            assert(entries_model(total).take(i + 1).drop_last() =~= entries_model(total).take(
                i as int,
            ));
            assert(entries_model(total).take(i + 1).last() == (entry.0@, entry.1.model()));
            let ghost pre = entries_model(total).take(i + 1);
            if crate::text::str_eq(entry.0.as_str(), k) {
                found = Some(entry.1);
                assert forall|other: Seq<char>| other != k@ implies model_lookup(
                    entries_model(self.entries@),
                    other,
                ) == model_lookup(pre, other) by {
                    assert(pre.len() > 0);
                }
            } else {
                self.entries.push(entry);
                let ghost after = entries_model(self.entries@);
                assert(after.drop_last() =~= before);
                assert(after.last() == (entry.0@, entry.1.model()));
                assert(after.len() > 0);
                assert forall|other: Seq<char>| other != k@ implies model_lookup(after, other)
                    == model_lookup(pre, other) by {
                    assert(pre.len() > 0);
                    assert(pre.drop_last() == entries_model(total).take(i as int));
                    assert(pre.last() == after.last());
                    assert(model_lookup(before, other) == model_lookup(
                        entries_model(total).take(i as int),
                        other,
                    ));
                }
            }
            i = i + 1;
            assert(rest@ =~= total.subrange(i as int, total.len() as int));
        }
        assert(entries_model(total).take(total.len() as int) =~= entries_model(total));
        found
    }
}

impl JsonNumber {
    /// A copy of the number.
    pub fn duplicate(&self) -> (r: JsonNumber)
        ensures
            r.model() == self.model(),
    {
        match self {
            JsonNumber::PosInt(n) => JsonNumber::PosInt(*n),
            JsonNumber::NegInt(n) => JsonNumber::NegInt(*n),
            JsonNumber::Float(t) => JsonNumber::Float(t.clone()),
        }
    }
}

impl JsonValue {
    /// A deep copy of the value.
    #[verifier::loop_isolation(false)]
    pub fn duplicate(&self) -> (r: JsonValue)
        ensures
            r.model() == self.model(),
        decreases self,
    {
        match self {
            JsonValue::Null => JsonValue::Null,
            JsonValue::Bool(b) => JsonValue::Bool(*b),
            JsonValue::Number(n) => JsonValue::Number(n.duplicate()),
            JsonValue::Str(s) => JsonValue::Str(s.clone()),
            JsonValue::Array(items) => {
                let mut out: Vec<JsonValue> = Vec::new();
                let mut i: usize = 0;
                while i < items.len()
                    invariant
                        i <= items@.len(),
                        out@.len() == i,
                        forall|k: int| 0 <= k < i ==> #[trigger] out@[k].model() == items@[k].model(),
                    decreases items.len() - i,
                {
                    assert(decreases_to!(*items => items@));
                    assert(decreases_to!(items@ => items@[i as int]));
                    out.push(items[i].duplicate());
                    i = i + 1;
                }
                let ghost out_view = out@;
                let r = JsonValue::Array(out);
                assert forall|k: int| 0 <= k < out_view.len() implies r.model()->Array_0[k]
                    == self.model()->Array_0[k] by {
                    assert(out_view[k].model() == items@[k].model());
                }
                assert(r.model()->Array_0 =~= self.model()->Array_0);
                r
            },
            JsonValue::Object(o) => {
                let mut out: Vec<(String, JsonValue)> = Vec::new();
                let mut i: usize = 0;
                while i < o.entries.len()
                    invariant
                        i <= o.entries@.len(),
                        out@.len() == i,
                        forall|k: int| 0 <= k < i ==> #[trigger] out@[k].0@ == o.entries@[k].0@
                            && out@[k].1.model() == o.entries@[k].1.model(),
                    decreases o.entries.len() - i,
                {
                    assert(decreases_to!(o.entries => o.entries@));
                    assert(decreases_to!(o.entries@ => o.entries@[i as int]));
                    assert(decreases_to!(o.entries@[i as int] => o.entries@[i as int].1));
                    out.push((o.entries[i].0.clone(), o.entries[i].1.duplicate()));
                    i = i + 1;
                }
                let r = JsonValue::Object(JsonObject { entries: out });
                assert(r.model()->Object_0 =~= self.model()->Object_0);
                r
            },
        }
    }

    /// The unsigned integer held, if any (`Value::as_u64`).
    pub fn as_u64(&self) -> (r: Option<u64>)
        ensures
            r == model_as_u64(self.model()),
    {
        match self {
            JsonValue::Number(JsonNumber::PosInt(n)) => Some(*n),
            _ => None,
        }
    }

    /// The object held, if any.
    pub fn as_object(&self) -> (r: Option<&JsonObject>)
        ensures
            match self.model() {
                Json::Object(entries) => r matches Some(o) && o.model() == entries,
                _ => r is None,
            },
    {
        match self {
            JsonValue::Object(o) => {
                assert(o.model() =~= self.model()->Object_0);
                Some(o)
            },
            _ => None,
        }
    }
}

/// A string value.
pub fn json_string(s: String) -> (r: JsonValue)
    ensures
        r.model() == Json::Str(s@),
{
    JsonValue::Str(s)
}

/// A string value holding a copy of `s`.
pub fn json_str(s: &str) -> (r: JsonValue)
    ensures
        r.model() == Json::Str(s@),
{
    JsonValue::Str(s.to_string())
}

/// An unsigned integer value.
pub fn json_u64(n: u64) -> (r: JsonValue)
    ensures
        r.model() == Json::Number(NumberModel::PosInt(n)),
{
    JsonValue::Number(JsonNumber::PosInt(n))
}

/// An object value.
pub fn json_object(o: JsonObject) -> (r: JsonValue)
    ensures
        r.model() == Json::Object(o.model()),
{
    let r = JsonValue::Object(o);
    assert(r.model()->Object_0 =~= o.model());
    r
}

/// An array value.
pub fn json_array(items: Vec<JsonValue>) -> (r: JsonValue)
    ensures
        r.model() == Json::Array(items@.map_values(|v: JsonValue| v.model())),
{
    let ghost m = items@.map_values(|v: JsonValue| v.model());
    let r = JsonValue::Array(items);
    assert(r.model()->Array_0 =~= m);
    r
}


// ---------------------------------------------------------------------------
// JSON text, through serde_json.
// ---------------------------------------------------------------------------

#[verifier::external_type_specification]
#[verifier::external_body]
pub struct ExSerdeJsonValue(serde_json::Value);

#[verifier::external_type_specification]
#[verifier::external_body]
pub struct ExSerdeJsonNumber(serde_json::Number);

/// What `serde_json::from_str::<serde_json::Value>` makes of `text`, taken by
/// model; `None` where it reports an error.
pub uninterp spec fn json_parse(text: Seq<char>) -> Option<Json>;

/// The text that `serde_json` renders for the value with model `v`
/// (`Value::to_string`).
pub uninterp spec fn json_render(v: Json) -> Seq<char>;

/// Converts a `serde_json::Number` into the library's number, by its kind.
#[verifier::external_body]
fn number_from_serde(n: serde_json::Number) -> JsonNumber {
    match (n.as_u64(), n.as_i64()) {
        (Some(u), _) => JsonNumber::PosInt(u),
        (None, Some(i)) => JsonNumber::NegInt(i),
        _ => JsonNumber::Float(n.to_string()),
    }
}

/// Converts a `serde_json::Value` into the library's value, one variant for
/// one variant.
#[verifier::external_body]
fn value_from_serde(v: serde_json::Value) -> JsonValue {
    match v {
        serde_json::Value::Null => JsonValue::Null,
        serde_json::Value::Bool(b) => JsonValue::Bool(b),
        serde_json::Value::Number(n) => JsonValue::Number(number_from_serde(n)),
        serde_json::Value::String(s) => JsonValue::Str(s),
        serde_json::Value::Array(a) => JsonValue::Array(a.into_iter().map(value_from_serde).collect()),
        serde_json::Value::Object(o) => JsonValue::Object(JsonObject {
            entries: o.into_iter().map(|(k, v)| (k, value_from_serde(v))).collect(),
        }),
    }
}

/// Converts the library's number into a `serde_json::Value`, by its kind.
#[verifier::external_body]
fn number_to_serde(n: &JsonNumber) -> serde_json::Value {
    match n {
        JsonNumber::PosInt(u) => serde_json::Value::from(*u),
        JsonNumber::NegInt(i) => serde_json::Value::from(*i),
        JsonNumber::Float(t) => t.parse::<serde_json::Number>().map(serde_json::Value::Number).unwrap_or(serde_json::Value::Null),
    }
}

/// Converts the library's value into a `serde_json::Value`, one variant for
/// one variant (object entries are inserted in order, so a later binding wins).
#[verifier::external_body]
fn value_to_serde(v: &JsonValue) -> serde_json::Value {
    match v {
        JsonValue::Null => serde_json::Value::Null,
        JsonValue::Bool(b) => serde_json::Value::Bool(*b),
        JsonValue::Number(n) => number_to_serde(n),
        JsonValue::Str(s) => serde_json::Value::String(s.clone()),
        JsonValue::Array(a) => serde_json::Value::Array(a.iter().map(value_to_serde).collect()),
        JsonValue::Object(o) => serde_json::Value::Object(o.entries.iter().map(|(k, v)| (k.clone(), value_to_serde(v))).collect()),
    }
}

/// Parses JSON text with `serde_json::from_str::<serde_json::Value>`.
/// The contract names the result (`json_parse`) and claims nothing more.
#[verifier::external_body]
pub(crate) fn parse_json_text(text: &str) -> (r: Option<JsonValue>)
    ensures
        match r {
            Some(v) => json_parse(text@) == Some(v.model()),
            None => json_parse(text@) is None,
        },
{
    serde_json::from_str::<serde_json::Value>(text).ok().map(value_from_serde)
}

/// Renders a value as compact JSON text with `serde_json::Value::to_string`.
/// The contract names the result (`json_render`) and claims nothing more.
#[verifier::external_body]
pub(crate) fn render_json_text(v: &JsonValue) -> (r: String)
    ensures
        r@ == json_render(v.model()),
{
    value_to_serde(v).to_string()
}

impl Default for JsonObject {
    /// An empty object.
    fn default() -> (r: JsonObject)
        ensures
            r.model().len() == 0,
    {
        JsonObject::new()
    }
}

} // verus!
