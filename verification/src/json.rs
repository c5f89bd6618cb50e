//! JSON values as plain data, and how the bot looks into them.
use vstd::prelude::*;

use crate::text::same;

verus! {

/// A JSON value. Of a number it holds the two integer readings, each where the number has it.
#[derive(Debug, PartialEq)]
pub enum Json {
    Null,
    Bool(bool),
    Number { unsigned: Option<u64>, signed: Option<i64> },
    Text(String),
    Array(Vec<Json>),
    Object(Vec<(String, Json)>),
}

/// What a JSON value says.
pub ghost enum JsonV {
    Null,
    Bool(bool),
    Number { unsigned: Option<u64>, signed: Option<i64> },
    Text(Seq<char>),
    Array(Seq<JsonV>),
    Object(Seq<(Seq<char>, JsonV)>),
}

/// The value under a key: that of the first entry with the key, null where there is none.
pub open spec fn lookup(entries: Seq<(Seq<char>, JsonV)>, key: Seq<char>) -> JsonV
    decreases entries.len(),
{
    if entries.len() == 0 {
        JsonV::Null
    } else if entries[0].0 == key {
        entries[0].1
    } else {
        lookup(entries.drop_first(), key)
    }
}

impl JsonV {
    /// The member under a key; null where the value is no object or has no such member.
    pub open spec fn at(self, key: Seq<char>) -> JsonV {
        match self {
            JsonV::Object(entries) => lookup(entries, key),
            _ => JsonV::Null,
        }
    }

    /// The text of a string value.
    pub open spec fn text(self) -> Option<Seq<char>> {
        match self {
            JsonV::Text(s) => Some(s),
            _ => None,
        }
    }

    /// The text of a string value, or the given one.
    pub open spec fn text_or(self, otherwise: Seq<char>) -> Seq<char> {
        match self {
            JsonV::Text(s) => s,
            _ => otherwise,
        }
    }

    /// The value is `true`.
    pub open spec fn is_true(self) -> bool {
        self == JsonV::Bool(true)
    }

    /// The number as one without a sign.
    pub open spec fn unsigned(self) -> Option<u64> {
        match self {
            JsonV::Number { unsigned, .. } => unsigned,
            _ => None,
        }
    }

    /// The number as one with a sign.
    pub open spec fn signed(self) -> Option<i64> {
        match self {
            JsonV::Number { signed, .. } => signed,
            _ => None,
        }
    }

    /// The items of an array.
    pub open spec fn items(self) -> Option<Seq<JsonV>> {
        match self {
            JsonV::Array(items) => Some(items),
            _ => None,
        }
    }

    /// The entries of an object.
    pub open spec fn entries(self) -> Option<Seq<(Seq<char>, JsonV)>> {
        match self {
            JsonV::Object(entries) => Some(entries),
            _ => None,
        }
    }
}

/// What a value says, member by member.
pub open spec fn meaning(j: Json) -> JsonV
    decreases j,
{
    match j {
        Json::Null => JsonV::Null,
        Json::Bool(b) => JsonV::Bool(b),
        Json::Number { unsigned, signed } => JsonV::Number { unsigned, signed },
        Json::Text(s) => JsonV::Text(s@),
        Json::Array(items) => JsonV::Array(
            Seq::new(
                items@.len(),
                |i: int|
                    if 0 <= i < items@.len() {
                        meaning(items@[i])
                    } else {
                        JsonV::Null
                    },
            ),
        ),
        Json::Object(entries) => JsonV::Object(
            Seq::new(
                entries@.len(),
                |i: int|
                    if 0 <= i < entries@.len() {
                        (entries@[i].0@, meaning(entries@[i].1))
                    } else {
                        (Seq::empty(), JsonV::Null)
                    },
            ),
        ),
    }
}

impl View for Json {
    type V = JsonV;

    open spec fn view(&self) -> JsonV {
        meaning(*self)
    }
}

/// What each value of a list says.
pub open spec fn values(items: Seq<Json>) -> Seq<JsonV> {
    items.map_values(|j: Json| j@)
}

/// What each entry of an object says.
pub open spec fn members(entries: Seq<(String, Json)>) -> Seq<(Seq<char>, JsonV)> {
    entries.map_values(|e: (String, Json)| (e.0@, e.1@))
}

impl Json {
    /// An object of the given entries.
    pub fn object(entries: Vec<(String, Json)>) -> (r: Json)
        ensures
            r@ == JsonV::Object(members(entries@)),
    {
        let r = Json::Object(entries);
        assert(r@->Object_0 =~= members(entries@));
        r
    }

    /// An array of the given items.
    pub fn array(items: Vec<Json>) -> (r: Json)
        ensures
            r@ == JsonV::Array(values(items@)),
    {
        let r = Json::Array(items);
        assert(r@->Array_0 =~= values(items@));
        r
    }

    /// The member under a key; null where the value is no object or has no such member.
    pub fn at(&self, key: &str) -> (r: &Json)
        ensures
            r@ == self@.at(key@),
    {
        match self {
            Json::Object(entries) => {
                let ghost all = self@->Object_0;
                let mut i: usize = 0;
                assert(all.skip(0) =~= all);
                while i < entries.len()
                    invariant
                        i <= entries@.len() == all.len(),
                        self@ == JsonV::Object(all),
                        forall|k: int|
                            0 <= k < all.len() ==> #[trigger] all[k] == (
                                entries@[k].0@,
                                entries@[k].1@,
                            ),
                        lookup(all, key@) == lookup(all.skip(i as int), key@),
                    decreases entries@.len() - i,
                {
                    assert(all.skip(i as int)[0] == all[i as int]);
                    if same(entries[i].0.as_str(), key) {
                        return &entries[i].1;
                    }
                    assert(all.skip(i as int).drop_first() =~= all.skip(i + 1));
                    i = i + 1;
                }
                &Json::Null
            },
            _ => &Json::Null,
        }
    }

    /// The text of a string value.
    pub fn as_str(&self) -> (r: Option<&str>)
        ensures
            match r {
                Some(s) => self@.text() == Some(s@),
                None => self@.text() is None,
            },
    {
        match self {
            Json::Text(s) => Some(s.as_str()),
            _ => None,
        }
    }

    /// A copy of the text of a string value.
    pub fn to_text(&self) -> (r: Option<String>)
        ensures
            match r {
                Some(s) => self@.text() == Some(s@),
                None => self@.text() is None,
            },
    {
        match self {
            Json::Text(s) => Some(s.clone()),
            _ => None,
        }
    }

    /// A copy of the text of a string value, or of the given one.
    pub fn text_or(&self, otherwise: &str) -> (r: String)
        ensures
            r@ == self@.text_or(otherwise@),
    {
        match self {
            Json::Text(s) => s.clone(),
            _ => otherwise.to_owned(),
        }
    }

    /// The value is the given text.
    pub fn is_text(&self, text: &str) -> (r: bool)
        ensures
            r == (self@ == JsonV::Text(text@)),
    {
        match self {
            Json::Text(s) => same(s.as_str(), text),
            _ => false,
        }
    }

    /// The value is `true`.
    pub fn is_true(&self) -> (r: bool)
        ensures
            r == self@.is_true(),
    {
        match self {
            Json::Bool(b) => *b,
            _ => false,
        }
    }

    /// The value is null.
    pub fn is_null(&self) -> (r: bool)
        ensures
            r == (self@ == JsonV::Null),
    {
        match self {
            Json::Null => true,
            _ => false,
        }
    }

    /// The number as one without a sign.
    pub fn as_u64(&self) -> (r: Option<u64>)
        ensures
            r == self@.unsigned(),
    {
        match self {
            Json::Number { unsigned, .. } => *unsigned,
            _ => None,
        }
    }

    /// The number as one with a sign.
    pub fn as_i64(&self) -> (r: Option<i64>)
        ensures
            r == self@.signed(),
    {
        match self {
            Json::Number { signed, .. } => *signed,
            _ => None,
        }
    }

    /// The items of an array.
    pub fn as_array(&self) -> (r: Option<&Vec<Json>>)
        ensures
            match r {
                Some(items) => self@.items() == Some(values(items@)),
                None => self@.items() is None,
            },
    {
        match self {
            Json::Array(items) => {
                assert(self@->Array_0 =~= values(items@));
                Some(items)
            },
            _ => None,
        }
    }

    /// The entries of an object.
    pub fn as_object(&self) -> (r: Option<&Vec<(String, Json)>>)
        ensures
            match r {
                Some(entries) => self@.entries() == Some(members(entries@)),
                None => self@.entries() is None,
            },
    {
        match self {
            Json::Object(entries) => {
                assert(self@->Object_0 =~= members(entries@));
                Some(entries)
            },
            _ => None,
        }
    }
}

// ---- Parsing -------------------------------------------------------------------------------

/// A JSON value as `serde_json` holds it.
#[verifier::external_type_specification]
#[verifier::external_body]
pub struct ExValue(serde_json::Value);

/// What a value of `serde_json` holds.
pub uninterp spec fn json_content(v: serde_json::Value) -> JsonV;

/// What `serde_json` makes of a document: the value it spells, or the parser's complaint.
pub uninterp spec fn json_document(bytes: Seq<u8>) -> Result<JsonV, Seq<char>>;

/// `serde_json::from_slice` reads a whole document into a value. Both the value and the text of
/// the error depend on the bytes alone; which documents are refused is left to the name.
#[verifier::external_body]
fn decode(bytes: &[u8]) -> (r: Result<serde_json::Value, String>)
    ensures
        match r {
            Ok(v) => json_document(bytes@) == Ok::<JsonV, Seq<char>>(json_content(v)),
            Err(e) => json_document(bytes@) == Err::<JsonV, Seq<char>>(e@),
        },
{
    serde_json::from_slice::<serde_json::Value>(bytes).map_err(|e| e.to_string())
}

/// Takes a `serde_json::Value` apart, variant by variant. `Number::as_u64` and
/// `Number::as_i64` give the two readings of a number.
#[verifier::external_body]
fn unfold(v: serde_json::Value) -> (r: Json)
    ensures
        r@ == json_content(v),
{
    match v {
        serde_json::Value::Null => Json::Null,
        serde_json::Value::Bool(b) => Json::Bool(b),
        serde_json::Value::Number(n) => Json::Number { unsigned: n.as_u64(), signed: n.as_i64() },
        serde_json::Value::String(s) => Json::Text(s),
        serde_json::Value::Array(a) => Json::Array(a.into_iter().map(unfold).collect()),
        serde_json::Value::Object(o) => {
            Json::Object(o.into_iter().map(|(k, x)| (k, unfold(x))).collect())
        },
    }
}

/// Reads a JSON document.
pub fn parse(bytes: &[u8]) -> (r: Result<Json, String>)
    ensures
        match r {
            Ok(j) => json_document(bytes@) == Ok::<JsonV, Seq<char>>(j@),
            Err(e) => json_document(bytes@) == Err::<JsonV, Seq<char>>(e@),
        },
{
    match decode(bytes) {
        Ok(v) => Ok(unfold(v)),
        Err(e) => Err(e),
    }
}

// ---- Laws ----------------------------------------------------------------------------------

proof fn first_entry_counts(entries: Seq<(Seq<char>, JsonV)>, key: Seq<char>, i: int)
    requires
        0 <= i <= entries.len(),
        i < entries.len() ==> entries[i].0 == key,
        forall|j: int| 0 <= j < i ==> (#[trigger] entries[j]).0 != key,
    ensures
        lookup(entries, key) == if i < entries.len() {
            entries[i].1
        } else {
            JsonV::Null
        },
    decreases entries.len(),
{
    if entries.len() > 0 && entries[0].0 != key {
        let rest = entries.drop_first();
        assert forall|j: int| 0 <= j < i - 1 implies (#[trigger] rest[j]).0 != key by {
            assert(rest[j] == entries[j + 1]);
        }
        first_entry_counts(rest, key, i - 1);
    }
}

/// A member of an object is read under its key, the first where several have the key.
pub proof fn members_are_read_by_key(entries: Seq<(Seq<char>, JsonV)>, key: Seq<char>, i: int)
    requires
        0 <= i < entries.len(),
        entries[i].0 == key,
        forall|j: int| 0 <= j < i ==> (#[trigger] entries[j]).0 != key,
    ensures
        JsonV::Object(entries).at(key) == entries[i].1,
{
    first_entry_counts(entries, key, i);
}

/// What is not there reads as null: a member that an object lacks, and any member of a value that
/// is no object.
pub proof fn missing_members_read_as_null(value: JsonV, key: Seq<char>)
    requires
        value matches JsonV::Object(entries) ==> forall|j: int|
            0 <= j < entries.len() ==> (#[trigger] entries[j]).0 != key,
    ensures
        value.at(key) == JsonV::Null,
{
    if let JsonV::Object(entries) = value {
        first_entry_counts(entries, key, entries.len() as int);
    }
}

/// A value is read as what it is and as nothing else.
pub proof fn values_are_read_as_they_are(
    v: JsonV,
    s: Seq<char>,
    items: Seq<JsonV>,
    entries: Seq<(Seq<char>, JsonV)>,
)
    ensures
        v.text() == Some(s) <==> v == JsonV::Text(s),
        v.text() is None <==> v !is Text,
        v == JsonV::Text(s) ==> v.text_or(""@) == s,
        v !is Text ==> v.text_or(s) == s,
        v.items() == Some(items) <==> v == JsonV::Array(items),
        v.items() is None <==> v !is Array,
        v.entries() == Some(entries) <==> v == JsonV::Object(entries),
        v.entries() is None <==> v !is Object,
        v.is_true() <==> v == JsonV::Bool(true),
        v !is Number ==> v.unsigned() is None && v.signed() is None,
        v matches JsonV::Number { unsigned, signed } ==> v.unsigned() == unsigned && v.signed()
            == signed,
{
}

} // verus!
