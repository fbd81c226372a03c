//! JSON values as plain data: what is read out of requests and replies of
//! other services, and what is answered.
use crate::text::str_eq;
use vstd::prelude::*;

verus! {

/// The value type of `serde_json`, carried through without looking inside.
#[verifier::external_type_specification]
#[verifier::external_body]
pub struct ExValue(serde_json::Value);

/// The number type of `serde_json`.
#[verifier::external_type_specification]
#[verifier::external_body]
pub struct ExNumber(serde_json::Number);

/// A JSON number that is no integer. It only comes out of a `serde_json::Value`.
pub struct Fraction {
    number: serde_json::Number,
}

/// A JSON value. Where an object names a key twice, the later entry counts.
pub enum Json {
    Null,
    Bool(bool),
    Unsigned(u64),
    Signed(i64),
    Real(Fraction),
    Text(String),
    List(Vec<Json>),
    Object(Vec<(String, Json)>),
}

/// The meaning of a JSON value: integers are numbers, an object is a map.
#[verifier::ext_equal]
pub enum JsonTree {
    Null,
    Bool(bool),
    Int(int),
    Real(Fraction),
    Text(Seq<char>),
    List(Seq<JsonTree>),
    Object(Map<Seq<char>, JsonTree>),
}

/// The meaning of `json`.
pub open spec fn tree(json: Json) -> JsonTree
    decreases json,
{
    match json {
        Json::Null => JsonTree::Null,
        Json::Bool(b) => JsonTree::Bool(b),
        Json::Unsigned(n) => JsonTree::Int(n as int),
        Json::Signed(n) => JsonTree::Int(n as int),
        Json::Real(n) => JsonTree::Real(n),
        Json::Text(s) => JsonTree::Text(s@),
        Json::List(items) => JsonTree::List(trees(items@)),
        Json::Object(fields) => JsonTree::Object(field_trees(fields@)),
    }
}

/// The meanings of a list of values.
pub open spec fn trees(items: Seq<Json>) -> Seq<JsonTree>
    decreases items,
{
    if items.len() == 0 {
        Seq::empty()
    } else {
        trees(items.drop_last()).push(tree(items.last()))
    }
}

/// The meaning of a list of fields.
pub open spec fn field_trees(fields: Seq<(String, Json)>) -> Map<Seq<char>, JsonTree>
    decreases fields,
{
    if fields.len() == 0 {
        Map::empty()
    } else {
        field_trees(fields.drop_last()).insert(fields.last().0@, tree(fields.last().1))
    }
}

impl View for Json {
    type V = JsonTree;

    open spec fn view(&self) -> JsonTree {
        tree(*self)
    }
}

impl JsonTree {
    /// The value under `key`; `None` where this is no object or lacks the key.
    pub open spec fn member(self, key: Seq<char>) -> Option<JsonTree> {
        match self {
            JsonTree::Object(fields) => if fields.contains_key(key) {
                Some(fields[key])
            } else {
                None
            },
            _ => None,
        }
    }

    /// The item at position `i`; `None` where this is no list or too short.
    pub open spec fn element(self, i: int) -> Option<JsonTree> {
        match self {
            JsonTree::List(items) => if 0 <= i < items.len() {
                Some(items[i])
            } else {
                None
            },
            _ => None,
        }
    }

    /// The text, where this is one.
    pub open spec fn text(self) -> Option<Seq<char>> {
        match self {
            JsonTree::Text(s) => Some(s),
            _ => None,
        }
    }

    /// The truth value, where this is one.
    pub open spec fn truth(self) -> Option<bool> {
        match self {
            JsonTree::Bool(b) => Some(b),
            _ => None,
        }
    }

    /// The number, where this is an integer that a `u64` can hold.
    pub open spec fn natural(self) -> Option<u64> {
        match self {
            JsonTree::Int(n) => if 0 <= n <= u64::MAX {
                Some(n as u64)
            } else {
                None
            },
            _ => None,
        }
    }

    /// The text under `key`, where there is one.
    pub open spec fn text_under(self, key: Seq<char>) -> Option<Seq<char>> {
        match self.member(key) {
            Some(t) => t.text(),
            None => None,
        }
    }

    /// The value under `key`, or null.
    pub open spec fn member_or_null(self, key: Seq<char>) -> JsonTree {
        match self.member(key) {
            Some(t) => t,
            None => JsonTree::Null,
        }
    }
}

/// What a value of `serde_json` holds.
pub uninterp spec fn value_tree(value: serde_json::Value) -> JsonTree;

/// The value that `serde_json::from_slice` reads in a text, if it accepts it.
pub uninterp spec fn json_in(text: Seq<u8>) -> Option<JsonTree>;

/// Calls `serde_json::from_slice` for a `serde_json::Value`. Which texts it
/// accepts, and what it reads in them, is a function of the bytes.
#[verifier::external_body]
fn value_from_slice(text: &[u8]) -> (r: Option<serde_json::Value>)
    ensures
        match r {
            Some(value) => json_in(text@) == Some(value_tree(value)),
            None => json_in(text@) is None,
        },
{
    serde_json::from_slice::<serde_json::Value>(text).ok()
}

/// Takes a `serde_json::Value` apart, variant by variant, into a `Json` that
/// means the same.
#[verifier::external_body]
fn json_of_value(value: serde_json::Value) -> (json: Json)
    ensures
        json@ == value_tree(value),
{
    match value {
        serde_json::Value::Null => Json::Null,
        serde_json::Value::Bool(b) => Json::Bool(b),
        serde_json::Value::Number(n) => match (n.as_u64(), n.as_i64()) {
            (Some(u), _) => Json::Unsigned(u),
            (None, Some(i)) => Json::Signed(i),
            (None, None) => Json::Real(Fraction { number: n }),
        },
        serde_json::Value::String(s) => Json::Text(s),
        serde_json::Value::Array(v) => Json::List(v.into_iter().map(json_of_value).collect()),
        serde_json::Value::Object(m) => Json::Object(m.into_iter().map(|(k, v)| (k, json_of_value(v))).collect()),
    }
}

/// Builds a `serde_json::Value` that means the same as `json`, variant by
/// variant.
#[verifier::external_body]
fn value_of_json(json: &Json) -> (value: serde_json::Value)
    ensures
        value_tree(value) == json@,
{
    match json {
        Json::Null => serde_json::Value::Null,
        Json::Bool(b) => serde_json::Value::Bool(*b),
        Json::Unsigned(u) => serde_json::Value::from(*u),
        Json::Signed(i) => serde_json::Value::from(*i),
        Json::Real(n) => serde_json::Value::Number(n.number.clone()),
        Json::Text(s) => serde_json::Value::String(s.clone()),
        Json::List(v) => serde_json::Value::Array(v.iter().map(value_of_json).collect()),
        Json::Object(m) => serde_json::Value::Object(m.iter().map(|(k, v)| (k.clone(), value_of_json(v))).collect()),
    }
}

proof fn lemma_trees(items: Seq<Json>)
    ensures
        trees(items).len() == items.len(),
        forall|i: int| 0 <= i < items.len() ==> #[trigger] trees(items)[i] == tree(items[i]),
    decreases items.len(),
{
    if items.len() > 0 {
        lemma_trees(items.drop_last());
    }
}

impl Json {
    /// Reads a JSON text.
    pub fn parse(text: &[u8]) -> (r: Option<Json>)
        ensures
            match r {
                Some(json) => json_in(text@) == Some(json@),
                None => json_in(text@) is None,
            },
    {
        match value_from_slice(text) {
            Some(value) => Some(json_of_value(value)),
            None => None,
        }
    }

    /// The same value as plain data.
    pub fn from_value(value: serde_json::Value) -> (json: Json)
        ensures
            json@ == value_tree(value),
    {
        json_of_value(value)
    }

    /// The same value in the type of `serde_json`.
    pub fn to_value(&self) -> (value: serde_json::Value)
        ensures
            value_tree(value) == self@,
    {
        value_of_json(self)
    }

    /// The value under `key` of an object.
    pub fn get(&self, key: &str) -> (r: Option<&Json>)
        ensures
            match r {
                Some(json) => self@.member(key@) == Some(json@),
                None => self@.member(key@) is None,
            },
    {
        match self {
            Json::Object(fields) => {
                let mut n: usize = fields.len();
                assert(fields@.take(n as int) =~= fields@);
                while n > 0
                    invariant
                        n <= fields@.len(),
                        self@ == JsonTree::Object(field_trees(fields@)),
                        field_trees(fields@).contains_key(key@) == field_trees(
                            fields@.take(n as int),
                        ).contains_key(key@),
                        field_trees(fields@).contains_key(key@) ==> field_trees(fields@)[key@]
                            == field_trees(fields@.take(n as int))[key@],
                    decreases n,
                {
                    assert(fields@.take(n as int).drop_last() =~= fields@.take(n - 1));
                    n = n - 1;
                    if str_eq(fields[n].0.as_str(), key) {
                        return Some(&fields[n].1);
                    }
                }
                None
            },
            _ => None,
        }
    }

    /// Takes the value under `key` out of an object; null where there is none.
    pub fn into_member(self, key: &str) -> (r: Json)
        ensures
            r@ == self@.member_or_null(key@),
    {
        match self {
            Json::Object(mut fields) => {
                let ghost all = field_trees(fields@);
                while fields.len() > 0
                    invariant
                        all.contains_key(key@) == field_trees(fields@).contains_key(key@),
                        all.contains_key(key@) ==> all[key@] == field_trees(fields@)[key@],
                        self@ == JsonTree::Object(all),
                    decreases fields.len(),
                {
                    let ghost before = fields@;
                    let last = fields.pop();
                    assert(fields@ =~= before.drop_last());
                    if let Some((name, value)) = last {
                        if str_eq(name.as_str(), key) {
                            return value;
                        }
                    }
                }
                Json::Null
            },
            _ => Json::Null,
        }
    }

    /// The item at position `i` of a list.
    pub fn at(&self, i: usize) -> (r: Option<&Json>)
        ensures
            match r {
                Some(json) => self@.element(i as int) == Some(json@),
                None => self@.element(i as int) is None,
            },
    {
        match self {
            Json::List(items) => {
                proof {
                    lemma_trees(items@);
                }
                if i < items.len() {
                    Some(&items[i])
                } else {
                    None
                }
            },
            _ => None,
        }
    }

    /// The text, where this is one.
    pub fn as_text(&self) -> (r: Option<&str>)
        ensures
            match r {
                Some(s) => self@.text() == Some(s@),
                None => self@.text() is None,
            },
    {
        match self {
            Json::Text(s) => Some(s.as_str()),
            _ => None,
        }
    }

    /// The truth value, where this is one.
    pub fn as_truth(&self) -> (r: Option<bool>)
        ensures
            r == self@.truth(),
    {
        match self {
            Json::Bool(b) => Some(*b),
            _ => None,
        }
    }

    /// The number, where this is an integer that a `u64` can hold.
    pub fn as_natural(&self) -> (r: Option<u64>)
        ensures
            r == self@.natural(),
    {
        match self {
            Json::Unsigned(n) => Some(*n),
            Json::Signed(n) => if *n >= 0 {
                Some(*n as u64)
            } else {
                None
            },
            _ => None,
        }
    }

    /// The items, where this is a list.
    pub fn as_list(&self) -> (r: Option<&Vec<Json>>)
        ensures
            match r {
                Some(items) => self@ == JsonTree::List(items@.map_values(|j: Json| j@)),
                None => !(self@ is List),
            },
    {
        match self {
            Json::List(items) => {
                proof {
                    lemma_trees(items@);
                    assert(trees(items@) =~= items@.map_values(|j: Json| j@));
                }
                Some(items)
            },
            _ => None,
        }
    }

    /// The text under `key`, where there is one.
    pub fn text_under(&self, key: &str) -> (r: Option<&str>)
        ensures
            match r {
                Some(s) => self@.text_under(key@) == Some(s@),
                None => self@.text_under(key@) is None,
            },
    {
        match self.get(key) {
            Some(json) => json.as_text(),
            None => None,
        }
    }

    /// A text.
    pub fn text(s: &str) -> (json: Json)
        ensures
            json@ == JsonTree::Text(s@),
    {
        Json::Text(s.to_owned())
    }

    /// A list.
    pub fn list(items: Vec<Json>) -> (json: Json)
        ensures
            json@ == JsonTree::List(items@.map_values(|j: Json| j@)),
    {
        proof {
            lemma_trees(items@);
            assert(trees(items@) =~= items@.map_values(|j: Json| j@));
        }
        Json::List(items)
    }
}

/// The fields of an object under construction.
pub struct Fields {
    entries: Vec<(String, Json)>,
}

impl View for Fields {
    type V = Map<Seq<char>, JsonTree>;

    closed spec fn view(&self) -> Map<Seq<char>, JsonTree> {
        field_trees(self.entries@)
    }
}

impl Fields {
    /// No fields.
    pub fn new() -> (r: Fields)
        ensures
            r@ == Map::<Seq<char>, JsonTree>::empty(),
    {
        Fields { entries: Vec::new() }
    }

    /// One field more.
    pub fn with(self, key: &str, value: Json) -> (r: Fields)
        ensures
            r@ == self@.insert(key@, value@),
    {
        let mut entries = self.entries;
        entries.push((key.to_owned(), value));
        assert(entries@.drop_last() =~= self.entries@);
        Fields { entries }
    }

    /// The finished object.
    pub fn object(self) -> (json: Json)
        ensures
            json@ == JsonTree::Object(self@),
    {
        Json::Object(self.entries)
    }
}

/// What is read out of a value is what stands there: an object gives what it
/// names, the later of two fields of one name; a list what stands at a place; a
/// text, a truth value or a natural number itself; and nothing gives what it is
/// not.
pub proof fn law_values_give_what_they_hold(
    fields: Seq<(String, Json)>,
    name: String,
    value: Json,
    key: Seq<char>,
    items: Seq<JsonTree>,
    i: int,
    n: int,
)
    ensures
        JsonTree::Object(field_trees(fields.push((name, value)))).member(name@) == Some(value@),
        key != name@ ==> JsonTree::Object(field_trees(fields.push((name, value)))).member(key)
            == JsonTree::Object(field_trees(fields)).member(key),
        JsonTree::Object(field_trees(Seq::empty())).member(key) is None,
        JsonTree::Object(field_trees(fields)).member_or_null(key) == (
        match JsonTree::Object(field_trees(fields)).member(key) {
            Some(t) => t,
            None => JsonTree::Null,
        }),
        0 <= i < items.len() ==> JsonTree::List(items).element(i) == Some(items[i]),
        !(0 <= i < items.len()) ==> JsonTree::List(items).element(i) is None,
        JsonTree::Text(key).text() == Some(key),
        JsonTree::Int(n).natural() == (if 0 <= n <= u64::MAX {
            Some(n as u64)
        } else {
            None
        }),
        JsonTree::Bool(true).truth() == Some(true) && JsonTree::Bool(false).truth() == Some(false),
{
    assert(fields.push((name, value)).drop_last() =~= fields);
}

/// A value gives only what it is: no members where it is no object, no items
/// where it is no list, and so on.
pub proof fn law_values_give_nothing_else(tree: JsonTree, key: Seq<char>, i: int)
    ensures
        !(tree is Object) ==> tree.member(key) is None && tree.member_or_null(key) == JsonTree::Null
            && tree.text_under(key) is None,
        !(tree is List) ==> tree.element(i) is None,
        !(tree is Text) ==> tree.text() is None,
        !(tree is Bool) ==> tree.truth() is None,
        !(tree is Int) ==> tree.natural() is None,
{
}

/// What plain data means.
pub proof fn law_plain_data_means_itself(
    truth: bool,
    natural: u64,
    signed: i64,
    said: String,
    items: Vec<Json>,
    i: int,
)
    ensures
        Json::Null@ == JsonTree::Null,
        Json::Bool(truth)@ == JsonTree::Bool(truth),
        Json::Unsigned(natural)@ == JsonTree::Int(natural as int),
        Json::Signed(signed)@ == JsonTree::Int(signed as int),
        Json::Text(said)@ == JsonTree::Text(said@),
        Json::List(items)@ matches JsonTree::List(l) && l.len() == items@.len(),
        0 <= i < items@.len() ==> Json::List(items)@.element(i) == Some(items@[i]@),
{
    lemma_trees(items@);
}

} // verus!
