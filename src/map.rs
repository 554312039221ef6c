use serde_json::Value;
use vstd::prelude::*;

verus! {

#[verifier::external_type_specification]
#[verifier::external_body]
pub struct ExValue(serde_json::Value);

#[verifier::external_type_specification]
#[verifier::external_body]
#[verifier::reject_recursive_types(K)]
#[verifier::reject_recursive_types(V)]
pub struct ExObject<K, V>(serde_json::map::Map<K, V>);

/// The keys that a JSON object holds.
pub uninterp spec fn object_keys(m: serde_json::Map<String, Value>) -> Set<Seq<char>>;

/// Relies on serde_json::Map::new: the new object holds no key.
#[verifier::external_body]
fn object_new() -> (r: serde_json::Map<String, Value>)
    ensures
        object_keys(r) == Set::<Seq<char>>::empty(),
{
    serde_json::Map::new()
}

/// Relies on serde_json::Map::remove: the key leaves the object, the other keys
/// stay, and the removed value comes back exactly when the key was there.
#[verifier::external_body]
fn object_remove(m: &mut serde_json::Map<String, Value>, key: &str) -> (r: Option<Value>)
    ensures
        object_keys(*final(m)) == object_keys(*old(m)).remove(key@),
        r.is_some() == object_keys(*old(m)).contains(key@),
{
    m.remove(key)
}

/// Relies on serde_json::Map::insert: the key joins the object, the other keys
/// stay, and a value comes back exactly when the key was there before.
#[verifier::external_body]
fn object_insert(m: &mut serde_json::Map<String, Value>, key: String, value: Value) -> (r: Option<Value>)
    ensures
        object_keys(*final(m)) == object_keys(*old(m)).insert(key@),
        r.is_some() == object_keys(*old(m)).contains(key@),
{
    m.insert(key, value)
}

/// Relies on serde_json::Map::contains_key: whether the object holds the key.
#[verifier::external_body]
fn object_contains_key(m: &serde_json::Map<String, Value>, key: &str) -> (r: bool)
    ensures
        r == object_keys(*m).contains(key@),
{
    m.contains_key(key)
}

/// Relies on serde_json::Value::Object: wraps the object as a JSON value.
#[verifier::external_body]
fn object_into_value(m: serde_json::Map<String, Value>) -> (r: Value) {
    Value::Object(m)
}

/// A JSON value that is always an object: string keys, JSON values.
///
/// Its model is the set of keys it holds.
pub struct JsonObject {
    object: serde_json::Map<String, Value>,
}

impl View for JsonObject {
    type V = Set<Seq<char>>;

    closed spec fn view(&self) -> Set<Seq<char>> {
        object_keys(self.object)
    }
}

impl JsonObject {
    /// The object held.
    pub closed spec fn inner(&self) -> serde_json::Map<String, Value> {
        self.object
    }

    /// An empty object.
    pub fn new() -> (r: JsonObject)
        ensures
            r@ == Set::<Seq<char>>::empty(),
    {
        JsonObject { object: object_new() }
    }

    /// Wraps an object that serde_json has built.
    pub fn from_object(object: serde_json::Map<String, Value>) -> (r: JsonObject)
        ensures
            r.inner() == object,
            r@ == object_keys(object),
    {
        JsonObject { object }
    }

    /// The object inside.
    pub fn into_inner(self) -> (r: serde_json::Map<String, Value>)
        ensures
            r == self.inner(),
            object_keys(r) == self@,
    {
        self.object
    }

    /// A view of the object inside.
    pub fn as_inner(&self) -> (r: &serde_json::Map<String, Value>)
        ensures
            *r == self.inner(),
            object_keys(*r) == self@,
    {
        &self.object
    }

    /// The object as a JSON value.
    pub fn into_value(self) -> Value {
        object_into_value(self.object)
    }

    /// Whether the object holds `key`.
    pub fn contains_key(&self, key: &str) -> (r: bool)
        ensures
            r == self@.contains(key@),
    {
        object_contains_key(&self.object, key)
    }

    /// Puts `value` under `key`, replacing and returning what was there.
    pub fn insert(&mut self, key: String, value: Value) -> (r: Option<Value>)
        ensures
            final(self)@ == old(self)@.insert(key@),
            r.is_some() == old(self)@.contains(key@),
    {
        object_insert(&mut self.object, key, value)
    }

    /// Takes `key` out of the object; the other keys stay.
    pub fn remove(&mut self, key: &str) -> (r: Option<Value>)
        ensures
            final(self)@ == old(self)@.remove(key@),
            r.is_some() == old(self)@.contains(key@),
    {
        object_remove(&mut self.object, key)
    }
}

impl Default for JsonObject {
    fn default() -> (r: JsonObject)
        ensures
            r@ == Set::<Seq<char>>::empty(),
    {
        JsonObject::new()
    }
}

} // verus!
