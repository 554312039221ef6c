use cfn_custom_resource::{strip_service_token, CloudFormationResponse, JsonObject};
use serde_json::Value;

fn object(pairs: &[(&str, i64)]) -> JsonObject {
    let mut m = serde_json::Map::new();
    for (k, v) in pairs {
        m.insert(k.to_string(), Value::from(*v));
    }
    JsonObject::from_object(m)
}

#[test]
fn new_object_is_empty() {
    assert!(JsonObject::new().into_inner().is_empty());
    let d: JsonObject = Default::default();
    assert!(d.into_inner().is_empty());
}

#[test]
fn remove_takes_only_the_key() {
    let mut o = object(&[("a", 1), ("b", 2)]);
    assert_eq!(o.remove("a"), Some(Value::from(1)));
    assert_eq!(o.remove("a"), None);
    assert!(!o.contains_key("a"));
    assert!(o.contains_key("b"));
    assert_eq!(o.into_inner().len(), 1);
}

#[test]
fn strip_service_token_keeps_the_rest() {
    let o = strip_service_token(object(&[("ServiceToken", 1), ("Name", 2)]));
    assert!(!o.contains_key("ServiceToken"));
    assert!(o.contains_key("Name"));
    let o = strip_service_token(object(&[("Name", 2)]));
    assert!(o.contains_key("Name"));
    let o = strip_service_token(JsonObject::new());
    assert!(o.into_inner().is_empty());
}

#[test]
fn into_value_is_an_object() {
    let v = object(&[("a", 1)]).into_value();
    assert_eq!(v.get("a"), Some(&Value::from(1)));
    assert!(v.is_object());
}

#[test]
fn empty_response_has_no_data() {
    let r = CloudFormationResponse::empty("id-1".to_string());
    assert_eq!(r.physical_resource_id, "id-1");
    assert!(r.data.into_inner().is_empty());
}

#[test]
fn object_round_trips_unchanged() {
    let mut m = serde_json::Map::new();
    m.insert("a".to_string(), Value::from(1));
    m.insert("b".to_string(), Value::String("x".to_string()));
    let o = JsonObject::from_object(m.clone());
    assert_eq!(o.as_inner(), &m);
    assert_eq!(o.into_inner(), m);
}

#[test]
fn insert_adds_or_replaces() {
    let mut o = JsonObject::new();
    assert_eq!(o.insert("k".to_string(), Value::from(1)), None);
    assert_eq!(o.insert("k".to_string(), Value::from(2)), Some(Value::from(1)));
    assert!(o.contains_key("k"));
    assert_eq!(o.as_inner().get("k"), Some(&Value::from(2)));
    assert_eq!(o.into_inner().len(), 1);
}

#[test]
fn capability_request_carries_ids_and_strips_token() {
    let stack = "stack-1".to_string();
    let request = "request-1".to_string();
    let logical = "MyBucket".to_string();
    let props = {
        let mut m = serde_json::Map::new();
        m.insert("ServiceToken".to_string(), Value::String("x".to_string()));
        m.insert("Name".to_string(), Value::String("foo".to_string()));
        JsonObject::from_object(m)
    };
    let r = cfn_custom_resource::capability_request(&stack, &request, "Custom::Bucket".to_string(), &logical, props);
    assert_eq!(r.stack_id, "stack-1");
    assert_eq!(r.request_id, "request-1");
    assert_eq!(r.logical_resource_id, "MyBucket");
    assert_eq!(r.resource_type, "Custom::Bucket");
    let props = r.resource_properties.into_inner();
    assert_eq!(props.len(), 1);
    assert_eq!(props.get("Name"), Some(&Value::String("foo".to_string())));
}
