use attestation_service::tee::opa::Opa;
use serde_json::Value;

fn dummy_policy() -> String {
    let policy = r#"
package policy

# By default, deny requests.
default allow = false

allow {
    input.productId >= data.productId
    input.svn >= data.svn
}
"#;
    policy.to_string()
}

fn dummy_reference() -> String {
    let reference = r#"{
    "productId": 1,
    "svn": 1
}"#;
    reference.to_string()
}

fn dummy_input() -> String {
    let input = r#"{
    "productId": 1,
    "svn": 1
}"#;
    input.to_string()
}

fn dummy_input2() -> String {
    let input = r#"{
    "productId": 0,
    "svn": 0
}"#;
    input.to_string()
}

#[test]
fn test_evaluate() {
    let policy = dummy_policy();
    let reference = dummy_reference();

    let mut engine = Opa::new();
    let input = dummy_input();
    let res = engine.evaluate(&policy, &reference, &input);
    assert!(res.is_ok(), "OPA execution() should success");
    let v: Value = serde_json::from_str(&res.unwrap()).unwrap();
    assert!(v["allow"] == true, "should allowed");

    let input = dummy_input2();
    let res = engine.evaluate(&policy, &reference, &input);
    assert!(res.is_ok(), "OPA execution() should success");
    let v: Value = serde_json::from_str(&res.unwrap()).unwrap();
    assert!(v["allow"] == false, "should not allowed");
}

#[test]
fn test_evaluate_mixed_verdict_fields() {
    // one field at the baseline, the other below it: the conjunction fails
    let policy = dummy_policy();
    let reference = dummy_reference();
    let input = r#"{"productId": 1, "svn": 0}"#.to_string();
    let mut engine = Opa::new();
    let res = engine.evaluate(&policy, &reference, &input);
    assert!(res.is_ok());
    let v: Value = serde_json::from_str(&res.unwrap()).unwrap();
    assert!(v["allow"] == false);
}

#[test]
fn test_evaluate_missing_field_denies() {
    // a condition over a field the input lacks never holds
    let policy = dummy_policy();
    let reference = dummy_reference();
    let input = r#"{"productId": 1}"#.to_string();
    let mut engine = Opa::new();
    let res = engine.evaluate(&policy, &reference, &input);
    assert!(res.is_ok());
    let v: Value = serde_json::from_str(&res.unwrap()).unwrap();
    assert!(v["allow"] == false);
}

#[test]
fn test_evaluate_rejects_foreign_policy() {
    // a policy outside the dialect is an evaluation error, not a deny
    let policy = "package policy\nallow { some x; input.a[x] > 0 }".to_string();
    let reference = dummy_reference();
    let input = dummy_input();
    let mut engine = Opa::new();
    let res = engine.evaluate(&policy, &reference, &input);
    assert!(res.is_err());
}

#[test]
fn test_evaluate_rejects_malformed_reference() {
    let policy = dummy_policy();
    let reference = "not json".to_string();
    let input = dummy_input();
    let mut engine = Opa::new();
    let res = engine.evaluate(&policy, &reference, &input);
    assert!(res.is_err());
}

#[test]
fn test_evaluate_decision_is_exact() {
    let policy = dummy_policy();
    let reference = dummy_reference();
    let input = dummy_input();
    let mut engine = Opa::new();
    let res = engine.evaluate(&policy, &reference, &input).unwrap();
    assert_eq!(res, "{\"allow\":true}");
}
