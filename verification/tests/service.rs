use attestation_service::AttestationService;
use attestation_service::Error;
use attestation_service::PolicyEngine;
use attestation_service::TEEs;
use attestation_service::fs::Disk;
use attestation_service::management::{Files, OpaTest, PolicyEngineGetFile, PolicyEngineSetFile};
use serde_json::Value;

const NONCE: &str = "1234567890";

fn json_string(v: &str) -> Value {
    Value::String(v.to_string())
}

fn sample_input(ver: u64) -> String {
    let mut m = serde_json::Map::new();
    m.insert("cpusvn".to_string(), Value::from(ver));
    m.insert("svn".to_string(), Value::from(ver));
    Value::Object(m).to_string()
}

fn sample_reference(ver: u64) -> String {
    let mut m = serde_json::Map::new();
    m.insert("cpusvn".to_string(), Value::from(ver));
    m.insert("svn".to_string(), Value::from(ver));
    Value::Object(m).to_string()
}

fn sample_quote_with_report_data(report_data: &str) -> String {
    let mut m = serde_json::Map::new();
    m.insert("is_debuggable".to_string(), Value::Bool(false));
    m.insert("cpusvn".to_string(), Value::from(1u64));
    m.insert("svn".to_string(), Value::from(1u64));
    m.insert("report_data".to_string(), json_string(report_data));
    Value::Object(m).to_string()
}

fn sample_quote() -> String {
    sample_quote_with_report_data(NONCE)
}

fn sample_ehd() -> String {
    let mut m = serde_json::Map::new();
    m.insert("nonce".to_string(), json_string(NONCE));
    m.insert("public_key".to_string(), json_string(""));
    Value::Object(m).to_string()
}

fn evidence_with(tee: &str, quote: String, ehd: String) -> String {
    let mut m = serde_json::Map::new();
    m.insert("tee".to_string(), json_string(tee));
    m.insert("quote".to_string(), Value::String(quote));
    m.insert("ehd".to_string(), Value::String(ehd));
    m.insert("aad".to_string(), json_string(""));
    Value::Object(m).to_string()
}

fn sample_evidence() -> String {
    evidence_with("sample", sample_quote(), sample_ehd())
}

fn sample_set_file_command(file_type: Files, file_content: String) -> PolicyEngineSetFile {
    PolicyEngineSetFile {
        engine: PolicyEngine::OPA,
        tee: TEEs::SAMPLE,
        file: file_type,
        content: file_content,
    }
}

fn sample_get_file_command(file_type: Files) -> PolicyEngineGetFile {
    PolicyEngineGetFile { engine: PolicyEngine::OPA, tee: TEEs::SAMPLE, file: file_type }
}

fn sample_policy() -> String {
    let policy = r#"
package policy

# By default, deny requests.
default allow = false

allow {
    input.cpusvn >= data.cpusvn
    input.svn >= data.svn
}
"#;
    policy.to_string()
}

fn create_service(user_id: String) -> AttestationService {
    let service = AttestationService::new("./", user_id, Disk::new());
    assert!(service.is_ok(), "service create should success");
    service.unwrap()
}

#[test]
fn lib_test_attestation() {
    let mut service = create_service("u-attestation".to_string());

    let evidence = sample_evidence();
    let res = service.attestation(&evidence);
    assert!(res.is_ok(), "attestation should success");
    let v: Value = serde_json::from_str(&res.unwrap()).unwrap();
    let policy: Value = serde_json::from_str(v["policy"].as_str().unwrap()).unwrap();
    assert!(policy["allow"].as_bool() == Some(true), "allow should true");

    let reference = sample_reference(5);
    let command = sample_set_file_command(Files::Reference, reference);
    let res = service.policy_engine_set_file(command);
    assert!(res.is_ok(), "policy engine set file should success");
    let res = service.attestation(&evidence);
    assert!(res.is_ok(), "attestation should success");

    let v: Value = serde_json::from_str(&res.unwrap()).unwrap();
    let policy: Value = serde_json::from_str(v["policy"].as_str().unwrap()).unwrap();
    assert!(
        policy["allow"].as_bool() == Some(false),
        "allow shouldn't true"
    );
}

#[test]
fn test_opa_test() {
    let policy = sample_policy();
    let reference = sample_reference(1);
    let input = sample_input(1);
    let service = create_service("u-opa-test".to_string());
    let command = OpaTest {
        policycontent: policy,
        referencecontent: reference,
        inputcontent: input,
    };
    let res = service.opa_test(command);
    assert!(res.is_ok(), "opa test should success");
}

#[test]
fn test_policy_engine_xxx_file() {
    let policy = sample_policy();
    let mut service = create_service("u-files".to_string());
    let command = sample_set_file_command(Files::Reference, policy.clone());
    let res = service.policy_engine_set_file(command);
    assert!(res.is_ok(), "policy engine set file should success");
    let command = sample_get_file_command(Files::Reference);
    let value = service.policy_engine_get_file(command);
    assert!(value.is_ok(), "policy engine set file should success");
    assert!(value.unwrap() == policy.to_string(), "file should equal");
}

#[test]
fn test_identity_mismatch_fails_before_policy() {
    // report data that does not match the nonce: an identity error, no decision
    let service = create_service("u-identity".to_string());
    let evidence = evidence_with(
        "sample",
        sample_quote_with_report_data("0000000000"),
        sample_ehd(),
    );
    let res = service.attestation(&evidence);
    assert!(matches!(res, Err(Error::IdentityVerificationFailed)));
}

#[test]
fn test_unknown_tee_fails_closed() {
    let service = create_service("u-unknown".to_string());
    let evidence = evidence_with("unknown", sample_quote(), sample_ehd());
    let res = service.attestation(&evidence);
    assert!(matches!(res, Err(Error::UnsupportedCombination)));
}

#[test]
fn test_sgx_not_implemented() {
    let service = create_service("u-sgx".to_string());
    let evidence = evidence_with("sgx", sample_quote(), sample_ehd());
    let res = service.attestation(&evidence);
    assert!(matches!(res, Err(Error::NotImplemented)));
}

#[test]
fn test_tdx_not_implemented() {
    let service = create_service("u-tdx".to_string());
    let evidence = evidence_with("tdx", sample_quote(), sample_ehd());
    let res = service.attestation(&evidence);
    assert!(matches!(res, Err(Error::NotImplemented)));
}

#[test]
fn test_malformed_evidence() {
    let service = create_service("u-malformed".to_string());
    let evidence = "not a json document".to_string();
    let res = service.attestation(&evidence);
    assert!(matches!(res, Err(Error::MalformedEvidence)));

    // structurally valid JSON that lacks the required fields
    let evidence = "{\"tee\": \"sample\"}".to_string();
    let res = service.attestation(&evidence);
    assert!(matches!(res, Err(Error::MalformedEvidence)));

    // a quote that is not a document of the schema
    let evidence = evidence_with("sample", "{\"cpusvn\": 1}".to_string(), sample_ehd());
    let res = service.attestation(&evidence);
    assert!(matches!(res, Err(Error::MalformedEvidence)));
}

#[test]
fn test_opa_test_bad_policy_is_evaluation_error() {
    let service = create_service("u-bad-policy".to_string());
    let command = OpaTest {
        policycontent: "no policy here".to_string(),
        referencecontent: sample_reference(1),
        inputcontent: sample_input(1),
    };
    let res = service.opa_test(command);
    assert!(matches!(res, Err(Error::PolicyEvaluationError)));
}

#[test]
fn test_unsupported_engine_and_file() {
    let mut service = create_service("u-unsupported".to_string());
    let command = PolicyEngineSetFile {
        engine: PolicyEngine::NONE,
        tee: TEEs::SAMPLE,
        file: Files::Policy,
        content: "x".to_string(),
    };
    assert!(matches!(
        service.policy_engine_set_file(command),
        Err(Error::UnsupportedCombination)
    ));
    let command = PolicyEngineSetFile {
        engine: PolicyEngine::OPA,
        tee: TEEs::SEVSNP,
        file: Files::Policy,
        content: "x".to_string(),
    };
    assert!(matches!(
        service.policy_engine_set_file(command),
        Err(Error::UnsupportedCombination)
    ));
    let command = PolicyEngineGetFile {
        engine: PolicyEngine::OPA,
        tee: TEEs::SAMPLE,
        file: Files::NONE,
    };
    assert!(matches!(
        service.policy_engine_get_file(command),
        Err(Error::UnsupportedCombination)
    ));
}

#[test]
fn test_results_carry_exact_tcb() {
    let service = create_service("u-tcb".to_string());
    let res = service.attestation(&sample_evidence()).unwrap();
    let v: Value = serde_json::from_str(&res).unwrap();
    assert_eq!(v["tee"].as_str(), Some("sample"));
    assert_eq!(
        v["tcb"].as_str(),
        Some("{\"is_debuggable\":false,\"cpusvn\":1,\"svn\":1}")
    );
    let policy: Value = serde_json::from_str(v["policy"].as_str().unwrap()).unwrap();
    assert_eq!(policy["name"].as_str(), Some("policy.rego"));
    assert_eq!(policy["hash"].as_str(), Some(""));
    assert_eq!(policy["diagnose"].as_str(), Some("{\"allow\":true}"));
}

#[test]
fn test_tcb_carries_debuggability_flag() {
    // the extracted TCB reports the quote's flag as-is: a debuggable
    // quote shows up as debuggable in the result document
    let service = create_service("u-debuggable".to_string());
    let mut m = serde_json::Map::new();
    m.insert("is_debuggable".to_string(), Value::Bool(true));
    m.insert("cpusvn".to_string(), Value::from(1u64));
    m.insert("svn".to_string(), Value::from(1u64));
    m.insert("report_data".to_string(), json_string(NONCE));
    let quote = Value::Object(m).to_string();
    let evidence = evidence_with("sample", quote, sample_ehd());
    let res = service.attestation(&evidence).unwrap();
    let v: Value = serde_json::from_str(&res).unwrap();
    assert_eq!(
        v["tcb"].as_str(),
        Some("{\"is_debuggable\":true,\"cpusvn\":1,\"svn\":1}")
    );
}

#[test]
fn test_tee_from_str() {
    assert!(matches!(TEEs::from_str("sgx"), Ok(TEEs::SGX)));
    assert!(matches!(TEEs::from_str("tdx"), Ok(TEEs::TDX)));
    assert!(matches!(TEEs::from_str("sev-snp"), Ok(TEEs::SEVSNP)));
    assert!(matches!(TEEs::from_str("sample"), Ok(TEEs::SAMPLE)));
    assert!(matches!(
        TEEs::from_str("riscv"),
        Err(Error::UnsupportedCombination)
    ));
}
