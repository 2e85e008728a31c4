use attestation_service::AttestationService;
use attestation_service::Error;
use attestation_service::PolicyEngine;
use attestation_service::TEEs;
use attestation_service::fs;
use attestation_service::fs::Disk;
use attestation_service::management::{Files, PolicyEngineGetFile, PolicyEngineSetFile};

#[test]
fn test_set_get_round_trip() {
    let mut disk = Disk::new();
    let content = "package policy\ndefault allow = false\n";
    assert!(fs::set(&mut disk, "w/opa/sample/policy.rego", content).is_ok());
    let read = fs::get(&disk, "w/opa/sample/policy.rego");
    assert_eq!(read.unwrap(), content);
}

#[test]
fn test_get_missing_is_not_found() {
    let disk = Disk::new();
    assert!(matches!(fs::get(&disk, "nowhere"), Err(Error::NotFound)));
}

#[test]
fn test_set_overwrites_and_drops_backup() {
    let mut disk = Disk::new();
    assert!(fs::set(&mut disk, "f", "one").is_ok());
    assert!(fs::set(&mut disk, "f", "two").is_ok());
    assert_eq!(fs::get(&disk, "f").unwrap(), "two");
    assert!(matches!(fs::get(&disk, "f.bak"), Err(Error::NotFound)));
}

#[test]
fn test_write_crash_safety() {
    // the write itself is interrupted, after the backup was taken:
    // the previous content survives
    let mut disk = Disk::new();
    assert!(fs::set(&mut disk, "f", "original").is_ok());
    disk.plan_write_fault(1);
    let res = fs::set(&mut disk, "f", "replacement");
    assert!(matches!(res, Err(Error::WriteFailed)));
    assert_eq!(fs::get(&disk, "f").unwrap(), "original");
}

#[test]
fn test_backup_crash_safety() {
    // the backup copy itself is interrupted: the file is untouched
    let mut disk = Disk::new();
    assert!(fs::set(&mut disk, "f", "original").is_ok());
    disk.plan_write_fault(0);
    let res = fs::set(&mut disk, "f", "replacement");
    assert!(matches!(res, Err(Error::IoError)));
    assert_eq!(fs::get(&disk, "f").unwrap(), "original");
}

#[test]
fn test_crash_on_fresh_file_leaves_no_torn_file() {
    let mut disk = Disk::new();
    disk.plan_write_fault(0);
    let res = fs::set(&mut disk, "f", "content");
    assert!(matches!(res, Err(Error::WriteFailed)));
    assert!(matches!(fs::get(&disk, "f"), Err(Error::NotFound)));
}

#[test]
fn test_bootstrap_idempotence() {
    // opening the same session again and again never alters an artifact
    let service = AttestationService::new("./", "u-boot".to_string(), Disk::new()).unwrap();
    let first = service
        .policy_engine_get_file(PolicyEngineGetFile {
            engine: PolicyEngine::OPA,
            tee: TEEs::SAMPLE,
            file: Files::Policy,
        })
        .unwrap();

    let service = AttestationService::new("./", "u-boot".to_string(), service.disk).unwrap();
    let second = service
        .policy_engine_get_file(PolicyEngineGetFile {
            engine: PolicyEngine::OPA,
            tee: TEEs::SAMPLE,
            file: Files::Policy,
        })
        .unwrap();
    assert_eq!(first, second, "repeated bootstrap must not change the policy");

    let service = AttestationService::new("./", "u-boot".to_string(), service.disk).unwrap();
    let third = service
        .policy_engine_get_file(PolicyEngineGetFile {
            engine: PolicyEngine::OPA,
            tee: TEEs::SAMPLE,
            file: Files::Policy,
        })
        .unwrap();
    assert_eq!(first, third);
}

#[test]
fn test_bootstrap_keeps_replaced_artifact() {
    // a replaced artifact survives a fresh bootstrap untouched
    let mut service = AttestationService::new("./", "u-keep".to_string(), Disk::new()).unwrap();
    let custom = "{\"cpusvn\": 9, \"svn\": 9}".to_string();
    let res = service.policy_engine_set_file(PolicyEngineSetFile {
        engine: PolicyEngine::OPA,
        tee: TEEs::SAMPLE,
        file: Files::Reference,
        content: custom.clone(),
    });
    assert!(res.is_ok());

    let service = AttestationService::new("./", "u-keep".to_string(), service.disk).unwrap();
    let read = service
        .policy_engine_get_file(PolicyEngineGetFile {
            engine: PolicyEngine::OPA,
            tee: TEEs::SAMPLE,
            file: Files::Reference,
        })
        .unwrap();
    assert_eq!(read, custom);
}

#[test]
fn test_set_file_crash_keeps_previous_reference() {
    // a faulted replacement at the service level keeps the old artifact
    let mut service = AttestationService::new("./", "u-fault".to_string(), Disk::new()).unwrap();
    let before = service
        .policy_engine_get_file(PolicyEngineGetFile {
            engine: PolicyEngine::OPA,
            tee: TEEs::SAMPLE,
            file: Files::Reference,
        })
        .unwrap();
    service.disk.plan_write_fault(1);
    let res = service.policy_engine_set_file(PolicyEngineSetFile {
        engine: PolicyEngine::OPA,
        tee: TEEs::SAMPLE,
        file: Files::Reference,
        content: "{\"cpusvn\": 7, \"svn\": 7}".to_string(),
    });
    assert!(matches!(res, Err(Error::WriteFailed)));
    let after = service
        .policy_engine_get_file(PolicyEngineGetFile {
            engine: PolicyEngine::OPA,
            tee: TEEs::SAMPLE,
            file: Files::Reference,
        })
        .unwrap();
    assert_eq!(before, after);
}
