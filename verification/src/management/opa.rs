//! Management operations routed to the OPA policy engine.

use vstd::prelude::*;
use crate::{AttestationService, Error};
use crate::fs::set_post;
use crate::management::{PolicyEngineSetFile, PolicyEngineGetFile, OpaTest};
use crate::tee::file_path_spec;
use crate::tee::opa::{Opa, opa_eval};

verus! {

/// Replaces the artifact the command names, crash-consistently.
pub fn set(service: &mut AttestationService, command: PolicyEngineSetFile) -> (r: Result<
    (),
    Error,
>)
    ensures
        final(service).workdir == old(service).workdir,
        final(service).attestation == old(service).attestation,
        match file_path_spec(old(service).attestation.verifiers, command.tee, command.file) {
            Some(p) => set_post(
                old(service).disk.contents(),
                old(service).disk.fault_plan(),
                final(service).disk.contents(),
                final(service).disk.fault_plan(),
                p,
                command.content@,
                r,
            ),
            None => r == Err::<(), Error>(Error::UnsupportedCombination) && final(service).disk
                == old(service).disk,
        },
{
    let file = match service.attestation.verifiers.opa_files_path(command.file, command.tee) {
        Ok(f) => f,
        Err(e) => {
            return Err(e);
        },
    };
    crate::fs::set(&mut service.disk, file.as_str(), command.content.as_str())
}

/// Reads the artifact the command names.
pub fn get(service: &AttestationService, command: PolicyEngineGetFile) -> (r: Result<
    String,
    Error,
>)
    ensures
        match file_path_spec(service.attestation.verifiers, command.tee, command.file) {
            Some(p) => match r {
                Ok(c) => service.disk.contents().get(p) == Some(c@),
                Err(e) => !service.disk.contents().contains_key(p) && e == Error::NotFound,
            },
            None => r == Err::<String, Error>(Error::UnsupportedCombination),
        },
{
    let file = match service.attestation.verifiers.opa_files_path(command.file, command.tee) {
        Ok(f) => f,
        Err(e) => {
            return Err(e);
        },
    };
    crate::fs::get(&service.disk, file.as_str())
}

/// Evaluates a policy against explicit reference data and input.
pub fn test(command: OpaTest) -> (r: Result<String, Error>)
    ensures
        match r {
            Ok(d) => opa_eval(
                command.policycontent@,
                command.referencecontent@,
                command.inputcontent@,
            ) == Some(d@),
            Err(e) => opa_eval(
                command.policycontent@,
                command.referencecontent@,
                command.inputcontent@,
            ) is None && e == Error::PolicyEvaluationError,
        },
{
    let mut engine = Opa::new();
    engine.evaluate(
        command.policycontent.as_str(),
        command.referencecontent.as_str(),
        command.inputcontent.as_str(),
    )
}

} // verus!
