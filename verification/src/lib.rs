//! Attestation verification and policy-decision engine.
//!
//! The crate verifies trusted-execution-environment (TEE) attestation
//! evidence and decides, through a declarative policy, whether that
//! evidence is acceptable.  Evidence arrives as a JSON document naming a
//! TEE; the matching verifier checks the quote's freshness binding,
//! extracts the trusted-computing-base (TCB) claims, loads the TEE's
//! policy and reference data from the store, runs the policy evaluator,
//! and assembles the final decision.

use vstd::prelude::*;

pub mod attestation;
pub mod chars;
pub mod fs;
pub mod json;
pub mod management;
pub mod tee;

verus! {

/// The TEE kinds the service knows of.  `SEVSNP` is reserved;
/// `NONE` marks an unset selection.
#[derive(Clone, Copy, Debug, PartialEq, Eq, Structural)]
pub enum TEEs {
    TDX,
    SGX,
    SEVSNP,
    SAMPLE,
    NONE,
}

/// The policy engines the service knows of.
#[derive(Clone, Copy, Debug, PartialEq, Eq, Structural)]
pub enum PolicyEngine {
    OPA,
    NONE,
}

/// The TEE a transport-layer name denotes; `sev-snp` is the reserved
/// SEV-SNP slot, and any other name is unsupported.
pub open spec fn tee_of_name(s: Seq<char>) -> Result<TEEs, Error> {
    if s == "sgx"@ {
        Ok(TEEs::SGX)
    } else if s == "tdx"@ {
        Ok(TEEs::TDX)
    } else if s == "sev-snp"@ {
        Ok(TEEs::SEVSNP)
    } else if s == "sample"@ {
        Ok(TEEs::SAMPLE)
    } else {
        Err(Error::UnsupportedCombination)
    }
}

impl TEEs {
    /// The TEE named by a text, per `tee_of_name`.
    pub fn from_str(tee: &str) -> (r: Result<TEEs, Error>)
        ensures
            r == tee_of_name(tee@),
    {
        if tee::str_eq(tee, "sgx") {
            Ok(TEEs::SGX)
        } else if tee::str_eq(tee, "tdx") {
            Ok(TEEs::TDX)
        } else if tee::str_eq(tee, "sev-snp") {
            Ok(TEEs::SEVSNP)
        } else if tee::str_eq(tee, "sample") {
            Ok(TEEs::SAMPLE)
        } else {
            Err(Error::UnsupportedCombination)
        }
    }
}

/// The attestation capability offered to the transport layer.  The
/// verified contracts live on `AttestationService`'s inherent methods.
pub trait Service {
    /// Verifies one serialized submission and returns the serialized
    /// result document.
    fn attestation(&self, evidence: &String) -> Result<String, Error>;
}

/// The management capability offered to the transport layer.  The
/// verified contracts live on `AttestationService`'s inherent methods.
pub trait Management {
    /// Replaces one policy artifact's content.
    fn policy_engine_set_file(&mut self, command: management::PolicyEngineSetFile) -> Result<
        (),
        Error,
    >;

    /// Reads one policy artifact's content.
    fn policy_engine_get_file(&self, command: management::PolicyEngineGetFile) -> Result<
        String,
        Error,
    >;

    /// Evaluates a policy against explicit documents, without touching
    /// the store.
    fn opa_test(&self, command: management::OpaTest) -> Result<String, Error>;
}

/// The session workdir derived from a base path and a user identifier.
pub open spec fn join_path(p: Seq<char>, u: Seq<char>) -> Seq<char> {
    if p.len() > 0 && p[p.len() - 1] == '/' {
        p + u
    } else {
        p + seq!['/'] + u
    }
}

/// One attestation session: its workdir, its verifiers, and its
/// artifact store.  The borrow rules serialize access: any number of
/// readers, or one writer, never both — a read can never see a write
/// in progress.
pub struct AttestationService {
    pub workdir: String,
    pub attestation: attestation::Attestation,
    pub disk: fs::Disk,
}

impl AttestationService {
    /// The session is fully bootstrapped: every verifier is rooted at
    /// the session workdir and every TEE's artifacts are in the store.
    pub open spec fn wf(&self) -> bool {
        &&& self.attestation.verifiers.sample.workdir@ == self.workdir@
        &&& self.attestation.verifiers.sgx.workdir@ == self.workdir@
        &&& self.attestation.verifiers.tdx.workdir@ == self.workdir@
        &&& self.disk.contents().contains_key(tee::sample::sample_policy_path(self.workdir@))
        &&& self.disk.contents().contains_key(tee::sample::sample_reference_path(self.workdir@))
        &&& self.disk.contents().contains_key(tee::sgx::sgx_policy_path(self.workdir@))
        &&& self.disk.contents().contains_key(tee::sgx::sgx_reference_path(self.workdir@))
        &&& self.disk.contents().contains_key(tee::tdx::tdx_policy_path(self.workdir@))
        &&& self.disk.contents().contains_key(tee::tdx::tdx_reference_path(self.workdir@))
    }

    /// Opens the session `user_id` under `path`, taking over its store
    /// and bootstrapping any missing artifact.  An artifact already in
    /// the store is never altered, however often a session is opened.
    pub fn new(path: &str, user_id: String, disk: fs::Disk) -> (r: Result<
        AttestationService,
        Error,
    >)
        ensures
            r matches Ok(s) ==> s.workdir@ == join_path(path@, user_id@) && s.wf(),
            r matches Ok(s) ==> tee::bootstrap_post(
                disk.contents(),
                s.disk.contents(),
                s.workdir@,
            ),
            disk.fault_plan() is None ==> r is Ok,
            r matches Ok(s) ==> (disk.fault_plan() is None ==> s.disk.fault_plan() is None),
    {
        let mut w = chars::str_to_chars(path);
        if !(w.len() > 0 && w[w.len() - 1] == '/') {
            w.push('/');
        }
        let mut u = chars::str_to_chars(user_id.as_str());
        w.append(&mut u);
        proof {
            assert(w@ =~= join_path(path@, user_id@));
        }
        let workdir = chars::chars_to_string(&w);
        let mut disk = disk;
        let att = match attestation::Attestation::new(workdir.clone(), &mut disk) {
            Ok(a) => a,
            Err(e) => {
                return Err(e);
            },
        };
        Ok(AttestationService { workdir, attestation: att, disk })
    }

    /// Verifies one serialized submission against this session's
    /// artifacts.  Reading never changes the session.
    pub fn attestation(&self, evidence: &String) -> (r: Result<String, Error>)
        ensures
            match r {
                Ok(s) => attestation::attest_spec(
                    self.attestation.verifiers,
                    self.disk.contents(),
                    evidence@,
                ) == Ok::<Seq<char>, Error>(s@),
                Err(e) => attestation::attest_spec(
                    self.attestation.verifiers,
                    self.disk.contents(),
                    evidence@,
                ) == Err::<Seq<char>, Error>(e),
            },
    {
        let mut engine = tee::opa::Opa::new();
        self.attestation.evaluate(&self.disk, &mut engine, evidence)
    }

    /// Replaces one policy artifact crash-consistently; only the named
    /// artifact and its backup are ever touched, and on failure the
    /// artifact keeps its previous content.
    pub fn policy_engine_set_file(&mut self, command: management::PolicyEngineSetFile) -> (r:
        Result<(), Error>)
        ensures
            final(self).workdir == old(self).workdir,
            final(self).attestation == old(self).attestation,
            match command.engine {
                PolicyEngine::OPA => match tee::file_path_spec(
                    old(self).attestation.verifiers,
                    command.tee,
                    command.file,
                ) {
                    Some(p) => fs::set_post(
                        old(self).disk.contents(),
                        old(self).disk.fault_plan(),
                        final(self).disk.contents(),
                        final(self).disk.fault_plan(),
                        p,
                        command.content@,
                        r,
                    ),
                    None => r == Err::<(), Error>(Error::UnsupportedCombination) && final(self).disk == old(self).disk,
                },
                _ => r == Err::<(), Error>(Error::UnsupportedCombination) && final(self).disk
                    == old(self).disk,
            },
    {
        match command.engine {
            PolicyEngine::OPA => management::opa::set(self, command),
            _ => Err(Error::UnsupportedCombination),
        }
    }

    /// Reads one policy artifact's current content.
    pub fn policy_engine_get_file(&self, command: management::PolicyEngineGetFile) -> (r: Result<
        String,
        Error,
    >)
        ensures
            match command.engine {
                PolicyEngine::OPA => match tee::file_path_spec(
                    self.attestation.verifiers,
                    command.tee,
                    command.file,
                ) {
                    Some(p) => match r {
                        Ok(c) => self.disk.contents().get(p) == Some(c@),
                        Err(e) => !self.disk.contents().contains_key(p) && e == Error::NotFound,
                    },
                    None => r == Err::<String, Error>(Error::UnsupportedCombination),
                },
                _ => r == Err::<String, Error>(Error::UnsupportedCombination),
            },
    {
        match command.engine {
            PolicyEngine::OPA => management::opa::get(self, command),
            _ => Err(Error::UnsupportedCombination),
        }
    }

    /// Evaluates a policy against explicit reference data and input,
    /// without touching the store.
    pub fn opa_test(&self, command: management::OpaTest) -> (r: Result<String, Error>)
        ensures
            match r {
                Ok(d) => tee::opa::opa_eval(
                    command.policycontent@,
                    command.referencecontent@,
                    command.inputcontent@,
                ) == Some(d@),
                Err(e) => tee::opa::opa_eval(
                    command.policycontent@,
                    command.referencecontent@,
                    command.inputcontent@,
                ) is None && e == Error::PolicyEvaluationError,
            },
    {
        management::opa::test(command)
    }
}

impl Service for AttestationService {
    fn attestation(&self, evidence: &String) -> Result<String, Error> {
        AttestationService::attestation(self, evidence)
    }
}

impl Management for AttestationService {
    fn policy_engine_set_file(&mut self, command: management::PolicyEngineSetFile) -> Result<
        (),
        Error,
    > {
        AttestationService::policy_engine_set_file(self, command)
    }

    fn policy_engine_get_file(&self, command: management::PolicyEngineGetFile) -> Result<
        String,
        Error,
    > {
        AttestationService::policy_engine_get_file(self, command)
    }

    fn opa_test(&self, command: management::OpaTest) -> Result<String, Error> {
        AttestationService::opa_test(self, command)
    }
}

/// The failure taxonomy of the engine.
///
/// `allow: false` is never an error: a policy denial is a successful,
/// negative decision.  Errors mean the request could not be decided.
#[derive(Clone, Copy, Debug, PartialEq, Eq, Structural)]
pub enum Error {
    /// The evidence, or one of its embedded documents, failed to parse.
    MalformedEvidence,
    /// The quote's report data does not match the nonce it must be bound to.
    IdentityVerificationFailed,
    /// The named TEE, policy engine or file kind is not known.
    UnsupportedCombination,
    /// The selected verifier exists but its verification is not implemented.
    NotImplemented,
    /// The policy evaluator could not produce a decision.
    PolicyEvaluationError,
    /// The requested file is not in the store.
    NotFound,
    /// A store operation failed before the content was replaced.
    IoError,
    /// A store write failed; the previous content was restored.
    WriteFailed,
}

} // verus!
