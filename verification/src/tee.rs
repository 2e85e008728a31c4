//! TEE verifiers and their dispatch.
//!
//! The set of TEEs is a fixed, audited enumeration: evidence is routed
//! to exactly one verifier by its declared kind, and an unknown kind is
//! rejected outright — there is no default verifier and no default
//! allow.

use vstd::prelude::*;

pub mod opa;
pub mod sample;
pub mod sgx;
pub mod tdx;

use crate::Error;
use crate::TEEs;
use crate::chars::{str_to_chars, chars_eq};
use crate::fs::Disk;
use crate::management::Files;
use crate::attestation::{Evidence, EvidenceV, AttestationResults, AttestationResultsV};
use crate::tee::opa::Opa;
use crate::tee::sample::{
    Sample, sample_policy_path, sample_reference_path, sample_verify_spec, res_view, identity_ok,
};
use crate::tee::sgx::{Sgx, sgx_policy_path, sgx_reference_path};
use crate::tee::tdx::{Tdx, tdx_policy_path, tdx_reference_path};

verus! {

/// Equality of two texts.
pub fn str_eq(a: &str, b: &str) -> (r: bool)
    ensures
        r == (a@ == b@),
{
    let ac = str_to_chars(a);
    let bc = str_to_chars(b);
    chars_eq(&ac, &bc)
}

/// The capability set of the verifier dispatch.  The verified
/// contracts live on the implementing type's inherent methods.
pub trait Verifier {
    /// Routes the evidence to the verifier its `tee` field names.
    fn evaluate(&self, disk: &Disk, engine: &mut Opa, evidence: &Evidence) -> Result<
        AttestationResults,
        Error,
    >;

    /// Resolves an artifact of a TEE to its path in the store.
    fn opa_files_path(&self, file: Files, tee: TEEs) -> Result<String, Error>;
}

/// The capability set of one TEE's verifier.  The verified contracts
/// live on each implementing type's inherent methods.
pub trait TEETraits {
    /// Runs the TEE's verification pipeline on one submission.
    fn evaluate(&self, disk: &Disk, engine: &mut Opa, evidence: &Evidence) -> Result<
        AttestationResults,
        Error,
    >;

    /// The TEE's policy path.
    fn opa_policy_path(&self) -> Result<String, Error>;

    /// The TEE's reference-data path.
    fn opa_reference_data_path(&self) -> Result<String, Error>;
}

/// One verifier per known TEE kind.
pub struct Verifiers {
    pub tdx: Tdx,
    pub sgx: Sgx,
    pub sample: Sample,
}

/// The six artifact paths of a workdir are pairwise distinct.
pub proof fn lemma_paths_distinct(w: Seq<char>)
    ensures
        sample_policy_path(w) != sample_reference_path(w),
        sgx_policy_path(w) != sgx_reference_path(w),
        tdx_policy_path(w) != tdx_reference_path(w),
        sample_policy_path(w) != sgx_policy_path(w),
        sample_policy_path(w) != sgx_reference_path(w),
        sample_policy_path(w) != tdx_policy_path(w),
        sample_policy_path(w) != tdx_reference_path(w),
        sample_reference_path(w) != sgx_policy_path(w),
        sample_reference_path(w) != sgx_reference_path(w),
        sample_reference_path(w) != tdx_policy_path(w),
        sample_reference_path(w) != tdx_reference_path(w),
        sgx_policy_path(w) != tdx_policy_path(w),
        sgx_policy_path(w) != tdx_reference_path(w),
        sgx_reference_path(w) != tdx_policy_path(w),
        sgx_reference_path(w) != tdx_reference_path(w),
{
    reveal_strlit("/opa/sample/policy.rego");
    reveal_strlit("/opa/sample/reference");
    reveal_strlit("/opa/sgx/policy.rego");
    reveal_strlit("/opa/sgx/reference");
    reveal_strlit("/opa/tdx/policy.rego");
    reveal_strlit("/opa/tdx/reference");
    assert(sample_policy_path(w).len() == w.len() + 23);
    assert(sample_reference_path(w).len() == w.len() + 21);
    assert(sgx_policy_path(w).len() == w.len() + 20);
    assert(sgx_reference_path(w).len() == w.len() + 18);
    assert(tdx_policy_path(w).len() == w.len() + 20);
    assert(tdx_reference_path(w).len() == w.len() + 18);
    assert(sgx_policy_path(w)[w.len() as int + 5] == 's');
    assert(tdx_policy_path(w)[w.len() as int + 5] == 't');
    assert(sgx_reference_path(w)[w.len() as int + 5] == 's');
    assert(tdx_reference_path(w)[w.len() as int + 5] == 't');
}

/// Whether the artifact stores `pre` (before) and `post` (after)
/// are related as one bootstrap under workdir `w` relates them: every
/// file already present is untouched, every artifact of every TEE is
/// present afterwards — freshly written with its built-in default only
/// where it was absent — and nothing else changes.
pub open spec fn bootstrap_post(
    pre: Map<Seq<char>, Seq<char>>,
    post: Map<Seq<char>, Seq<char>>,
    w: Seq<char>,
) -> bool {
    &&& (forall|k: Seq<char>| pre.contains_key(k) ==> #[trigger] post.get(k) == pre.get(k))
    &&& post.get(sample_policy_path(w)) == Some(
        if pre.contains_key(sample_policy_path(w)) {
            pre[sample_policy_path(w)]
        } else {
            sample::default_policy_spec()
        },
    )
    &&& post.get(sample_reference_path(w)) == Some(
        if pre.contains_key(sample_reference_path(w)) {
            pre[sample_reference_path(w)]
        } else {
            sample::default_reference_spec()
        },
    )
    &&& post.get(sgx_policy_path(w)) == Some(
        if pre.contains_key(sgx_policy_path(w)) {
            pre[sgx_policy_path(w)]
        } else {
            sgx::default_policy_spec()
        },
    )
    &&& post.get(sgx_reference_path(w)) == Some(
        if pre.contains_key(sgx_reference_path(w)) {
            pre[sgx_reference_path(w)]
        } else {
            sgx::default_reference_spec()
        },
    )
    &&& post.get(tdx_policy_path(w)) == Some(
        if pre.contains_key(tdx_policy_path(w)) {
            pre[tdx_policy_path(w)]
        } else {
            tdx::default_policy_spec()
        },
    )
    &&& post.get(tdx_reference_path(w)) == Some(
        if pre.contains_key(tdx_reference_path(w)) {
            pre[tdx_reference_path(w)]
        } else {
            tdx::default_reference_spec()
        },
    )
    &&& (forall|k: Seq<char>|
        k != sample_policy_path(w) && k != sample_reference_path(w) && k != sgx_policy_path(w)
            && k != sgx_reference_path(w) && k != tdx_policy_path(w) && k != tdx_reference_path(
            w,
        ) ==> #[trigger] post.get(k) == pre.get(k))
}

/// Bootstrap idempotence: once a store has been bootstrapped, a second
/// bootstrap under the same workdir changes nothing at all — every
/// file's content is identical before and after.  Chaining the lemma
/// covers any number of repeated constructions after the first.
pub proof fn lemma_bootstrap_idempotent(
    pre: Map<Seq<char>, Seq<char>>,
    mid: Map<Seq<char>, Seq<char>>,
    post: Map<Seq<char>, Seq<char>>,
    w: Seq<char>,
)
    requires
        bootstrap_post(pre, mid, w),
        bootstrap_post(mid, post, w),
    ensures
        forall|k: Seq<char>| #[trigger] post.get(k) == mid.get(k),
{
    assert forall|k: Seq<char>| #[trigger] post.get(k) == mid.get(k) by {
        if k == sample_policy_path(w) || k == sample_reference_path(w) || k == sgx_policy_path(w)
            || k == sgx_reference_path(w) || k == tdx_policy_path(w) || k == tdx_reference_path(
            w,
        ) {
            assert(mid.contains_key(k));
        }
    }
}

/// Whether the store holds both of the sample TEE's artifacts.
pub open spec fn sample_files_present(c: Map<Seq<char>, Seq<char>>, w: Seq<char>) -> bool {
    c.contains_key(sample_policy_path(w)) && c.contains_key(sample_reference_path(w))
}

/// What routing one submission denotes: the sample pipeline for the
/// sample TEE, `NotImplemented` for the hardware TEEs whose signature
/// verification is a pending extension point, and a closed failure for
/// everything else.
pub open spec fn dispatch_spec(v: Verifiers, c: Map<Seq<char>, Seq<char>>, ev: EvidenceV) -> Result<
    AttestationResultsV,
    Error,
> {
    if ev.tee == "sample"@ {
        sample_verify_spec(c, v.sample.workdir@, ev)
    } else if ev.tee == "sgx"@ || ev.tee == "tdx"@ {
        Err(Error::NotImplemented)
    } else {
        Err(Error::UnsupportedCombination)
    }
}

/// Whether routing this submission consults the policy evaluator.
pub open spec fn consults_evaluator(v: Verifiers, c: Map<Seq<char>, Seq<char>>, ev: EvidenceV) -> bool {
    ev.tee == "sample"@ && identity_ok(ev) && sample_files_present(c, v.sample.workdir@)
}

/// Fail-closed on an unknown TEE: evidence naming a TEE outside the
/// audited set is rejected with `UnsupportedCombination` — no verifier
/// runs, no decision document is ever produced.
pub proof fn lemma_unknown_tee_fails_closed(
    v: Verifiers,
    c: Map<Seq<char>, Seq<char>>,
    ev: EvidenceV,
)
    requires
        ev.tee != "sample"@,
        ev.tee != "sgx"@,
        ev.tee != "tdx"@,
    ensures
        dispatch_spec(v, c, ev) == Err::<AttestationResultsV, Error>(
            Error::UnsupportedCombination,
        ),
        !consults_evaluator(v, c, ev),
{
}

/// The identity gate precedes the policy: evidence whose report data
/// does not match its nonce fails with `IdentityVerificationFailed`,
/// and the policy evaluator is never consulted for it.
pub proof fn lemma_identity_gate_precedes_policy(
    v: Verifiers,
    c: Map<Seq<char>, Seq<char>>,
    ev: EvidenceV,
)
    requires
        sample::evidence_parses(ev),
        !identity_ok(ev),
    ensures
        ev.tee == "sample"@ ==> dispatch_spec(v, c, ev) == Err::<AttestationResultsV, Error>(
            Error::IdentityVerificationFailed,
        ),
        !consults_evaluator(v, c, ev),
{
}

/// The path of the `(tee, file)` artifact, when the pair is supported.
pub open spec fn file_path_spec(v: Verifiers, tee: TEEs, file: Files) -> Option<Seq<char>> {
    match (tee, file) {
        (TEEs::SAMPLE, Files::Policy) => Some(sample_policy_path(v.sample.workdir@)),
        (TEEs::SAMPLE, Files::Reference) => Some(sample_reference_path(v.sample.workdir@)),
        (TEEs::SGX, Files::Policy) => Some(sgx_policy_path(v.sgx.workdir@)),
        (TEEs::SGX, Files::Reference) => Some(sgx_reference_path(v.sgx.workdir@)),
        (TEEs::TDX, Files::Policy) => Some(tdx_policy_path(v.tdx.workdir@)),
        (TEEs::TDX, Files::Reference) => Some(tdx_reference_path(v.tdx.workdir@)),
        _ => None,
    }
}

impl Verifiers {
    /// Builds the verifier of every known TEE under `workdir` and
    /// bootstraps each one's artifacts.  An artifact already in the
    /// store is never altered.
    pub fn new(workdir: String, disk: &mut Disk) -> (r: Result<Verifiers, Error>)
        ensures
            r matches Ok(v) ==> v.tdx.workdir@ == workdir@ && v.sgx.workdir@ == workdir@
                && v.sample.workdir@ == workdir@,
            forall|k: Seq<char>|
                old(disk).contents().contains_key(k) ==> #[trigger] final(disk).contents().get(k)
                    == old(disk).contents().get(k),
            r is Ok ==> bootstrap_post(old(disk).contents(), final(disk).contents(), workdir@),
            old(disk).fault_plan() is None ==> r is Ok && final(disk).fault_plan() is None,
    {
        proof {
            lemma_paths_distinct(workdir@);
        }
        let tdx = match Tdx::new(workdir.clone(), disk) {
            Ok(t) => t,
            Err(e) => {
                return Err(e);
            },
        };
        let ghost c1 = disk.contents();
        let sgx = match Sgx::new(workdir.clone(), disk) {
            Ok(s) => s,
            Err(e) => {
                return Err(e);
            },
        };
        proof {
            assert(disk.contents().get(tdx_policy_path(workdir@)) == c1.get(
                tdx_policy_path(workdir@),
            ));
            assert(disk.contents().get(tdx_reference_path(workdir@)) == c1.get(
                tdx_reference_path(workdir@),
            ));
        }
        let ghost c2 = disk.contents();
        let sample = match Sample::new(workdir, disk) {
            Ok(s) => s,
            Err(e) => {
                return Err(e);
            },
        };
        proof {
            assert(disk.contents().get(tdx_policy_path(workdir@)) == c2.get(
                tdx_policy_path(workdir@),
            ));
            assert(disk.contents().get(tdx_reference_path(workdir@)) == c2.get(
                tdx_reference_path(workdir@),
            ));
            assert(disk.contents().get(sgx_policy_path(workdir@)) == c2.get(
                sgx_policy_path(workdir@),
            ));
            assert(disk.contents().get(sgx_reference_path(workdir@)) == c2.get(
                sgx_reference_path(workdir@),
            ));
        }
        Ok(Verifiers { tdx, sgx, sample })
    }

    /// Routes the evidence to the verifier its `tee` field names.
    /// Unknown kinds fail closed, and only the sample pipeline can
    /// reach the policy evaluator.
    pub fn evaluate(&self, disk: &Disk, engine: &mut Opa, evidence: &Evidence) -> (r: Result<
        AttestationResults,
        Error,
    >)
        ensures
            res_view(r) == dispatch_spec(*self, disk.contents(), evidence@),
            final(engine).calls@ == old(engine).calls@ + (
            if consults_evaluator(*self, disk.contents(), evidence@) {
                1nat
            } else {
                0nat
            }),
    {
        if str_eq(evidence.tee.as_str(), "sample") {
            self.sample.evaluate(disk, engine, evidence)
        } else if str_eq(evidence.tee.as_str(), "sgx") {
            self.sgx.evaluate(disk, engine, evidence)
        } else if str_eq(evidence.tee.as_str(), "tdx") {
            self.tdx.evaluate(disk, engine, evidence)
        } else {
            Err(Error::UnsupportedCombination)
        }
    }

    /// Resolves an artifact of a TEE to its path in the store; an
    /// unsupported pair is rejected.
    pub fn opa_files_path(&self, file: Files, tee: TEEs) -> (r: Result<String, Error>)
        ensures
            match file_path_spec(*self, tee, file) {
                Some(p) => r matches Ok(s) && s@ == p,
                None => r == Err::<String, Error>(Error::UnsupportedCombination),
            },
    {
        match tee {
            TEEs::SAMPLE => match file {
                Files::Policy => self.sample.opa_policy_path(),
                Files::Reference => self.sample.opa_reference_data_path(),
                Files::NONE => Err(Error::UnsupportedCombination),
            },
            TEEs::SGX => match file {
                Files::Policy => self.sgx.opa_policy_path(),
                Files::Reference => self.sgx.opa_reference_data_path(),
                Files::NONE => Err(Error::UnsupportedCombination),
            },
            TEEs::TDX => match file {
                Files::Policy => self.tdx.opa_policy_path(),
                Files::Reference => self.tdx.opa_reference_data_path(),
                Files::NONE => Err(Error::UnsupportedCombination),
            },
            _ => Err(Error::UnsupportedCombination),
        }
    }
}

impl Verifier for Verifiers {
    fn evaluate(&self, disk: &Disk, engine: &mut Opa, evidence: &Evidence) -> Result<
        AttestationResults,
        Error,
    > {
        Verifiers::evaluate(self, disk, engine, evidence)
    }

    fn opa_files_path(&self, file: Files, tee: TEEs) -> Result<String, Error> {
        Verifiers::opa_files_path(self, file, tee)
    }
}

impl TEETraits for Sample {
    fn evaluate(&self, disk: &Disk, engine: &mut Opa, evidence: &Evidence) -> Result<
        AttestationResults,
        Error,
    > {
        Sample::evaluate(self, disk, engine, evidence)
    }

    fn opa_policy_path(&self) -> Result<String, Error> {
        Sample::opa_policy_path(self)
    }

    fn opa_reference_data_path(&self) -> Result<String, Error> {
        Sample::opa_reference_data_path(self)
    }
}

impl TEETraits for Sgx {
    fn evaluate(&self, disk: &Disk, engine: &mut Opa, evidence: &Evidence) -> Result<
        AttestationResults,
        Error,
    > {
        Sgx::evaluate(self, disk, engine, evidence)
    }

    fn opa_policy_path(&self) -> Result<String, Error> {
        Sgx::opa_policy_path(self)
    }

    fn opa_reference_data_path(&self) -> Result<String, Error> {
        Sgx::opa_reference_data_path(self)
    }
}

impl TEETraits for Tdx {
    fn evaluate(&self, disk: &Disk, engine: &mut Opa, evidence: &Evidence) -> Result<
        AttestationResults,
        Error,
    > {
        Tdx::evaluate(self, disk, engine, evidence)
    }

    fn opa_policy_path(&self) -> Result<String, Error> {
        Tdx::opa_policy_path(self)
    }

    fn opa_reference_data_path(&self) -> Result<String, Error> {
        Tdx::opa_reference_data_path(self)
    }
}

} // verus!
