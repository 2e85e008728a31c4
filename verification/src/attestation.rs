//! The evidence model and the attestation entry point.
//!
//! Evidence arrives as one JSON document with four string fields; the
//! result leaves as one JSON document with three.  The quote and
//! extra-host-data fields are themselves JSON documents, parsed by the
//! selected TEE's verifier.

use vstd::prelude::*;
use crate::Error;
use crate::chars::{str_to_chars, chars_to_string};
use crate::fs::Disk;
use crate::json::{
    parse_object_text, parse_object, str_field, get_str_field, ser_string, push_str,
    push_json_string,
};

verus! {

/// An attestation submission: which TEE, its quote, the extra host
/// data binding the quote to this request, and reserved additional
/// authenticated data.
pub struct Evidence {
    pub tee: String,
    pub quote: String,
    pub ehd: String,
    pub aad: String,
}

/// The mathematical value of an `Evidence`.
pub struct EvidenceV {
    pub tee: Seq<char>,
    pub quote: Seq<char>,
    pub ehd: Seq<char>,
    pub aad: Seq<char>,
}

impl View for Evidence {
    type V = EvidenceV;

    open spec fn view(&self) -> EvidenceV {
        EvidenceV { tee: self.tee@, quote: self.quote@, ehd: self.ehd@, aad: self.aad@ }
    }
}

/// The decision produced for an accepted submission: the TEE name, the
/// serialized policy decision, and the serialized TCB claims.
pub struct AttestationResults {
    pub tee: String,
    pub policy: String,
    pub tcb: String,
}

/// The mathematical value of an `AttestationResults`.
pub struct AttestationResultsV {
    pub tee: Seq<char>,
    pub policy: Seq<char>,
    pub tcb: Seq<char>,
}

impl View for AttestationResults {
    type V = AttestationResultsV;

    open spec fn view(&self) -> AttestationResultsV {
        AttestationResultsV { tee: self.tee@, policy: self.policy@, tcb: self.tcb@ }
    }
}

/// The evidence denoted by a submission text: an object carrying the
/// four string fields, each exactly once.
pub open spec fn parse_evidence_spec(s: Seq<char>) -> Option<EvidenceV> {
    match parse_object_text(s) {
        Some(ms) => match (str_field(ms, "tee"@), str_field(ms, "quote"@), str_field(ms, "ehd"@),
            str_field(ms, "aad"@)) {
            (Some(t), Some(q), Some(e), Some(a)) => Some(
                EvidenceV { tee: t, quote: q, ehd: e, aad: a },
            ),
            _ => None,
        },
        None => None,
    }
}

/// Parses a submission per `parse_evidence_spec`; anything else is
/// `MalformedEvidence`.
pub fn parse_evidence(s: &str) -> (r: Result<Evidence, Error>)
    ensures
        match r {
            Ok(ev) => parse_evidence_spec(s@) == Some(ev@),
            Err(e) => parse_evidence_spec(s@) is None && e == Error::MalformedEvidence,
        },
{
    let cs = str_to_chars(s);
    let ms = match parse_object(&cs) {
        Some(m) => m,
        None => {
            return Err(Error::MalformedEvidence);
        },
    };
    let tee = match get_str_field(&ms, "tee") {
        Some(v) => v,
        None => {
            return Err(Error::MalformedEvidence);
        },
    };
    let quote = match get_str_field(&ms, "quote") {
        Some(v) => v,
        None => {
            return Err(Error::MalformedEvidence);
        },
    };
    let ehd = match get_str_field(&ms, "ehd") {
        Some(v) => v,
        None => {
            return Err(Error::MalformedEvidence);
        },
    };
    let aad = match get_str_field(&ms, "aad") {
        Some(v) => v,
        None => {
            return Err(Error::MalformedEvidence);
        },
    };
    Ok(
        Evidence {
            tee: chars_to_string(&tee),
            quote: chars_to_string(&quote),
            ehd: chars_to_string(&ehd),
            aad: chars_to_string(&aad),
        },
    )
}

/// The wire form of a result document.
pub open spec fn ser_results(r: AttestationResultsV) -> Seq<char> {
    "{\"tee\":"@ + ser_string(r.tee) + ",\"policy\":"@ + ser_string(r.policy) + ",\"tcb\":"@
        + ser_string(r.tcb) + seq!['}']
}

/// Prints a result document per `ser_results`.
pub fn results_to_json(r: &AttestationResults) -> (s: String)
    ensures
        s@ == ser_results(r@),
{
    let mut out: Vec<char> = Vec::new();
    push_str(&mut out, "{\"tee\":");
    let tee = str_to_chars(r.tee.as_str());
    push_json_string(&mut out, &tee);
    push_str(&mut out, ",\"policy\":");
    let policy = str_to_chars(r.policy.as_str());
    push_json_string(&mut out, &policy);
    push_str(&mut out, ",\"tcb\":");
    let tcb = str_to_chars(r.tcb.as_str());
    push_json_string(&mut out, &tcb);
    out.push('}');
    proof {
        assert(out@ =~= ser_results(r@));
    }
    chars_to_string(&out)
}

/// What one attestation call denotes: parse the submission, route it,
/// print the result.
pub open spec fn attest_spec(
    v: crate::tee::Verifiers,
    c: Map<Seq<char>, Seq<char>>,
    s: Seq<char>,
) -> Result<Seq<char>, Error> {
    match parse_evidence_spec(s) {
        Some(ev) => match crate::tee::dispatch_spec(v, c, ev) {
            Ok(res) => Ok(ser_results(res)),
            Err(e) => Err(e),
        },
        None => Err(Error::MalformedEvidence),
    }
}

/// Whether one attestation call consults the policy evaluator.
pub open spec fn attest_consults(
    v: crate::tee::Verifiers,
    c: Map<Seq<char>, Seq<char>>,
    s: Seq<char>,
) -> bool {
    match parse_evidence_spec(s) {
        Some(ev) => crate::tee::consults_evaluator(v, c, ev),
        None => false,
    }
}

/// The attestation engine: the verifiers of every known TEE.
pub struct Attestation {
    pub verifiers: crate::tee::Verifiers,
}

impl Attestation {
    /// Builds the verifiers under `workdir`, bootstrapping each TEE's
    /// artifacts; an artifact already in the store is never altered.
    pub fn new(workdir: String, disk: &mut Disk) -> (r: Result<Attestation, Error>)
        ensures
            r matches Ok(a) ==> a.verifiers.tdx.workdir@ == workdir@ && a.verifiers.sgx.workdir@
                == workdir@ && a.verifiers.sample.workdir@ == workdir@,
            forall|k: Seq<char>|
                old(disk).contents().contains_key(k) ==> #[trigger] final(disk).contents().get(k)
                    == old(disk).contents().get(k),
            r is Ok ==> crate::tee::bootstrap_post(
                old(disk).contents(),
                final(disk).contents(),
                workdir@,
            ),
            old(disk).fault_plan() is None ==> r is Ok && final(disk).fault_plan() is None,
    {
        match crate::tee::Verifiers::new(workdir, disk) {
            Ok(v) => Ok(Attestation { verifiers: v }),
            Err(e) => Err(e),
        }
    }

    /// Deserializes one submission, routes it, and serializes the
    /// result.  The whole call is `attest_spec` of the store and the
    /// submission text.
    pub fn evaluate(&self, disk: &Disk, engine: &mut crate::tee::opa::Opa, evidence: &String) -> (r:
        Result<String, Error>)
        ensures
            match r {
                Ok(s) => attest_spec(self.verifiers, disk.contents(), evidence@) == Ok::<Seq<char>, Error>(s@),
                Err(e) => attest_spec(self.verifiers, disk.contents(), evidence@) == Err::<Seq<char>, Error>(e),
            },
            final(engine).calls@ == old(engine).calls@ + (
            if attest_consults(self.verifiers, disk.contents(), evidence@) {
                1nat
            } else {
                0nat
            }),
    {
        let ev = match parse_evidence(evidence.as_str()) {
            Ok(ev) => ev,
            Err(e) => {
                return Err(e);
            },
        };
        let results = match self.verifiers.evaluate(disk, engine, &ev) {
            Ok(res) => res,
            Err(e) => {
                return Err(e);
            },
        };
        Ok(results_to_json(&results))
    }
}

} // verus!
