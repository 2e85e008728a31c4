//! The reference TEE verifier.
//!
//! The sample TEE's quote is a structured stand-in for a hardware
//! quote: a debuggability flag, two security-version numbers, and a
//! report-data field binding the quote to the request's nonce.  Its
//! verifier is the fully specified reference pipeline: identity check,
//! TCB extraction, policy evaluation, decision assembly.

use vstd::prelude::*;
use vstd::string::StringExecFns;
use crate::Error;
use crate::chars::{str_to_chars, chars_to_string, dec_rep};
use crate::json::{
    parse_object_text, parse_object, str_field, bool_field, u64_field, get_str_field,
    get_bool_field, get_u64_field, ser_string, ser_bool, push_str, push_json_string, push_bool,
    push_dec,
};
use crate::fs::Disk;
use crate::attestation::{Evidence, EvidenceV, AttestationResults, AttestationResultsV};
use crate::tee::opa::{Opa, opa_eval};

verus! {

/// The extra host data bound into a quote: the request nonce and the
/// caller's public key, both opaque strings.
pub struct Ehd {
    pub nonce: String,
    pub public_key: String,
}

/// The mathematical value of an `Ehd`.
pub struct EhdV {
    pub nonce: Seq<char>,
    pub public_key: Seq<char>,
}

impl View for Ehd {
    type V = EhdV;

    open spec fn view(&self) -> EhdV {
        EhdV { nonce: self.nonce@, public_key: self.public_key@ }
    }
}

/// The trusted-computing-base claims extracted from a sample quote.
pub struct Tcb {
    pub is_debuggable: bool,
    pub cpusvn: u64,
    pub svn: u64,
}

/// The mathematical value of a `Tcb`.
pub struct TcbV {
    pub is_debuggable: bool,
    pub cpusvn: u64,
    pub svn: u64,
}

impl View for Tcb {
    type V = TcbV;

    open spec fn view(&self) -> TcbV {
        TcbV { is_debuggable: self.is_debuggable, cpusvn: self.cpusvn, svn: self.svn }
    }
}

/// A sample TEE quote.
pub struct Quote {
    pub is_debuggable: bool,
    pub cpusvn: u64,
    pub svn: u64,
    pub report_data: String,
}

/// The mathematical value of a `Quote`.
pub struct QuoteV {
    pub is_debuggable: bool,
    pub cpusvn: u64,
    pub svn: u64,
    pub report_data: Seq<char>,
}

impl View for Quote {
    type V = QuoteV;

    open spec fn view(&self) -> QuoteV {
        QuoteV {
            is_debuggable: self.is_debuggable,
            cpusvn: self.cpusvn,
            svn: self.svn,
            report_data: self.report_data@,
        }
    }
}

/// The policy decision attached to a result document.
pub struct Policy {
    pub allow: bool,
    pub name: String,
    pub hash: String,
    pub diagnose: String,
}

/// The mathematical value of a `Policy`.
pub struct PolicyV {
    pub allow: bool,
    pub name: Seq<char>,
    pub hash: Seq<char>,
    pub diagnose: Seq<char>,
}

impl View for Policy {
    type V = PolicyV;

    open spec fn view(&self) -> PolicyV {
        PolicyV {
            allow: self.allow,
            name: self.name@,
            hash: self.hash@,
            diagnose: self.diagnose@,
        }
    }
}

// ------------------------------------------------------------------
// Schema parsing.
// ------------------------------------------------------------------

/// The quote denoted by a quote text.
pub open spec fn parse_quote_spec(s: Seq<char>) -> Option<QuoteV> {
    match parse_object_text(s) {
        Some(ms) => match (bool_field(ms, "is_debuggable"@), u64_field(ms, "cpusvn"@), u64_field(
            ms,
            "svn"@,
        ), str_field(ms, "report_data"@)) {
            (Some(d), Some(c), Some(v), Some(rd)) => Some(
                QuoteV { is_debuggable: d, cpusvn: c, svn: v, report_data: rd },
            ),
            _ => None,
        },
        None => None,
    }
}

/// The extra host data denoted by an ehd text.
pub open spec fn parse_ehd_spec(s: Seq<char>) -> Option<EhdV> {
    match parse_object_text(s) {
        Some(ms) => match (str_field(ms, "nonce"@), str_field(ms, "public_key"@)) {
            (Some(n), Some(p)) => Some(EhdV { nonce: n, public_key: p }),
            _ => None,
        },
        None => None,
    }
}

/// Parses a quote text per `parse_quote_spec`.
pub fn parse_quote(s: &str) -> (r: Option<Quote>)
    ensures
        match r {
            Some(q) => parse_quote_spec(s@) == Some(q@),
            None => parse_quote_spec(s@) is None,
        },
{
    let cs = str_to_chars(s);
    let ms = match parse_object(&cs) {
        Some(m) => m,
        None => {
            return None;
        },
    };
    let is_debuggable = match get_bool_field(&ms, "is_debuggable") {
        Some(v) => v,
        None => {
            return None;
        },
    };
    let cpusvn = match get_u64_field(&ms, "cpusvn") {
        Some(v) => v,
        None => {
            return None;
        },
    };
    let svn = match get_u64_field(&ms, "svn") {
        Some(v) => v,
        None => {
            return None;
        },
    };
    let report_data = match get_str_field(&ms, "report_data") {
        Some(v) => v,
        None => {
            return None;
        },
    };
    Some(Quote { is_debuggable, cpusvn, svn, report_data: chars_to_string(&report_data) })
}

/// Parses an ehd text per `parse_ehd_spec`.
pub fn parse_ehd(s: &str) -> (r: Option<Ehd>)
    ensures
        match r {
            Some(h) => parse_ehd_spec(s@) == Some(h@),
            None => parse_ehd_spec(s@) is None,
        },
{
    let cs = str_to_chars(s);
    let ms = match parse_object(&cs) {
        Some(m) => m,
        None => {
            return None;
        },
    };
    let nonce = match get_str_field(&ms, "nonce") {
        Some(v) => v,
        None => {
            return None;
        },
    };
    let public_key = match get_str_field(&ms, "public_key") {
        Some(v) => v,
        None => {
            return None;
        },
    };
    Some(Ehd { nonce: chars_to_string(&nonce), public_key: chars_to_string(&public_key) })
}

// ------------------------------------------------------------------
// The verification pipeline.
// ------------------------------------------------------------------

/// The TCB extracted from a quote.  Extraction is the sole step that
/// turns quote claims into trusted data: the debuggability flag and
/// the two security-version numbers are carried straight over.
pub open spec fn tcb_of(q: QuoteV) -> TcbV {
    TcbV { is_debuggable: q.is_debuggable, cpusvn: q.cpusvn, svn: q.svn }
}

/// Extracts the TCB claims from a quote text.
pub fn tcb_status(quote: &String) -> (r: Result<Tcb, Error>)
    ensures
        match parse_quote_spec(quote@) {
            Some(q) => r matches Ok(t) && t@ == tcb_of(q),
            None => r == Err::<Tcb, Error>(Error::MalformedEvidence),
        },
{
    match parse_quote(quote.as_str()) {
        Some(q) => Ok(Tcb { is_debuggable: q.is_debuggable, cpusvn: q.cpusvn, svn: q.svn }),
        None => Err(Error::MalformedEvidence),
    }
}

/// Whether the evidence passes the freshness/identity gate: both
/// embedded documents parse and the quote's report data equals the
/// nonce it must be bound to.
pub open spec fn identity_ok(ev: EvidenceV) -> bool {
    match (parse_quote_spec(ev.quote), parse_ehd_spec(ev.ehd)) {
        (Some(q), Some(h)) => q.report_data == h.nonce,
        _ => false,
    }
}

/// Whether both embedded documents of the evidence parse.
pub open spec fn evidence_parses(ev: EvidenceV) -> bool {
    parse_quote_spec(ev.quote) is Some && parse_ehd_spec(ev.ehd) is Some
}

/// Checks the freshness/identity binding of the evidence.
pub fn verify(evidence: &Evidence) -> (r: Result<(), Error>)
    ensures
        r is Ok <==> identity_ok(evidence@),
        !evidence_parses(evidence@) ==> r == Err::<(), Error>(Error::MalformedEvidence),
        evidence_parses(evidence@) && !identity_ok(evidence@) ==> r == Err::<(), Error>(
            Error::IdentityVerificationFailed,
        ),
{
    let quote = match parse_quote(evidence.quote.as_str()) {
        Some(q) => q,
        None => {
            return Err(Error::MalformedEvidence);
        },
    };
    let ehd = match parse_ehd(evidence.ehd.as_str()) {
        Some(h) => h,
        None => {
            return Err(Error::MalformedEvidence);
        },
    };
    if quote.report_data == ehd.nonce {
        Ok(())
    } else {
        Err(Error::IdentityVerificationFailed)
    }
}

/// The policy-input document built from the TCB: exactly the fields
/// the installed policy compares.
pub open spec fn ser_input(t: TcbV) -> Seq<char> {
    "{\"cpusvn\":"@ + dec_rep(t.cpusvn as nat) + ",\"svn\":"@ + dec_rep(t.svn as nat)
        + seq!['}']
}

/// Prints the policy-input document per `ser_input`.
pub fn input_json(t: &Tcb) -> (s: String)
    ensures
        s@ == ser_input(t@),
{
    let mut out: Vec<char> = Vec::new();
    push_str(&mut out, "{\"cpusvn\":");
    push_dec(&mut out, t.cpusvn);
    push_str(&mut out, ",\"svn\":");
    push_dec(&mut out, t.svn);
    out.push('}');
    proof {
        assert(out@ =~= ser_input(t@));
    }
    chars_to_string(&out)
}

/// The wire form of a policy decision record.
pub open spec fn ser_policy(p: PolicyV) -> Seq<char> {
    "{\"allow\":"@ + ser_bool(p.allow) + ",\"name\":"@ + ser_string(p.name) + ",\"hash\":"@
        + ser_string(p.hash) + ",\"diagnose\":"@ + ser_string(p.diagnose) + seq!['}']
}

/// Prints a policy decision record per `ser_policy`.
pub fn policy_to_json(p: &Policy) -> (s: String)
    ensures
        s@ == ser_policy(p@),
{
    let mut out: Vec<char> = Vec::new();
    push_str(&mut out, "{\"allow\":");
    push_bool(&mut out, p.allow);
    push_str(&mut out, ",\"name\":");
    let name = str_to_chars(p.name.as_str());
    push_json_string(&mut out, &name);
    push_str(&mut out, ",\"hash\":");
    let hash = str_to_chars(p.hash.as_str());
    push_json_string(&mut out, &hash);
    push_str(&mut out, ",\"diagnose\":");
    let diagnose = str_to_chars(p.diagnose.as_str());
    push_json_string(&mut out, &diagnose);
    out.push('}');
    proof {
        assert(out@ =~= ser_policy(p@));
    }
    chars_to_string(&out)
}

/// The wire form of a TCB record.
pub open spec fn ser_tcb(t: TcbV) -> Seq<char> {
    "{\"is_debuggable\":"@ + ser_bool(t.is_debuggable) + ",\"cpusvn\":"@ + dec_rep(
        t.cpusvn as nat,
    ) + ",\"svn\":"@ + dec_rep(t.svn as nat) + seq!['}']
}

/// Prints a TCB record per `ser_tcb`.
pub fn tcb_to_json(t: &Tcb) -> (s: String)
    ensures
        s@ == ser_tcb(t@),
{
    let mut out: Vec<char> = Vec::new();
    push_str(&mut out, "{\"is_debuggable\":");
    push_bool(&mut out, t.is_debuggable);
    push_str(&mut out, ",\"cpusvn\":");
    push_dec(&mut out, t.cpusvn);
    push_str(&mut out, ",\"svn\":");
    push_dec(&mut out, t.svn);
    out.push('}');
    proof {
        assert(out@ =~= ser_tcb(t@));
    }
    chars_to_string(&out)
}

/// The `allow` verdict carried by a decision document, when it is an
/// object holding the boolean field exactly once.
pub open spec fn decision_allow(d: Seq<char>) -> Option<bool> {
    match parse_object_text(d) {
        Some(ms) => bool_field(ms, "allow"@),
        None => None,
    }
}

/// The result document assembled from a TCB and a decision text.
pub open spec fn results_of(t: TcbV, d: Seq<char>, b: bool) -> AttestationResultsV {
    AttestationResultsV {
        tee: "sample"@,
        policy: ser_policy(
            PolicyV { allow: b, name: "policy.rego"@, hash: Seq::empty(), diagnose: d },
        ),
        tcb: ser_tcb(t),
    }
}

/// Merges the extracted TCB with the evaluator's decision.
///
/// The decision must carry a boolean `allow` verdict; the whole
/// decision text is kept as the diagnostic record.  A decision without
/// one is a `PolicyEvaluationError`, never an `allow`.
pub fn attestation_results(tcb: &Tcb, evaluation: String) -> (r: Result<AttestationResults, Error>)
    ensures
        match decision_allow(evaluation@) {
            Some(b) => r matches Ok(res) && res@ == results_of(tcb@, evaluation@, b),
            None => r == Err::<AttestationResults, Error>(Error::PolicyEvaluationError),
        },
{
    let cs = str_to_chars(evaluation.as_str());
    let ms = match parse_object(&cs) {
        Some(m) => m,
        None => {
            return Err(Error::PolicyEvaluationError);
        },
    };
    let allow = match get_bool_field(&ms, "allow") {
        Some(b) => b,
        None => {
            return Err(Error::PolicyEvaluationError);
        },
    };
    let policy = Policy {
        allow,
        name: String::from_str("policy.rego"),
        hash: String::new(),
        diagnose: evaluation,
    };
    let results = AttestationResults {
        tee: String::from_str("sample"),
        policy: policy_to_json(&policy),
        tcb: tcb_to_json(tcb),
    };
    Ok(results)
}

// ------------------------------------------------------------------
// The verifier itself.
// ------------------------------------------------------------------

/// The sample TEE's artifact directory under a workdir.
pub open spec fn sample_dir(w: Seq<char>) -> Seq<char> {
    w + "/opa/sample"@
}

/// The sample TEE's policy path under a workdir.
pub open spec fn sample_policy_path(w: Seq<char>) -> Seq<char> {
    w + "/opa/sample/policy.rego"@
}

/// The sample TEE's reference-data path under a workdir.
pub open spec fn sample_reference_path(w: Seq<char>) -> Seq<char> {
    w + "/opa/sample/reference"@
}

/// The sample TEE's two artifact paths never coincide.
pub proof fn lemma_sample_paths_distinct(w: Seq<char>)
    ensures
        sample_policy_path(w) != sample_reference_path(w),
{
    reveal_strlit("/opa/sample/policy.rego");
    reveal_strlit("/opa/sample/reference");
    assert(sample_policy_path(w).len() == w.len() + 23);
    assert(sample_reference_path(w).len() == w.len() + 21);
}

/// The built-in sample policy: deny unless both security-version
/// numbers reach the reference baseline.
pub open spec fn default_policy_spec() -> Seq<char> {
    "\npackage policy\n\n# By default, deny requests.\ndefault allow = false\n\nallow {\n    input.cpusvn >= data.cpusvn\n    input.svn >= data.svn\n}\n"@
}

/// The built-in sample reference data: a zero baseline.
pub open spec fn default_reference_spec() -> Seq<char> {
    "{\n    \"cpusvn\": 0,\n    \"svn\": 0\n}"@
}

/// The built-in sample policy text.
pub fn default_policy() -> (r: String)
    ensures
        r@ == default_policy_spec(),
{
    String::from_str(
        "\npackage policy\n\n# By default, deny requests.\ndefault allow = false\n\nallow {\n    input.cpusvn >= data.cpusvn\n    input.svn >= data.svn\n}\n",
    )
}

/// The built-in sample reference-data text.
pub fn default_reference() -> (r: String)
    ensures
        r@ == default_reference_spec(),
{
    String::from_str("{\n    \"cpusvn\": 0,\n    \"svn\": 0\n}")
}

/// What the whole sample evaluation denotes, given the stored policy
/// text, the stored reference text and the evidence.
pub open spec fn sample_eval_spec(policy: Seq<char>, reference: Seq<char>, ev: EvidenceV) -> Result<
    AttestationResultsV,
    Error,
> {
    if !evidence_parses(ev) {
        Err(Error::MalformedEvidence)
    } else if !identity_ok(ev) {
        Err(Error::IdentityVerificationFailed)
    } else {
        let t = tcb_of(parse_quote_spec(ev.quote)->0);
        match opa_eval(policy, reference, ser_input(t)) {
            Some(d) => match decision_allow(d) {
                Some(b) => Ok(results_of(t, d, b)),
                None => Err(Error::PolicyEvaluationError),
            },
            None => Err(Error::PolicyEvaluationError),
        }
    }
}

/// What the sample verifier returns for a store and a submission: the
/// identity gate first, then the bootstrap-guaranteed artifacts, then
/// the policy pipeline.
pub open spec fn sample_verify_spec(
    c: Map<Seq<char>, Seq<char>>,
    w: Seq<char>,
    ev: EvidenceV,
) -> Result<AttestationResultsV, Error> {
    if !evidence_parses(ev) {
        Err(Error::MalformedEvidence)
    } else if !identity_ok(ev) {
        Err(Error::IdentityVerificationFailed)
    } else if !(c.contains_key(sample_policy_path(w)) && c.contains_key(
        sample_reference_path(w),
    )) {
        Err(Error::NotFound)
    } else {
        sample_eval_spec(c[sample_policy_path(w)], c[sample_reference_path(w)], ev)
    }
}

/// The view of a result as a value.
pub open spec fn res_view(r: Result<AttestationResults, Error>) -> Result<
    AttestationResultsV,
    Error,
> {
    match r {
        Ok(a) => Ok(a@),
        Err(e) => Err(e),
    }
}

/// Whether `pre` and `post` are related as one sample bootstrap under
/// workdir `w`: both artifacts present afterwards — an existing one
/// byte-identical, an absent one freshly holding its built-in default —
/// and every other path untouched.
pub open spec fn sample_bootstrap_post(
    pre: Map<Seq<char>, Seq<char>>,
    post: Map<Seq<char>, Seq<char>>,
    w: Seq<char>,
) -> bool {
    &&& post.get(sample_policy_path(w)) == Some(
        if pre.contains_key(sample_policy_path(w)) {
            pre[sample_policy_path(w)]
        } else {
            default_policy_spec()
        },
    )
    &&& post.get(sample_reference_path(w)) == Some(
        if pre.contains_key(sample_reference_path(w)) {
            pre[sample_reference_path(w)]
        } else {
            default_reference_spec()
        },
    )
    &&& (forall|k: Seq<char>|
        k != sample_policy_path(w) && k != sample_reference_path(w) ==> #[trigger] post.get(k) == pre.get(k))
}

/// Bootstrap idempotence for the sample TEE: once its artifacts exist, a
/// further bootstrap changes nothing — every file is byte-identical
/// before and after; chaining this covers any number of repetitions.
pub proof fn lemma_sample_default_idempotent(
    pre: Map<Seq<char>, Seq<char>>,
    mid: Map<Seq<char>, Seq<char>>,
    post: Map<Seq<char>, Seq<char>>,
    w: Seq<char>,
)
    requires
        sample_bootstrap_post(pre, mid, w),
        sample_bootstrap_post(mid, post, w),
    ensures
        forall|k: Seq<char>| #[trigger] post.get(k) == mid.get(k),
{
    assert forall|k: Seq<char>| #[trigger] post.get(k) == mid.get(k) by {
        if k == sample_policy_path(w) || k == sample_reference_path(w) {
            assert(mid.contains_key(k));
        }
    }
}

/// The verifier for the sample TEE.
pub struct Sample {
    pub workdir: String,
}

impl Sample {
    /// Builds the verifier for `dir` and bootstraps its artifacts.
    pub fn new(dir: String, disk: &mut Disk) -> (r: Result<Sample, Error>)
        ensures
            forall|k: Seq<char>|
                k != sample_policy_path(dir@) && k != sample_reference_path(dir@)
                    ==> #[trigger] final(disk).contents().get(k) == old(disk).contents().get(k),
            old(disk).contents().contains_key(sample_policy_path(dir@)) ==> final(disk).contents().get(sample_policy_path(dir@)) == old(disk).contents().get(
                sample_policy_path(dir@),
            ),
            old(disk).contents().contains_key(sample_reference_path(dir@)) ==> final(disk).contents().get(sample_reference_path(dir@)) == old(disk).contents().get(
                sample_reference_path(dir@),
            ),
            r matches Ok(s) ==> s.workdir@ == dir@,
            r is Ok ==> sample_bootstrap_post(
                old(disk).contents(),
                final(disk).contents(),
                dir@,
            ),
            old(disk).fault_plan() is None ==> r is Ok && final(disk).fault_plan() is None,
    {
        let sample = Sample { workdir: dir };
        match sample.default(disk) {
            Ok(()) => Ok(sample),
            Err(e) => Err(e),
        }
    }

    /// The sample TEE's artifact directory.
    pub fn opa_path(&self) -> (r: Result<String, Error>)
        ensures
            r matches Ok(p) && p@ == sample_dir(self.workdir@),
    {
        let mut p = self.workdir.clone();
        p.append("/opa/sample");
        Ok(p)
    }

    /// The sample TEE's policy path.
    pub fn opa_policy_path(&self) -> (r: Result<String, Error>)
        ensures
            r matches Ok(p) && p@ == sample_policy_path(self.workdir@),
    {
        let mut p = self.workdir.clone();
        p.append("/opa/sample/policy.rego");
        Ok(p)
    }

    /// The sample TEE's reference-data path.
    pub fn opa_reference_data_path(&self) -> (r: Result<String, Error>)
        ensures
            r matches Ok(p) && p@ == sample_reference_path(self.workdir@),
    {
        let mut p = self.workdir.clone();
        p.append("/opa/sample/reference");
        Ok(p)
    }

    /// Writes the built-in policy and reference data, each if and only
    /// if its file is currently absent.  An existing artifact is never
    /// touched, whatever the medium does.
    pub fn default(&self, disk: &mut Disk) -> (r: Result<(), Error>)
        ensures
            forall|k: Seq<char>|
                k != sample_policy_path(self.workdir@) && k != sample_reference_path(
                    self.workdir@,
                ) ==> #[trigger] final(disk).contents().get(k) == old(disk).contents().get(k),
            old(disk).contents().contains_key(sample_policy_path(self.workdir@)) ==> final(disk).contents().get(sample_policy_path(self.workdir@)) == old(disk).contents().get(
                sample_policy_path(self.workdir@),
            ),
            old(disk).contents().contains_key(sample_reference_path(self.workdir@)) ==> final(disk).contents().get(sample_reference_path(self.workdir@)) == old(disk).contents().get(
                sample_reference_path(self.workdir@),
            ),
            r is Ok ==> sample_bootstrap_post(
                old(disk).contents(),
                final(disk).contents(),
                self.workdir@,
            ),
            old(disk).fault_plan() is None ==> r is Ok && final(disk).fault_plan() is None,
    {
        proof {
            lemma_sample_paths_distinct(self.workdir@);
        }
        let pp = match self.opa_policy_path() {
            Ok(p) => p,
            Err(e) => {
                return Err(e);
            },
        };
        if !disk.has_file(pp.as_str()) {
            let policy = default_policy();
            match disk.write(pp.as_str(), policy.as_str()) {
                Ok(()) => {},
                Err(e) => {
                    return Err(e);
                },
            }
        }
        let rp = match self.opa_reference_data_path() {
            Ok(p) => p,
            Err(e) => {
                return Err(e);
            },
        };
        if !disk.has_file(rp.as_str()) {
            let reference = default_reference();
            match disk.write(rp.as_str(), reference.as_str()) {
                Ok(()) => {},
                Err(e) => {
                    return Err(e);
                },
            }
        }
        Ok(())
    }

    /// Runs the whole verification pipeline on one submission.
    ///
    /// The identity gate comes first: evidence that fails it never
    /// reaches the policy evaluator, as the engine's call counter
    /// records.  With both artifacts in the store, the outcome is
    /// exactly `sample_eval_spec` of the stored texts and the evidence.
    pub fn evaluate(&self, disk: &Disk, opa: &mut Opa, evidence: &Evidence) -> (r: Result<
        AttestationResults,
        Error,
    >)
        ensures
            res_view(r) == sample_verify_spec(disk.contents(), self.workdir@, evidence@),
            final(opa).calls@ == old(opa).calls@ + (
            if identity_ok(evidence@) && disk.contents().contains_key(
                sample_policy_path(self.workdir@),
            ) && disk.contents().contains_key(sample_reference_path(self.workdir@)) {
                1nat
            } else {
                0nat
            }),
    {
        match verify(evidence) {
            Ok(()) => {},
            Err(e) => {
                return Err(e);
            },
        }
        let tcb = match tcb_status(&evidence.quote) {
            Ok(t) => t,
            Err(e) => {
                return Err(e);
            },
        };
        let input = input_json(&tcb);
        let pp = match self.opa_policy_path() {
            Ok(p) => p,
            Err(e) => {
                return Err(e);
            },
        };
        let policy = match crate::fs::get(disk, pp.as_str()) {
            Ok(p) => p,
            Err(e) => {
                return Err(e);
            },
        };
        let rp = match self.opa_reference_data_path() {
            Ok(p) => p,
            Err(e) => {
                return Err(e);
            },
        };
        let reference = match crate::fs::get(disk, rp.as_str()) {
            Ok(p) => p,
            Err(e) => {
                return Err(e);
            },
        };
        let evaluation = match opa.evaluate(policy.as_str(), reference.as_str(), input.as_str()) {
            Ok(d) => d,
            Err(e) => {
                return Err(e);
            },
        };
        attestation_results(&tcb, evaluation)
    }
}

} // verus!
