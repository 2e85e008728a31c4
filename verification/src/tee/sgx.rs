//! The SGX TEE verifier.
//!
//! The data model — TCB claims with enclave measurements and the
//! collateral hashes that corroborate a hardware quote — is in place,
//! but quote-signature verification is a named extension point:
//! evaluation fails fast with `NotImplemented` and never reaches the
//! policy evaluator.

use vstd::prelude::*;
use vstd::string::StringExecFns;
use crate::Error;
use crate::fs::Disk;
use crate::attestation::{Evidence, AttestationResults};
use crate::tee::opa::Opa;

verus! {

/// The policy decision attached to a result document.
pub struct Policy {
    pub allow: bool,
    pub name: String,
    pub hash: String,
    pub diagnose: String,
}

/// Hashes of the certificate chains, revocation lists, quoting-enclave
/// identity and quote that corroborate a hardware quote.
pub struct Collateral {
    pub qeidcertshash: String,
    pub qeidcrlhash: String,
    pub qeidhash: String,
    pub quotehash: String,
    pub tcbinfocertshash: String,
    pub tcbinfocrlhash: String,
    pub tcbinfohash: String,
}

/// The extra host data bound into a quote.
pub struct Ehd {
    pub nonce: String,
    pub public_key: String,
}

/// The trusted-computing-base claims of an SGX quote.
pub struct Tcb {
    pub collateral: Collateral,
    pub ehd: Ehd,
    pub is_debuggable: bool,
    pub mrenclave: String,
    pub mrsigner: String,
    pub product_id: u64,
    pub cpusvn: u64,
    pub svn: u64,
}

/// The SGX artifact directory under a workdir.
pub open spec fn sgx_dir(w: Seq<char>) -> Seq<char> {
    w + "/opa/sgx"@
}

/// The SGX policy path under a workdir.
pub open spec fn sgx_policy_path(w: Seq<char>) -> Seq<char> {
    w + "/opa/sgx/policy.rego"@
}

/// The SGX reference-data path under a workdir.
pub open spec fn sgx_reference_path(w: Seq<char>) -> Seq<char> {
    w + "/opa/sgx/reference"@
}

/// The SGX artifact paths never coincide.
pub proof fn lemma_sgx_paths_distinct(w: Seq<char>)
    ensures
        sgx_policy_path(w) != sgx_reference_path(w),
{
    reveal_strlit("/opa/sgx/policy.rego");
    reveal_strlit("/opa/sgx/reference");
    assert(sgx_policy_path(w).len() == w.len() + 20);
    assert(sgx_reference_path(w).len() == w.len() + 18);
}

/// The built-in SGX policy: deny unless the measurements are granted
/// and both version numbers reach the baseline.
pub open spec fn default_policy_spec() -> Seq<char> {
    "\npackage policy\n\n# By default, deny requests.\ndefault allow = false\n\nallow {\n    mrEnclave_is_grant\n    mrSigner_is_grant\n    input.productId >= data.productId\n    input.svn >= data.svn\n}\n\nmrEnclave_is_grant {\n    count(data.mrEnclave) == 0\n}\nmrEnclave_is_grant {\n    count(data.mrEnclave) > 0\n    input.mrEnclave == data.mrEnclave[_]\n}\n\nmrSigner_is_grant {\n    count(data.mrSigner) == 0\n}\nmrSigner_is_grant {\n    count(data.mrSigner) > 0\n    input.mrSigner == data.mrSigner[_]\n}\n"@
}

/// The built-in SGX reference data: empty allow-lists, zero baseline.
pub open spec fn default_reference_spec() -> Seq<char> {
    "{\n    \"mrEnclave\": [],\n    \"mrSigner\": [],\n    \"productId\": 0,\n    \"svn\": 0\n}"@
}

/// The built-in SGX policy text.
pub fn default_policy() -> (r: String)
    ensures
        r@ == default_policy_spec(),
{
    String::from_str(
        "\npackage policy\n\n# By default, deny requests.\ndefault allow = false\n\nallow {\n    mrEnclave_is_grant\n    mrSigner_is_grant\n    input.productId >= data.productId\n    input.svn >= data.svn\n}\n\nmrEnclave_is_grant {\n    count(data.mrEnclave) == 0\n}\nmrEnclave_is_grant {\n    count(data.mrEnclave) > 0\n    input.mrEnclave == data.mrEnclave[_]\n}\n\nmrSigner_is_grant {\n    count(data.mrSigner) == 0\n}\nmrSigner_is_grant {\n    count(data.mrSigner) > 0\n    input.mrSigner == data.mrSigner[_]\n}\n",
    )
}

/// The built-in SGX reference-data text.
pub fn default_reference() -> (r: String)
    ensures
        r@ == default_reference_spec(),
{
    String::from_str(
        "{\n    \"mrEnclave\": [],\n    \"mrSigner\": [],\n    \"productId\": 0,\n    \"svn\": 0\n}",
    )
}

/// Whether `pre` and `post` are related as one sgx bootstrap under
/// workdir `w`: both artifacts present afterwards — an existing one
/// byte-identical, an absent one freshly holding its built-in default —
/// and every other path untouched.
pub open spec fn sgx_bootstrap_post(
    pre: Map<Seq<char>, Seq<char>>,
    post: Map<Seq<char>, Seq<char>>,
    w: Seq<char>,
) -> bool {
    &&& post.get(sgx_policy_path(w)) == Some(
        if pre.contains_key(sgx_policy_path(w)) {
            pre[sgx_policy_path(w)]
        } else {
            default_policy_spec()
        },
    )
    &&& post.get(sgx_reference_path(w)) == Some(
        if pre.contains_key(sgx_reference_path(w)) {
            pre[sgx_reference_path(w)]
        } else {
            default_reference_spec()
        },
    )
    &&& (forall|k: Seq<char>|
        k != sgx_policy_path(w) && k != sgx_reference_path(w) ==> #[trigger] post.get(k) == pre.get(k))
}

/// Bootstrap idempotence for the sgx TEE: once its artifacts exist, a
/// further bootstrap changes nothing — every file is byte-identical
/// before and after; chaining this covers any number of repetitions.
pub proof fn lemma_sgx_default_idempotent(
    pre: Map<Seq<char>, Seq<char>>,
    mid: Map<Seq<char>, Seq<char>>,
    post: Map<Seq<char>, Seq<char>>,
    w: Seq<char>,
)
    requires
        sgx_bootstrap_post(pre, mid, w),
        sgx_bootstrap_post(mid, post, w),
    ensures
        forall|k: Seq<char>| #[trigger] post.get(k) == mid.get(k),
{
    assert forall|k: Seq<char>| #[trigger] post.get(k) == mid.get(k) by {
        if k == sgx_policy_path(w) || k == sgx_reference_path(w) {
            assert(mid.contains_key(k));
        }
    }
}

/// The verifier for the SGX TEE.
pub struct Sgx {
    pub workdir: String,
}

impl Sgx {
    /// Builds the verifier for `dir` and bootstraps its artifacts.
    pub fn new(dir: String, disk: &mut Disk) -> (r: Result<Sgx, Error>)
        ensures
            forall|k: Seq<char>|
                k != sgx_policy_path(dir@) && k != sgx_reference_path(dir@)
                    ==> #[trigger] final(disk).contents().get(k) == old(disk).contents().get(k),
            old(disk).contents().contains_key(sgx_policy_path(dir@)) ==> final(disk).contents().get(sgx_policy_path(dir@)) == old(disk).contents().get(
                sgx_policy_path(dir@),
            ),
            old(disk).contents().contains_key(sgx_reference_path(dir@)) ==> final(disk).contents().get(sgx_reference_path(dir@)) == old(disk).contents().get(
                sgx_reference_path(dir@),
            ),
            r matches Ok(s) ==> s.workdir@ == dir@,
            r is Ok ==> sgx_bootstrap_post(
                old(disk).contents(),
                final(disk).contents(),
                dir@,
            ),
            old(disk).fault_plan() is None ==> r is Ok && final(disk).fault_plan() is None,
    {
        let sgx = Sgx { workdir: dir };
        match sgx.default(disk) {
            Ok(()) => Ok(sgx),
            Err(e) => Err(e),
        }
    }

    /// Quote-signature verification is not implemented: the call fails
    /// fast, consults no artifact and never invokes the evaluator.
    pub fn evaluate(&self, disk: &Disk, opa: &mut Opa, evidence: &Evidence) -> (r: Result<
        AttestationResults,
        Error,
    >)
        ensures
            r == Err::<AttestationResults, Error>(Error::NotImplemented),
            final(opa).calls@ == old(opa).calls@,
    {
        let _ = disk;
        let _ = evidence;
        Err(Error::NotImplemented)
    }

    /// The SGX artifact directory.
    pub fn opa_path(&self) -> (r: Result<String, Error>)
        ensures
            r matches Ok(p) && p@ == sgx_dir(self.workdir@),
    {
        let mut p = self.workdir.clone();
        p.append("/opa/sgx");
        Ok(p)
    }

    /// The SGX policy path.
    pub fn opa_policy_path(&self) -> (r: Result<String, Error>)
        ensures
            r matches Ok(p) && p@ == sgx_policy_path(self.workdir@),
    {
        let mut p = self.workdir.clone();
        p.append("/opa/sgx/policy.rego");
        Ok(p)
    }

    /// The SGX reference-data path.
    pub fn opa_reference_data_path(&self) -> (r: Result<String, Error>)
        ensures
            r matches Ok(p) && p@ == sgx_reference_path(self.workdir@),
    {
        let mut p = self.workdir.clone();
        p.append("/opa/sgx/reference");
        Ok(p)
    }

    /// Writes the built-in policy and reference data, each if and only
    /// if its file is currently absent.
    pub fn default(&self, disk: &mut Disk) -> (r: Result<(), Error>)
        ensures
            forall|k: Seq<char>|
                k != sgx_policy_path(self.workdir@) && k != sgx_reference_path(self.workdir@)
                    ==> #[trigger] final(disk).contents().get(k) == old(disk).contents().get(k),
            old(disk).contents().contains_key(sgx_policy_path(self.workdir@)) ==> final(disk).contents().get(sgx_policy_path(self.workdir@)) == old(disk).contents().get(
                sgx_policy_path(self.workdir@),
            ),
            old(disk).contents().contains_key(sgx_reference_path(self.workdir@)) ==> final(disk).contents().get(sgx_reference_path(self.workdir@)) == old(disk).contents().get(
                sgx_reference_path(self.workdir@),
            ),
            r is Ok ==> sgx_bootstrap_post(
                old(disk).contents(),
                final(disk).contents(),
                self.workdir@,
            ),
            old(disk).fault_plan() is None ==> r is Ok && final(disk).fault_plan() is None,
    {
        proof {
            lemma_sgx_paths_distinct(self.workdir@);
        }
        let pp = match self.opa_policy_path() {
            Ok(p) => p,
            Err(e) => {
                return Err(e);
            },
        };
        if !disk.has_file(pp.as_str()) {
            let policy = default_policy();
            match disk.write(pp.as_str(), policy.as_str()) {
                Ok(()) => {},
                Err(e) => {
                    return Err(e);
                },
            }
        }
        let rp = match self.opa_reference_data_path() {
            Ok(p) => p,
            Err(e) => {
                return Err(e);
            },
        };
        if !disk.has_file(rp.as_str()) {
            let reference = default_reference();
            match disk.write(rp.as_str(), reference.as_str()) {
                Ok(()) => {},
                Err(e) => {
                    return Err(e);
                },
            }
        }
        Ok(())
    }
}

} // verus!
