//! Verification of code signatures, and what the signing certificate says of
//! the signer.
//!
//! The operating system's trust provider decides whether a signature is
//! valid. This library shapes what the provider reports: it sorts the
//! provider's answer into one set of errors, and it walks the certificate's
//! property graph for the names, the serial number, the thumbprint and the
//! properties of the signed code.

use crate::macos::context::{
    spec_additional_properties, spec_name, spec_optional_pairs, spec_string, spec_thumbprint,
    Context, ContextView, SecOID,
};
use crate::macos::{spec_verify, TargetView, TrustReport, Verifier};
use vstd::prelude::*;
use vstd::std_specs::cmp::PartialEqSpecImpl;

pub use crate::macos::errSecCSBadResource;

pub mod digest;
pub mod encoding;
pub mod macos;
pub mod value;

verus! {

/// An error that the trust provider left in its own form: the domain that it
/// belongs to, its code there, and what the provider says of it.
#[derive(Debug, PartialEq, Eq)]
pub struct NativeError {
    pub domain: String,
    pub code: i64,
    pub description: String,
}

/// Why a target could not be opened, or a signature not be accepted.
#[derive(Debug, PartialEq, Eq)]
pub enum Error {
    /// The code carries no signature at all.
    Unsigned,
    /// The provider rejected the signature, with this status.
    OsError(i32),
    /// The path, or the process, could not be resolved.
    InvalidPath,
    /// The signature was accepted, but it names no leaf certificate.
    LeafCertNotFound,
    /// The provider failed in a way that this library does not sort, and
    /// left an error of its own. Not every such failure gets this far: one
    /// that the provider cannot recover from may abort the process.
    CFError(NativeError),
}

/// An issuer or subject name.
///
/// Each field is one attribute of the distinguished name, absent where the
/// certificate does not carry it:
///
/// `common_name`: OID 2.5.4.3
///
/// `organization`: OID 2.5.4.10
///
/// `organization_unit`: OID 2.5.4.11
///
/// `country`: OID 2.5.4.6
///
/// Two names are equal where all four fields are.
#[derive(Debug)]
pub struct Name {
    pub common_name: Option<String>,
    pub organization: Option<String>,
    pub organization_unit: Option<String>,
    pub country: Option<String>,
}

/// The model of a `Name`: each field by the characters it holds.
pub ghost struct NameView {
    pub common_name: Option<Seq<char>>,
    pub organization: Option<Seq<char>>,
    pub organization_unit: Option<Seq<char>>,
    pub country: Option<Seq<char>>,
}

/// The characters of an optional text.
pub open spec fn spec_text(text: Option<String>) -> Option<Seq<char>> {
    match text {
        Some(text) => Some(text@),
        None => None,
    }
}

impl View for Name {
    type V = NameView;

    open spec fn view(&self) -> NameView {
        NameView {
            common_name: spec_text(self.common_name),
            organization: spec_text(self.organization),
            organization_unit: spec_text(self.organization_unit),
            country: spec_text(self.country),
        }
    }
}

/// Whether two optional texts hold the same characters, or are both absent.
fn same_text(left: &Option<String>, right: &Option<String>) -> (same: bool)
    ensures
        same == (spec_text(*left) == spec_text(*right)),
{
    match (left, right) {
        (Some(left), Some(right)) => *left == *right,
        (None, None) => true,
        _ => false,
    }
}

impl PartialEq for Name {
    fn eq(&self, other: &Self) -> (same: bool) {
        same_text(&self.common_name, &other.common_name) && same_text(
            &self.organization,
            &other.organization,
        ) && same_text(&self.organization_unit, &other.organization_unit) && same_text(
            &self.country,
            &other.country,
        )
    }
}

impl PartialEqSpecImpl for Name {
    open spec fn obeys_eq_spec() -> bool {
        true
    }

    open spec fn eq_spec(&self, other: &Self) -> bool {
        self@ == other@
    }
}

impl Eq for Name {

}

/// Used to verify the validity of a code signature.
pub struct CodeSignVerifier(Verifier);

/// Used to extract additional information from the signing leaf certificate.
pub struct SignatureContext(Context);

impl View for CodeSignVerifier {
    type V = TargetView;

    closed spec fn view(&self) -> TargetView {
        self.0@
    }
}

impl View for SignatureContext {
    type V = ContextView;

    closed spec fn view(&self) -> ContextView {
        self.0@
    }
}

/// The outcome of a verification, the context by its view.
pub open spec fn spec_outcome(outcome: Result<SignatureContext, Error>) -> Result<
    ContextView,
    Error,
> {
    match outcome {
        Ok(context) => Ok(context@),
        Err(error) => Err(error),
    }
}

impl CodeSignVerifier {
    /// Create a verifier for a binary at a given path, which can be either a
    /// binary or an application package. `resolved` says whether the trust
    /// provider found code at the path.
    pub fn for_file(path: &str, resolved: bool) -> (verifier: Result<Self, Error>)
        ensures
            resolved ==> verifier is Ok && verifier->Ok_0@ == TargetView::File(path@),
            !resolved ==> verifier == Err::<Self, Error>(Error::InvalidPath),
    {
        match Verifier::for_file(path, resolved) {
            Ok(verifier) => Ok(CodeSignVerifier(verifier)),
            Err(error) => Err(error),
        }
    }

    /// Create a verifier for a running application by PID. `resolved` says
    /// whether the trust provider found the process.
    pub fn for_pid(pid: i32, resolved: bool) -> (verifier: Result<Self, Error>)
        ensures
            resolved ==> verifier is Ok && verifier->Ok_0@ == TargetView::Process(pid as int),
            !resolved ==> verifier == Err::<Self, Error>(Error::InvalidPath),
    {
        match Verifier::for_pid(pid, resolved) {
            Ok(verifier) => Ok(CodeSignVerifier(verifier)),
            Err(error) => Err(error),
        }
    }

    /// Perform the verification itself: `report` is what the trust provider
    /// answered when it checked the target against `requirement`. The
    /// verifier is used up.
    pub fn verify(self, requirement: &str, report: TrustReport) -> (outcome: Result<
        SignatureContext,
        Error,
    >)
        ensures
            spec_outcome(outcome) == spec_verify(report),
    {
        match self.0.verify(requirement, report) {
            Ok(context) => Ok(SignatureContext(context)),
            Err(error) => Err(error),
        }
    }
}

impl SignatureContext {
    /// Retrieve the subject name on the leaf certificate.
    pub fn subject_name(&self) -> (name: Name)
        ensures
            name@ == spec_name(self@.dict, SecOID::SubjectName.spec_key()),
    {
        self.0.subject_name()
    }

    /// Retrieve the issuer name on the leaf certificate.
    pub fn issuer_name(&self) -> (name: Name)
        ensures
            name@ == spec_name(self@.dict, SecOID::IssuerName.spec_key()),
    {
        self.0.issuer_name()
    }

    /// Compute the sha256 thumbprint of the leaf certificate.
    pub fn sha256_thumbprint(&self) -> (thumbprint: String)
        ensures
            thumbprint@ == spec_thumbprint(self@.cert),
            thumbprint@.len() == 64,
    {
        self.0.sha256_thumbprint()
    }

    /// Retrieve the leaf certificate serial number.
    pub fn serial(&self) -> (serial: Option<String>)
        ensures
            spec_text(serial) == spec_string(self@.dict, SecOID::Serial.spec_key()),
    {
        self.0.serial()
    }

    /// Additional properties, each a name and a text: none at all where the
    /// signing information holds no code-directory hash, and else `cd_hash`
    /// with those of `bundle_id`, `short_version`, `bundle_version`,
    /// `team_id` and `platform_id` that the signing information has. Which
    /// names occur goes by the backend and by the signed code: count on
    /// `cd_hash` alone.
    pub fn additional_properties(&self) -> (properties: Option<Vec<(String, String)>>)
        ensures
            spec_optional_pairs(properties) == spec_additional_properties(self@.all),
    {
        self.0.additional_properties()
    }
}

} // verus!
