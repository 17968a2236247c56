//! The backend for the Security framework.
//!
//! The framework itself is asked elsewhere. What it answered comes in here as
//! plain data (whether a target resolved, and a `TrustReport` of the check
//! made on it) and leaves as a `Context` or as one of the library's errors.

use crate::macos::context::{Certificate, Context, ContextView};
use crate::value::Dictionary;
use crate::{Error, NativeError};
use vstd::prelude::*;

pub mod context;

verus! {

/// The status with which the framework says that a check found nothing
/// wrong.
#[allow(non_upper_case_globals)]
pub const errSecSuccess: i32 = 0;

/// The status with which the framework says that the code is not signed at
/// all.
#[allow(non_upper_case_globals)]
pub const errSecCSUnsigned: i32 = -67062;

/// The status with which the framework says that a sealed resource is
/// missing or invalid.
#[allow(non_upper_case_globals)]
pub const errSecCSBadResource: i32 = -67054;

/// What a verifier is about to check.
#[derive(Debug, PartialEq, Eq)]
pub enum Target {
    /// The file, or the application bundle, at a path.
    File(String),
    /// The running process with an identifier.
    Process(i32),
}

/// The model of a `Target`.
pub ghost enum TargetView {
    File(Seq<char>),
    Process(int),
}

impl View for Target {
    type V = TargetView;

    open spec fn view(&self) -> TargetView {
        match self {
            Target::File(path) => TargetView::File(path@),
            Target::Process(pid) => TargetView::Process(*pid as int),
        }
    }
}

/// What the framework answered to one check of a target against a
/// requirement.
#[derive(Debug, PartialEq, Eq)]
pub enum TrustReport {
    /// The framework could not make the check, and left an error of its own.
    Failed(NativeError),
    /// The framework made the check.
    Checked {
        /// The status of the check.
        status: i32,
        /// The certificates of the signature, the leaf first.
        certificates: Vec<Certificate>,
        /// The signing information of the code.
        info: Dictionary,
    },
}

/// What a check comes to. A report of a failure passes the framework's error
/// on. A status other than success is an error: `Unsigned` where it says that
/// there is no signature, `OsError` with the status otherwise. A successful
/// check without a certificate is `LeafCertNotFound`. Any other gives a
/// context over the first certificate and the signing information.
pub open spec fn spec_verify(report: TrustReport) -> Result<ContextView, Error> {
    match report {
        TrustReport::Failed(error) => Err(Error::CFError(error)),
        TrustReport::Checked { status, certificates, info } => {
            if status == errSecCSUnsigned {
                Err(Error::Unsigned)
            } else if status != errSecSuccess {
                Err(Error::OsError(status))
            } else if certificates@.len() == 0 {
                Err(Error::LeafCertNotFound)
            } else {
                Ok(
                    ContextView {
                        cert: certificates@[0].der@,
                        dict: certificates@[0].values@,
                        all: info@,
                    },
                )
            }
        },
    }
}

/// The outcome of a verification, the context by its view.
pub open spec fn spec_outcome(outcome: Result<Context, Error>) -> Result<ContextView, Error> {
    match outcome {
        Ok(context) => Ok(context@),
        Err(error) => Err(error),
    }
}

/// A target that resolved, ready for one verification.
pub struct Verifier {
    target: Target,
}

impl View for Verifier {
    type V = TargetView;

    closed spec fn view(&self) -> TargetView {
        self.target@
    }
}

impl Verifier {
    /// A verifier for the file or bundle at `path`. `resolved` says whether
    /// the framework found code there; where it did not, the path is
    /// invalid.
    pub fn for_file(path: &str, resolved: bool) -> (verifier: Result<Self, Error>)
        ensures
            resolved ==> verifier is Ok && verifier->Ok_0@ == TargetView::File(path@),
            !resolved ==> verifier == Err::<Self, Error>(Error::InvalidPath),
    {
        if resolved {
            Ok(Verifier { target: Target::File(path.to_owned()) })
        } else {
            Err(Error::InvalidPath)
        }
    }

    /// A verifier for the running process `pid`. `resolved` says whether the
    /// framework found that process; where it did not, the path is invalid.
    pub fn for_pid(pid: i32, resolved: bool) -> (verifier: Result<Self, Error>)
        ensures
            resolved ==> verifier is Ok && verifier->Ok_0@ == TargetView::Process(pid as int),
            !resolved ==> verifier == Err::<Self, Error>(Error::InvalidPath),
    {
        if resolved {
            Ok(Verifier { target: Target::Process(pid) })
        } else {
            Err(Error::InvalidPath)
        }
    }

    /// The requirement to hand to the framework for `requirement`: none for
    /// the empty text, which asks for the framework's default policy, and
    /// else the text as it is. The framework reads it; this library does not.
    pub fn requirement_expression(requirement: &str) -> (expression: Option<&str>)
        ensures
            requirement@.len() == 0 ==> expression is None,
            requirement@.len() != 0 ==> expression is Some && expression->Some_0@ == requirement@,
    {
        if requirement.is_empty() {
            None
        } else {
            Some(requirement)
        }
    }

    /// What this verifier checks.
    pub fn target(&self) -> (target: &Target)
        ensures
            target@ == self@,
    {
        &self.target
    }

    /// Ends the verification: `report` is what the framework answered when it
    /// checked this verifier's target against `requirement`. The requirement
    /// is the framework's to read; the outcome goes by the report alone.
    pub fn verify(self, requirement: &str, report: TrustReport) -> (outcome: Result<Context, Error>)
        ensures
            spec_outcome(outcome) == spec_verify(report),
    {
        match report {
            TrustReport::Failed(error) => Err(Error::CFError(error)),
            TrustReport::Checked { status, certificates, info } => {
                if status == errSecCSUnsigned {
                    Err(Error::Unsigned)
                } else if status != errSecSuccess {
                    Err(Error::OsError(status))
                } else if certificates.len() == 0 {
                    Err(Error::LeafCertNotFound)
                } else {
                    let mut chain = certificates;
                    let leaf = chain.swap_remove(0);
                    Ok(Context::new(leaf, info))
                }
            },
        }
    }
}

/// An `OsError` carries the provider's status as it came, and that status is
/// neither success nor the one that says "unsigned".
pub proof fn lemma_os_error_status(report: TrustReport, code: i32)
    requires
        spec_verify(report) == Err::<ContextView, Error>(Error::OsError(code)),
    ensures
        code != errSecSuccess,
        code != errSecCSUnsigned,
        report matches TrustReport::Checked { status, .. } && status == code,
{
}

} // verus!
