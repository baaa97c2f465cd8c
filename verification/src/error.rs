//! The ways in which starting a package can fail.

use crate::package::{PackageIdent, PackageIdentView, PackageReference, PackageReferenceView};
use vstd::prelude::*;

verus! {

/// Why no package was started, or how its runtime ended.
///
/// Every failure reaches the caller as it is: nothing is retried and nothing
/// is replaced by a guess. The dispatcher is total over the topologies, so
/// there is no failure for a topology without a runtime.
#[derive(Clone, Debug, PartialEq, Eq)]
pub enum StartError {
    /// Neither the local cache nor a remote source has a match for the
    /// reference.
    NotFound(PackageReference),
    /// The artifact that was fetched for this identity did not pass
    /// verification.
    VerificationFailed(PackageIdent),
    /// The remote source could not be asked, or the artifact could not be
    /// fetched; holds what the transport reported.
    TransportFailure(String),
    /// The runtime reported a failure; holds its report unchanged.
    RuntimeFailure(String),
}

/// What a [`StartError`] stands for.
pub enum StartErrorView {
    NotFound(PackageReferenceView),
    VerificationFailed(PackageIdentView),
    TransportFailure(Seq<char>),
    RuntimeFailure(Seq<char>),
}

impl View for StartError {
    type V = StartErrorView;

    open spec fn view(&self) -> StartErrorView {
        match self {
            StartError::NotFound(reference) => StartErrorView::NotFound(reference@),
            StartError::VerificationFailed(ident) => StartErrorView::VerificationFailed(ident@),
            StartError::TransportFailure(detail) => StartErrorView::TransportFailure(detail@),
            StartError::RuntimeFailure(detail) => StartErrorView::RuntimeFailure(detail@),
        }
    }
}

/// The view of an outcome: success stays success, a failure is viewed.
pub open spec fn outcome_view(outcome: Result<(), StartError>) -> Result<(), StartErrorView> {
    match outcome {
        Ok(_) => Ok(()),
        Err(e) => Err(e@),
    }
}

} // verus!
