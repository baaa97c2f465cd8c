//! The values that name a package: what is wanted, what exists, and where a
//! newer one may be found.

use crate::version::{Revision, RevisionView, Version};
use vstd::prelude::*;

verus! {

/// What is wanted: an origin and a name, and optionally a version and a
/// release that the answer has to carry.
#[derive(Clone, Debug, PartialEq, Eq)]
pub struct PackageReference {
    pub origin: String,
    pub name: String,
    pub version: Option<Version>,
    pub release: Option<u64>,
}

/// What a [`PackageReference`] stands for.
pub struct PackageReferenceView {
    pub origin: Seq<char>,
    pub name: Seq<char>,
    pub version: Option<Seq<u64>>,
    pub release: Option<u64>,
}

impl View for PackageReference {
    type V = PackageReferenceView;

    open spec fn view(&self) -> PackageReferenceView {
        PackageReferenceView {
            origin: self.origin@,
            name: self.name@,
            version: match self.version {
                Some(v) => Some(v@),
                None => None,
            },
            release: self.release,
        }
    }
}

/// The full identity of one artifact: origin, name, version and release.
#[derive(Clone, Debug, PartialEq, Eq)]
pub struct PackageIdent {
    pub origin: String,
    pub name: String,
    pub revision: Revision,
}

/// What a [`PackageIdent`] stands for.
pub struct PackageIdentView {
    pub origin: Seq<char>,
    pub name: Seq<char>,
    pub revision: RevisionView,
}

impl View for PackageIdent {
    type V = PackageIdentView;

    open spec fn view(&self) -> PackageIdentView {
        PackageIdentView { origin: self.origin@, name: self.name@, revision: self.revision@ }
    }
}

/// The identity that a reference and a revision make together: the
/// reference gives origin and name, the revision the rest.
pub open spec fn ident_of(reference: PackageReferenceView, revision: RevisionView) -> PackageIdentView {
    PackageIdentView { origin: reference.origin, name: reference.name, revision }
}

/// An unpacked, usable package: its identity, where it lies on disk, and the
/// metadata that a runtime reads. Location and metadata are carried as they
/// were given.
#[derive(Clone, Debug, PartialEq, Eq)]
pub struct Package {
    pub ident: PackageIdent,
    pub location: String,
    pub metadata: String,
}

/// What a [`Package`] stands for.
pub struct PackageView {
    pub ident: PackageIdentView,
    pub location: Seq<char>,
    pub metadata: Seq<char>,
}

impl View for Package {
    type V = PackageView;

    open spec fn view(&self) -> PackageView {
        PackageView { ident: self.ident@, location: self.location@, metadata: self.metadata@ }
    }
}

/// Where newer artifacts may be found. Without one, only the local cache is
/// asked.
#[derive(Clone, Debug, PartialEq, Eq)]
pub struct RemoteSource {
    pub url: String,
}

impl View for RemoteSource {
    type V = Seq<char>;

    open spec fn view(&self) -> Seq<char> {
        self.url@
    }
}

impl PackageReference {
    /// Builds the identity of the artifact that answers this reference
    /// with the given revision.
    pub fn into_ident(self, revision: Revision) -> (ident: PackageIdent)
        ensures
            ident@ == ident_of(self@, revision@),
    {
        PackageIdent { origin: self.origin, name: self.name, revision }
    }
}

} // verus!
