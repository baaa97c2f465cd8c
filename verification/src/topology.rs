//! Topologies and the runtime that each of them selects.

use crate::package::{Package, PackageView};
use vstd::prelude::*;

verus! {

/// The coordination mode that a service instance runs under.
#[derive(Clone, Copy, Debug, PartialEq, Eq)]
pub enum Topology {
    Standalone,
    Leader,
    Initializer,
}

/// The entry point of one of the runtimes.
#[derive(Clone, Copy, Debug, PartialEq, Eq)]
pub enum Runtime {
    Standalone,
    Leader,
    Initializer,
}

/// The runtime that a topology selects.
pub open spec fn runtime_for(topology: Topology) -> Runtime {
    match topology {
        Topology::Standalone => Runtime::Standalone,
        Topology::Leader => Runtime::Leader,
        Topology::Initializer => Runtime::Initializer,
    }
}

/// One call of a runtime: which entry point, and the package it receives.
#[derive(Clone, Debug, PartialEq, Eq)]
pub struct Invocation {
    pub runtime: Runtime,
    pub package: Package,
}

/// What an [`Invocation`] stands for.
pub struct InvocationView {
    pub runtime: Runtime,
    pub package: PackageView,
}

impl View for Invocation {
    type V = InvocationView;

    open spec fn view(&self) -> InvocationView {
        InvocationView { runtime: self.runtime, package: self.package@ }
    }
}

/// The invocation that a topology asks for with a package.
pub open spec fn invocation_of(package: PackageView, topology: Topology) -> InvocationView {
    InvocationView { runtime: runtime_for(topology), package }
}

/// Selects the runtime of `topology` and hands it the package unchanged.
pub fn start_package(package: Package, topology: Topology) -> (invocation: Invocation)
    ensures
        invocation@ == invocation_of(package@, topology),
{
    let runtime = match topology {
        Topology::Standalone => Runtime::Standalone,
        Topology::Leader => Runtime::Leader,
        Topology::Initializer => Runtime::Initializer,
    };
    Invocation { runtime, package }
}

/// Every runtime is selected by exactly one topology, so no two topologies
/// share a runtime and none is left without one.
pub proof fn law_dispatch_one_to_one(runtime: Runtime)
    ensures
        exists|t: Topology| runtime_for(t) == runtime,
        forall|s: Topology, t: Topology| runtime_for(s) == runtime_for(t) ==> s == t,
{
    let t = match runtime {
        Runtime::Standalone => Topology::Standalone,
        Runtime::Leader => Topology::Leader,
        Runtime::Initializer => Topology::Initializer,
    };
    assert(runtime_for(t) == runtime);
}

} // verus!
