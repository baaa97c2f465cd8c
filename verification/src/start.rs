//! Starts a service from a package: resolves the reference to a trusted
//! package, then hands it to the runtime of the configured topology.
//!
//! The engine never reads a disk, a network or a clock. It names the request
//! that is pending, the caller performs it and reports the answer, and the
//! engine decides what follows.

use crate::error::{outcome_view, StartError};
use crate::model::{
    after_fetch, after_latest, after_lookup, after_run, after_unpack, after_verify, begin, pending,
    settle, step, Answer, Call, ConfigView, State,
};
use crate::package::{Package, PackageIdent, PackageReference, PackageView, RemoteSource};
use crate::topology::{start_package, Invocation, Topology};
use crate::version::{Revision, RevisionView};
use vstd::prelude::*;

verus! {

/// The immutable input of one start.
#[derive(Clone, Debug, PartialEq, Eq)]
pub struct Config {
    /// The package that is wanted.
    pub reference: PackageReference,
    /// Where newer artifacts may be found; `None` keeps the start offline.
    pub remote: Option<RemoteSource>,
    /// The topology whose runtime receives the package.
    pub topology: Topology,
}

impl View for Config {
    type V = ConfigView;

    open spec fn view(&self) -> ConfigView {
        ConfigView {
            reference: self.reference@,
            remote: match self.remote {
                Some(remote) => Some(remote@),
                None => None,
            },
            topology: self.topology,
        }
    }
}

/// The answer of a collaborator to the pending request.
#[derive(Debug, PartialEq, Eq)]
pub enum Event {
    /// The best installed match, if the cache holds one.
    Local(Option<Package>),
    /// The latest matching revision of the remote source, if it has one, or
    /// what the transport reported when the source could not be asked.
    Latest(Result<Option<Revision>, String>),
    /// The raw artifact, or what the transport reported when the fetch failed.
    Fetched(Result<Vec<u8>, String>),
    /// Whether the verifier trusts the artifact.
    Verified(bool),
    /// Where the unpacked artifact lies, and its metadata.
    Unpacked { location: String, metadata: String },
    /// How the runtime ended: success, or its own report of a failure.
    Exited(Result<(), String>),
}

/// The view of a cache answer.
pub open spec fn local_view(local: Option<Package>) -> Option<PackageView> {
    match local {
        Some(package) => Some(package@),
        None => None,
    }
}

/// The view of a remote source's answer about its latest revision.
pub open spec fn latest_view(latest: Result<Option<Revision>, String>) -> Result<
    Option<RevisionView>,
    Seq<char>,
> {
    match latest {
        Ok(Some(revision)) => Ok(Some(revision@)),
        Ok(None) => Ok(None),
        Err(detail) => Err(detail@),
    }
}

/// The view of a fetch's result.
pub open spec fn fetched_view(fetched: Result<Vec<u8>, String>) -> Result<Seq<u8>, Seq<char>> {
    match fetched {
        Ok(artifact) => Ok(artifact@),
        Err(detail) => Err(detail@),
    }
}

/// The view of a runtime's report.
pub open spec fn exit_view(exit: Result<(), String>) -> Result<(), Seq<char>> {
    match exit {
        Ok(_) => Ok(()),
        Err(detail) => Err(detail@),
    }
}

impl View for Event {
    type V = Answer;

    open spec fn view(&self) -> Answer {
        match self {
            Event::Local(local) => Answer::Local(local_view(*local)),
            Event::Latest(latest) => Answer::Latest(latest_view(*latest)),
            Event::Fetched(fetched) => Answer::Fetched(fetched_view(*fetched)),
            Event::Verified(trusted) => Answer::Verified(*trusted),
            Event::Unpacked { location, metadata } => Answer::Unpacked {
                location: location@,
                metadata: metadata@,
            },
            Event::Exited(exit) => Answer::Exited(exit_view(*exit)),
        }
    }
}

/// The request that the caller has to perform next. It borrows what it
/// names from the engine.
#[derive(Clone, Copy, Debug, PartialEq, Eq)]
pub enum Action<'a> {
    /// Ask the artifact store for the best installed match.
    FindBest { reference: &'a PackageReference },
    /// Ask the remote source for its latest matching revision.
    Latest { remote: &'a RemoteSource, reference: &'a PackageReference },
    /// Fetch the raw artifact of exactly this identity.
    Fetch { remote: &'a RemoteSource, target: &'a PackageIdent },
    /// Have the verifier check this artifact.
    Verify { artifact: &'a Vec<u8> },
    /// Unpack this artifact into the store under this identity.
    Unpack { artifact: &'a Vec<u8>, target: &'a PackageIdent },
    /// Run the package under the runtime that the invocation names.
    Run { invocation: &'a Invocation },
}

impl<'a> View for Action<'a> {
    type V = Call;

    open spec fn view(&self) -> Call {
        match self {
            Action::FindBest { reference } => Call::FindBest { reference: reference@ },
            Action::Latest { remote, reference } => Call::Latest {
                remote: remote@,
                reference: reference@,
            },
            Action::Fetch { remote, target } => Call::Fetch { remote: remote@, target: target@ },
            Action::Verify { artifact } => Call::Verify { artifact: artifact@ },
            Action::Unpack { artifact, target } => Call::Unpack {
                artifact: artifact@,
                target: target@,
            },
            Action::Run { invocation } => Call::Run { invocation: invocation@ },
        }
    }
}

/// The view of the pending action, if there is one.
pub open spec fn action_view(action: Option<Action>) -> Option<Call> {
    match action {
        Some(a) => Some(a@),
        None => None,
    }
}

#[derive(Debug)]
#[allow(inconsistent_fields)]
enum Phase {
    Lookup { reference: PackageReference, remote: Option<RemoteSource>, topology: Topology },
    Compare {
        reference: PackageReference,
        remote: RemoteSource,
        topology: Topology,
        local: Option<Package>,
    },
    Fetch { remote: RemoteSource, target: PackageIdent, topology: Topology },
    Verify { target: PackageIdent, artifact: Vec<u8>, topology: Topology },
    Unpack { target: PackageIdent, artifact: Vec<u8>, topology: Topology },
    Run { invocation: Invocation },
    Finished { outcome: Result<(), StartError> },
}

/// One start of a package, from the lookup in the local cache to the end of
/// the runtime.
///
/// Its states can only be reached through [`package`] and [`Start::step`], so
/// an artifact is unpacked only after the verifier has trusted it, and a
/// runtime only ever receives the local match or a package unpacked that way.
#[derive(Debug)]
pub struct Start {
    phase: Phase,
}

impl View for Start {
    type V = State;

    closed spec fn view(&self) -> State {
        match self.phase {
            Phase::Lookup { reference, remote, topology } => State::Lookup {
                reference: reference@,
                remote: match remote {
                    Some(r) => Some(r@),
                    None => None,
                },
                topology,
            },
            Phase::Compare { reference, remote, topology, local } => State::Compare {
                reference: reference@,
                remote: remote@,
                topology,
                local: local_view(local),
            },
            Phase::Fetch { remote, target, topology } => State::Fetch {
                remote: remote@,
                target: target@,
                topology,
            },
            Phase::Verify { target, artifact, topology } => State::Verify {
                target: target@,
                artifact: artifact@,
                topology,
            },
            Phase::Unpack { target, artifact, topology } => State::Unpack {
                target: target@,
                artifact: artifact@,
                topology,
            },
            Phase::Run { invocation } => State::Run { invocation: invocation@ },
            Phase::Finished { outcome } => State::Finished { outcome: outcome_view(outcome) },
        }
    }
}

/// Begins the start that `config` describes. The first pending request asks
/// the local cache for the best match.
pub fn package(config: Config) -> (start: Start)
    ensures
        start@ == begin(config@),
{
    Start {
        phase: Phase::Lookup {
            reference: config.reference,
            remote: config.remote,
            topology: config.topology,
        },
    }
}

fn finished(outcome: Result<(), StartError>) -> (next: Start)
    ensures
        next@ == (State::Finished { outcome: outcome_view(outcome) }),
{
    Start { phase: Phase::Finished { outcome } }
}

fn settled(local: Option<Package>, reference: PackageReference, topology: Topology) -> (next: Start)
    ensures
        next@ == settle(local_view(local), reference@, topology),
{
    match local {
        Some(package) => Start { phase: Phase::Run { invocation: start_package(package, topology) } },
        None => finished(Err(StartError::NotFound(reference))),
    }
}

fn looked_up(
    reference: PackageReference,
    remote: Option<RemoteSource>,
    topology: Topology,
    local: Option<Package>,
) -> (next: Start)
    ensures
        next@ == after_lookup(
            reference@,
            match remote {
                Some(r) => Some(r@),
                None => None,
            },
            topology,
            local_view(local),
        ),
{
    match remote {
        None => settled(local, reference, topology),
        Some(remote) => Start { phase: Phase::Compare { reference, remote, topology, local } },
    }
}

fn compared(
    reference: PackageReference,
    remote: RemoteSource,
    topology: Topology,
    local: Option<Package>,
    latest: Result<Option<Revision>, String>,
) -> (next: Start)
    ensures
        next@ == after_latest(reference@, remote@, topology, local_view(local), latest_view(latest)),
{
    let found = match latest {
        Err(detail) => {
            return finished(Err(StartError::TransportFailure(detail)));
        },
        Ok(found) => found,
    };
    let revision = match found {
        None => {
            return settled(local, reference, topology);
        },
        Some(revision) => revision,
    };
    let current = match &local {
        Some(package) => !revision.is_newer_than(&package.ident.revision),
        None => false,
    };
    if current {
        return settled(local, reference, topology);
    }
    Start { phase: Phase::Fetch { remote, target: reference.into_ident(revision), topology } }
}

fn fetched(target: PackageIdent, topology: Topology, result: Result<Vec<u8>, String>) -> (next: Start)
    ensures
        next@ == after_fetch(target@, topology, fetched_view(result)),
{
    match result {
        Err(detail) => finished(Err(StartError::TransportFailure(detail))),
        Ok(artifact) => Start { phase: Phase::Verify { target, artifact, topology } },
    }
}

fn verified(target: PackageIdent, artifact: Vec<u8>, topology: Topology, trusted: bool) -> (next: Start)
    ensures
        next@ == after_verify(target@, artifact@, topology, trusted),
{
    if !trusted {
        return finished(Err(StartError::VerificationFailed(target)));
    }
    Start { phase: Phase::Unpack { target, artifact, topology } }
}

fn unpacked(target: PackageIdent, topology: Topology, location: String, metadata: String) -> (next: Start)
    ensures
        next@ == after_unpack(target@, topology, location@, metadata@),
{
    let package = Package { ident: target, location, metadata };
    Start { phase: Phase::Run { invocation: start_package(package, topology) } }
}

fn exited(exit: Result<(), String>) -> (next: Start)
    ensures
        next@ == after_run(exit_view(exit)),
{
    match exit {
        Ok(_) => finished(Ok(())),
        Err(detail) => finished(Err(StartError::RuntimeFailure(detail))),
    }
}

impl Start {
    /// The request that has to be performed next, or `None` once the start
    /// has finished.
    pub fn pending(&self) -> (action: Option<Action<'_>>)
        ensures
            action_view(action) == pending(self@),
    {
        match &self.phase {
            Phase::Lookup { reference, .. } => Some(Action::FindBest { reference }),
            Phase::Compare { reference, remote, .. } => Some(Action::Latest { remote, reference }),
            Phase::Fetch { remote, target, .. } => Some(Action::Fetch { remote, target }),
            Phase::Verify { artifact, .. } => Some(Action::Verify { artifact }),
            Phase::Unpack { artifact, target, .. } => Some(Action::Unpack { artifact, target }),
            Phase::Run { invocation } => Some(Action::Run { invocation }),
            Phase::Finished { .. } => None,
        }
    }

    /// Takes the answer to the pending request and decides what follows.
    ///
    /// An event that does not answer the pending request is ignored: the
    /// start stays where it is and the same request stays pending.
    pub fn step(self, event: Event) -> (next: Start)
        ensures
            next@ == step(self@, event@),
    {
        match self.phase {
            Phase::Lookup { reference, remote, topology } => match event {
                Event::Local(local) => looked_up(reference, remote, topology, local),
                _ => Start { phase: Phase::Lookup { reference, remote, topology } },
            },
            Phase::Compare { reference, remote, topology, local } => match event {
                Event::Latest(latest) => compared(reference, remote, topology, local, latest),
                _ => Start { phase: Phase::Compare { reference, remote, topology, local } },
            },
            Phase::Fetch { remote, target, topology } => match event {
                Event::Fetched(result) => fetched(target, topology, result),
                _ => Start { phase: Phase::Fetch { remote, target, topology } },
            },
            Phase::Verify { target, artifact, topology } => match event {
                Event::Verified(trusted) => verified(target, artifact, topology, trusted),
                _ => Start { phase: Phase::Verify { target, artifact, topology } },
            },
            Phase::Unpack { target, artifact, topology } => match event {
                Event::Unpacked { location, metadata } => unpacked(target, topology, location, metadata),
                _ => Start { phase: Phase::Unpack { target, artifact, topology } },
            },
            Phase::Run { invocation } => match event {
                Event::Exited(exit) => exited(exit),
                _ => Start { phase: Phase::Run { invocation } },
            },
            Phase::Finished { outcome } => Start { phase: Phase::Finished { outcome } },
        }
    }

    /// How the start ended, or `None` while a request is pending.
    pub fn outcome(&self) -> (outcome: Option<&Result<(), StartError>>)
        ensures
            match outcome {
                Some(o) => self@ == (State::Finished { outcome: outcome_view(*o) }),
                None => !(self@ is Finished),
            },
    {
        match &self.phase {
            Phase::Finished { outcome } => Some(outcome),
            _ => None,
        }
    }
}

} // verus!
