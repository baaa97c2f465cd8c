//! The engine as a state machine over plain mathematical values.
//!
//! A state says which request is pending; an answer moves it on. Nothing
//! here runs: the executable engine is proved to follow this machine step
//! by step, and the laws of the engine are stated over it.

use crate::error::StartErrorView;
use crate::package::{ident_of, PackageIdentView, PackageReferenceView, PackageView};
use crate::topology::{invocation_of, InvocationView, Topology};
use crate::version::{newer, RevisionView};
use vstd::prelude::*;

verus! {

/// The immutable input of one start: what to resolve, where newer artifacts
/// may be found, and which topology runs the result.
pub struct ConfigView {
    pub reference: PackageReferenceView,
    pub remote: Option<Seq<char>>,
    pub topology: Topology,
}

/// Where a start stands.
#[allow(inconsistent_fields)]
pub enum State {
    /// The local cache has been asked for the best match.
    Lookup { reference: PackageReferenceView, remote: Option<Seq<char>>, topology: Topology },
    /// The remote source has been asked for its latest matching revision.
    Compare {
        reference: PackageReferenceView,
        remote: Seq<char>,
        topology: Topology,
        local: Option<PackageView>,
    },
    /// The artifact of the exact identity `target` is being fetched.
    Fetch { remote: Seq<char>, target: PackageIdentView, topology: Topology },
    /// The fetched artifact is with the verifier.
    Verify { target: PackageIdentView, artifact: Seq<u8>, topology: Topology },
    /// The verified artifact is being unpacked.
    Unpack { target: PackageIdentView, artifact: Seq<u8>, topology: Topology },
    /// The runtime has the package.
    Run { invocation: InvocationView },
    /// Nothing is left to do.
    Finished { outcome: Result<(), StartErrorView> },
}

/// A request of the engine to one of its collaborators.
pub enum Call {
    /// Artifact store: the best installed match for the reference.
    FindBest { reference: PackageReferenceView },
    /// Remote source: the latest revision that matches the reference.
    Latest { remote: Seq<char>, reference: PackageReferenceView },
    /// Remote source: the raw artifact of exactly this identity.
    Fetch { remote: Seq<char>, target: PackageIdentView },
    /// Verifier: may this artifact be trusted?
    Verify { artifact: Seq<u8> },
    /// Artifact store: unpack this artifact under this identity.
    Unpack { artifact: Seq<u8>, target: PackageIdentView },
    /// Topology runtime: run this package.
    Run { invocation: InvocationView },
}

/// What a collaborator answered.
pub enum Answer {
    Local(Option<PackageView>),
    Latest(Result<Option<RevisionView>, Seq<char>>),
    Fetched(Result<Seq<u8>, Seq<char>>),
    Verified(bool),
    Unpacked { location: Seq<char>, metadata: Seq<char> },
    Exited(Result<(), Seq<char>>),
}

/// The state in which a start begins.
pub open spec fn begin(config: ConfigView) -> State {
    State::Lookup { reference: config.reference, remote: config.remote, topology: config.topology }
}

/// The request that a state waits on; none once the start has finished.
pub open spec fn pending(s: State) -> Option<Call> {
    match s {
        State::Lookup { reference, .. } => Some(Call::FindBest { reference }),
        State::Compare { reference, remote, .. } => Some(Call::Latest { remote, reference }),
        State::Fetch { remote, target, .. } => Some(Call::Fetch { remote, target }),
        State::Verify { artifact, .. } => Some(Call::Verify { artifact }),
        State::Unpack { artifact, target, .. } => Some(Call::Unpack { artifact, target }),
        State::Run { invocation } => Some(Call::Run { invocation }),
        State::Finished { .. } => None,
    }
}

/// The end of the search with nothing newer to fetch: the local match runs,
/// and without one the reference is reported as not found.
pub open spec fn settle(
    local: Option<PackageView>,
    reference: PackageReferenceView,
    topology: Topology,
) -> State {
    match local {
        Some(package) => State::Run { invocation: invocation_of(package, topology) },
        None => State::Finished { outcome: Err(StartErrorView::NotFound(reference)) },
    }
}

/// The remote revision has to be fetched: there is no local match, or the
/// remote one is strictly newer.
pub open spec fn must_fetch(local: Option<PackageView>, latest: RevisionView) -> bool {
    match local {
        Some(package) => newer(latest, package.ident.revision),
        None => true,
    }
}

/// The state after the local cache answered.
pub open spec fn after_lookup(
    reference: PackageReferenceView,
    remote: Option<Seq<char>>,
    topology: Topology,
    local: Option<PackageView>,
) -> State {
    match remote {
        None => settle(local, reference, topology),
        Some(url) => State::Compare { reference, remote: url, topology, local },
    }
}

/// The state after the remote source answered with its latest revision.
pub open spec fn after_latest(
    reference: PackageReferenceView,
    remote: Seq<char>,
    topology: Topology,
    local: Option<PackageView>,
    latest: Result<Option<RevisionView>, Seq<char>>,
) -> State {
    match latest {
        Err(detail) => State::Finished { outcome: Err(StartErrorView::TransportFailure(detail)) },
        Ok(None) => settle(local, reference, topology),
        Ok(Some(revision)) => if must_fetch(local, revision) {
            State::Fetch { remote, target: ident_of(reference, revision), topology }
        } else {
            settle(local, reference, topology)
        },
    }
}

/// The state after the fetch ended.
pub open spec fn after_fetch(
    target: PackageIdentView,
    topology: Topology,
    fetched: Result<Seq<u8>, Seq<char>>,
) -> State {
    match fetched {
        Err(detail) => State::Finished { outcome: Err(StartErrorView::TransportFailure(detail)) },
        Ok(artifact) => State::Verify { target, artifact, topology },
    }
}

/// The state after the verifier gave its verdict.
pub open spec fn after_verify(
    target: PackageIdentView,
    artifact: Seq<u8>,
    topology: Topology,
    trusted: bool,
) -> State {
    if trusted {
        State::Unpack { target, artifact, topology }
    } else {
        State::Finished { outcome: Err(StartErrorView::VerificationFailed(target)) }
    }
}

/// The state after the artifact was unpacked.
pub open spec fn after_unpack(
    target: PackageIdentView,
    topology: Topology,
    location: Seq<char>,
    metadata: Seq<char>,
) -> State {
    State::Run { invocation: invocation_of(PackageView { ident: target, location, metadata }, topology) }
}

/// The state after the runtime returned: its report, unchanged.
pub open spec fn after_run(exit: Result<(), Seq<char>>) -> State {
    State::Finished {
        outcome: match exit {
            Ok(_) => Ok(()),
            Err(detail) => Err(StartErrorView::RuntimeFailure(detail)),
        },
    }
}

/// One step of the machine. An answer to a request that is not pending
/// changes nothing: the state stays, and with it the pending request.
pub open spec fn step(s: State, answer: Answer) -> State {
    match (s, answer) {
        (State::Lookup { reference, remote, topology }, Answer::Local(local)) => after_lookup(
            reference,
            remote,
            topology,
            local,
        ),
        (State::Compare { reference, remote, topology, local }, Answer::Latest(latest)) => after_latest(
            reference,
            remote,
            topology,
            local,
            latest,
        ),
        (State::Fetch { target, topology, .. }, Answer::Fetched(fetched)) => after_fetch(
            target,
            topology,
            fetched,
        ),
        (State::Verify { target, artifact, topology }, Answer::Verified(trusted)) => after_verify(
            target,
            artifact,
            topology,
            trusted,
        ),
        (State::Unpack { target, topology, .. }, Answer::Unpacked { location, metadata }) => after_unpack(
            target,
            topology,
            location,
            metadata,
        ),
        (State::Run { .. }, Answer::Exited(exit)) => after_run(exit),
        _ => s,
    }
}

/// One way the collaborators may answer during a start: what the cache
/// holds, what the remote source reports and delivers, what the verifier
/// says, where the store unpacks, and how the runtime ends. No request is
/// made twice in one start, so one answer of each kind describes it fully.
pub struct World {
    pub local: Option<PackageView>,
    pub latest: Result<Option<RevisionView>, Seq<char>>,
    pub fetched: Result<Seq<u8>, Seq<char>>,
    pub trusted: bool,
    pub location: Seq<char>,
    pub metadata: Seq<char>,
    pub exit: Result<(), Seq<char>>,
}

/// The remote source reports `latest` as its latest matching revision.
pub open spec fn reports(latest: RevisionView) -> Result<Option<RevisionView>, Seq<char>> {
    Ok(Some(latest))
}

/// The remote source reports that it has no match.
pub open spec fn reports_nothing() -> Result<Option<RevisionView>, Seq<char>> {
    Ok(None)
}

/// The remote source cannot be asked; the transport says why.
pub open spec fn cannot_be_asked(detail: Seq<char>) -> Result<Option<RevisionView>, Seq<char>> {
    Err(detail)
}

/// The fetch delivers `artifact`.
pub open spec fn delivers(artifact: Seq<u8>) -> Result<Seq<u8>, Seq<char>> {
    Ok(artifact)
}

/// The fetch breaks off; the transport says why.
pub open spec fn breaks_off(detail: Seq<char>) -> Result<Seq<u8>, Seq<char>> {
    Err(detail)
}

/// The outcome of a start that ran its package to a good end.
pub open spec fn succeeds() -> Result<(), StartErrorView> {
    Ok(())
}

/// The outcome of a start that ended with `error`.
pub open spec fn fails(error: StartErrorView) -> Result<(), StartErrorView> {
    Err(error)
}

/// The answer that the world gives to a request.
pub open spec fn answer(world: World, call: Call) -> Answer {
    match call {
        Call::FindBest { .. } => Answer::Local(world.local),
        Call::Latest { .. } => Answer::Latest(world.latest),
        Call::Fetch { .. } => Answer::Fetched(world.fetched),
        Call::Verify { .. } => Answer::Verified(world.trusted),
        Call::Unpack { .. } => Answer::Unpacked { location: world.location, metadata: world.metadata },
        Call::Run { .. } => Answer::Exited(world.exit),
    }
}

/// How far a state is from the beginning: every answered request moves a
/// start to a state of higher rank.
pub open spec fn rank(s: State) -> int {
    match s {
        State::Lookup { .. } => 0,
        State::Compare { .. } => 1,
        State::Fetch { .. } => 2,
        State::Verify { .. } => 3,
        State::Unpack { .. } => 4,
        State::Run { .. } => 5,
        State::Finished { .. } => 6,
    }
}

/// The state that follows `s` when the world answers its pending request.
pub open spec fn advance(s: State, world: World) -> State {
    match pending(s) {
        Some(call) => step(s, answer(world, call)),
        None => s,
    }
}

/// The requests that are made, in order, from state `s` on until the start
/// has finished.
pub open spec fn calls_from(s: State, world: World) -> Seq<Call>
    decreases 6 - rank(s),
{
    match pending(s) {
        Some(call) => seq![call] + calls_from(advance(s, world), world),
        None => Seq::empty(),
    }
}

/// The outcome with which a start that stands at `s` finishes.
pub open spec fn outcome_from(s: State, world: World) -> Result<(), StartErrorView>
    decreases 6 - rank(s),
{
    match s {
        State::Finished { outcome } => outcome,
        _ => outcome_from(advance(s, world), world),
    }
}

/// The package that a start which stands at `s` hands to a runtime, if it
/// gets that far.
pub open spec fn resolved_from(s: State, world: World) -> Option<PackageView>
    decreases 6 - rank(s),
{
    match s {
        State::Run { invocation } => Some(invocation.package),
        State::Finished { .. } => None,
        _ => resolved_from(advance(s, world), world),
    }
}

/// All requests of the start that `config` describes, in order.
pub open spec fn calls(config: ConfigView, world: World) -> Seq<Call> {
    calls_from(begin(config), world)
}

/// How the start that `config` describes ends.
pub open spec fn outcome(config: ConfigView, world: World) -> Result<(), StartErrorView> {
    outcome_from(begin(config), world)
}

/// The package that the start resolves its reference to and hands to the
/// runtime; `None` where the resolution fails.
pub open spec fn resolved(config: ConfigView, world: World) -> Option<PackageView> {
    resolved_from(begin(config), world)
}

} // verus!
