//! What holds of every start, whatever the collaborators answer.
//!
//! Each law is stated over the machine in [`crate::model`], which the
//! executable engine follows step by step.

use crate::error::StartErrorView;
use crate::model::{
    advance, begin, breaks_off, calls, calls_from, cannot_be_asked, delivers, fails, must_fetch,
    outcome, outcome_from, rank, reports, reports_nothing, resolved, resolved_from, succeeds, Call,
    ConfigView, State, World,
};
use crate::package::{ident_of, PackageView};
use crate::topology::invocation_of;
use crate::version::{law_newer_irreflexive, newer, RevisionView};
use vstd::prelude::*;

verus! {

/// A request that goes to the remote source.
pub open spec fn is_remote_call(call: Call) -> bool {
    call is Latest || call is Fetch
}

/// A request on the path that brings a new artifact in: fetch, verify,
/// unpack.
pub open spec fn is_install_call(call: Call) -> bool {
    call is Fetch || call is Verify || call is Unpack
}

/// Offline with a local match: the match is what runs, after the one
/// question to the cache and with no request to any remote source.
pub proof fn law_offline_keeps_local(config: ConfigView, world: World, local: PackageView)
    requires
        config.remote is None,
        world.local == Some(local),
    ensures
        resolved(config, world) == Some(local),
        calls(config, world) == seq![
            Call::FindBest { reference: config.reference },
            Call::Run { invocation: invocation_of(local, config.topology) },
        ],
        forall|i: int| 0 <= i < calls(config, world).len() ==> !is_remote_call(#[trigger] calls(config, world)[i]),
{
    reveal_with_fuel(calls_from, 4);
    reveal_with_fuel(resolved_from, 4);
    assert(calls(config, world) =~= seq![
        Call::FindBest { reference: config.reference },
        Call::Run { invocation: invocation_of(local, config.topology) },
    ]);
}

/// A remote revision that is not strictly newer than the local match changes
/// nothing: the local match runs, and nothing is fetched, verified or
/// unpacked. This covers a remote revision equal to the local one.
pub proof fn law_current_local_is_kept(
    config: ConfigView,
    world: World,
    remote: Seq<char>,
    local: PackageView,
    latest: RevisionView,
)
    requires
        config.remote == Some(remote),
        world.local == Some(local),
        world.latest == reports(latest),
        !newer(latest, local.ident.revision),
    ensures
        resolved(config, world) == Some(local),
        calls(config, world) == seq![
            Call::FindBest { reference: config.reference },
            Call::Latest { remote, reference: config.reference },
            Call::Run { invocation: invocation_of(local, config.topology) },
        ],
        forall|i: int| 0 <= i < calls(config, world).len() ==> !is_install_call(#[trigger] calls(config, world)[i]),
{
    reveal_with_fuel(calls_from, 5);
    reveal_with_fuel(resolved_from, 5);
    assert(calls(config, world) =~= seq![
        Call::FindBest { reference: config.reference },
        Call::Latest { remote, reference: config.reference },
        Call::Run { invocation: invocation_of(local, config.topology) },
    ]);
}

/// A strictly newer remote revision, an artifact that arrives and that the
/// verifier trusts: the start asks the cache, asks the remote source, fetches
/// exactly the revision that the remote source named, verifies what it
/// fetched, unpacks what it verified, and runs the package of that identity.
pub proof fn law_newer_remote_is_installed(
    config: ConfigView,
    world: World,
    remote: Seq<char>,
    local: PackageView,
    latest: RevisionView,
    artifact: Seq<u8>,
)
    requires
        config.remote == Some(remote),
        world.local == Some(local),
        world.latest == reports(latest),
        newer(latest, local.ident.revision),
        world.fetched == delivers(artifact),
        world.trusted,
    ensures
        resolved(config, world) == Some(
            PackageView {
                ident: ident_of(config.reference, latest),
                location: world.location,
                metadata: world.metadata,
            },
        ),
        calls(config, world) == seq![
            Call::FindBest { reference: config.reference },
            Call::Latest { remote, reference: config.reference },
            Call::Fetch { remote, target: ident_of(config.reference, latest) },
            Call::Verify { artifact },
            Call::Unpack { artifact, target: ident_of(config.reference, latest) },
            Call::Run {
                invocation: invocation_of(
                    PackageView {
                        ident: ident_of(config.reference, latest),
                        location: world.location,
                        metadata: world.metadata,
                    },
                    config.topology,
                ),
            },
        ],
{
    reveal_with_fuel(calls_from, 8);
    reveal_with_fuel(resolved_from, 8);
    let target = ident_of(config.reference, latest);
    let package = PackageView { ident: target, location: world.location, metadata: world.metadata };
    assert(calls(config, world) =~= seq![
        Call::FindBest { reference: config.reference },
        Call::Latest { remote, reference: config.reference },
        Call::Fetch { remote, target },
        Call::Verify { artifact },
        Call::Unpack { artifact, target },
        Call::Run { invocation: invocation_of(package, config.topology) },
    ]);
}

/// Whenever the remote revision has to be fetched, it is fetched exactly
/// once, and the fetch names exactly that revision under the origin and
/// name of the reference. What arrives goes to the verifier next, and what
/// the verifier trusts is unpacked next, under the same identity; the
/// package that runs then carries that identity.
pub proof fn law_newer_remote_is_fetched_once(
    config: ConfigView,
    world: World,
    remote: Seq<char>,
    latest: RevisionView,
)
    requires
        config.remote == Some(remote),
        world.latest == reports(latest),
        must_fetch(world.local, latest),
    ensures
        calls(config, world).len() >= 3,
        calls(config, world)[2] == (Call::Fetch { remote, target: ident_of(config.reference, latest) }),
        forall|i: int|
            0 <= i < calls(config, world).len() && i != 2 ==> !(#[trigger] calls(config, world)[i] is Fetch),
        world.fetched is Ok ==> calls(config, world).len() >= 4 && calls(config, world)[3] == (Call::Verify {
            artifact: world.fetched->Ok_0,
        }),
        world.fetched is Ok && world.trusted ==> calls(config, world).len() == 6 && calls(
            config,
            world,
        )[4] == (Call::Unpack {
            artifact: world.fetched->Ok_0,
            target: ident_of(config.reference, latest),
        }),
        world.fetched is Ok && world.trusted ==> resolved(config, world) is Some && resolved(
            config,
            world,
        )->0.ident == ident_of(config.reference, latest),
        !(world.fetched is Ok && world.trusted) ==> resolved(config, world) is None,
{
    reveal_with_fuel(calls_from, 8);
    reveal_with_fuel(resolved_from, 8);
}

/// An artifact that the verifier does not trust ends the start with
/// `VerificationFailed` for the identity that was fetched. Nothing is
/// unpacked and no runtime receives a package: neither the local match nor
/// anything made of the rejected artifact.
pub proof fn law_untrusted_artifact_is_final(
    config: ConfigView,
    world: World,
    remote: Seq<char>,
    latest: RevisionView,
    artifact: Seq<u8>,
)
    requires
        config.remote == Some(remote),
        world.latest == reports(latest),
        must_fetch(world.local, latest),
        world.fetched == delivers(artifact),
        !world.trusted,
    ensures
        outcome(config, world) == fails(
            StartErrorView::VerificationFailed(ident_of(config.reference, latest)),
        ),
        resolved(config, world) is None,
        forall|i: int|
            0 <= i < calls(config, world).len() ==> !(#[trigger] calls(config, world)[i] is Unpack)
                && !(calls(config, world)[i] is Run),
{
    reveal_with_fuel(calls_from, 8);
    reveal_with_fuel(resolved_from, 8);
    reveal_with_fuel(outcome_from, 8);
}

/// Offline and without a local match the start ends with `NotFound` for the
/// reference, after the one question to the cache.
pub proof fn law_nothing_offline_is_not_found(config: ConfigView, world: World)
    requires
        config.remote is None,
        world.local is None,
    ensures
        outcome(config, world) == fails(StartErrorView::NotFound(config.reference)),
        resolved(config, world) is None,
        calls(config, world) == seq![Call::FindBest { reference: config.reference }],
{
    reveal_with_fuel(calls_from, 3);
    reveal_with_fuel(resolved_from, 3);
    reveal_with_fuel(outcome_from, 3);
    assert(calls(config, world) =~= seq![Call::FindBest { reference: config.reference }]);
}

/// Neither side has a match: with a remote source that reports none and an
/// empty cache, the start ends with `NotFound` for the reference.
pub proof fn law_nothing_anywhere_is_not_found(config: ConfigView, world: World, remote: Seq<char>)
    requires
        config.remote == Some(remote),
        world.local is None,
        world.latest == reports_nothing(),
    ensures
        outcome(config, world) == fails(StartErrorView::NotFound(config.reference)),
        resolved(config, world) is None,
{
    reveal_with_fuel(resolved_from, 4);
    reveal_with_fuel(outcome_from, 4);
}

/// A start that stands at `s` makes at most one request for each rank that
/// is left.
pub proof fn law_requests_are_bounded(s: State, world: World)
    ensures
        calls_from(s, world).len() <= 6 - rank(s),
    decreases 6 - rank(s),
{
    if !(s is Finished) {
        law_requests_are_bounded(advance(s, world), world);
    }
}

/// Every start finishes: whatever the world answers, it makes at most six
/// requests.
pub proof fn law_every_start_finishes(config: ConfigView, world: World)
    ensures
        calls(config, world).len() <= 6,
{
    law_requests_are_bounded(begin(config), world);
}

/// Dispatch happens exactly once per resolved package: the last request of
/// the start runs the package under the runtime of the configured topology,
/// and no other request runs anything. Where the resolution fails, no
/// runtime is called at all.
pub proof fn law_one_runtime_runs_once(config: ConfigView, world: World)
    ensures
        match resolved(config, world) {
            Some(package) => {
                &&& calls(config, world).len() >= 2
                &&& calls(config, world).last() == (Call::Run {
                    invocation: invocation_of(package, config.topology),
                })
                &&& forall|i: int|
                    0 <= i < calls(config, world).len() - 1 ==> !(#[trigger] calls(config, world)[i] is Run)
            },
            None => forall|i: int|
                0 <= i < calls(config, world).len() ==> !(#[trigger] calls(config, world)[i] is Run),
        },
{
    reveal_with_fuel(calls_from, 8);
    reveal_with_fuel(resolved_from, 8);
}

/// The runtime's own report is the outcome of the start, unchanged: success
/// stays success, and a failure comes back as the runtime worded it.
pub proof fn law_runtime_report_passes_through(config: ConfigView, world: World, package: PackageView)
    requires
        resolved(config, world) == Some(package),
    ensures
        outcome(config, world) == match world.exit {
            Ok(_) => succeeds(),
            Err(detail) => fails(StartErrorView::RuntimeFailure(detail)),
        },
{
    reveal_with_fuel(resolved_from, 8);
    reveal_with_fuel(outcome_from, 8);
}

/// Resolving twice against the same cache and the same remote report gives
/// packages of the same identity, whatever else differs between the two
/// starts: the bytes that were fetched, where they were unpacked, how the
/// runtime ended.
pub proof fn law_resolution_repeats(
    config: ConfigView,
    first: World,
    second: World,
    one: PackageView,
    other: PackageView,
)
    requires
        first.local == second.local,
        first.latest == second.latest,
        resolved(config, first) == Some(one),
        resolved(config, second) == Some(other),
    ensures
        one.ident == other.ident,
{
    reveal_with_fuel(resolved_from, 8);
}

/// Once a start has resolved a package and the cache holds it, a second
/// start against the same remote report resolves to that very package and
/// brings nothing in.
pub proof fn law_resolution_settles(config: ConfigView, world: World, package: PackageView)
    requires
        resolved(config, world) == Some(package),
    ensures
        resolved(config, World { local: Some(package), ..world }) == Some(package),
        forall|i: int|
            0 <= i < calls(config, World { local: Some(package), ..world }).len() ==> !is_install_call(
                #[trigger] calls(config, World { local: Some(package), ..world })[i],
            ),
{
    reveal_with_fuel(resolved_from, 8);
    reveal_with_fuel(calls_from, 8);
    match world.latest {
        Ok(Some(latest)) => {
            law_newer_irreflexive(latest);
        },
        _ => {},
    }
}

/// What a runtime receives is the local match, or a package that the store
/// unpacked under the identity it carries.
pub proof fn law_runtime_gets_local_or_unpacked(config: ConfigView, world: World, package: PackageView)
    requires
        resolved(config, world) == Some(package),
    ensures
        world.local == Some(package) || (calls(config, world).len() == 6 && calls(config, world)[4]
            is Unpack && calls(config, world)[4]->Unpack_target == package.ident),
{
    reveal_with_fuel(resolved_from, 8);
    reveal_with_fuel(calls_from, 8);
}

/// Only a verified artifact is unpacked: a request to unpack comes directly
/// after the verifier has trusted the same bytes, which are the bytes that
/// the fetch of the same identity delivered.
pub proof fn law_only_verified_artifacts_are_unpacked(config: ConfigView, world: World, i: int)
    requires
        0 <= i < calls(config, world).len(),
        calls(config, world)[i] is Unpack,
    ensures
        world.trusted,
        i >= 2,
        calls(config, world)[i - 1] == (Call::Verify { artifact: calls(config, world)[i]->Unpack_artifact }),
        world.fetched == delivers(calls(config, world)[i]->Unpack_artifact),
        calls(config, world)[i - 2] is Fetch,
        calls(config, world)[i - 2]->Fetch_target == calls(config, world)[i]->Unpack_target,
{
    reveal_with_fuel(calls_from, 8);
}

/// A remote source that cannot be asked ends the start with what the
/// transport reported, also where the cache holds a match: the start does
/// not fall back on a copy that may be stale.
pub proof fn law_unreachable_remote_surfaces(
    config: ConfigView,
    world: World,
    remote: Seq<char>,
    detail: Seq<char>,
)
    requires
        config.remote == Some(remote),
        world.latest == cannot_be_asked(detail),
    ensures
        outcome(config, world) == fails(StartErrorView::TransportFailure(detail)),
        resolved(config, world) is None,
{
    reveal_with_fuel(resolved_from, 4);
    reveal_with_fuel(outcome_from, 4);
}

/// A fetch that fails ends the start with what the transport reported, and
/// no runtime receives a package.
pub proof fn law_failed_fetch_surfaces(
    config: ConfigView,
    world: World,
    remote: Seq<char>,
    latest: RevisionView,
    detail: Seq<char>,
)
    requires
        config.remote == Some(remote),
        world.latest == reports(latest),
        must_fetch(world.local, latest),
        world.fetched == breaks_off(detail),
    ensures
        outcome(config, world) == fails(StartErrorView::TransportFailure(detail)),
        resolved(config, world) is None,
{
    reveal_with_fuel(resolved_from, 5);
    reveal_with_fuel(outcome_from, 5);
}

/// Where a request stands in the order of a start.
pub open spec fn call_rank(call: Call) -> int {
    match call {
        Call::FindBest { .. } => 0,
        Call::Latest { .. } => 1,
        Call::Fetch { .. } => 2,
        Call::Verify { .. } => 3,
        Call::Unpack { .. } => 4,
        Call::Run { .. } => 5,
    }
}

/// Every request that is made from state `s` on has at least the rank of
/// `s`, and later requests have higher ranks than earlier ones.
proof fn lemma_calls_rise(s: State, world: World)
    ensures
        forall|i: int| 0 <= i < calls_from(s, world).len() ==> rank(s) <= call_rank(#[trigger] calls_from(s, world)[i]),
        forall|i: int, j: int|
            0 <= i < j < calls_from(s, world).len() ==> call_rank(#[trigger] calls_from(s, world)[i])
                < call_rank(#[trigger] calls_from(s, world)[j]),
    decreases 6 - rank(s),
{
    if !(s is Finished) {
        let rest = calls_from(advance(s, world), world);
        lemma_calls_rise(advance(s, world), world);
        assert forall|i: int| 0 <= i < calls_from(s, world).len() implies rank(s) <= call_rank(
            #[trigger] calls_from(s, world)[i],
        ) by {
            if i > 0 {
                assert(calls_from(s, world)[i] == rest[i - 1]);
            }
        }
        assert forall|i: int, j: int| 0 <= i < j < calls_from(s, world).len() implies call_rank(
            #[trigger] calls_from(s, world)[i],
        ) < call_rank(#[trigger] calls_from(s, world)[j]) by {
            assert(calls_from(s, world)[j] == rest[j - 1]);
            if i > 0 {
                assert(calls_from(s, world)[i] == rest[i - 1]);
            }
        }
    }
}

/// The requests of a start come in one fixed order: cache, remote report,
/// fetch, verifier, unpack, runtime. Some may be left out, but none comes
/// twice and none comes before an earlier kind.
pub proof fn law_requests_come_in_order(config: ConfigView, world: World, i: int, j: int)
    requires
        0 <= i < j < calls(config, world).len(),
    ensures
        call_rank(calls(config, world)[i]) < call_rank(calls(config, world)[j]),
{
    lemma_calls_rise(begin(config), world);
}

} // verus!
