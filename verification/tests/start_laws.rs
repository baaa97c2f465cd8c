use bldr_engine::error::StartError;
use bldr_engine::package::{Package, PackageIdent, PackageReference, RemoteSource};
use bldr_engine::start::{package, Action, Config, Event, Start};
use bldr_engine::topology::{start_package, Invocation, Runtime, Topology};
use bldr_engine::version::{Revision, Version};

fn rev(parts: &[u64], release: u64) -> Revision {
    Revision { version: Version { parts: parts.to_vec() }, release }
}

fn reference() -> PackageReference {
    PackageReference {
        origin: String::from("core"),
        name: String::from("nginx"),
        version: None,
        release: None,
    }
}

fn ident(parts: &[u64], release: u64) -> PackageIdent {
    PackageIdent { origin: String::from("core"), name: String::from("nginx"), revision: rev(parts, release) }
}

fn installed(parts: &[u64], release: u64) -> Package {
    Package {
        ident: ident(parts, release),
        location: format!("/hab/pkgs/core/nginx/{}", release),
        metadata: String::from("svc_user=hab"),
    }
}

fn depot() -> RemoteSource {
    RemoteSource { url: String::from("https://bldr.example.org") }
}

fn online() -> Start {
    package(Config { reference: reference(), remote: Some(depot()), topology: Topology::Standalone })
}

fn offline() -> Start {
    package(Config { reference: reference(), remote: None, topology: Topology::Standalone })
}

/// The names of the requests that a start makes while `answers` are fed to
/// it in order, and the start where the answers ran out.
fn drive(mut start: Start, answers: Vec<Event>) -> (Vec<&'static str>, Start) {
    let mut asked = Vec::new();
    for event in answers {
        let name = match start.pending() {
            Some(Action::FindBest { .. }) => "find_best",
            Some(Action::Latest { .. }) => "latest",
            Some(Action::Fetch { .. }) => "fetch",
            Some(Action::Verify { .. }) => "verify",
            Some(Action::Unpack { .. }) => "unpack",
            Some(Action::Run { .. }) => "run",
            None => "none",
        };
        asked.push(name);
        start = start.step(event);
    }
    (asked, start)
}

fn unpacked_at(location: &str) -> Event {
    Event::Unpacked { location: String::from(location), metadata: String::from("svc_user=hab") }
}

#[test]
fn offline_start_runs_the_local_match_and_asks_no_remote() {
    let local = installed(&[1, 12, 0], 20180101000000);
    let (asked, start) = drive(offline(), vec![Event::Local(Some(local.clone()))]);
    assert_eq!(asked, vec!["find_best"]);
    let expected = Invocation { runtime: Runtime::Standalone, package: local };
    assert_eq!(start.pending(), Some(Action::Run { invocation: &expected }));
    let start = start.step(Event::Exited(Ok(())));
    assert_eq!(start.pending(), None);
    assert_eq!(start.outcome(), Some(&Ok(())));
}

#[test]
fn older_remote_keeps_the_local_match() {
    let local = installed(&[1, 12, 0], 300);
    let (asked, start) = drive(
        online(),
        vec![Event::Local(Some(local.clone())), Event::Latest(Ok(Some(rev(&[1, 11, 9], 900))))],
    );
    assert_eq!(asked, vec!["find_best", "latest"]);
    let expected = Invocation { runtime: Runtime::Standalone, package: local };
    assert_eq!(start.pending(), Some(Action::Run { invocation: &expected }));
}

#[test]
fn same_version_with_lower_release_keeps_the_local_match() {
    let local = installed(&[1, 12, 0], 300);
    let (_, start) = drive(
        online(),
        vec![Event::Local(Some(local.clone())), Event::Latest(Ok(Some(rev(&[1, 12, 0], 299))))],
    );
    let expected = Invocation { runtime: Runtime::Standalone, package: local };
    assert_eq!(start.pending(), Some(Action::Run { invocation: &expected }));
}

#[test]
fn same_version_with_higher_release_is_fetched() {
    let local = installed(&[1, 12, 0], 300);
    let (_, start) = drive(
        online(),
        vec![Event::Local(Some(local)), Event::Latest(Ok(Some(rev(&[1, 12, 0], 301))))],
    );
    assert_eq!(
        start.pending(),
        Some(Action::Fetch { remote: &depot(), target: &ident(&[1, 12, 0], 301) })
    );
}

#[test]
fn newer_remote_is_fetched_once_then_verified_then_unpacked() {
    let bytes: Vec<u8> = vec![7, 7, 7];
    let (asked, start) = drive(
        online(),
        vec![
            Event::Local(Some(installed(&[1, 12, 0], 300))),
            Event::Latest(Ok(Some(rev(&[1, 13, 0], 10)))),
            Event::Fetched(Ok(bytes)),
            Event::Verified(true),
            unpacked_at("/hab/pkgs/core/nginx/1.13.0/10"),
            Event::Exited(Ok(())),
        ],
    );
    assert_eq!(asked, vec!["find_best", "latest", "fetch", "verify", "unpack", "run"]);
    assert_eq!(asked.iter().filter(|name| **name == "fetch").count(), 1);
    assert_eq!(start.pending(), None);
    assert_eq!(start.outcome(), Some(&Ok(())));
}

#[test]
fn unpacked_package_carries_the_remote_identity_and_the_store_location() {
    let (_, start) = drive(
        online(),
        vec![
            Event::Local(Some(installed(&[1, 12, 0], 300))),
            Event::Latest(Ok(Some(rev(&[2, 0], 1)))),
            Event::Fetched(Ok(vec![1, 2, 3])),
            Event::Verified(true),
            unpacked_at("/hab/pkgs/core/nginx/2.0/1"),
        ],
    );
    let expected = Invocation {
        runtime: Runtime::Standalone,
        package: Package {
            ident: ident(&[2, 0], 1),
            location: String::from("/hab/pkgs/core/nginx/2.0/1"),
            metadata: String::from("svc_user=hab"),
        },
    };
    assert_eq!(start.pending(), Some(Action::Run { invocation: &expected }));
}

#[test]
fn failed_verification_ends_the_start_and_runs_nothing() {
    let (asked, start) = drive(
        online(),
        vec![
            Event::Local(Some(installed(&[1, 12, 0], 300))),
            Event::Latest(Ok(Some(rev(&[1, 13, 0], 10)))),
            Event::Fetched(Ok(vec![0xde, 0xad])),
            Event::Verified(false),
        ],
    );
    assert_eq!(asked, vec!["find_best", "latest", "fetch", "verify"]);
    assert_eq!(start.pending(), None);
    assert_eq!(
        start.outcome(),
        Some(&Err(StartError::VerificationFailed(ident(&[1, 13, 0], 10))))
    );
}

#[test]
fn failed_verification_without_a_local_match_is_reported_too() {
    let (_, start) = drive(
        online(),
        vec![
            Event::Local(None),
            Event::Latest(Ok(Some(rev(&[0, 1], 1)))),
            Event::Fetched(Ok(vec![])),
            Event::Verified(false),
        ],
    );
    assert_eq!(start.outcome(), Some(&Err(StartError::VerificationFailed(ident(&[0, 1], 1)))));
}

#[test]
fn no_local_match_fetches_whatever_the_remote_has() {
    let (asked, start) =
        drive(online(), vec![Event::Local(None), Event::Latest(Ok(Some(rev(&[0, 0, 1], 0))))]);
    assert_eq!(asked, vec!["find_best", "latest"]);
    assert_eq!(
        start.pending(),
        Some(Action::Fetch { remote: &depot(), target: &ident(&[0, 0, 1], 0) })
    );
}

#[test]
fn nothing_on_either_side_is_not_found() {
    let (_, start) = drive(online(), vec![Event::Local(None), Event::Latest(Ok(None))]);
    assert_eq!(start.pending(), None);
    assert_eq!(start.outcome(), Some(&Err(StartError::NotFound(reference()))));
}

#[test]
fn remote_without_a_match_keeps_the_local_match() {
    let local = installed(&[1, 12, 0], 300);
    let (_, start) = drive(online(), vec![Event::Local(Some(local.clone())), Event::Latest(Ok(None))]);
    let expected = Invocation { runtime: Runtime::Standalone, package: local };
    assert_eq!(start.pending(), Some(Action::Run { invocation: &expected }));
}

#[test]
fn unreachable_remote_is_reported_even_with_a_local_match() {
    let (_, start) = drive(
        online(),
        vec![
            Event::Local(Some(installed(&[1, 12, 0], 300))),
            Event::Latest(Err(String::from("connection refused"))),
        ],
    );
    assert_eq!(start.pending(), None);
    assert_eq!(
        start.outcome(),
        Some(&Err(StartError::TransportFailure(String::from("connection refused"))))
    );
}

#[test]
fn failed_fetch_is_reported() {
    let (_, start) = drive(
        online(),
        vec![
            Event::Local(Some(installed(&[1, 12, 0], 300))),
            Event::Latest(Ok(Some(rev(&[1, 13, 0], 10)))),
            Event::Fetched(Err(String::from("timed out"))),
        ],
    );
    assert_eq!(start.pending(), None);
    assert_eq!(start.outcome(), Some(&Err(StartError::TransportFailure(String::from("timed out")))));
}

#[test]
fn runtime_failure_passes_through_unchanged() {
    let (_, start) = drive(
        offline(),
        vec![
            Event::Local(Some(installed(&[1, 12, 0], 300))),
            Event::Exited(Err(String::from("election lost quorum"))),
        ],
    );
    assert_eq!(
        start.outcome(),
        Some(&Err(StartError::RuntimeFailure(String::from("election lost quorum"))))
    );
}

#[test]
fn an_answer_to_another_request_changes_nothing() {
    let start = online();
    let start = start.step(Event::Verified(true));
    assert_eq!(start.pending(), Some(Action::FindBest { reference: &reference() }));
    let start = start.step(Event::Local(Some(installed(&[1, 12, 0], 300))));
    let start = start.step(Event::Fetched(Ok(vec![1])));
    assert_eq!(start.pending(), Some(Action::Latest { remote: &depot(), reference: &reference() }));
    let start = start.step(Event::Latest(Ok(Some(rev(&[9], 9)))));
    let start = start.step(unpacked_at("/nowhere"));
    assert_eq!(start.pending(), Some(Action::Fetch { remote: &depot(), target: &ident(&[9], 9) }));
    let start = start.step(Event::Fetched(Ok(vec![4, 2])));
    let start = start.step(Event::Exited(Ok(())));
    assert_eq!(start.pending(), Some(Action::Verify { artifact: &vec![4, 2] }));
    let start = start.step(Event::Verified(true));
    let start = start.step(Event::Local(None));
    assert_eq!(
        start.pending(),
        Some(Action::Unpack { artifact: &vec![4, 2], target: &ident(&[9], 9) })
    );
    let start = start.step(unpacked_at("/hab/pkgs/core/nginx/9/9"));
    let start = start.step(Event::Latest(Ok(None)));
    assert!(matches!(start.pending(), Some(Action::Run { .. })));
    assert_eq!(start.outcome(), None);
}

#[test]
fn a_finished_start_stays_finished() {
    let (_, start) = drive(offline(), vec![Event::Local(None)]);
    let start = start.step(Event::Local(Some(installed(&[1], 1))));
    assert_eq!(start.pending(), None);
    assert_eq!(start.outcome(), Some(&Err(StartError::NotFound(reference()))));
}

#[test]
fn every_topology_selects_its_own_runtime() {
    let cases = vec![
        (Topology::Standalone, Runtime::Standalone),
        (Topology::Leader, Runtime::Leader),
        (Topology::Initializer, Runtime::Initializer),
    ];
    for (topology, runtime) in cases {
        let package = installed(&[1, 12, 0], 300);
        let invocation = start_package(package.clone(), topology);
        assert_eq!(invocation.runtime, runtime);
        assert_eq!(invocation.package, package);
    }
}

#[test]
fn the_configured_topology_decides_the_runtime_of_a_start() {
    let cases = vec![
        (Topology::Standalone, Runtime::Standalone),
        (Topology::Leader, Runtime::Leader),
        (Topology::Initializer, Runtime::Initializer),
    ];
    for (topology, runtime) in cases {
        let local = installed(&[1, 12, 0], 300);
        let start = package(Config { reference: reference(), remote: None, topology });
        let (asked, start) = drive(start, vec![Event::Local(Some(local.clone()))]);
        assert_eq!(asked, vec!["find_best"]);
        let expected = Invocation { runtime, package: local };
        assert_eq!(start.pending(), Some(Action::Run { invocation: &expected }));
    }
}

#[test]
fn resolving_twice_gives_the_same_identity() {
    let resolve = |bytes: Vec<u8>, location: &str| -> PackageIdent {
        let (_, start) = drive(
            online(),
            vec![
                Event::Local(Some(installed(&[1, 12, 0], 300))),
                Event::Latest(Ok(Some(rev(&[1, 13, 0], 10)))),
                Event::Fetched(Ok(bytes)),
                Event::Verified(true),
                unpacked_at(location),
            ],
        );
        match start.pending() {
            Some(Action::Run { invocation }) => invocation.package.ident.clone(),
            other => panic!("expected a package to run, got {:?}", other),
        }
    };
    let first = resolve(vec![1, 2, 3], "/hab/pkgs/a");
    let second = resolve(vec![4, 5, 6], "/hab/pkgs/b");
    assert_eq!(first, second);
    assert_eq!(first, ident(&[1, 13, 0], 10));
}

#[test]
fn resolving_again_after_an_install_fetches_nothing() {
    let (_, start) = drive(
        online(),
        vec![
            Event::Local(Some(installed(&[1, 12, 0], 300))),
            Event::Latest(Ok(Some(rev(&[1, 13, 0], 10)))),
            Event::Fetched(Ok(vec![1, 2, 3])),
            Event::Verified(true),
            unpacked_at("/hab/pkgs/core/nginx/1.13.0/10"),
        ],
    );
    let resolved = match start.pending() {
        Some(Action::Run { invocation }) => invocation.package.clone(),
        other => panic!("expected a package to run, got {:?}", other),
    };
    let (asked, again) = drive(
        online(),
        vec![Event::Local(Some(resolved.clone())), Event::Latest(Ok(Some(rev(&[1, 13, 0], 10))))],
    );
    assert_eq!(asked, vec!["find_best", "latest"]);
    let expected = Invocation { runtime: Runtime::Standalone, package: resolved };
    assert_eq!(again.pending(), Some(Action::Run { invocation: &expected }));
}

#[test]
fn pinned_reference_is_passed_on_as_it_is() {
    let pinned = PackageReference {
        origin: String::from("core"),
        name: String::from("nginx"),
        version: Some(Version { parts: vec![1, 12, 0] }),
        release: Some(300),
    };
    let start =
        package(Config { reference: pinned.clone(), remote: Some(depot()), topology: Topology::Leader });
    assert_eq!(start.pending(), Some(Action::FindBest { reference: &pinned }));
    let start = start.step(Event::Local(None));
    assert_eq!(start.pending(), Some(Action::Latest { remote: &depot(), reference: &pinned }));
    let start = start.step(Event::Latest(Ok(None)));
    assert_eq!(start.outcome(), Some(&Err(StartError::NotFound(pinned))));
}
