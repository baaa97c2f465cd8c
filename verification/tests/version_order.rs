use bldr_engine::version::{Revision, Standing, Version};

fn version(parts: &[u64]) -> Version {
    Version { parts: parts.to_vec() }
}

fn revision(parts: &[u64], release: u64) -> Revision {
    Revision { version: version(parts), release }
}

#[test]
fn versions_compare_component_by_component() {
    assert_eq!(version(&[3, 0, 5]).standing(&version(&[3, 0, 7])), Standing::Older);
    assert_eq!(version(&[3, 0, 7]).standing(&version(&[3, 0, 5])), Standing::Newer);
    assert_eq!(version(&[3, 0, 5]).standing(&version(&[3, 0, 5])), Standing::Same);
    assert_eq!(version(&[2, 9, 9]).standing(&version(&[3, 0, 0])), Standing::Older);
    assert_eq!(version(&[3, 1, 0]).standing(&version(&[3, 0, 99])), Standing::Newer);
}

#[test]
fn components_compare_as_numbers_not_as_text() {
    assert_eq!(version(&[1, 10]).standing(&version(&[1, 9])), Standing::Newer);
    assert_eq!(version(&[1, 9]).standing(&version(&[1, 10])), Standing::Older);
}

#[test]
fn a_version_that_another_continues_is_older() {
    assert_eq!(version(&[3, 0]).standing(&version(&[3, 0, 0])), Standing::Older);
    assert_eq!(version(&[3, 0, 0]).standing(&version(&[3, 0])), Standing::Newer);
    assert_eq!(version(&[]).standing(&version(&[0])), Standing::Older);
    assert_eq!(version(&[]).standing(&version(&[])), Standing::Same);
}

#[test]
fn the_largest_components_compare_without_overflow() {
    assert_eq!(version(&[u64::MAX]).standing(&version(&[u64::MAX - 1])), Standing::Newer);
    assert_eq!(version(&[u64::MAX]).standing(&version(&[u64::MAX])), Standing::Same);
}

#[test]
fn standing_mirrors_when_the_sides_are_swapped() {
    let all = vec![
        version(&[]),
        version(&[0]),
        version(&[1]),
        version(&[1, 0]),
        version(&[1, 2, 3]),
        version(&[2]),
    ];
    for a in &all {
        for b in &all {
            let expected = match a.standing(b) {
                Standing::Older => Standing::Newer,
                Standing::Same => Standing::Same,
                Standing::Newer => Standing::Older,
            };
            assert_eq!(b.standing(a), expected);
            assert_eq!(a.standing(b) == Standing::Same, a == b);
        }
    }
}

#[test]
fn older_than_carries_over_three_versions() {
    let a = version(&[1, 2]);
    let b = version(&[1, 2, 0]);
    let c = version(&[1, 3]);
    assert_eq!(a.standing(&b), Standing::Older);
    assert_eq!(b.standing(&c), Standing::Older);
    assert_eq!(a.standing(&c), Standing::Older);
}

#[test]
fn the_version_decides_before_the_release() {
    assert!(revision(&[3, 0, 7], 1).is_newer_than(&revision(&[3, 0, 5], 999)));
    assert!(!revision(&[3, 0, 5], 999).is_newer_than(&revision(&[3, 0, 7], 1)));
}

#[test]
fn the_release_decides_between_equal_versions() {
    assert!(revision(&[3, 0, 5], 200).is_newer_than(&revision(&[3, 0, 5], 100)));
    assert!(!revision(&[3, 0, 5], 100).is_newer_than(&revision(&[3, 0, 5], 200)));
}

#[test]
fn an_equal_revision_is_not_newer() {
    assert!(!revision(&[3, 0, 5], 100).is_newer_than(&revision(&[3, 0, 5], 100)));
}

#[test]
fn of_two_different_revisions_exactly_one_is_newer() {
    let all = vec![
        revision(&[1], 0),
        revision(&[1], 1),
        revision(&[1, 0], 0),
        revision(&[2], 0),
        revision(&[0, 9], 20171214022000),
    ];
    for a in &all {
        for b in &all {
            let forth = a.is_newer_than(b);
            let back = b.is_newer_than(a);
            if a == b {
                assert!(!forth && !back);
            } else {
                assert!(forth != back);
            }
        }
    }
}
