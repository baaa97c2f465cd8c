//! Versions, releases and the order that decides which of two is newer.

use vstd::prelude::*;

verus! {

/// How one value stands to another in a strict total order.
#[derive(Clone, Copy, Debug, PartialEq, Eq)]
pub enum Standing {
    /// The first comes before the second.
    Older,
    /// Both are the same.
    Same,
    /// The first comes after the second.
    Newer,
}

/// A dotted numeric version such as `3.0.7`, held as its components.
#[derive(Clone, Debug, PartialEq, Eq)]
pub struct Version {
    pub parts: Vec<u64>,
}

impl View for Version {
    type V = Seq<u64>;

    open spec fn view(&self) -> Seq<u64> {
        self.parts@
    }
}

/// `a` and `b` hold the same number at every position below `k`.
pub open spec fn agree_before(a: Seq<u64>, b: Seq<u64>, k: int) -> bool {
    forall|i: int| 0 <= i < k ==> a[i] == b[i]
}

/// Position `k` decides that `a` comes before `b`: up to there they agree, and
/// there `a` has ended while `b` goes on, or holds the smaller number.
pub open spec fn precedes_at(a: Seq<u64>, b: Seq<u64>, k: int) -> bool {
    &&& 0 <= k <= a.len()
    &&& k < b.len()
    &&& agree_before(a, b, k)
    &&& (k == a.len() || a[k] < b[k])
}

/// The lexicographic order on versions: `a` is strictly older than `b`.
pub open spec fn version_lt(a: Seq<u64>, b: Seq<u64>) -> bool {
    exists|k: int| precedes_at(a, b, k)
}

/// Where `a` stands to `b`.
pub open spec fn standing_of(a: Seq<u64>, b: Seq<u64>) -> Standing {
    if version_lt(a, b) {
        Standing::Older
    } else if a == b {
        Standing::Same
    } else {
        Standing::Newer
    }
}

/// No version is older than itself.
pub proof fn law_version_irreflexive(a: Seq<u64>)
    ensures
        !version_lt(a, a),
{
    if version_lt(a, a) {
        let k = choose|k: int| precedes_at(a, a, k);
        assert(precedes_at(a, a, k));
    }
}

/// Of two versions at most one is older than the other.
pub proof fn law_version_asymmetric(a: Seq<u64>, b: Seq<u64>)
    ensures
        !(version_lt(a, b) && version_lt(b, a)),
{
    if version_lt(a, b) && version_lt(b, a) {
        let k = choose|k: int| precedes_at(a, b, k);
        let j = choose|j: int| precedes_at(b, a, j);
        assert(precedes_at(a, b, k));
        assert(precedes_at(b, a, j));
        if k < j {
            assert(b[k] == a[k]);
        } else if j < k {
            assert(a[j] == b[j]);
        }
    }
}

/// Older-than carries over: if `a` is older than `b` and `b` older than `c`,
/// then `a` is older than `c`.
pub proof fn law_version_transitive(a: Seq<u64>, b: Seq<u64>, c: Seq<u64>)
    requires
        version_lt(a, b),
        version_lt(b, c),
    ensures
        version_lt(a, c),
{
    let k = choose|k: int| precedes_at(a, b, k);
    let j = choose|j: int| precedes_at(b, c, j);
    assert(precedes_at(a, b, k));
    assert(precedes_at(b, c, j));
    let m = if k <= j { k } else { j };
    assert forall|i: int| 0 <= i < m implies a[i] == c[i] by {
        assert(a[i] == b[i]);
        assert(b[i] == c[i]);
    }
    if k < j {
        assert(b[k] == c[k]);
    } else if j < k {
        assert(a[j] == b[j]);
    }
    assert(precedes_at(a, c, m));
}

/// Once `a` and `b` agree below `i`, they are the same or one is older.
proof fn lemma_decided_from(a: Seq<u64>, b: Seq<u64>, i: int)
    requires
        0 <= i <= a.len(),
        i <= b.len(),
        agree_before(a, b, i),
    ensures
        a == b || version_lt(a, b) || version_lt(b, a),
    decreases a.len() - i,
{
    if i == a.len() && i == b.len() {
        assert(a =~= b);
    } else if i == a.len() {
        assert(precedes_at(a, b, i));
    } else if i == b.len() {
        assert(precedes_at(b, a, i));
    } else if a[i] < b[i] {
        assert(precedes_at(a, b, i));
    } else if b[i] < a[i] {
        assert(precedes_at(b, a, i));
    } else {
        lemma_decided_from(a, b, i + 1);
    }
}

/// Any two versions are the same, or one of them is older: the order is total.
pub proof fn law_version_total(a: Seq<u64>, b: Seq<u64>)
    ensures
        a == b || version_lt(a, b) || version_lt(b, a),
{
    lemma_decided_from(a, b, 0);
}

/// Swapping the two versions swaps `Older` and `Newer` and keeps `Same`.
pub proof fn law_standing_mirrors(a: Seq<u64>, b: Seq<u64>)
    ensures
        standing_of(a, b) == Standing::Older <==> standing_of(b, a) == Standing::Newer,
        standing_of(a, b) == Standing::Same <==> standing_of(b, a) == Standing::Same,
        standing_of(a, b) == Standing::Newer <==> version_lt(b, a),
{
    law_version_total(a, b);
    law_version_asymmetric(a, b);
    law_version_irreflexive(a);
    law_version_irreflexive(b);
}

impl Version {
    /// Compares two versions component by component.
    pub fn standing(&self, other: &Version) -> (s: Standing)
        ensures
            s == standing_of(self@, other@),
    {
        let n: usize = self.parts.len();
        let m: usize = other.parts.len();
        let mut i: usize = 0;
        while i < n && i < m
            invariant
                n == self.parts@.len(),
                m == other.parts@.len(),
                i <= n,
                i <= m,
                agree_before(self@, other@, i as int),
            decreases n - i,
        {
            if self.parts[i] < other.parts[i] {
                proof {
                    assert(precedes_at(self@, other@, i as int));
                }
                return Standing::Older;
            }
            if self.parts[i] > other.parts[i] {
                proof {
                    assert(precedes_at(other@, self@, i as int));
                    law_standing_mirrors(self@, other@);
                }
                return Standing::Newer;
            }
            i = i + 1;
        }
        if n == m {
            proof {
                assert(self@ =~= other@);
                law_version_irreflexive(self@);
            }
            Standing::Same
        } else if i == n {
            proof {
                assert(precedes_at(self@, other@, i as int));
            }
            Standing::Older
        } else {
            proof {
                assert(precedes_at(other@, self@, i as int));
                law_standing_mirrors(self@, other@);
            }
            Standing::Newer
        }
    }
}

/// A version together with the release that was built of it.
#[derive(Clone, Debug, PartialEq, Eq)]
pub struct Revision {
    pub version: Version,
    pub release: u64,
}

/// What a [`Revision`] stands for.
pub struct RevisionView {
    pub version: Seq<u64>,
    pub release: u64,
}

impl View for Revision {
    type V = RevisionView;

    open spec fn view(&self) -> RevisionView {
        RevisionView { version: self.version@, release: self.release }
    }
}

/// `a` is strictly newer than `b`: its version is the higher one, or the
/// versions are the same and its release is the higher one.
pub open spec fn newer(a: RevisionView, b: RevisionView) -> bool {
    version_lt(b.version, a.version) || (a.version == b.version && b.release < a.release)
}

/// No revision is newer than itself.
pub proof fn law_newer_irreflexive(a: RevisionView)
    ensures
        !newer(a, a),
{
    law_version_irreflexive(a.version);
}

/// Of two revisions at most one is newer than the other.
pub proof fn law_newer_asymmetric(a: RevisionView, b: RevisionView)
    ensures
        !(newer(a, b) && newer(b, a)),
{
    law_version_asymmetric(a.version, b.version);
    law_version_irreflexive(a.version);
}

/// Newer-than carries over from `a` over `b` to `c`.
pub proof fn law_newer_transitive(a: RevisionView, b: RevisionView, c: RevisionView)
    requires
        newer(a, b),
        newer(b, c),
    ensures
        newer(a, c),
{
    if version_lt(b.version, a.version) && version_lt(c.version, b.version) {
        law_version_transitive(c.version, b.version, a.version);
    }
}

/// Any two revisions are the same, or one of them is newer: no tie is left
/// for a caller to break.
pub proof fn law_newer_total(a: RevisionView, b: RevisionView)
    ensures
        a == b || newer(a, b) || newer(b, a),
{
    law_version_total(a.version, b.version);
}

impl Revision {
    /// Whether this revision is strictly newer than `other`.
    pub fn is_newer_than(&self, other: &Revision) -> (r: bool)
        ensures
            r == newer(self@, other@),
    {
        proof {
            law_standing_mirrors(self.version@, other.version@);
            law_version_irreflexive(self.version@);
        }
        match self.version.standing(&other.version) {
            Standing::Newer => true,
            Standing::Same => other.release < self.release,
            Standing::Older => false,
        }
    }
}

} // verus!
