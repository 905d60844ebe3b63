//! The timeline store: an ordered mapping from elapsed simulated time to a
//! kinematic snapshot, built in strictly increasing time order and queried
//! with a "latest at or before" floor lookup.
//!
//! Times are carried as IEEE-754 double-precision bit patterns (see the
//! crate documentation); elapsed times are finite and non-negative, and on
//! such values the unsigned order of the bit patterns is the numeric order.
//! The entries live in an `aatree::AATreeMap`, whose relevant operations
//! are taken on trust below; everything around them is verified.

use crate::kinematics::KinematicState;
use aatree::AATreeMap;
use vstd::prelude::*;

verus! {

/// Declares aatree::AATreeMap so that it can appear in signatures and
/// fields; the map is opaque here and is reached only through the trusted
/// functions below.
#[verifier::external_type_specification]
#[verifier::external_body]
#[verifier::reject_recursive_types(K)]
#[verifier::reject_recursive_types(V)]
pub struct ExAATreeMap<K, V>(AATreeMap<K, V>);

/// The four fields of a snapshot, packed as the tuple stored in the tree.
pub type PackedState = (u64, u64, u64, u64);

/// The concrete ordered-map type that backs the timeline.
pub type TimeTree = AATreeMap<u64, PackedState>;

/// The entries held by an aatree::AATreeMap, as a mathematical map from
/// time key to the packed fields of the snapshot stored under it. The
/// trusted functions below say how each call changes or reads it.
pub uninterp spec fn tree_entries(t: TimeTree) -> Map<u64, PackedState>;

/// The snapshot's fields, packed as they are stored in the tree.
pub open spec fn packed(s: KinematicState) -> PackedState {
    (s.p1, s.v1, s.p2, s.v2)
}

/// Relies on aatree::AATreeMap::new: constructs an empty map.
#[verifier::external_body]
fn tree_new() -> (r: TimeTree)
    ensures
        tree_entries(r) =~= Map::empty(),
{
    AATreeMap::new()
}

/// Relies on aatree::AATreeMap::insert: inserts the entry, overwriting an
/// existing entry with the same key and returning the old value if one was
/// overwritten.
#[verifier::external_body]
fn tree_insert(t: &mut TimeTree, key: u64, value: PackedState) -> (r: Option<PackedState>)
    ensures
        tree_entries(*final(t)) == tree_entries(*old(t)).insert(key, value),
        r == (if tree_entries(*old(t)).contains_key(key) {
            Some(tree_entries(*old(t))[key])
        } else {
            None::<PackedState>
        }),
{
    t.insert(key, value)
}

/// Relies on aatree::AATreeMap::last_key_value_at_or_before: returns the
/// entry with the greatest key less than or equal to the query, or `None`
/// when every key is greater than the query.
#[verifier::external_body]
fn tree_last_at_or_before(t: &TimeTree, query: u64) -> (r: Option<(u64, PackedState)>)
    ensures
        (match r {
            Some(e) => tree_entries(*t).contains_key(e.0) && tree_entries(*t)[e.0] == e.1 && e.0
                <= query && (forall|k: u64|
                tree_entries(*t).contains_key(k) && k <= query ==> k <= e.0),
            None => forall|k: u64| tree_entries(*t).contains_key(k) ==> k > query,
        }),
{
    t.last_key_value_at_or_before(&query).map(|(k, v)| (*k, *v))
}

/// The ordered timeline of kinematic snapshots. Entries are appended in
/// strictly increasing time order; once built, the timeline is queried
/// read-only by time.
pub struct Timeline {
    tree: TimeTree,
    len: usize,
    hist: Ghost<Seq<(u64, KinematicState)>>,
}

impl View for Timeline {
    type V = Seq<(u64, KinematicState)>;

    closed spec fn view(&self) -> Seq<(u64, KinematicState)> {
        self.hist@
    }
}

impl Timeline {
    /// Well-formedness: the recorded history has strictly increasing time
    /// keys, and the tree holds exactly the history's entries.
    pub closed spec fn wf(&self) -> bool {
        &&& self.len == self.hist@.len()
        &&& (forall|i: int, j: int|
            0 <= i < j < self.hist@.len() ==> self.hist@[i].0 < self.hist@[j].0)
        &&& (forall|k: u64|
            tree_entries(self.tree).contains_key(k) <==> exists|i: int|
                0 <= i < self.hist@.len() && #[trigger] self.hist@[i].0 == k)
        &&& (forall|i: int|
            0 <= i < self.hist@.len() ==> tree_entries(self.tree).contains_key(
                #[trigger] self.hist@[i].0,
            ) && tree_entries(self.tree)[self.hist@[i].0] == packed(self.hist@[i].1))
    }

    /// A time may be appended when it is strictly greater than every time
    /// already in the timeline.
    pub open spec fn can_append(&self, time: u64) -> bool {
        forall|i: int| 0 <= i < self@.len() ==> #[trigger] self@[i].0 < time
    }

    /// Creates an empty timeline.
    pub fn new() -> (r: Timeline)
        ensures
            r.wf(),
            r@ == Seq::<(u64, KinematicState)>::empty(),
    {
        Timeline { tree: tree_new(), len: 0, hist: Ghost(Seq::empty()) }
    }

    /// The number of entries in the timeline.
    pub fn len(&self) -> (r: usize)
        requires
            self.wf(),
        ensures
            r == self@.len(),
    {
        self.len
    }

    /// Appends one entry. The caller guarantees that `time` is strictly
    /// greater than every time already present (monotonic construction).
    pub fn insert(&mut self, time: u64, state: KinematicState)
        requires
            old(self).wf(),
            old(self).can_append(time),
            old(self)@.len() < usize::MAX,
        ensures
            final(self).wf(),
            final(self)@ == old(self)@.push((time, state)),
    {
        let _ = tree_insert(&mut self.tree, time, (state.p1, state.v1, state.p2, state.v2));
        self.len = self.len + 1;
        proof {
            let pre = self.hist@;
            self.hist@ = self.hist@.push((time, state));
            let post = self.hist@;
            assert forall|i: int, j: int| 0 <= i < j < post.len() implies post[i].0 < post[j].0 by {
                if j == post.len() - 1 {
                    assert(old(self)@[i].0 < time);
                }
            }
            assert forall|k: u64| tree_entries(self.tree).contains_key(k) implies (exists|i: int|
                0 <= i < post.len() && #[trigger] post[i].0 == k) by {
                if k == time {
                    assert(post[post.len() - 1].0 == k);
                } else {
                    let i = choose|i: int| 0 <= i < pre.len() && #[trigger] pre[i].0 == k;
                    assert(post[i].0 == k);
                }
            }
            assert forall|i: int| 0 <= i < post.len() implies tree_entries(self.tree).contains_key(
                #[trigger] post[i].0,
            ) && tree_entries(self.tree)[post[i].0] == packed(post[i].1) by {
                if i < post.len() - 1 {
                    assert(old(self)@[i].0 < time);
                }
            }
        }
    }

    /// Exact lookup: the snapshot recorded at exactly `time`, if any.
    pub fn get(&self, time: u64) -> (r: Option<KinematicState>)
        requires
            self.wf(),
        ensures
            (match r {
                Some(s) => exists|i: int| 0 <= i < self@.len() && #[trigger] self@[i] == (time, s),
                None => forall|i: int| 0 <= i < self@.len() ==> #[trigger] self@[i].0 != time,
            }),
    {
        match self.latest_at_or_before(time) {
            Some((k, s)) if k == time => Some(s),
            r => {
                proof {
                    assert forall|i: int| 0 <= i < self@.len() implies #[trigger] self@[i].0
                        != time by {
                        if self@[i].0 == time {
                            assert(self@[i].0 <= time);
                        }
                    }
                }
                None
            },
        }
    }

    /// Floor lookup: the entry with the greatest time at or before `time`,
    /// or `None` when the query precedes every entry.
    pub fn latest_at_or_before(&self, time: u64) -> (r: Option<(u64, KinematicState)>)
        requires
            self.wf(),
        ensures
            (match r {
                Some(e) => {
                    &&& e.0 <= time
                    &&& (exists|i: int| 0 <= i < self@.len() && #[trigger] self@[i] == e)
                    &&& (forall|i: int|
                        0 <= i < self@.len() && #[trigger] self@[i].0 <= time ==> self@[i].0 <= e.0)
                },
                None => forall|i: int| 0 <= i < self@.len() ==> #[trigger] self@[i].0 > time,
            }),
    {
        match tree_last_at_or_before(&self.tree, time) {
            None => {
                proof {
                    assert forall|i: int| 0 <= i < self@.len() implies #[trigger] self@[i].0
                        > time by {
                        assert(tree_entries(self.tree).contains_key(self.hist@[i].0));
                    }
                }
                None
            },
            Some((k, v)) => {
                let state = KinematicState { p1: v.0, v1: v.1, p2: v.2, v2: v.3 };
                proof {
                    assert(exists|i: int|
                        0 <= i < self.hist@.len() && #[trigger] self.hist@[i].0 == k);
                    let i = choose|i: int|
                        0 <= i < self.hist@.len() && #[trigger] self.hist@[i].0 == k;
                    assert(tree_entries(self.tree)[k] == packed(self.hist@[i].1));
                    assert(self.hist@[i] == (k, state));
                    assert(0 <= i < self@.len() && self@[i] == (k, state));
                    assert(exists|j: int| 0 <= j < self@.len() && #[trigger] self@[j] == (k, state));
                    assert forall|j: int|
                        0 <= j < self@.len() && #[trigger] self@[j].0 <= time implies self@[j].0
                        <= k by {
                        assert(tree_entries(self.tree).contains_key(self.hist@[j].0));
                    }
                }
                Some((k, state))
            },
        }
    }
}

/// Law of monotonic time: along the timeline, any earlier entry has a
/// strictly smaller elapsed time than any later one; in particular each
/// adjacent pair of entries is in strictly increasing time order.
pub proof fn lemma_monotonic_time(t: &Timeline, i: int, j: int)
    requires
        t.wf(),
        0 <= i < j < t@.len(),
    ensures
        t@[i].0 < t@[j].0,
{
}

} // verus!
