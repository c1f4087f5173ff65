use vstd::prelude::*;

use crate::snapshot::Snapshot;
use crate::snapshot::keys_unique;
use crate::snapshot::lemma_map_of_domain;
use crate::snapshot::lemma_map_of_index;
use crate::snapshot::lookup;
use crate::snapshot::map_of;
use crate::snapshot::str_eq;

verus! {

/// The changed entries between two snapshots, each identifier mapped to its
/// *new* status. Viewed as a finite map from entry identifier to status.
#[derive(Debug)]
pub struct DiffResult {
    /// Changed entry identifier / new status pairs; `wf()` says no
    /// identifier repeats.
    pub changes: Vec<(String, String)>,
}

impl View for DiffResult {
    type V = Map<Seq<char>, Seq<char>>;

    open spec fn view(&self) -> Map<Seq<char>, Seq<char>> {
        map_of(self.changes@)
    }
}

impl DiffResult {
    /// Well-formedness: the change list is a genuine mapping (unique keys).
    pub open spec fn wf(&self) -> bool {
        keys_unique(self.changes@)
    }

    /// Fallible lookup: the new status recorded for `key`, if that entry
    /// changed.
    pub fn get(&self, key: &str) -> (r: Option<&String>)
        requires
            self.wf(),
        ensures
            r is Some <==> self@.contains_key(key@),
            r is Some ==> r->0@ == self@[key@],
    {
        lookup(&self.changes, key)
    }

    /// The number of changed entries.
    pub fn len(&self) -> (n: usize)
        ensures
            n == self.changes@.len(),
    {
        self.changes.len()
    }
}

/// The changed entries between an `old` and a `new` snapshot content: every
/// identifier present in `new` whose status is absent from `old` or differs
/// there, sent to its status in `new`. Identifiers present only in `old`
/// (removed entries) are not reported.
pub open spec fn spec_diff(old: Map<Seq<char>, Seq<char>>, new: Map<Seq<char>, Seq<char>>) -> Map<
    Seq<char>,
    Seq<char>,
> {
    Map::new(
        |k: Seq<char>| new.contains_key(k) && (!old.contains_key(k) || old[k] != new[k]),
        |k: Seq<char>| new[k],
    )
}

/// Law: diffing a snapshot against itself yields no changes.
pub proof fn lemma_diff_self_empty(s: Snapshot)
    ensures
        spec_diff(s@, s@) == Map::<Seq<char>, Seq<char>>::empty(),
{
    assert(spec_diff(s@, s@) =~= Map::<Seq<char>, Seq<char>>::empty());
}

/// Law: every identifier a diff reports is present in the new snapshot,
/// carries the new snapshot's status, and that status is absent from the old
/// snapshot or differs from the old snapshot's status.
pub proof fn lemma_diff_reports_only_changes(old: Snapshot, new: Snapshot)
    ensures
        forall|k: Seq<char>| #[trigger]
            spec_diff(old@, new@).contains_key(k) ==> new@.contains_key(k) && spec_diff(
                old@,
                new@,
            )[k] == new@[k] && (!old@.contains_key(k) || old@[k] != new@[k]),
{
}

/// Computes the set of entries whose status changed from `old` to `new`:
/// exactly the identifiers of `new` that are absent from `old` or carry a
/// different status there, each with its status in `new`.
pub fn diff(old: &Snapshot, new: &Snapshot) -> (r: DiffResult)
    requires
        old.wf(),
        new.wf(),
    ensures
        r.wf(),
        r@ == spec_diff(old@, new@),
{
    let mut changes: Vec<(String, String)> = Vec::new();
    let n = new.entries.len();
    let mut i: usize = 0;
    while i < n
        invariant
            old.wf(),
            new.wf(),
            n == new.entries@.len(),
            i <= n,
            keys_unique(changes@),
            map_of(changes@) == spec_diff(old@, map_of(new.entries@.take(i as int))),
        decreases n - i,
    {
        let ghost prefix = new.entries@.take(i as int);
        let ghost key = new.entries@[i as int].0@;
        let ghost value = new.entries@[i as int].1@;
        proof {
            // The identifier of entry `i` is fresh for the prefix map.
            lemma_map_of_domain(prefix);
            assert forall|p: int| 0 <= p < i implies (#[trigger] prefix[p]).0@ != key by {
                assert(prefix[p] == new.entries@[p]);
            }
            assert(!map_of(prefix).contains_key(key));
            // Extending the prefix by entry `i` inserts its pair.
            assert(new.entries@.take(i + 1).drop_last() =~= prefix);
            assert(map_of(new.entries@.take(i + 1)) == map_of(prefix).insert(key, value));
        }
        let pair = &new.entries[i];
        let changed = match old.get(pair.0.as_str()) {
            None => true,
            Some(status) => !str_eq(status.as_str(), pair.1.as_str()),
        };
        if changed {
            proof {
                // The pushed pair extends the change map by exactly this key.
                lemma_map_of_domain(changes@);
                assert forall|p: int| 0 <= p < changes@.len() implies (#[trigger] changes@[p]).0@
                    != key by {
                    assert(map_of(changes@).contains_key(changes@[p].0@));
                }
                assert(changes@.push((pair.0, pair.1)).drop_last() =~= changes@);
                assert(spec_diff(old@, map_of(prefix).insert(key, value)) =~= spec_diff(
                    old@,
                    map_of(prefix),
                ).insert(key, value));
            }
            changes.push((pair.0.clone(), pair.1.clone()));
        } else {
            proof {
                assert(spec_diff(old@, map_of(prefix).insert(key, value)) =~= spec_diff(
                    old@,
                    map_of(prefix),
                ));
            }
        }
        i = i + 1;
    }
    proof {
        assert(new.entries@.take(n as int) =~= new.entries@);
    }
    DiffResult { changes }
}

} // verus!
