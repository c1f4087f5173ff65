use vstd::prelude::*;

use crate::clock;
use crate::error::Error;
use crate::json;

verus! {

/// Content equality of string slices: `eq` on `str` compares the character
/// sequences (documented behavior of the standard library).
pub assume_specification[ <str as PartialEq>::eq ](a: &str, b: &str) -> (r: bool)
    ensures
        r == (a@ == b@),
;

/// Content equality of two string slices.
pub fn str_eq(a: &str, b: &str) -> (r: bool)
    ensures
        r == (a@ == b@),
{
    *a == *b
}

/// The mathematical content of an entry list: the finite map built by
/// inserting the pairs in order, so a later pair with the same identifier
/// overrides an earlier one.
pub open spec fn map_of(entries: Seq<(String, String)>) -> Map<Seq<char>, Seq<char>>
    decreases entries.len(),
{
    if entries.len() == 0 {
        Map::empty()
    } else {
        map_of(entries.drop_last()).insert(entries.last().0@, entries.last().1@)
    }
}

/// No two pairs of the list share an identifier.
pub open spec fn keys_unique(entries: Seq<(String, String)>) -> bool {
    forall|i: int, j: int| 0 <= i < j < entries.len() ==> entries[i].0@ != entries[j].0@
}

/// The domain of `map_of(entries)` is exactly the set of identifiers
/// occurring in `entries`.
pub proof fn lemma_map_of_domain(entries: Seq<(String, String)>)
    ensures
        forall|k: Seq<char>|
            map_of(entries).contains_key(k) <==> exists|i: int|
                0 <= i < entries.len() && (#[trigger] entries[i]).0@ == k,
    decreases entries.len(),
{
    if entries.len() > 0 {
        lemma_map_of_domain(entries.drop_last());
        assert forall|k: Seq<char>| map_of(entries).contains_key(k) implies exists|i: int|
            0 <= i < entries.len() && (#[trigger] entries[i]).0@ == k by {
            if k == entries.last().0@ {
                assert((entries[entries.len() - 1]).0@ == k);
            } else {
                assert(map_of(entries) == map_of(entries.drop_last()).insert(
                    entries.last().0@,
                    entries.last().1@,
                ));
                assert(map_of(entries.drop_last()).contains_key(k));
                let i = choose|i: int|
                    0 <= i < entries.drop_last().len() && (#[trigger] entries.drop_last()[i]).0@
                        == k;
                assert(entries.drop_last()[i] == entries[i]);
                assert((entries[i]).0@ == k);
            }
        }
        assert forall|k: Seq<char>|
            (exists|i: int|
                0 <= i < entries.len() && (#[trigger] entries[i]).0@ == k) implies map_of(
            entries,
        ).contains_key(k) by {
            let i = choose|i: int| 0 <= i < entries.len() && (#[trigger] entries[i]).0@ == k;
            assert(map_of(entries) == map_of(entries.drop_last()).insert(
                entries.last().0@,
                entries.last().1@,
            ));
            if i < entries.len() - 1 {
                assert((entries.drop_last()[i]).0@ == k);
                assert(map_of(entries.drop_last()).contains_key(k));
            } else {
                assert(k == entries.last().0@);
            }
        }
    }
}

/// `map_of` always builds a finite map.
pub proof fn lemma_map_of_finite(entries: Seq<(String, String)>)
    ensures
        map_of(entries).dom().finite(),
    decreases entries.len(),
{
    if entries.len() > 0 {
        lemma_map_of_finite(entries.drop_last());
    }
}

/// In a list with unique identifiers, `map_of` sends each identifier to the
/// status paired with it.
pub proof fn lemma_map_of_index(entries: Seq<(String, String)>, i: int)
    requires
        keys_unique(entries),
        0 <= i < entries.len(),
    ensures
        map_of(entries).contains_key(entries[i].0@),
        map_of(entries)[entries[i].0@] == entries[i].1@,
    decreases entries.len(),
{
    if i < entries.len() - 1 {
        assert(keys_unique(entries.drop_last()));
        lemma_map_of_index(entries.drop_last(), i);
        assert(entries.drop_last()[i] == entries[i]);
        assert(entries[i].0@ != entries.last().0@);
    }
}

/// An immutable point-in-time capture of all entries of the registry and
/// their statuses. Viewed as a finite map from entry identifier to status.
#[derive(Debug)]
pub struct Snapshot {
    /// Entry identifier / status pairs; `wf()` says no identifier repeats.
    pub entries: Vec<(String, String)>,
    /// Seconds since the Unix epoch at which the snapshot was taken.
    pub captured_at: i64,
}

impl View for Snapshot {
    type V = Map<Seq<char>, Seq<char>>;

    open spec fn view(&self) -> Map<Seq<char>, Seq<char>> {
        map_of(self.entries@)
    }
}

impl Snapshot {
    /// Well-formedness: the entry list is a genuine mapping (unique keys).
    pub open spec fn wf(&self) -> bool {
        keys_unique(self.entries@)
    }

    /// Constructs a snapshot from an entry list and an optional capture
    /// timestamp; with `None` the current process time is recorded. A list
    /// that is not a mapping (a repeated identifier) is malformed data.
    pub fn capture(entries: Vec<(String, String)>, timestamp: Option<i64>) -> (r: Result<
        Snapshot,
        Error,
    >)
        ensures
            r is Ok <==> keys_unique(entries@),
            r is Ok ==> r->Ok_0.wf() && r->Ok_0@ == map_of(entries@) && r->Ok_0.entries@
                == entries@,
            r is Ok && timestamp is Some ==> r->Ok_0.captured_at == timestamp->0,
            r is Err ==> r->Err_0 == Error::MalformedData,
    {
        if !keys_are_unique(&entries) {
            return Err(Error::MalformedData);
        }
        let captured_at = match timestamp {
            Some(t) => t,
            None => clock::now_timestamp(),
        };
        Ok(Snapshot { entries, captured_at })
    }

    /// The snapshot with no entries, timestamped with the current process
    /// time.
    pub fn empty() -> (r: Snapshot)
        ensures
            r.wf(),
            r@ == Map::<Seq<char>, Seq<char>>::empty(),
            r.entries@ == Seq::<(String, String)>::empty(),
    {
        Snapshot { entries: Vec::new(), captured_at: clock::now_timestamp() }
    }

    /// The canonical JSON document for this snapshot's entries. The capture
    /// timestamp is not part of the stored representation.
    pub fn serialize(&self) -> (r: String)
        requires
            self.wf(),
        ensures
            r@ == json::json_of(self@),
            self@.dom().finite(),
    {
        proof {
            lemma_map_of_finite(self.entries@);
        }
        json::entries_to_json(&self.entries)
    }

    /// Parses a JSON object of string statuses into a snapshot timestamped
    /// with the current process time: succeeds exactly on the texts that
    /// parse as an identifier-to-status object, with exactly the parsed
    /// entries. Any document serialized from a snapshot parses back to that
    /// snapshot's entries; any other outcome is malformed data.
    pub fn deserialize(text: &str) -> (r: Result<Snapshot, Error>)
        ensures
            r is Ok <==> json::parsed_entries(text@) is Some,
            r is Ok ==> r->Ok_0.wf() && json::parsed_entries(text@) == Some(r->Ok_0@)
                && r->Ok_0@.dom().finite(),
            forall|m: Map<Seq<char>, Seq<char>>|
                m.dom().finite() && text@ == #[trigger] json::json_of(m) ==> r is Ok && r->Ok_0@
                    == m,
            r is Err ==> r->Err_0 == Error::MalformedData,
    {
        match json::json_to_entries(text) {
            Some(entries) => {
                proof {
                    lemma_map_of_finite(entries@);
                }
                Ok(Snapshot { entries, captured_at: clock::now_timestamp() })
            },
            None => Err(Error::MalformedData),
        }
    }

    /// Fallible lookup: the status of `key` in this snapshot, if the entry
    /// exists.
    pub fn get(&self, key: &str) -> (r: Option<&String>)
        requires
            self.wf(),
        ensures
            r is Some <==> self@.contains_key(key@),
            r is Some ==> r->0@ == self@[key@],
    {
        lookup(&self.entries, key)
    }
}

/// Fallible lookup in an entry list with unique identifiers: the status
/// paired with `key`, if any pair carries it.
pub fn lookup<'a>(entries: &'a Vec<(String, String)>, key: &str) -> (r: Option<&'a String>)
    requires
        keys_unique(entries@),
    ensures
        r is Some <==> map_of(entries@).contains_key(key@),
        r is Some ==> r->0@ == map_of(entries@)[key@],
{
    let n = entries.len();
    let mut i: usize = 0;
    while i < n
        invariant
            keys_unique(entries@),
            n == entries@.len(),
            i <= n,
            forall|p: int| 0 <= p < i ==> (#[trigger] entries@[p]).0@ != key@,
        decreases n - i,
    {
        if str_eq(entries[i].0.as_str(), key) {
            proof {
                lemma_map_of_index(entries@, i as int);
            }
            return Some(&entries[i].1);
        }
        i = i + 1;
    }
    proof {
        lemma_map_of_domain(entries@);
    }
    None
}

/// Whether the list is a genuine mapping: no identifier occurs twice.
pub fn keys_are_unique(entries: &Vec<(String, String)>) -> (b: bool)
    ensures
        b == keys_unique(entries@),
{
    let n = entries.len();
    let mut j: usize = 1;
    while j < n
        invariant
            n == entries@.len(),
            1 <= j || n == 0,
            j <= n || n == 0,
            forall|p: int, q: int| 0 <= p < q < j ==> entries@[p].0@ != entries@[q].0@,
        decreases n - j,
    {
        let mut i: usize = 0;
        while i < j
            invariant
                n == entries@.len(),
                j < n,
                i <= j,
                forall|p: int| 0 <= p < i ==> entries@[p].0@ != entries@[j as int].0@,
            decreases j - i,
        {
            if str_eq(entries[i].0.as_str(), entries[j].0.as_str()) {
                return false;
            }
            i = i + 1;
        }
        j = j + 1;
    }
    true
}

} // verus!
