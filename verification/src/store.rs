use vstd::prelude::*;

use crate::error::Error;
use crate::json::json_of;
use crate::json::parsed_entries;
use crate::snapshot::Snapshot;

verus! {

/// Interprets the document read from the snapshot store. `None` stands for a
/// store with no prior snapshot (first run), which fails with `NotFound`; a
/// present document succeeds exactly when it parses as an
/// identifier-to-status object, and fails with `MalformedData` otherwise;
/// any document a snapshot was serialized to yields that snapshot's entries
/// back.
pub fn load(stored: Option<&str>) -> (r: Result<Snapshot, Error>)
    ensures
        stored is None ==> r == Result::<Snapshot, Error>::Err(Error::NotFound),
        stored is Some ==> (r is Ok <==> parsed_entries(stored->0@) is Some),
        r is Ok ==> r->Ok_0.wf() && parsed_entries(stored->0@) == Some(r->Ok_0@),
        forall|m: Map<Seq<char>, Seq<char>>|
            stored is Some && m.dom().finite() && stored->0@ == #[trigger] json_of(m) ==> r is Ok
                && r->Ok_0@ == m,
        r is Err && stored is Some ==> r->Err_0 == Error::MalformedData,
{
    match stored {
        Some(text) => Snapshot::deserialize(text),
        None => Err(Error::NotFound),
    }
}

/// Loads the previous snapshot for a pass, recovering a store with no prior
/// snapshot as the empty snapshot, so the system bootstraps cleanly on its
/// first run instead of surfacing an error. Fails, with `MalformedData`,
/// exactly on a present document that does not parse.
pub fn load_or_empty(stored: Option<&str>) -> (r: Result<Snapshot, Error>)
    ensures
        r is Ok ==> r->Ok_0.wf(),
        stored is None ==> r is Ok && r->Ok_0@ == Map::<Seq<char>, Seq<char>>::empty(),
        stored is Some ==> (r is Ok <==> parsed_entries(stored->0@) is Some),
        stored is Some && r is Ok ==> parsed_entries(stored->0@) == Some(r->Ok_0@),
        forall|m: Map<Seq<char>, Seq<char>>|
            stored is Some && m.dom().finite() && stored->0@ == #[trigger] json_of(m) ==> r is Ok
                && r->Ok_0@ == m,
        r is Err ==> r->Err_0 == Error::MalformedData && stored is Some,
{
    match stored {
        Some(text) => Snapshot::deserialize(text),
        None => Ok(Snapshot::empty()),
    }
}

} // verus!
