use vstd::prelude::*;

use crate::colors::colorize;
use crate::colors::report_matches;
use crate::diff::DiffResult;
use crate::diff::diff;
use crate::diff::spec_diff;
use crate::error::Error;
use crate::json::json_of;
use crate::json::parsed_entries;
use crate::snapshot::Snapshot;
use crate::store::load_or_empty;

verus! {

/// What one successful pass hands back to its surroundings: the changed
/// entries, the colorized report rows, and the document to persist.
#[derive(Debug)]
pub struct PassOutcome {
    /// The entries whose status changed since the previous snapshot.
    pub changes: DiffResult,
    /// One row per changed entry — identifier, new status, presentation
    /// color of the new status — in the order of `changes`.
    pub report: Vec<(String, String, String)>,
    /// The serialized fetched snapshot, to replace the stored document once
    /// the report has been delivered.
    pub persist_text: String,
}

/// The decision core of one pass: interprets the stored document as the
/// previous snapshot (empty on a first run), computes the entries whose
/// status changed in the freshly fetched snapshot, colors them, and
/// serializes the fetched snapshot for persisting. The pass aborts, with
/// `MalformedData`, exactly on a present stored document that does not parse
/// — and then nothing is handed out to persist.
pub fn run_pass(stored: Option<&str>, fetched: &Snapshot) -> (r: Result<PassOutcome, Error>)
    requires
        fetched.wf(),
    ensures
        stored is None ==> r is Ok,
        stored is Some ==> (r is Ok <==> parsed_entries(stored->0@) is Some),
        r is Err ==> r->Err_0 == Error::MalformedData && stored is Some,
        r is Ok ==> r->Ok_0.changes.wf() && r->Ok_0.persist_text@ == json_of(fetched@)
            && report_matches(r->Ok_0.report@, r->Ok_0.changes.changes@),
        r is Ok && stored is None ==> r->Ok_0.changes@ == spec_diff(
            Map::<Seq<char>, Seq<char>>::empty(),
            fetched@,
        ),
        r is Ok && stored is Some ==> r->Ok_0.changes@ == spec_diff(
            parsed_entries(stored->0@)->0,
            fetched@,
        ),
        forall|m: Map<Seq<char>, Seq<char>>|
            stored is Some && m.dom().finite() && stored->0@ == #[trigger] json_of(m) ==> r is Ok
                && r->Ok_0.changes@ == spec_diff(m, fetched@),
{
    let previous = match load_or_empty(stored) {
        Ok(snapshot) => snapshot,
        Err(e) => return Err(e),
    };
    let changes = diff(&previous, fetched);
    let report = colorize(&changes);
    let persist_text = fetched.serialize();
    Ok(PassOutcome { changes, report, persist_text })
}

} // verus!
