use vstd::prelude::*;

use vstd::string::StringExecFns;

use crate::diff::DiffResult;
use crate::snapshot::str_eq;

verus! {

/// The color token associated with a status name: a fixed token for each
/// status of the recognized enumeration, and the neutral fallback token
/// `"&7"` for any status outside it.
pub open spec fn spec_color_of(status: Seq<char>) -> Seq<char> {
    if status == "Accepted"@ {
        "&2"@
    } else if status == "Active"@ {
        "&a"@
    } else if status == "Deferred"@ {
        "&6"@
    } else if status == "Draft"@ {
        "&8"@
    } else if status == "Final"@ {
        "&1"@
    } else if status == "Provisional"@ {
        "&5"@
    } else if status == "Rejected"@ {
        "&4"@
    } else if status == "Replaced"@ {
        "&e"@
    } else if status == "Withdrawn"@ {
        "&d"@
    } else {
        "&7"@
    }
}

/// The presentation color for a status. Total: a status outside the
/// recognized enumeration gets the neutral fallback token rather than an
/// error, since the registry's status vocabulary may evolve.
pub fn color_of(status: &str) -> (r: &'static str)
    ensures
        r@ == spec_color_of(status@),
{
    if str_eq(status, "Accepted") {
        "&2"
    } else if str_eq(status, "Active") {
        "&a"
    } else if str_eq(status, "Deferred") {
        "&6"
    } else if str_eq(status, "Draft") {
        "&8"
    } else if str_eq(status, "Final") {
        "&1"
    } else if str_eq(status, "Provisional") {
        "&5"
    } else if str_eq(status, "Rejected") {
        "&4"
    } else if str_eq(status, "Replaced") {
        "&e"
    } else if str_eq(status, "Withdrawn") {
        "&d"
    } else {
        "&7"
    }
}

/// The report rows match the change list pointwise: same identifier and
/// status in the same position, with each row carrying the color of its new
/// status.
pub open spec fn report_matches(
    report: Seq<(String, String, String)>,
    changes: Seq<(String, String)>,
) -> bool {
    &&& report.len() == changes.len()
    &&& forall|i: int|
        0 <= i < report.len() ==> (#[trigger] report[i]).0 == changes[i].0 && report[i].1
            == changes[i].1 && report[i].2@ == spec_color_of(changes[i].1@)
}

/// Annotates each changed entry with the presentation color of its new
/// status: one report row per change, in order.
pub fn colorize(changes: &DiffResult) -> (r: Vec<(String, String, String)>)
    ensures
        report_matches(r@, changes.changes@),
{
    let mut report: Vec<(String, String, String)> = Vec::new();
    let n = changes.changes.len();
    let mut i: usize = 0;
    while i < n
        invariant
            n == changes.changes@.len(),
            i <= n,
            report@.len() == i,
            forall|p: int|
                0 <= p < i ==> (#[trigger] report@[p]).0 == changes.changes@[p].0 && report@[p].1
                    == changes.changes@[p].1 && report@[p].2@ == spec_color_of(
                    changes.changes@[p].1@,
                ),
        decreases n - i,
    {
        let pair = &changes.changes[i];
        let color = color_of(pair.1.as_str());
        report.push((pair.0.clone(), pair.1.clone(), String::from_str(color)));
        i = i + 1;
    }
    report
}

} // verus!
