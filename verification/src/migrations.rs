//! Planning logic of the schema-migration runner.
//!
//! The runner holds an ordered list of schema scripts; script number
//! `v` (1-based) brings the database to version `v`.  A persisted
//! integer version counter records how far the database has come.  The
//! runner applies each script whose version is above the counter, in
//! ascending order, one atomic transaction per script, advancing the
//! counter after each; re-running it is therefore idempotent.  The
//! I/O layer executes the plan computed here.

use vstd::prelude::*;

verus! {

/// The versions still to apply, in the order to apply them: every
/// version from `current_version + 1` (at least 1) up to `total`, the
/// number of known scripts.
pub fn pending_migrations(current_version: i64, total: usize) -> (r: Vec<i64>)
    requires
        total < 0x7fff_ffff_ffff_ffff,
    ensures
        forall|k: int| 0 <= k < r@.len() ==> current_version < #[trigger] r@[k] <= total as i64,
        forall|k: int| 0 <= k < r@.len() ==> 1 <= #[trigger] r@[k],
        forall|k: int| 0 < k < r@.len() ==> r@[k - 1] + 1 == #[trigger] r@[k],
        r@.len() > 0 ==> r@.last() == total as i64,
        r@.len() > 0 ==> r@[0] == if current_version < 0 {
            1i64 as int
        } else {
            current_version + 1
        },
        r@.len() == 0 <==> (current_version >= total as i64 || total == 0),
{
    let total_version: i64 = total as i64;
    let mut next: i64 = if current_version < 0 {
        1
    } else if current_version >= total_version {
        return Vec::new();
    } else {
        current_version + 1
    };
    let ghost first: int = next as int;
    let mut plan: Vec<i64> = Vec::new();
    while next <= total_version
        invariant
            1 <= first,
            current_version < first,
            first <= next <= total_version + 1,
            total_version == total as i64,
            total_version < 0x7fff_ffff_ffff_ffff,
            plan@.len() == next - first,
            forall|k: int| 0 <= k < plan@.len() ==> #[trigger] plan@[k] == first + k,
        decreases total_version + 1 - next,
    {
        plan.push(next);
        next += 1;
    }
    plan
}

} // verus!
