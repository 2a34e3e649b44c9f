//! Reconciliation ("clean"): detecting and repairing drift between the
//! registry and the clusters a backend actually has live.
//!
//! A registry entry is *orphaned* when it is locally incomplete or when its
//! backend handle is not in the backend's live list (see
//! [`crate::registry::orphaned`]). The reconciler never calls a provider's
//! delete for an orphan: for a record to count as orphaned, the backend
//! side effect must already be gone, never have happened, or never have
//! been recorded; removing local state is the only applicable action. In
//! dry-run mode each orphan is reported and nothing is touched; in force
//! mode the orphaned records are removed from the registry (and the caller
//! mirrors each removal to disk).

use vstd::prelude::*;

use crate::registry::{names_of, kept_records, orphan_names, record_is_orphaned, Registry};

verus! {

/// The names of the orphaned registry entries, in registry order, with the
/// registry left untouched.
pub fn find_orphans(reg: &Registry, live: &Vec<String>) -> (r: Vec<String>)
    ensures
        names_of(r@) == orphan_names(reg@, names_of(live@)),
{
    let ghost lv = names_of(live@);
    let n = reg.len();
    let mut out: Vec<String> = Vec::new();
    let mut i: usize = 0;
    while i < n
        invariant
            n == reg@.len(),
            i <= n,
            lv == names_of(live@),
            names_of(out@) =~= orphan_names(reg@.take(i as int), lv),
        decreases n - i,
    {
        proof {
            assert(reg@.take(i + 1).drop_last() =~= reg@.take(i as int));
            assert(reg@.take(i + 1).last() == reg@[i as int]);
        }
        let rec = reg.record_at(i);
        if record_is_orphaned(rec, live) {
            out.push(rec.name.clone());
        }
        proof {
            assert(names_of(out@) =~= orphan_names(reg@.take(i + 1), lv));
        }
        i += 1;
    }
    proof {
        assert(reg@.take(n as int) =~= reg@);
    }
    out
}

/// One reconciliation pass: reports the orphaned entries, and in force
/// mode removes exactly those entries from the registry, leaving every
/// complete and live record untouched and in order. In dry-run mode
/// (`force == false`) the registry is left exactly as it was.
pub fn clean(reg: &mut Registry, live: &Vec<String>, force: bool) -> (orphans: Vec<String>)
    ensures
        names_of(orphans@) == orphan_names(old(reg)@, names_of(live@)),
        force ==> final(reg)@ == kept_records(old(reg)@, names_of(live@)),
        !force ==> final(reg)@ == old(reg)@,
        old(reg).wf() ==> final(reg).wf(),
{
    let orphans = find_orphans(reg, live);
    if force {
        reg.remove_orphans(live);
    }
    orphans
}

} // verus!
