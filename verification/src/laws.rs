//! Pool-wide guarantees proved from the state model alone.

use vstd::prelude::*;

use crate::pool::spec_teardown;
use crate::pool::submitted;
use crate::pool::wf;
use crate::pool::PoolView;

verus! {

/// In every well-formed pool state, each submitted job is accounted for
/// exactly once: a ticket was handed out if and only if it appears among
/// the executed and pending jobs, and it appears there only once. No job
/// is ever lost, none is ever duplicated.
pub proof fn no_job_lost_or_duplicated(v: PoolView)
    requires
        wf(v),
    ensures
        forall|t: u64| (v.executed + v.pending).contains(t) <==> t < v.next_ticket,
        forall|i: int, j: int|
            0 <= i < j < (v.executed + v.pending).len() ==> (v.executed + v.pending)[i] != (
            v.executed + v.pending)[j],
{
    let all = v.executed + v.pending;
    assert(all == submitted(v));
    assert forall|t: u64| all.contains(t) <==> t < v.next_ticket by {
        if t < v.next_ticket {
            assert(all[t as int] == t);
        }
    }
}

/// After a graceful teardown of any well-formed pool, the jobs that were
/// run are exactly the jobs that were submitted — every ticket handed out
/// appears in the executed record exactly once — and every worker's thread
/// has been joined, so none is leaked.
pub proof fn teardown_executes_all(v: PoolView)
    requires
        wf(v),
    ensures
        spec_teardown(v).executed == submitted(v),
        forall|t: u64| spec_teardown(v).executed.contains(t) <==> t < v.next_ticket,
        forall|i: int, j: int|
            0 <= i < j < spec_teardown(v).executed.len() ==> spec_teardown(v).executed[i]
                != spec_teardown(v).executed[j],
        forall|i: int| 0 <= i < v.workers.len() ==> (#[trigger] spec_teardown(v).workers[i]).joined,
{
    no_job_lost_or_duplicated(v);
}

/// Teardown is idempotent: tearing down a pool that is already torn down
/// changes nothing, because the producer handle and the thread handles are
/// consumed at most once.
pub proof fn teardown_idempotent(v: PoolView)
    ensures
        spec_teardown(spec_teardown(v)) == spec_teardown(v),
{
    assert(spec_teardown(spec_teardown(v)).executed =~= spec_teardown(v).executed);
    assert(spec_teardown(spec_teardown(v)).workers =~= spec_teardown(v).workers);
    assert(spec_teardown(spec_teardown(v)) =~= spec_teardown(v));
}

/// Teardown waits for queued work rather than abandoning it: every job
/// still pending when teardown begins has been run by the time it returns.
pub proof fn teardown_waits_for_pending(v: PoolView)
    ensures
        forall|t: u64| v.pending.contains(t) ==> spec_teardown(v).executed.contains(t),
{
    assert forall|t: u64| v.pending.contains(t) implies spec_teardown(v).executed.contains(t) by {
        let k = choose|k: int| 0 <= k < v.pending.len() && v.pending[k] == t;
        assert(spec_teardown(v).executed[v.executed.len() + k] == t);
    }
}

} // verus!
