//! Task distribution for a scan: the task list that the worker pool drains.
//!
//! The workers and the sockets live outside the library; what is verified
//! here is the coverage contract: the task list enumerates every port of
//! the range exactly once, so a pool that consumes each task exactly once
//! scans every port exactly once, with no port skipped or duplicated, and
//! the number of attempts is the range size times the transports enabled.

use vstd::prelude::*;

verus! {

/// The task list for scanning `start_port..=end_port`: the ports of the
/// range in ascending order, each exactly once.
pub fn port_tasks(start_port: u16, end_port: u16) -> (r: Vec<u16>)
    requires
        start_port <= end_port,
    ensures
        r@.len() == end_port - start_port + 1,
        forall|i: int| 0 <= i < r@.len() ==> r@[i] == start_port + i,
{
    let mut tasks: Vec<u16> = Vec::new();
    let mut p: u32 = start_port as u32;
    while p <= end_port as u32
        invariant
            start_port as u32 <= p <= end_port as u32 + 1,
            tasks@.len() == p - start_port as u32,
            forall|i: int| 0 <= i < tasks@.len() ==> tasks@[i] == start_port + i,
        decreases end_port as u32 + 1 - p,
    {
        tasks.push(p as u16);
        p += 1;
    }
    tasks
}

/// Coverage: a task list that enumerates the range in order holds every
/// port of the range, and holds no port twice. A pool that consumes each
/// task exactly once therefore attempts every port in range exactly once
/// per transport.
pub proof fn lemma_tasks_cover_range(tasks: Seq<u16>, start_port: u16, end_port: u16)
    requires
        start_port <= end_port,
        tasks.len() == end_port - start_port + 1,
        forall|i: int| 0 <= i < tasks.len() ==> tasks[i] == start_port + i,
    ensures
        forall|p: u16| start_port <= p <= end_port ==> #[trigger] tasks.contains(p),
        forall|i: int, j: int|
            0 <= i < tasks.len() && 0 <= j < tasks.len() && i != j ==> tasks[i] != tasks[j],
{
    assert forall|p: u16| start_port <= p <= end_port implies #[trigger] tasks.contains(p) by {
        let w = p - start_port;
        assert(tasks[w] == p);
    }
}

} // verus!
