//! The control-plane state of one scan job: its parameters, the running and
//! complete flags, the progress counter, and the accumulated verdicts.
//!
//! This is the sequential core of the job registry; the dispatching layer
//! outside the library wraps one `ScanState` in whatever sharing it needs
//! and calls these methods under its own lock.

use vstd::prelude::*;
use crate::service_info::ServiceInfo;

verus! {

/// One scan job's state.
#[derive(Debug)]
pub struct ScanState {
    pub target: String,
    pub start_port: u16,
    pub end_port: u16,
    pub threads: usize,
    pub timeout_ms: u64,
    pub udp_timeout_ms: u64,
    pub scanned_count: usize,
    pub total_ports: usize,
    pub results: Vec<ServiceInfo>,
    pub running: bool,
    pub complete: bool,
}

impl ScanState {
    /// A fresh job over `start_port..=end_port`: nothing scanned, no
    /// results, neither running nor complete, and the total fixed to the
    /// range size.
    pub fn new(
        target: String,
        start_port: u16,
        end_port: u16,
        threads: usize,
        timeout_ms: u64,
        udp_timeout_ms: u64,
    ) -> (r: ScanState)
        requires
            start_port <= end_port,
        ensures
            r.target == target,
            r.start_port == start_port,
            r.end_port == end_port,
            r.threads == threads,
            r.timeout_ms == timeout_ms,
            r.udp_timeout_ms == udp_timeout_ms,
            r.scanned_count == 0,
            r.total_ports == end_port - start_port + 1,
            r.results@ =~= Seq::<ServiceInfo>::empty(),
            !r.running,
            !r.complete,
    {
        let total_ports: usize = (end_port - start_port) as usize + 1;
        ScanState {
            target,
            start_port,
            end_port,
            threads,
            timeout_ms,
            udp_timeout_ms,
            scanned_count: 0,
            total_ports,
            results: Vec::new(),
            running: false,
            complete: false,
        }
    }

    /// Marks the job running and clears any previous progress and results.
    pub fn start(&mut self)
        ensures
            final(self).running,
            !final(self).complete,
            final(self).scanned_count == 0,
            final(self).results@ =~= Seq::<ServiceInfo>::empty(),
            final(self).target == old(self).target,
            final(self).start_port == old(self).start_port,
            final(self).end_port == old(self).end_port,
            final(self).threads == old(self).threads,
            final(self).timeout_ms == old(self).timeout_ms,
            final(self).udp_timeout_ms == old(self).udp_timeout_ms,
            final(self).total_ports == old(self).total_ports,
    {
        self.running = true;
        self.complete = false;
        self.scanned_count = 0;
        self.results.clear();
    }

    /// Marks the job finished.
    pub fn complete(&mut self)
        ensures
            !final(self).running,
            final(self).complete,
            final(self).scanned_count == old(self).scanned_count,
            final(self).results@ == old(self).results@,
            final(self).target == old(self).target,
            final(self).start_port == old(self).start_port,
            final(self).end_port == old(self).end_port,
            final(self).threads == old(self).threads,
            final(self).timeout_ms == old(self).timeout_ms,
            final(self).udp_timeout_ms == old(self).udp_timeout_ms,
            final(self).total_ports == old(self).total_ports,
    {
        self.running = false;
        self.complete = true;
    }

    /// Appends one finished verdict.
    pub fn add_result(&mut self, result: ServiceInfo)
        ensures
            final(self).results@ == old(self).results@.push(result),
            final(self).scanned_count == old(self).scanned_count,
            final(self).running == old(self).running,
            final(self).complete == old(self).complete,
            final(self).target == old(self).target,
            final(self).start_port == old(self).start_port,
            final(self).end_port == old(self).end_port,
            final(self).threads == old(self).threads,
            final(self).timeout_ms == old(self).timeout_ms,
            final(self).udp_timeout_ms == old(self).udp_timeout_ms,
            final(self).total_ports == old(self).total_ports,
    {
        self.results.push(result);
    }

    /// Counts one more port as finished, whatever its outcome was.
    pub fn increment_scanned(&mut self)
        requires
            old(self).scanned_count < usize::MAX,
        ensures
            final(self).scanned_count == old(self).scanned_count + 1,
            final(self).results@ == old(self).results@,
            final(self).running == old(self).running,
            final(self).complete == old(self).complete,
            final(self).target == old(self).target,
            final(self).start_port == old(self).start_port,
            final(self).end_port == old(self).end_port,
            final(self).threads == old(self).threads,
            final(self).timeout_ms == old(self).timeout_ms,
            final(self).udp_timeout_ms == old(self).udp_timeout_ms,
            final(self).total_ports == old(self).total_ports,
    {
        self.scanned_count = self.scanned_count + 1;
    }

    /// The pair (ports scanned so far, ports in range).
    pub fn get_progress(&self) -> (r: (usize, usize))
        ensures
            r.0 == self.scanned_count,
            r.1 == self.total_ports,
    {
        (self.scanned_count, self.total_ports)
    }

    /// A snapshot of the verdicts accumulated so far.
    pub fn get_results(&self) -> (r: Vec<ServiceInfo>)
        ensures
            r.deep_view() == self.results.deep_view(),
    {
        let mut out: Vec<ServiceInfo> = Vec::new();
        let mut i: usize = 0;
        while i < self.results.len()
            invariant
                i <= self.results.len(),
                out.deep_view() =~= self.results@.take(i as int).map_values(
                    |s: ServiceInfo| s.deep_view(),
                ),
            decreases self.results.len() - i,
        {
            out.push(self.results[i].clone());
            proof {
                assert(self.results@.take(i + 1).map_values(|s: ServiceInfo| s.deep_view())
                    =~= self.results@.take(i as int).map_values(
                    |s: ServiceInfo| s.deep_view(),
                ).push(self.results@[i as int].deep_view()));
            }
            i += 1;
        }
        proof {
            assert(self.results@.take(self.results@.len() as int) =~= self.results@);
            assert(out.deep_view() =~= self.results.deep_view());
        }
        out
    }

    /// Whether a scan is in progress.
    pub fn is_running(&self) -> (r: bool)
        ensures
            r == self.running,
    {
        self.running
    }

    /// Whether the scan has finished.
    pub fn is_complete(&self) -> (r: bool)
        ensures
            r == self.complete,
    {
        self.complete
    }
}

} // verus!
