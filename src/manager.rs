//! The record table and the decisions of the startup sequencer and the
//! supervision loop.
//!
//! The table is an owned arena: a service is addressed by its index, and every
//! pass walks the table by index. The caller performs the process control
//! (spawn, non-blocking poll, sleep) and passes the outcomes in, one per
//! record, in table order.

use vstd::prelude::*;
use crate::config::{is_service_table, services};
use crate::defs::{
    exited, initial_state, launched, polled, restart_fits, restarted, PollOutcome, ServiceConfig,
    ServiceState, ServiceStatus,
};

verus! {

/// The records that the startup sequencer builds for `table`, one per
/// descriptor and in the same order.
pub open spec fn initial_records(table: Seq<ServiceConfig>) -> Seq<ServiceState> {
    table.map_values(|c: ServiceConfig| initial_state(c))
}

/// No polled process has exited: every record with a process was reported
/// still running.
pub open spec fn none_exited(records: Seq<ServiceState>, polls: Seq<PollOutcome>) -> bool {
    forall|i: int|
        0 <= i < records.len() && #[trigger] records[i].pid is Some ==> polls[i]
            == PollOutcome::StillRunning
}

/// Each record takes the outcome of its own launch attempt.
pub open spec fn launch_all(records: Seq<ServiceState>, spawned: Seq<Option<usize>>) -> Seq<
    ServiceState,
> {
    Seq::new(records.len(), |i: int| launched(records[i], spawned[i]))
}

/// Each record takes the outcome of polling its own process.
pub open spec fn poll_all(records: Seq<ServiceState>, polls: Seq<PollOutcome>) -> Seq<
    ServiceState,
> {
    Seq::new(records.len(), |i: int| polled(records[i], polls[i]))
}

/// Each record in `Restarting` is restarted with the outcome of its own launch.
pub open spec fn restart_all(records: Seq<ServiceState>, now: u64, spawned: Seq<Option<usize>>) -> Seq<
    ServiceState,
> {
    Seq::new(records.len(), |i: int| restarted(records[i], now, spawned[i]))
}

/// Every record in `Restarting` can count one more restart.
pub open spec fn restarts_fit(records: Seq<ServiceState>) -> bool {
    forall|i: int| 0 <= i < records.len() ==> restart_fits(#[trigger] records[i])
}

/// Over one iteration of the supervision loop, a vitality check followed by the
/// restart pass, no restart counter decreases, and a counter grows by exactly
/// one where its record went through the restart pass.
pub proof fn restart_count_monotone(
    records: Seq<ServiceState>,
    polls: Seq<PollOutcome>,
    now: u64,
    spawned: Seq<Option<usize>>,
)
    requires
        polls.len() == records.len(),
        spawned.len() == records.len(),
        restarts_fit(poll_all(records, polls)),
    ensures
        ({
            let checked = poll_all(records, polls);
            let after = restart_all(checked, now, spawned);
            &&& after.len() == records.len()
            &&& forall|i: int|
                0 <= i < records.len() ==> #[trigger] after[i].restart_count
                    >= records[i].restart_count
            &&& forall|i: int|
                0 <= i < records.len() ==> #[trigger] after[i].restart_count == if checked[i].status
                    == ServiceStatus::Restarting {
                    records[i].restart_count + 1
                } else {
                    records[i].restart_count as int
                }
        }),
{
    let checked = poll_all(records, polls);
    assert forall|i: int| 0 <= i < records.len() implies checked[i].restart_count
        == records[i].restart_count && restart_fits(#[trigger] checked[i]) by {
        assert(restart_fits(checked[i]));
    }
}

/// The supervisor's table of service records.
pub struct ServiceManager {
    services: Vec<ServiceState>,
}

impl View for ServiceManager {
    type V = Seq<ServiceState>;

    closed spec fn view(&self) -> Seq<ServiceState> {
        self.services@
    }
}

impl ServiceManager {
    /// The record table for the built-in service table.
    pub fn new() -> (r: Self)
        ensures
            is_service_table(r@.map_values(|s: ServiceState| s.config)),
            r@ == initial_records(r@.map_values(|s: ServiceState| s.config)),
    {
        let table = services();
        let r = Self::initialize(table.as_slice());
        assert(r@.map_values(|s: ServiceState| s.config) =~= table@);
        r
    }

    /// The record table for `table`: one stopped record per descriptor, in
    /// table order.
    pub fn initialize(table: &[ServiceConfig]) -> (r: Self)
        ensures
            r@ == initial_records(table@),
    {
        let mut records: Vec<ServiceState> = Vec::new();
        let mut i: usize = 0;
        while i < table.len()
            invariant
                i <= table@.len(),
                records@ == initial_records(table@.subrange(0, i as int)),
            decreases table@.len() - i,
        {
            records.push(ServiceState::new(table[i]));
            i = i + 1;
            assert(initial_records(table@.subrange(0, i as int)) =~= records@);
        }
        assert(table@.subrange(0, i as int) =~= table@);
        ServiceManager { services: records }
    }

    /// Number of records.
    pub fn len(&self) -> (n: usize)
        ensures
            n == self@.len(),
    {
        self.services.len()
    }

    /// The records, in table order.
    pub fn services(&self) -> (s: &[ServiceState])
        ensures
            s@ == self@,
    {
        self.services.as_slice()
    }

    /// The record at `index`.
    pub fn service(&self, index: usize) -> (s: &ServiceState)
        requires
            index < self@.len(),
        ensures
            *s == self@[index as int],
    {
        &self.services[index]
    }

    /// Records the outcome of launching the service at `index`; the other
    /// records are untouched.
    pub fn start_service(&mut self, index: usize, spawned: Option<usize>)
        requires
            index < old(self)@.len(),
        ensures
            final(self)@ == old(self)@.update(index as int, launched(old(self)@[index as int], spawned)),
    {
        let mut svc = self.services[index];
        svc.record_launch(spawned);
        self.services.set(index, svc);
    }

    /// The startup sequencer: every record gets exactly one launch attempt, in
    /// table order, and a failed attempt does not stop the others.
    /// `spawned[i]` is the outcome of spawning the service of record `i`.
    pub fn start_all(&mut self, spawned: &[Option<usize>])
        requires
            spawned@.len() == old(self)@.len(),
        ensures
            final(self)@ == launch_all(old(self)@, spawned@),
            forall|i: int|
                0 <= i < final(self)@.len() ==> (#[trigger] final(self)@[i]).status
                    == ServiceStatus::Running || final(self)@[i].status == ServiceStatus::Failed,
    {
        let n = self.services.len();
        let mut i: usize = 0;
        while i < n
            invariant
                n == old(self)@.len(),
                spawned@.len() == n,
                i <= n,
                self@.len() == n,
                forall|j: int| 0 <= j < i ==> self@[j] == launched(old(self)@[j], spawned@[j]),
                forall|j: int| i <= j < n ==> self@[j] == old(self)@[j],
            decreases n - i,
        {
            self.start_service(i, spawned[i]);
            i = i + 1;
        }
        assert(self@ =~= launch_all(old(self)@, spawned@));
    }

    /// Handles the exit of the process of the record at `index` with `code`:
    /// its restart policy decides whether it is scheduled for a restart.
    pub fn handle_service_exit(&mut self, index: usize, code: i32)
        requires
            index < old(self)@.len(),
        ensures
            final(self)@ == old(self)@.update(index as int, exited(old(self)@[index as int], code)),
    {
        let mut svc = self.services[index];
        svc.on_exit(code);
        self.services.set(index, svc);
    }

    /// The vitality check: `polls[i]` is the outcome of a non-blocking poll of
    /// the process of record `i`, and is ignored where that record has none.
    /// When no process has exited, nothing changes.
    pub fn check_services_vitality(&mut self, polls: &[PollOutcome])
        requires
            polls@.len() == old(self)@.len(),
        ensures
            final(self)@ == poll_all(old(self)@, polls@),
            none_exited(old(self)@, polls@) ==> final(self)@ == old(self)@,
    {
        let n = self.services.len();
        let mut i: usize = 0;
        while i < n
            invariant
                n == old(self)@.len(),
                polls@.len() == n,
                i <= n,
                self@.len() == n,
                forall|j: int| 0 <= j < i ==> self@[j] == polled(old(self)@[j], polls@[j]),
                forall|j: int| i <= j < n ==> self@[j] == old(self)@[j],
            decreases n - i,
        {
            let mut svc = self.services[i];
            svc.observe_poll(polls[i]);
            self.services.set(i, svc);
            i = i + 1;
        }
        assert(self@ =~= poll_all(old(self)@, polls@));
        proof {
            if none_exited(old(self)@, polls@) {
                assert forall|j: int| 0 <= j < n implies self@[j] == old(self)@[j] by {
                    if old(self)@[j].pid is Some {
                    }
                }
                assert(self@ =~= old(self)@);
            }
        }
    }

    /// Whether the record at `index` is waiting for the restart pass, so that
    /// its service is to be spawned again.
    pub fn needs_restart(&self, index: usize) -> (r: bool)
        requires
            index < self@.len(),
        ensures
            r == (self@[index as int].status == ServiceStatus::Restarting),
    {
        self.services[index].status == ServiceStatus::Restarting
    }

    /// Whether every record waiting for a restart can count one more.
    pub fn restarts_fit(&self) -> (r: bool)
        ensures
            r == restarts_fit(self@),
    {
        let n = self.services.len();
        let mut i: usize = 0;
        while i < n
            invariant
                n == self@.len(),
                i <= n,
                forall|j: int| 0 <= j < i ==> restart_fits(#[trigger] self@[j]),
            decreases n - i,
        {
            let s = &self.services[i];
            if s.status == ServiceStatus::Restarting && s.restart_count == u32::MAX {
                return false;
            }
            i = i + 1;
        }
        true
    }

    /// The restart pass: each record in `Restarting` counts one more restart,
    /// stamps `now` and is launched again; `spawned[i]` is the outcome of
    /// spawning the service of record `i`, and is ignored for a record that is
    /// not restarting. Restarts are unbounded and not delayed: a service that
    /// keeps crashing is relaunched on every pass.
    pub fn restart_failed_services(&mut self, now: u64, spawned: &[Option<usize>])
        requires
            spawned@.len() == old(self)@.len(),
            restarts_fit(old(self)@),
        ensures
            final(self)@ == restart_all(old(self)@, now, spawned@),
            forall|i: int|
                0 <= i < old(self)@.len() ==> (#[trigger] final(self)@[i]).restart_count == if old(
                    self,
                )@[i].status == ServiceStatus::Restarting {
                    old(self)@[i].restart_count + 1
                } else {
                    old(self)@[i].restart_count as int
                },
    {
        let n = self.services.len();
        let mut i: usize = 0;
        while i < n
            invariant
                n == old(self)@.len(),
                spawned@.len() == n,
                restarts_fit(old(self)@),
                i <= n,
                self@.len() == n,
                forall|j: int| 0 <= j < i ==> self@[j] == restarted(old(self)@[j], now, spawned@[j]),
                forall|j: int| i <= j < n ==> self@[j] == old(self)@[j],
            decreases n - i,
        {
            let mut svc = self.services[i];
            proof {
                assert(restart_fits(old(self)@[i as int]));
            }
            svc.restart(now, spawned[i]);
            self.services.set(i, svc);
            i = i + 1;
        }
        assert(self@ =~= restart_all(old(self)@, now, spawned@));
    }
}

} // verus!
