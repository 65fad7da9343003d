//! Service descriptors, runtime records and the lifecycle state machine.

use vstd::prelude::*;

verus! {

/// Lifecycle state of one supervised service.
#[derive(Debug, Clone, Copy, PartialEq, Eq, Structural)]
pub enum ServiceStatus {
    Starting,
    Running,
    Stopped,
    Failed,
    Restarting,
}

/// Rule that maps an exit outcome to whether the service is launched again.
#[derive(Debug, Clone, Copy, PartialEq, Eq, Structural)]
pub enum RestartPolicy {
    Always,
    OnFailure,
    Never,
}

/// Immutable, build-time description of one service.
#[derive(Debug, Clone, Copy, PartialEq, Eq)]
pub struct ServiceConfig {
    pub name: &'static str,
    pub path: &'static str,
    pub args: &'static [&'static str],
    pub restart_policy: RestartPolicy,
    /// Informational only: a critical service gets the same restart handling
    /// as any other.
    pub critical: bool,
}

/// Mutable runtime state of one service.
#[derive(Debug, Clone, Copy, PartialEq, Eq)]
pub struct ServiceState {
    pub config: ServiceConfig,
    /// Process handle, present while the child is believed to be running.
    pub pid: Option<usize>,
    pub status: ServiceStatus,
    /// Number of restart attempts; never reset.
    pub restart_count: u32,
    /// Timestamp of the most recent restart attempt; informational.
    pub last_restart: u64,
}

/// Exit code recorded for a process whose poll failed unexpectedly: the record
/// is handled as if the process had exited with this failure code, so that it
/// re-enters the restart pipeline instead of believing a dead process alive.
pub const QUERY_FAILURE_EXIT_CODE: i32 = -1;

/// Outcome of a non-blocking poll of one tracked process.
#[derive(Debug, Clone, Copy, PartialEq, Eq, Structural)]
pub enum PollOutcome {
    /// The process terminated with this exit code.
    Exited(i32),
    /// The process has not exited yet.
    StillRunning,
    /// The query failed for another reason.
    QueryFailed,
}

/// The status a record takes when its process exits with `code`.
pub open spec fn status_after_exit(policy: RestartPolicy, code: i32) -> ServiceStatus {
    match policy {
        RestartPolicy::Always => ServiceStatus::Restarting,
        RestartPolicy::OnFailure => if code != 0 {
            ServiceStatus::Restarting
        } else {
            ServiceStatus::Stopped
        },
        RestartPolicy::Never => ServiceStatus::Stopped,
    }
}

/// The record after a launch attempt: `spawned` is the handle of the new
/// process, or `None` where spawning failed.
pub open spec fn launched(r: ServiceState, spawned: Option<usize>) -> ServiceState {
    match spawned {
        Some(pid) => ServiceState { pid: Some(pid), status: ServiceStatus::Running, ..r },
        None => ServiceState { pid: None, status: ServiceStatus::Failed, ..r },
    }
}

/// The record after its process was observed to exit with `code`.
pub open spec fn exited(r: ServiceState, code: i32) -> ServiceState {
    ServiceState { pid: None, status: status_after_exit(r.config.restart_policy, code), ..r }
}

/// The record after a vitality check that polled its process with outcome
/// `poll`. A record without a process is not polled and stays as it is.
pub open spec fn polled(r: ServiceState, poll: PollOutcome) -> ServiceState {
    if r.pid is Some {
        match poll {
            PollOutcome::Exited(code) => exited(r, code),
            PollOutcome::StillRunning => r,
            PollOutcome::QueryFailed => exited(r, QUERY_FAILURE_EXIT_CODE),
        }
    } else {
        r
    }
}

/// A restart of `r` can be counted without overflowing its counter.
pub open spec fn restart_fits(r: ServiceState) -> bool {
    r.status == ServiceStatus::Restarting ==> r.restart_count < u32::MAX
}

/// The record after the restart pass: a record in `Restarting` has its counter
/// incremented, its timestamp set to `now`, and is launched again with outcome
/// `spawned`; any other record is left alone.
pub open spec fn restarted(r: ServiceState, now: u64, spawned: Option<usize>) -> ServiceState {
    if r.status == ServiceStatus::Restarting {
        launched(
            ServiceState { restart_count: (r.restart_count + 1) as u32, last_restart: now, ..r },
            spawned,
        )
    } else {
        r
    }
}

/// The record that the startup sequencer builds for a descriptor.
pub open spec fn initial_state(config: ServiceConfig) -> ServiceState {
    ServiceState {
        config,
        pid: None,
        status: ServiceStatus::Stopped,
        restart_count: 0,
        last_restart: 0,
    }
}

impl ServiceState {
    /// A fresh record for `config`: stopped, without a process, never restarted.
    pub fn new(config: ServiceConfig) -> (r: Self)
        ensures
            r == initial_state(config),
    {
        ServiceState {
            config,
            pid: None,
            status: ServiceStatus::Stopped,
            restart_count: 0,
            last_restart: 0,
        }
    }

    /// Records the outcome of a launch attempt: `Running` with the new handle,
    /// or `Failed` without one. A failed launch schedules no retry by itself:
    /// the record stays `Failed` until the supervisor itself starts again.
    pub fn record_launch(&mut self, spawned: Option<usize>)
        ensures
            *final(self) == launched(*old(self), spawned),
            final(self).status == ServiceStatus::Running || final(self).status
                == ServiceStatus::Failed,
    {
        match spawned {
            Some(pid) => {
                self.pid = Some(pid);
                self.status = ServiceStatus::Running;
            },
            None => {
                self.status = ServiceStatus::Failed;
                self.pid = None;
            },
        }
    }

    /// Handles the termination of the record's process with exit code `code`:
    /// the handle is dropped and the restart policy decides whether the record
    /// is scheduled for a restart.
    pub fn on_exit(&mut self, code: i32)
        ensures
            *final(self) == exited(*old(self), code),
            final(self).pid is None,
            old(self).config.restart_policy == RestartPolicy::Always ==> final(self).status
                == ServiceStatus::Restarting,
            old(self).config.restart_policy == RestartPolicy::Never ==> final(self).status
                == ServiceStatus::Stopped,
            old(self).config.restart_policy == RestartPolicy::OnFailure ==> (code == 0
                <==> final(self).status == ServiceStatus::Stopped),
            old(self).config.restart_policy == RestartPolicy::OnFailure ==> (code != 0
                <==> final(self).status == ServiceStatus::Restarting),
    {
        self.pid = None;
        self.status = self.config.restart_policy.status_after_exit(code);
    }

    /// Applies the outcome of polling the record's process. A record without a
    /// process, or whose process is still running, is left unchanged.
    pub fn observe_poll(&mut self, poll: PollOutcome)
        ensures
            *final(self) == polled(*old(self), poll),
            (old(self).pid is None || poll == PollOutcome::StillRunning) ==> *final(self)
                == *old(self),
    {
        if self.pid.is_some() {
            match poll {
                PollOutcome::Exited(code) => self.on_exit(code),
                PollOutcome::StillRunning => {},
                PollOutcome::QueryFailed => self.on_exit(QUERY_FAILURE_EXIT_CODE),
            }
        }
    }

    /// One step of the restart pass: a record in `Restarting` counts one more
    /// restart, stamps `now` and takes the outcome `spawned` of its new launch.
    pub fn restart(&mut self, now: u64, spawned: Option<usize>)
        requires
            restart_fits(*old(self)),
        ensures
            *final(self) == restarted(*old(self), now, spawned),
            old(self).status == ServiceStatus::Restarting ==> final(self).restart_count
                == old(self).restart_count + 1,
            old(self).status != ServiceStatus::Restarting ==> *final(self) == *old(self),
    {
        if self.status == ServiceStatus::Restarting {
            self.restart_count = self.restart_count + 1;
            self.last_restart = now;
            self.record_launch(spawned);
        }
    }
}

impl RestartPolicy {
    /// The status that a record under this policy takes when its process exits
    /// with `code`. Total over every policy and exit code.
    pub fn status_after_exit(self, code: i32) -> (r: ServiceStatus)
        ensures
            r == status_after_exit(self, code),
    {
        match self {
            RestartPolicy::Always => ServiceStatus::Restarting,
            RestartPolicy::OnFailure => if code != 0 {
                ServiceStatus::Restarting
            } else {
                ServiceStatus::Stopped
            },
            RestartPolicy::Never => ServiceStatus::Stopped,
        }
    }
}

} // verus!
