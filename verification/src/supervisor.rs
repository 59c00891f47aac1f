//! The process supervisor's decision core: starting and stopping tunnels,
//! reacting to observed output lines, fatal signals and process exits. Every
//! operation returns the notifications to emit; the surrounding runtime
//! spawns, kills and waits on the actual OS processes and delivers these
//! events.

use vstd::prelude::*;
use crate::logbuf::LogBuffer;
use crate::monitor::{LineDecision, StreamKind, classify_line, format_line_spec, is_fatal_spec};
use crate::registry::{Registry, TunnelModel, TunnelProcess, TunnelStatus, appended_entry,
    entry_wf, registry_wf};

verus! {

/// A notification for the shell, delivered at-least-once and never waited
/// on.
pub enum Event {
    StatusChanged {
        tunnel_id: String,
        status: TunnelStatus,
        pid: Option<u32>,
        exit_code: Option<i32>,
        error: Option<String>,
    },
    TunnelLog { tunnel_id: String, message: String },
    FatalErrorDetected { tunnel_id: String, pid: u32, error: String },
    AllTunnelsStopped { stopped_count: usize },
}

/// The mathematical content of a notification.
pub ghost enum EventModel {
    StatusChanged {
        tunnel_id: Seq<char>,
        status: TunnelStatus,
        pid: Option<u32>,
        exit_code: Option<i32>,
        error: Option<Seq<char>>,
    },
    TunnelLog { tunnel_id: Seq<char>, message: Seq<char> },
    FatalErrorDetected { tunnel_id: Seq<char>, pid: u32, error: Seq<char> },
    AllTunnelsStopped { stopped_count: int },
}

impl View for Event {
    type V = EventModel;

    open spec fn view(&self) -> EventModel {
        match self {
            Event::StatusChanged { tunnel_id, status, pid, exit_code, error } => (
            EventModel::StatusChanged {
                tunnel_id: tunnel_id@,
                status: *status,
                pid: *pid,
                exit_code: *exit_code,
                error: error.deep_view(),
            }),
            Event::TunnelLog { tunnel_id, message } => (EventModel::TunnelLog {
                tunnel_id: tunnel_id@,
                message: message@,
            }),
            Event::FatalErrorDetected { tunnel_id, pid, error } => (
            EventModel::FatalErrorDetected { tunnel_id: tunnel_id@, pid: *pid, error: error@ }),
            Event::AllTunnelsStopped { stopped_count } => (EventModel::AllTunnelsStopped {
                stopped_count: *stopped_count as int,
            }),
        }
    }
}

/// A freshly registered tunnel: advanced straight to `Running`, with an
/// empty log buffer.
pub open spec fn started_model(tid: Seq<char>, pid: u32) -> TunnelModel {
    TunnelModel {
        tunnel_id: tid,
        os_process_id: pid,
        status: TunnelStatus::Running,
        logs: Seq::empty(),
    }
}

pub open spec fn running_event(tid: Seq<char>, pid: u32) -> EventModel {
    EventModel::StatusChanged {
        tunnel_id: tid,
        status: TunnelStatus::Running,
        pid: Some(pid),
        exit_code: None,
        error: None,
    }
}

pub open spec fn fatal_signal_event(tid: Seq<char>, pid: u32, line: Seq<char>) -> EventModel {
    EventModel::FatalErrorDetected { tunnel_id: tid, pid: pid, error: line }
}

/// The error text attached to a fatal-triggered status change.
pub open spec fn fatal_error_text(msg: Seq<char>) -> Seq<char> {
    "fatal error detected: "@ + msg
}

pub open spec fn fatal_status_event(tid: Seq<char>, msg: Seq<char>) -> EventModel {
    EventModel::StatusChanged {
        tunnel_id: tid,
        status: TunnelStatus::Error,
        pid: None,
        exit_code: None,
        error: Some(fatal_error_text(msg)),
    }
}

pub open spec fn exit_event(tid: Seq<char>, code: i32) -> EventModel {
    EventModel::StatusChanged {
        tunnel_id: tid,
        status: TunnelStatus::Stopped,
        pid: None,
        exit_code: Some(code),
        error: None,
    }
}

pub open spec fn exit_error_event(tid: Seq<char>, err: Seq<char>) -> EventModel {
    EventModel::StatusChanged {
        tunnel_id: tid,
        status: TunnelStatus::Error,
        pid: None,
        exit_code: None,
        error: Some(err),
    }
}

pub open spec fn log_event(tid: Seq<char>, message: Seq<char>) -> EventModel {
    EventModel::TunnelLog { tunnel_id: tid, message: message }
}

pub open spec fn all_stopped_event(count: int) -> EventModel {
    EventModel::AllTunnelsStopped { stopped_count: count }
}

/// What the supervisor did with one observed output line.
pub struct LineObservation {
    pub fatal: bool,
    pub events: Vec<Event>,
}

/// The outcome of stopping every tunnel at once.
pub struct StopAllOutcome {
    /// The process ids to terminate, a snapshot of the registry's keys.
    pub pids: Vec<u32>,
    pub events: Vec<Event>,
}

pub struct Supervisor {
    reg: Registry,
}

impl View for Supervisor {
    type V = Map<u32, TunnelModel>;

    closed spec fn view(&self) -> Map<u32, TunnelModel> {
        self.reg@
    }
}

impl Supervisor {
    pub fn new() -> (r: Supervisor)
        ensures
            r@ == Map::<u32, TunnelModel>::empty(),
            registry_wf(r@),
    {
        Supervisor { reg: Registry::new() }
    }

    /// A worker spawned for `tunnel_id` under `pid` enters the registry,
    /// already `Running`, and a status notification goes out.
    pub fn register_started(&mut self, tunnel_id: &str, pid: u32) -> (evs: Vec<Event>)
        requires
            registry_wf(old(self)@),
        ensures
            final(self)@ == old(self)@.insert(pid, started_model(tunnel_id@, pid)),
            registry_wf(final(self)@),
            evs@.len() == 1 && evs@[0]@ == running_event(tunnel_id@, pid),
    {
        let logs = LogBuffer::new();
        let p = TunnelProcess {
            tunnel_id: String::from_str(tunnel_id),
            os_process_id: pid,
            status: TunnelStatus::Running,
            recent_logs: logs,
        };
        assert(p@ == started_model(tunnel_id@, pid));
        self.reg.insert(p);
        proof {
            assert forall|k: u32| self@.dom().contains(k) implies entry_wf(k, self@[k]) by {
                if k != pid {
                    assert(old(self)@.dom().contains(k));
                    assert(entry_wf(k, old(self)@[k]));
                }
            }
        }
        let mut evs: Vec<Event> = Vec::new();
        evs.push(Event::StatusChanged {
            tunnel_id: String::from_str(tunnel_id),
            status: TunnelStatus::Running,
            pid: Some(pid),
            exit_code: None,
            error: None,
        });
        evs
    }

    /// Forget the tunnel under `pid`. The entry leaves the registry whether
    /// or not the OS-level termination succeeded, and stopping an unknown id
    /// is a tolerated no-op.
    pub fn stop_tunnel(&mut self, pid: u32) -> (found: bool)
        requires
            registry_wf(old(self)@),
        ensures
            final(self)@ == old(self)@.remove(pid),
            registry_wf(final(self)@),
            found == old(self)@.contains_key(pid),
    {
        let r = self.reg.remove(pid);
        proof {
            assert forall|k: u32| self@.dom().contains(k) implies entry_wf(k, self@[k]) by {
                assert(old(self)@.dom().contains(k));
            }
        }
        match r {
            Some(_) => true,
            None => false,
        }
    }

    /// React to a fatal-pattern signal: the entry leaves the registry and an
    /// `Error` status notification goes out, its text wrapping the raw line.
    pub fn handle_fatal_error(&mut self, tunnel_id: &str, pid: u32, error_message: &str) -> (evs:
        Vec<Event>)
        requires
            registry_wf(old(self)@),
        ensures
            final(self)@ == old(self)@.remove(pid),
            registry_wf(final(self)@),
            evs@.len() == 1 && evs@[0]@ == fatal_status_event(tunnel_id@, error_message@),
    {
        let _found = self.stop_tunnel(pid);
        let mut text = String::from_str("fatal error detected: ");
        text.append(error_message);
        let mut evs: Vec<Event> = Vec::new();
        evs.push(Event::StatusChanged {
            tunnel_id: String::from_str(tunnel_id),
            status: TunnelStatus::Error,
            pid: None,
            exit_code: None,
            error: Some(text),
        });
        evs
    }

    /// The exit watcher saw the worker terminate with an exit code: the
    /// entry leaves the registry and a `Stopped` notification goes out.
    pub fn handle_exit(&mut self, tunnel_id: &str, pid: u32, exit_code: i32) -> (evs: Vec<Event>)
        requires
            registry_wf(old(self)@),
        ensures
            final(self)@ == old(self)@.remove(pid),
            registry_wf(final(self)@),
            evs@.len() == 1 && evs@[0]@ == exit_event(tunnel_id@, exit_code),
    {
        let _found = self.stop_tunnel(pid);
        let mut evs: Vec<Event> = Vec::new();
        evs.push(Event::StatusChanged {
            tunnel_id: String::from_str(tunnel_id),
            status: TunnelStatus::Stopped,
            pid: None,
            exit_code: Some(exit_code),
            error: None,
        });
        evs
    }

    /// The exit watcher could not wait on the worker: the entry leaves the
    /// registry and an `Error` notification carries the wait error's text.
    pub fn handle_exit_failure(&mut self, tunnel_id: &str, pid: u32, error: &str) -> (evs: Vec<
        Event>)
        requires
            registry_wf(old(self)@),
        ensures
            final(self)@ == old(self)@.remove(pid),
            registry_wf(final(self)@),
            evs@.len() == 1 && evs@[0]@ == exit_error_event(tunnel_id@, error@),
    {
        let _found = self.stop_tunnel(pid);
        let mut evs: Vec<Event> = Vec::new();
        evs.push(Event::StatusChanged {
            tunnel_id: String::from_str(tunnel_id),
            status: TunnelStatus::Error,
            pid: None,
            exit_code: None,
            error: Some(String::from_str(error)),
        });
        evs
    }

    /// One line from a worker stream. A fatal line raises the signal and
    /// leaves the registry untouched — the line that trips the detector is
    /// the last one its stream delivers. Any other line is formatted,
    /// buffered under `pid` and forwarded.
    pub fn observe_line(&mut self, tunnel_id: &str, pid: u32, kind: StreamKind, line: &str) -> (r:
        LineObservation)
        requires
            registry_wf(old(self)@),
        ensures
            registry_wf(final(self)@),
            r.fatal == is_fatal_spec(line@),
            is_fatal_spec(line@) ==> final(self)@ == old(self)@ && r.events@.len() == 1
                && r.events@[0]@ == fatal_signal_event(tunnel_id@, pid, line@),
            !is_fatal_spec(line@) ==> r.events@.len() == 1 && r.events@[0]@ == log_event(
                tunnel_id@,
                format_line_spec(kind, line@),
            ),
            !is_fatal_spec(line@) && old(self)@.contains_key(pid) ==> final(self)@ == old(
                self,
            )@.insert(pid, appended_entry(old(self)@[pid], format_line_spec(kind, line@))),
            !is_fatal_spec(line@) && !old(self)@.contains_key(pid) ==> final(self)@ == old(self)@,
    {
        let decision = classify_line(kind, line);
        match decision {
            LineDecision::Fatal => {
                let mut events: Vec<Event> = Vec::new();
                events.push(Event::FatalErrorDetected {
                    tunnel_id: String::from_str(tunnel_id),
                    pid: pid,
                    error: String::from_str(line),
                });
                LineObservation { fatal: true, events }
            },
            LineDecision::Buffer { formatted } => {
                self.reg.append_log(pid, formatted.clone());
                let mut events: Vec<Event> = Vec::new();
                events.push(Event::TunnelLog {
                    tunnel_id: String::from_str(tunnel_id),
                    message: formatted,
                });
                LineObservation { fatal: false, events }
            },
        }
    }

    /// Stop everything: hand back a snapshot of every registered process id
    /// for termination and empty the registry. A notification reports the
    /// count when there was anything to stop.
    pub fn stop_all(&mut self) -> (r: StopAllOutcome)
        requires
            registry_wf(old(self)@),
        ensures
            final(self)@ == Map::<u32, TunnelModel>::empty(),
            registry_wf(final(self)@),
            r.pids@.to_set() == old(self)@.dom(),
            r.pids@.no_duplicates(),
            r.pids@.len() == old(self)@.dom().len(),
            old(self)@.dom().len() > 0 ==> r.events@.len() == 1 && r.events@[0]@
                == all_stopped_event(old(self)@.dom().len() as int),
            old(self)@.dom().len() == 0 ==> r.events@.len() == 0,
    {
        let pids = self.reg.pids();
        self.reg.clear();
        let mut events: Vec<Event> = Vec::new();
        if pids.len() > 0 {
            events.push(Event::AllTunnelsStopped { stopped_count: pids.len() });
        }
        StopAllOutcome { pids, events }
    }

    /// A snapshot copy of the tunnel's buffered lines; an unknown id yields
    /// the empty sequence rather than an error, so readers cannot race a
    /// concurrent removal into a failure.
    pub fn get_tunnel_logs(&self, pid: u32) -> (r: Vec<String>)
        ensures
            self@.contains_key(pid) ==> r.deep_view() == self@[pid].logs,
            !self@.contains_key(pid) ==> r@.len() == 0,
    {
        let entry = self.reg.get(pid);
        match entry {
            Some(p) => p.recent_logs.snapshot(),
            None => Vec::new(),
        }
    }

    pub fn running_count(&self) -> (r: usize)
        ensures
            r == self@.dom().len(),
    {
        self.reg.len()
    }
}

/// Registry lifecycle laws: a successful start leaves exactly one entry
/// under the returned process id; a stop removes it; stopping an id twice is
/// the same as stopping it once, and a stopped id is gone.
pub proof fn lemma_registry_lifecycle(m: Map<u32, TunnelModel>, tid: Seq<char>, pid: u32)
    ensures
        m.insert(pid, started_model(tid, pid)).contains_key(pid),
        m.insert(pid, started_model(tid, pid))[pid] == started_model(tid, pid),
        m.insert(pid, started_model(tid, pid)).remove(pid) == m.remove(pid),
        m.remove(pid).remove(pid) == m.remove(pid),
        !m.remove(pid).contains_key(pid),
{
    assert(m.insert(pid, started_model(tid, pid)).remove(pid) =~= m.remove(pid));
    assert(m.remove(pid).remove(pid) =~= m.remove(pid));
}

} // verus!
