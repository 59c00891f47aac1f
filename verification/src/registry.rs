//! The registry of running tunnel worker processes, keyed by OS process id.
//! At most one entry per process id exists at any time; a removed entry
//! receives no further log or exit events.

use vstd::prelude::*;
use std::collections::HashMap;
use crate::logbuf::{LOG_CAPACITY, LogBuffer};

verus! {

broadcast use vstd::std_specs::hash::group_hash_axioms;

/// A tunnel's lifecycle state. It only ever advances:
/// `Starting -> Running -> {Stopped, Error}`.
#[derive(Clone, Copy, PartialEq, Eq, Structural, Debug)]
pub enum TunnelStatus {
    Starting,
    Running,
    Stopped,
    Error,
}

/// How far along the lifecycle a status is.
pub open spec fn status_rank(s: TunnelStatus) -> int {
    match s {
        TunnelStatus::Starting => 0,
        TunnelStatus::Running => 1,
        TunnelStatus::Stopped => 2,
        TunnelStatus::Error => 2,
    }
}

/// The lifecycle only ever advances: `Starting` precedes `Running`, which
/// precedes both terminal states, and no transition goes backward.
pub proof fn lemma_status_order()
    ensures
        status_rank(TunnelStatus::Starting) < status_rank(TunnelStatus::Running),
        status_rank(TunnelStatus::Running) < status_rank(TunnelStatus::Stopped),
        status_rank(TunnelStatus::Running) < status_rank(TunnelStatus::Error),
{
}

/// One supervised worker instance.
pub struct TunnelProcess {
    pub tunnel_id: String,
    pub os_process_id: u32,
    pub status: TunnelStatus,
    pub recent_logs: LogBuffer,
}

/// The mathematical content of a registry entry.
pub ghost struct TunnelModel {
    pub tunnel_id: Seq<char>,
    pub os_process_id: u32,
    pub status: TunnelStatus,
    pub logs: Seq<Seq<char>>,
}

impl View for TunnelProcess {
    type V = TunnelModel;

    open spec fn view(&self) -> TunnelModel {
        TunnelModel {
            tunnel_id: self.tunnel_id@,
            os_process_id: self.os_process_id,
            status: self.status,
            logs: self.recent_logs@,
        }
    }
}

/// Per-entry well-formedness, visible at the model level: the log buffer is
/// bounded and the entry sits under its own process id.
pub open spec fn entry_wf(k: u32, t: TunnelModel) -> bool {
    t.logs.len() <= LOG_CAPACITY && t.os_process_id == k
}

/// Every entry of the registry model is well-formed.
pub open spec fn registry_wf(m: Map<u32, TunnelModel>) -> bool {
    forall|k: u32| m.dom().contains(k) ==> entry_wf(k, #[trigger] m[k])
}

/// The entry after one line has been appended to its log buffer.
pub open spec fn appended_entry(t: TunnelModel, line: Seq<char>) -> TunnelModel {
    TunnelModel {
        tunnel_id: t.tunnel_id,
        os_process_id: t.os_process_id,
        status: t.status,
        logs: crate::logbuf::append_model(t.logs, line),
    }
}

pub struct Registry {
    m: HashMap<u32, TunnelProcess>,
}

impl View for Registry {
    type V = Map<u32, TunnelModel>;

    closed spec fn view(&self) -> Map<u32, TunnelModel> {
        Map::new(|k: u32| self.m@.dom().contains(k), |k: u32| self.m@[k]@)
    }
}

impl Registry {
    pub fn new() -> (r: Registry)
        ensures
            r@ == Map::<u32, TunnelModel>::empty(),
    {
        let r = Registry { m: HashMap::new() };
        proof {
            assert(r@ =~= Map::<u32, TunnelModel>::empty());
        }
        r
    }

    /// Register an entry under its process id, replacing any entry already
    /// there.
    pub fn insert(&mut self, p: TunnelProcess)
        requires
            p.recent_logs.wf(),
        ensures
            final(self)@ == old(self)@.insert(p.os_process_id, p@),
    {
        let ghost pid = p.os_process_id;
        let ghost pv = p@;
        let key = p.os_process_id;
        self.m.insert(key, p);
        proof {
            assert(self@ =~= old(self)@.insert(pid, pv));
        }
    }

    /// Remove the entry under `pid`, if any; removing an absent id changes
    /// nothing.
    pub fn remove(&mut self, pid: u32) -> (r: Option<TunnelProcess>)
        ensures
            final(self)@ == old(self)@.remove(pid),
            r matches Some(p) ==> old(self)@.contains_key(pid) && p@ == old(self)@[pid],
            r is None ==> !old(self)@.contains_key(pid),
    {
        let r = self.m.remove(&pid);
        proof {
            assert(self@ =~= old(self)@.remove(pid));
        }
        r
    }

    pub fn get(&self, pid: u32) -> (r: Option<&TunnelProcess>)
        ensures
            r matches Some(p) ==> self@.contains_key(pid) && p@ == self@[pid],
            r is None ==> !self@.contains_key(pid),
    {
        self.m.get(&pid)
    }

    pub fn contains(&self, pid: u32) -> (r: bool)
        ensures
            r == self@.contains_key(pid),
    {
        self.m.contains_key(&pid)
    }

    pub fn len(&self) -> (r: usize)
        ensures
            r == self@.dom().len(),
    {
        proof {
            assert(self@.dom() =~= self.m@.dom());
        }
        self.m.len()
    }

    /// Append a line to the entry's log buffer; an unknown id changes
    /// nothing.
    pub fn append_log(&mut self, pid: u32, line: String)
        requires
            registry_wf(old(self)@),
        ensures
            registry_wf(final(self)@),
            old(self)@.contains_key(pid) ==> final(self)@ == old(self)@.insert(
                pid,
                appended_entry(old(self)@[pid], line@),
            ),
            !old(self)@.contains_key(pid) ==> final(self)@ == old(self)@,
    {
        let removed = self.m.remove(&pid);
        match removed {
            Some(mut p) => {
                assert(p@ == old(self)@[pid]);
                assert(entry_wf(pid, old(self)@[pid]));
                p.recent_logs.append(line);
                self.m.insert(pid, p);
                proof {
                    assert(self@ =~= old(self)@.insert(pid, appended_entry(old(self)@[pid], line@)));
                }
            },
            None => {
                proof {
                    assert(self@ =~= old(self)@);
                }
            },
        }
    }

    /// Remove every entry.
    pub fn clear(&mut self)
        ensures
            final(self)@ == Map::<u32, TunnelModel>::empty(),
    {
        self.m.clear();
        proof {
            assert(self@ =~= Map::<u32, TunnelModel>::empty());
        }
    }

    /// A snapshot of the registered process ids, in no particular order.
    pub fn pids(&self) -> (r: Vec<u32>)
        ensures
            r@.to_set() == self@.dom(),
            r@.no_duplicates(),
            r@.len() == self@.dom().len(),
    {
        let mut r: Vec<u32> = Vec::new();
        proof {
            assert(self@.dom() =~= self.m@.dom());
        }
        for k in it: self.m.keys()
            invariant
                r@.len() == it.index(),
                r@.no_duplicates(),
                forall|j: int| 0 <= j < r@.len() ==> self@.dom().contains(#[trigger] r@[j]),
                r@ == it.seq().unref().subrange(0, it.index() as int),
                it.seq().unref().to_set() == self@.dom(),
                it.seq().unref().len() == self@.dom().len(),
                it.seq().unref().no_duplicates(),
        {
            r.push(*k);
            proof {
                let n = it.index() as int;
                let sq = it.seq().unref();
                assert(*it.seq()[n] == sq[n]);
                assert(sq.subrange(0, n + 1) =~= sq.subrange(0, n).push(sq[n]));
                assert(sq.contains(sq[n]));
                assert(self@.dom().contains(sq[n]));
                assert forall|i: int, j: int|
                    0 <= i < j < n + 1 implies #[trigger] sq.subrange(0, n + 1)[i]
                    != #[trigger] sq.subrange(0, n + 1)[j] by {
                    assert(sq.subrange(0, n + 1)[i] == sq[i]);
                    assert(sq.subrange(0, n + 1)[j] == sq[j]);
                }
            }
        }
        proof {
            let s1 = r@.to_set();
            let s2 = self@.dom();
            r@.unique_seq_to_set();
            assert forall|x: u32| s1.contains(x) implies s2.contains(x) by {
                let j = choose|j: int| 0 <= j < r@.len() && r@[j] == x;
                assert(s2.contains(r@[j]));
            }
            assert(s1.subset_of(s2));
            assert(self.m@.dom().finite());
            assert(s2.finite());
            assert forall|x: u32| s2.contains(x) implies s1.contains(x) by {
                if !s1.contains(x) {
                    assert(s1.subset_of(s2.remove(x)));
                    vstd::set_lib::lemma_len_subset(s1, s2.remove(x));
                    assert(s2.remove(x).len() == s2.len() - 1);
                    assert(false);
                }
            }
            assert(s1 =~= s2);
        }
        r
    }
}

} // verus!
