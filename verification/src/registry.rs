//! The process registry: the single source of truth for the status and the
//! OS-process handle of each managed identifier.
//!
//! The handle is an exclusive-ownership token. `take_handle` hands it out at
//! most once per run; whichever task takes it becomes responsible for reaping
//! the process, and later takers observe `None`. That exchange-on-take slot is
//! what prevents double-reaping or double-signaling a process.

use crate::status::{CommandInfo, CommandStatus};
use crate::table::Table;
use vstd::prelude::*;

verus! {

/// The token standing for a live OS process. Its native process id fits in a
/// signed 32-bit value, as POSIX signal delivery requires.
#[derive(Clone, Copy, Debug)]
pub struct ProcessHandle {
    pid: u32,
}

impl ProcessHandle {
    pub closed spec fn spec_pid(&self) -> u32 {
        self.pid
    }

    /// The handle value carrying `pid`.
    pub closed spec fn spec_new(pid: u32) -> ProcessHandle {
        ProcessHandle { pid }
    }

    #[verifier::type_invariant]
    pub closed spec fn inv(&self) -> bool {
        self.pid <= 0x7fff_ffff
    }

    pub fn new(pid: u32) -> (r: ProcessHandle)
        requires
            pid <= 0x7fff_ffff,
        ensures
            r == ProcessHandle::spec_new(pid),
            r.spec_pid() == pid,
    {
        ProcessHandle { pid }
    }

    pub fn pid(&self) -> (r: u32)
        ensures
            r == self.spec_pid(),
            r <= 0x7fff_ffff,
    {
        proof {
            use_type_invariant(self);
        }
        self.pid
    }
}

/// One registry entry: the caller-facing snapshot and the handle slot.
pub struct ProcessEntry {
    pub info: CommandInfo,
    pub handle: Option<ProcessHandle>,
}

impl ProcessEntry {
    /// The snapshot is internally consistent and filed under its own id.
    pub open spec fn wf_for(&self, k: Seq<char>) -> bool {
        &&& self.info.wf()
        &&& self.info.id@ == k
    }
}

impl Clone for ProcessEntry {
    fn clone(&self) -> (r: Self)
        ensures
            r == *self,
    {
        ProcessEntry { info: self.info.clone(), handle: self.handle }
    }
}

/// What `mark_error` leaves in the registry: the sticky `has_error` flag of
/// `k` is raised if the entry exists, and nothing else changes.
pub open spec fn spec_after_mark(
    m: Map<Seq<char>, ProcessEntry>,
    k: Seq<char>,
) -> Map<Seq<char>, ProcessEntry> {
    if m.contains_key(k) {
        m.insert(
            k,
            ProcessEntry {
                info: CommandInfo { has_error: true, ..m[k].info },
                handle: m[k].handle,
            },
        )
    } else {
        m
    }
}

/// Whether `mark_error` on `k` is the first: the entry exists and its flag is
/// still down.
pub open spec fn spec_mark_is_first(m: Map<Seq<char>, ProcessEntry>, k: Seq<char>) -> bool {
    m.contains_key(k) && !m[k].info.has_error
}

/// The registry. All lifecycle operations read and write entries through it.
pub struct ProcessStore {
    table: Table<ProcessEntry>,
}

impl View for ProcessStore {
    type V = Map<Seq<char>, ProcessEntry>;

    closed spec fn view(&self) -> Map<Seq<char>, ProcessEntry> {
        self.table@
    }
}

impl ProcessStore {
    pub closed spec fn wf(&self) -> bool {
        &&& self.table.wf()
        &&& forall|k: Seq<char>|
            self.table@.contains_key(k) ==> (#[trigger] self.table@[k]).wf_for(k)
    }

    pub fn new() -> (r: ProcessStore)
        ensures
            r.wf(),
            r@ == Map::<Seq<char>, ProcessEntry>::empty(),
    {
        ProcessStore { table: Table::new() }
    }

    /// A snapshot copy of the entry's caller-facing record; the handle is
    /// never exposed this way.
    pub fn get(&self, id: &String) -> (r: Option<CommandInfo>)
        requires
            self.wf(),
        ensures
            match r {
                Some(info) => self@.contains_key(id@) && info == self@[id@].info && info.wf()
                    && info.id@ == id@,
                None => !self@.contains_key(id@),
            },
    {
        match self.table.get(id) {
            Some(entry) => Some(entry.info.clone()),
            None => None,
        }
    }

    /// Replace or insert the entry for `info.id`.
    pub fn upsert(&mut self, info: CommandInfo, handle: Option<ProcessHandle>)
        requires
            old(self).wf(),
            info.wf(),
        ensures
            final(self).wf(),
            final(self)@ == old(self)@.insert(info.id@, ProcessEntry { info: info, handle: handle }),
    {
        let key = info.id.clone();
        self.table.insert(key, ProcessEntry { info, handle });
    }

    /// Take the handle, exactly once per run: the first taker receives it and
    /// the slot empties; any later taker, and any id without a live handle,
    /// observes `None` and changes nothing.
    pub fn take_handle(&mut self, id: &String) -> (r: Option<ProcessHandle>)
        requires
            old(self).wf(),
        ensures
            final(self).wf(),
            match r {
                Some(h) => old(self)@.contains_key(id@) && old(self)@[id@].handle == Some(h)
                    && final(self)@ == old(self)@.insert(
                    id@,
                    ProcessEntry { info: old(self)@[id@].info, handle: None },
                ),
                None => (!old(self)@.contains_key(id@) || old(self)@[id@].handle is None)
                    && final(self)@ == old(self)@,
            },
    {
        let taken = match self.table.get(id) {
            Some(entry) => match entry.handle {
                Some(h) => Some((entry.info.clone(), h)),
                None => None,
            },
            None => None,
        };
        match taken {
            Some((info, h)) => {
                self.table.insert(id.clone(), ProcessEntry { info, handle: None });
                Some(h)
            },
            None => None,
        }
    }

    /// The native process id of the live handle, read without taking it:
    /// stop and force-kill address the process this way while the monitor
    /// stays responsible for reaping it.
    pub fn handle_pid(&self, id: &String) -> (r: Option<u32>)
        requires
            self.wf(),
        ensures
            match r {
                Some(pid) => ({
                    &&& self@.contains_key(id@)
                    &&& self@[id@].handle matches Some(h) && h.spec_pid() == pid
                    &&& pid <= 0x7fff_ffff
                }),
                None => !self@.contains_key(id@) || self@[id@].handle is None,
            },
    {
        match self.table.get(id) {
            Some(entry) => match &entry.handle {
                Some(h) => Some(h.pid()),
                None => None,
            },
            None => None,
        }
    }

    /// Apply a status transition if the id exists; no-op otherwise. The
    /// `is_running` mirror follows the new status.
    pub fn set_status(&mut self, id: &String, st: CommandStatus)
        requires
            old(self).wf(),
        ensures
            final(self).wf(),
            old(self)@.contains_key(id@) ==> final(self)@ == old(self)@.insert(
                id@,
                ProcessEntry {
                    info: CommandInfo {
                        status: st,
                        is_running: st.spec_is_active(),
                        ..old(self)@[id@].info
                    },
                    handle: old(self)@[id@].handle,
                },
            ),
            !old(self)@.contains_key(id@) ==> final(self)@ == old(self)@,
    {
        let running = st.is_active();
        let updated = match self.table.get(id) {
            Some(entry) => {
                let mut info = entry.info.clone();
                info.status = st;
                info.is_running = running;
                Some(ProcessEntry { info, handle: entry.handle })
            },
            None => None,
        };
        if let Some(e) = updated {
            self.table.insert(id.clone(), e);
        }
    }

    /// Record the terminal outcome of a run: status `Finished`, not running,
    /// and the error flag reporting whether the exit was unsuccessful.
    pub fn set_finished(&mut self, id: &String, code: Option<i32>, success: bool)
        requires
            old(self).wf(),
        ensures
            final(self).wf(),
            old(self)@.contains_key(id@) ==> final(self)@ == old(self)@.insert(
                id@,
                ProcessEntry {
                    info: CommandInfo {
                        status: CommandStatus::Finished { code, success },
                        is_running: false,
                        has_error: !success,
                        ..old(self)@[id@].info
                    },
                    handle: old(self)@[id@].handle,
                },
            ),
            !old(self)@.contains_key(id@) ==> final(self)@ == old(self)@,
    {
        let updated = match self.table.get(id) {
            Some(entry) => {
                let mut info = entry.info.clone();
                info.status = CommandStatus::Finished { code, success };
                info.is_running = false;
                info.has_error = !success;
                Some(ProcessEntry { info, handle: entry.handle })
            },
            None => None,
        };
        if let Some(e) = updated {
            self.table.insert(id.clone(), e);
        }
    }

    /// Raise the sticky error flag; reports whether this call was the one
    /// that flipped it.
    pub fn mark_error(&mut self, id: &String) -> (first: bool)
        requires
            old(self).wf(),
        ensures
            final(self).wf(),
            final(self)@ == spec_after_mark(old(self)@, id@),
            first == spec_mark_is_first(old(self)@, id@),
    {
        let updated = match self.table.get(id) {
            Some(entry) => {
                let mut info = entry.info.clone();
                let was = info.has_error;
                info.has_error = true;
                Some((ProcessEntry { info, handle: entry.handle }, !was))
            },
            None => None,
        };
        match updated {
            Some((e, first)) => {
                self.table.insert(id.clone(), e);
                proof {
                    assert(self@ =~= spec_after_mark(old(self)@, id@));
                }
                first
            },
            None => false,
        }
    }

    /// Record a detected port, first writer wins: an already-present port is
    /// never overwritten. Reports whether this call recorded it.
    pub fn set_port_if_unset(&mut self, id: &String, port: u16) -> (r: bool)
        requires
            old(self).wf(),
        ensures
            final(self).wf(),
            r == (old(self)@.contains_key(id@) && old(self)@[id@].info.port is None),
            r ==> final(self)@ == old(self)@.insert(
                id@,
                ProcessEntry {
                    info: CommandInfo { port: Some(port), ..old(self)@[id@].info },
                    handle: old(self)@[id@].handle,
                },
            ),
            !r ==> final(self)@ == old(self)@,
    {
        let updated = match self.table.get(id) {
            Some(entry) => match entry.info.port {
                None => {
                    let mut info = entry.info.clone();
                    info.port = Some(port);
                    Some(ProcessEntry { info, handle: entry.handle })
                },
                Some(_) => None,
            },
            None => None,
        };
        match updated {
            Some(e) => {
                self.table.insert(id.clone(), e);
                true
            },
            None => false,
        }
    }
}

/// The sticky error flag flips at most once: after any `mark_error`, a second
/// `mark_error` on the same id is never "first" and leaves the registry
/// exactly as it was.
pub proof fn lemma_error_flag_flips_once(m: Map<Seq<char>, ProcessEntry>, k: Seq<char>)
    ensures
        !spec_mark_is_first(spec_after_mark(m, k), k),
        spec_after_mark(spec_after_mark(m, k), k) == spec_after_mark(m, k),
{
    if m.contains_key(k) {
        let m1 = spec_after_mark(m, k);
        assert(m1[k].info.has_error);
        assert(spec_after_mark(m1, k) =~= m1);
    }
}

} // verus!
