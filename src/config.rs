//! VM records and the record store that holds them, keyed by VM name.
//!
//! `RecordDb` is the durable table: every mutation of a `SmolvmConfig` is
//! applied to it at once, and the caller writes it out after each mutation.
//! A fresh handle is made by `SmolvmConfig::load` from the table.

use vstd::prelude::*;
use crate::process::{is_our_process_strict, strict_match, ProcessIdentity};
use crate::util::{current_timestamp, decimal};

verus! {

/// Lifecycle state of a VM.
#[derive(Debug, Clone, Copy, PartialEq, Eq, Structural)]
pub enum RecordState {
    /// Registered, never started.
    Created,
    /// The VM process runs.
    Running,
    /// The VM exited cleanly.
    Stopped,
    /// The VM crashed or failed to start.
    Failed,
}

pub open spec fn state_text(s: RecordState) -> Seq<char> {
    match s {
        RecordState::Created => "created"@,
        RecordState::Running => "running"@,
        RecordState::Stopped => "stopped"@,
        RecordState::Failed => "failed"@,
    }
}

impl RecordState {
    /// The state in lower case, as shown to users.
    pub fn to_string(&self) -> (r: String)
        ensures
            r@ == state_text(*self),
    {
        match self {
            RecordState::Created => "created".to_string(),
            RecordState::Running => "running".to_string(),
            RecordState::Stopped => "stopped".to_string(),
            RecordState::Failed => "failed".to_string(),
        }
    }
}

/// Default vCPU count of a new VM.
pub const DEFAULT_CPUS: u8 = 1;

/// Default memory of a new VM, in MiB.
pub const DEFAULT_MEM: u32 = 512;

/// Default configuration format version.
pub const DEFAULT_VERSION: u8 = 1;

/// Default vCPU count of a VM record.
pub fn default_cpus() -> (r: u8)
    ensures
        r == DEFAULT_CPUS,
{
    DEFAULT_CPUS
}

/// Default memory of a VM record, in MiB.
pub fn default_mem() -> (r: u32)
    ensures
        r == DEFAULT_MEM,
{
    DEFAULT_MEM
}

/// A VM's durable record.
#[derive(Debug)]
pub struct VmRecord {
    pub name: String,
    /// Creation time, seconds since the Unix epoch, in decimal.
    pub created_at: String,
    pub state: RecordState,
    /// Process id while running.
    pub pid: Option<i32>,
    /// Start time of that process, read right after it was forked; with
    /// the pid it identifies the process across pid reuse.
    pub start_time: Option<u64>,
    pub cpus: u8,
    /// Memory in MiB.
    pub mem: u32,
    /// (host path, guest path, read-only), in order.
    pub mounts: Vec<(String, String, bool)>,
    /// (host port, guest port), in order.
    pub ports: Vec<(u16, u16)>,
    pub network: bool,
}

impl VmRecord {
    /// A pid and its start time are recorded exactly when the VM runs, and
    /// no port is 0.
    pub open spec fn wf(&self) -> bool {
        &&& (self.state == RecordState::Running) == (self.pid is Some)
        &&& (self.pid is Some) == (self.start_time is Some)
        &&& forall|i: int| 0 <= i < self.ports@.len() ==> (#[trigger] self.ports@[i]).0 >= 1 && self.ports@[i].1 >= 1
    }

    /// A new record in state `Created`, stamped with the current time.
    pub fn new(
        name: String,
        cpus: u8,
        mem: u32,
        mounts: Vec<(String, String, bool)>,
        ports: Vec<(u16, u16)>,
    ) -> (r: Self)
        ensures
            r.name == name,
            exists|t: u64| r.created_at@ == decimal(t as nat),
            r.state == RecordState::Created,
            r.pid is None,
            r.start_time is None,
            r.cpus == cpus,
            r.mem == mem,
            r.mounts == mounts,
            r.ports == ports,
            !r.network,
    {
        let created_at = current_timestamp();
        VmRecord { name, created_at, state: RecordState::Created, pid: None, start_time: None, cpus, mem, mounts, ports, network: false }
    }

    /// Whether the recorded process is alive: a pid and its start time are
    /// recorded, a probe of the pid finds a process (`alive`), and that
    /// process reports the recorded start time (`current_start`, read for
    /// the pid now). A process that took over a reused pid does not count.
    pub fn is_process_alive(&self, alive: bool, current_start: Option<u64>) -> (r: bool)
        ensures
            r == (match (self.pid, self.start_time) {
                (Some(pid), Some(t)) => strict_match(alive, current_start, ProcessIdentity { pid, start_time: t }),
                _ => false,
            }),
            self.pid is None ==> !r,
    {
        match (self.pid, self.start_time) {
            (Some(pid), Some(t)) => is_our_process_strict(alive, current_start, ProcessIdentity { pid, start_time: t }),
            _ => false,
        }
    }

    /// The state reconciled with what was observed: a running record whose
    /// process is no longer the recorded one reads as `Failed`.
    pub fn actual_state(&self, alive: bool, current_start: Option<u64>) -> (r: RecordState)
        ensures
            self.state == RecordState::Running && self.is_alive_spec(alive, current_start) ==> r == RecordState::Running,
            self.state == RecordState::Running && !self.is_alive_spec(alive, current_start) ==> r == RecordState::Failed,
            self.state != RecordState::Running ==> r == self.state,
    {
        if self.state == RecordState::Running {
            if self.is_process_alive(alive, current_start) {
                RecordState::Running
            } else {
                RecordState::Failed
            }
        } else {
            self.state
        }
    }

    /// What `is_process_alive` answers.
    pub open spec fn is_alive_spec(&self, alive: bool, current_start: Option<u64>) -> bool {
        match (self.pid, self.start_time) {
            (Some(pid), Some(t)) => strict_match(alive, current_start, ProcessIdentity { pid, start_time: t }),
            _ => false,
        }
    }

    /// Record a successful start of the process `id`.
    pub fn mark_running(&mut self, id: ProcessIdentity)
        ensures
            final(self).state == RecordState::Running,
            final(self).pid == Some(id.pid),
            final(self).start_time == Some(id.start_time),
            final(self).ports == old(self).ports,
            old(self).wf() ==> final(self).wf(),
    {
        self.state = RecordState::Running;
        self.pid = Some(id.pid);
        self.start_time = Some(id.start_time);
    }

    /// Record a clean stop (`Stopped`) or a failure (`Failed`).
    pub fn mark_exited(&mut self, failed: bool)
        ensures
            final(self).state == (if failed { RecordState::Failed } else { RecordState::Stopped }),
            final(self).pid is None,
            final(self).start_time is None,
            final(self).ports == old(self).ports,
            old(self).wf() ==> final(self).wf(),
    {
        self.state = if failed { RecordState::Failed } else { RecordState::Stopped };
        self.pid = None;
        self.start_time = None;
    }
}

/// Global settings as stored; `None` where a key was never written.
#[derive(Debug)]
pub struct Settings {
    pub version: Option<u8>,
    pub default_cpus: Option<u8>,
    pub default_mem: Option<u32>,
    pub default_dns: Option<String>,
}

/// The durable table: VM records by name, and the global settings.
#[derive(Debug)]
pub struct RecordDb {
    pub rows: Vec<(String, VmRecord)>,
    pub settings: Settings,
}

/// Names are unique in the table.
pub open spec fn rows_wf(rows: Seq<(String, VmRecord)>) -> bool {
    forall|i: int, j: int| 0 <= i < rows.len() && 0 <= j < rows.len() && i != j ==> (#[trigger] rows[i]).0@ != (#[trigger] rows[j]).0@
}

pub open spec fn has_name(rows: Seq<(String, VmRecord)>, name: Seq<char>) -> bool {
    exists|i: int| 0 <= i < rows.len() && (#[trigger] rows[i]).0@ == name
}

/// The record stored under `name`.
pub open spec fn lookup(rows: Seq<(String, VmRecord)>, name: Seq<char>) -> Option<VmRecord> {
    if has_name(rows, name) {
        let i = choose|i: int| 0 <= i < rows.len() && (#[trigger] rows[i]).0@ == name;
        Some(rows[i].1)
    } else {
        None
    }
}

pub proof fn lemma_lookup_at(rows: Seq<(String, VmRecord)>, i: int)
    requires
        rows_wf(rows),
        0 <= i < rows.len(),
    ensures
        lookup(rows, rows[i].0@) == Some(rows[i].1),
{
    let c = choose|c: int| 0 <= c < rows.len() && (#[trigger] rows[c]).0@ == rows[i].0@;
    assert(c == i);
}

/// An empty table.
pub fn empty_db() -> (r: RecordDb)
    ensures
        r.rows@.len() == 0,
        r.settings.version is None,
        r.settings.default_cpus is None,
        r.settings.default_mem is None,
        r.settings.default_dns is None,
{
    RecordDb {
        rows: Vec::new(),
        settings: Settings { version: None, default_cpus: None, default_mem: None, default_dns: None },
    }
}

/// Failures of the record store.
#[derive(Debug, Clone, Copy, PartialEq, Eq, Structural)]
pub enum ConfigError {
    /// A record with that name exists already.
    AlreadyExists,
}

/// The record store handle: global settings and the table of VM records.
#[derive(Debug)]
pub struct SmolvmConfig {
    db: RecordDb,
    version: u8,
    default_cpus: u8,
    default_mem: u32,
    default_dns: String,
}

impl SmolvmConfig {
    /// The records held, by name.
    pub closed spec fn rows(&self) -> Seq<(String, VmRecord)> {
        self.db.rows@
    }

    pub closed spec fn wf(&self) -> bool {
        rows_wf(self.db.rows@)
    }

    pub closed spec fn spec_version(&self) -> u8 {
        self.version
    }

    pub closed spec fn spec_default_cpus(&self) -> u8 {
        self.default_cpus
    }

    pub closed spec fn spec_default_mem(&self) -> u32 {
        self.default_mem
    }

    pub closed spec fn spec_default_dns(&self) -> Seq<char> {
        self.default_dns@
    }

    pub closed spec fn spec_settings(&self) -> (Option<u8>, Option<u8>, Option<u32>, Option<Seq<char>>) {
        (
            self.db.settings.version,
            self.db.settings.default_cpus,
            self.db.settings.default_mem,
            match self.db.settings.default_dns {
                Some(d) => Some(d@),
                None => None,
            },
        )
    }

    /// Configuration format version.
    pub fn version(&self) -> (r: u8)
        ensures
            r == self.spec_version(),
    {
        self.version
    }

    /// Default vCPU count for new VMs.
    pub fn default_cpus(&self) -> (r: u8)
        ensures
            r == self.spec_default_cpus(),
    {
        self.default_cpus
    }

    /// Default memory for new VMs, in MiB.
    pub fn default_mem(&self) -> (r: u32)
        ensures
            r == self.spec_default_mem(),
    {
        self.default_mem
    }

    /// Default DNS server for VMs with network egress.
    pub fn default_dns(&self) -> (r: &String)
        ensures
            r@ == self.spec_default_dns(),
    {
        &self.default_dns
    }

    /// Change the defaults for new VMs; `save` writes them to the table.
    pub fn set_defaults(&mut self, cpus: u8, mem: u32, dns: String)
        ensures
            final(self).rows() == old(self).rows(),
            final(self).wf() == old(self).wf(),
            final(self).spec_version() == old(self).spec_version(),
            final(self).spec_default_cpus() == cpus,
            final(self).spec_default_mem() == mem,
            final(self).spec_default_dns() == dns@,
    {
        self.default_cpus = cpus;
        self.default_mem = mem;
        self.default_dns = dns;
    }

    /// Open a handle on a table: settings not stored take their defaults
    /// (version 1, 1 vCPU, 512 MiB, DNS 1.1.1.1).
    pub fn load(db: RecordDb) -> (r: Self)
        requires
            rows_wf(db.rows@),
        ensures
            r.wf(),
            r.rows() == db.rows@,
            r.spec_version() == (match db.settings.version { Some(v) => v, None => DEFAULT_VERSION }),
            r.spec_default_cpus() == (match db.settings.default_cpus { Some(v) => v, None => DEFAULT_CPUS }),
            r.spec_default_mem() == (match db.settings.default_mem { Some(v) => v, None => DEFAULT_MEM }),
            db.settings.default_dns is Some ==> r.spec_default_dns() == db.settings.default_dns->Some_0@,
            db.settings.default_dns is None ==> r.spec_default_dns() == "1.1.1.1"@,
    {
        let version = match db.settings.version { Some(v) => v, None => DEFAULT_VERSION };
        let default_cpus = match db.settings.default_cpus { Some(v) => v, None => DEFAULT_CPUS };
        let default_mem = match db.settings.default_mem { Some(v) => v, None => DEFAULT_MEM };
        let default_dns = match &db.settings.default_dns {
            Some(d) => d.clone(),
            None => "1.1.1.1".to_string(),
        };
        SmolvmConfig { db, version, default_cpus, default_mem, default_dns }
    }

    /// Write the global settings to the table.
    pub fn save(&mut self)
        ensures
            final(self).rows() == old(self).rows(),
            final(self).wf() == old(self).wf(),
            final(self).spec_settings() == (
                Some(old(self).spec_version()),
                Some(old(self).spec_default_cpus()),
                Some(old(self).spec_default_mem()),
                Some(old(self).spec_default_dns()),
            ),
            final(self).spec_version() == old(self).spec_version(),
            final(self).spec_default_cpus() == old(self).spec_default_cpus(),
            final(self).spec_default_mem() == old(self).spec_default_mem(),
            final(self).spec_default_dns() == old(self).spec_default_dns(),
    {
        self.db.settings.version = Some(self.version);
        self.db.settings.default_cpus = Some(self.default_cpus);
        self.db.settings.default_mem = Some(self.default_mem);
        self.db.settings.default_dns = Some(self.default_dns.clone());
    }

    /// The table behind this handle.
    pub fn db(&self) -> (r: &RecordDb)
        ensures
            r.rows@ == self.rows(),
            (r.settings.version, r.settings.default_cpus, r.settings.default_mem) == (
                self.spec_settings().0,
                self.spec_settings().1,
                self.spec_settings().2,
            ),
    {
        &self.db
    }

    /// Give up the handle, keeping its table.
    pub fn into_db(self) -> (r: RecordDb)
        ensures
            r.rows@ == self.rows(),
            self.wf() ==> rows_wf(r.rows@),
    {
        self.db
    }

    fn find(&self, name: &str) -> (r: Option<usize>)
        ensures
            r is None <==> !has_name(self.rows(), name@),
            r is Some ==> r->Some_0 < self.rows().len() && self.rows()[r->Some_0 as int].0@ == name@,
    {
        let key = name.to_string();
        let mut i: usize = 0;
        while i < self.db.rows.len()
            invariant
                key@ == name@,
                0 <= i <= self.db.rows@.len(),
                forall|j: int| 0 <= j < i ==> (#[trigger] self.db.rows@[j]).0@ != name@,
            decreases self.db.rows@.len() - i,
        {
            if self.db.rows[i].0 == key {
                return Some(i);
            }
            i = i + 1;
        }
        None
    }

    /// Insert a record under `name`; fails when the name is taken.
    pub fn insert_vm(&mut self, name: String, record: VmRecord) -> (r: Result<(), ConfigError>)
        requires
            old(self).wf(),
        ensures
            final(self).wf(),
            r is Err <==> has_name(old(self).rows(), name@),
            r is Err ==> final(self).rows() == old(self).rows(),
            r is Ok ==> final(self).rows() == old(self).rows().push((name, record)),
    {
        if self.find(name.as_str()).is_some() {
            return Err(ConfigError::AlreadyExists);
        }
        let ghost old_rows = self.rows();
        let ghost n = name@;
        self.db.rows.push((name, record));
        proof {
            let rows = self.rows();
            assert forall|i: int, j: int| 0 <= i < rows.len() && 0 <= j < rows.len() && i != j implies (#[trigger] rows[i]).0@ != (#[trigger] rows[j]).0@ by {
                if i < old_rows.len() && j < old_rows.len() {
                    assert(rows[i] == old_rows[i] && rows[j] == old_rows[j]);
                } else if i < old_rows.len() {
                    assert(rows[i] == old_rows[i]);
                } else {
                    assert(rows[j] == old_rows[j]);
                }
            }
        }
        Ok(())
    }

    /// Remove and return the record under `id`.
    pub fn remove_vm(&mut self, id: &str) -> (r: Option<VmRecord>)
        requires
            old(self).wf(),
        ensures
            final(self).wf(),
            r == lookup(old(self).rows(), id@),
            !has_name(final(self).rows(), id@),
            forall|n: Seq<char>| n != id@ ==> #[trigger] lookup(final(self).rows(), n) == lookup(old(self).rows(), n),
    {
        let ghost old_rows = self.rows();
        match self.find(id) {
            None => {
                assert(lookup(old_rows, id@) is None);
                None
            },
            Some(i) => {
                proof {
                    lemma_lookup_at(old_rows, i as int);
                }
                let (_, rec) = self.db.rows.remove(i);
                proof {
                    let rows = self.rows();
                    assert(rows =~= old_rows.remove(i as int));
                    assert forall|a: int, b: int| 0 <= a < rows.len() && 0 <= b < rows.len() && a != b implies (#[trigger] rows[a]).0@ != (#[trigger] rows[b]).0@ by {
                        let a2 = if a < i { a } else { a + 1 };
                        let b2 = if b < i { b } else { b + 1 };
                        assert(rows[a] == old_rows[a2] && rows[b] == old_rows[b2]);
                    }
                    assert forall|a: int| 0 <= a < rows.len() implies (#[trigger] rows[a]).0@ != id@ by {
                        let a2 = if a < i { a } else { a + 1 };
                        assert(rows[a] == old_rows[a2]);
                    }
                    assert forall|n: Seq<char>| n != id@ implies #[trigger] lookup(rows, n) == lookup(old_rows, n) by {
                        if has_name(old_rows, n) {
                            let c = choose|c: int| 0 <= c < old_rows.len() && (#[trigger] old_rows[c]).0@ == n;
                            let c2 = if c < i { c } else { c - 1 };
                            assert(rows[c2] == old_rows[c]);
                            lemma_lookup_at(rows, c2);
                            lemma_lookup_at(old_rows, c);
                        } else {
                            if has_name(rows, n) {
                                let c = choose|c: int| 0 <= c < rows.len() && (#[trigger] rows[c]).0@ == n;
                                let c2 = if c < i { c } else { c + 1 };
                                assert(rows[c] == old_rows[c2]);
                            }
                        }
                    }
                }
                Some(rec)
            },
        }
    }

    /// The record under `id`.
    pub fn get_vm(&self, id: &str) -> (r: Option<&VmRecord>)
        requires
            self.wf(),
        ensures
            match r {
                Some(rec) => lookup(self.rows(), id@) == Some(*rec),
                None => lookup(self.rows(), id@) is None,
            },
    {
        match self.find(id) {
            Some(i) => {
                proof {
                    lemma_lookup_at(self.rows(), i as int);
                }
                Some(&self.db.rows[i].1)
            },
            None => None,
        }
    }

    /// Every (name, record) pair, in insertion order.
    pub fn list_vms(&self) -> (r: &Vec<(String, VmRecord)>)
        ensures
            r@ == self.rows(),
    {
        &self.db.rows
    }

    /// Replace the record under `id` by what `f` makes of it; `None` when
    /// there is no such record.
    pub fn update_vm<F: FnOnce(VmRecord) -> VmRecord>(&mut self, id: &str, f: F) -> (r: Option<()>)
        requires
            old(self).wf(),
            forall|rec: VmRecord| f.requires((rec,)),
        ensures
            final(self).wf(),
            r is None <==> !has_name(old(self).rows(), id@),
            r is None ==> final(self).rows() == old(self).rows(),
            r is Some ==> exists|new: VmRecord|
                f.ensures((lookup(old(self).rows(), id@)->Some_0,), new) && #[trigger] updated(old(self).rows(), id@, new, final(self).rows()),
            forall|n: Seq<char>| n != id@ ==> #[trigger] lookup(final(self).rows(), n) == lookup(old(self).rows(), n),
    {
        let ghost old_rows = self.rows();
        match self.find(id) {
            None => None,
            Some(i) => {
                proof {
                    lemma_lookup_at(old_rows, i as int);
                }
                let (name, rec) = self.db.rows.remove(i);
                let new_rec = f(rec);
                self.db.rows.insert(i, (name, new_rec));
                proof {
                    let rows = self.rows();
                    assert(rows =~= old_rows.update(i as int, (old_rows[i as int].0, new_rec)));
                    assert forall|a: int, b: int| 0 <= a < rows.len() && 0 <= b < rows.len() && a != b implies (#[trigger] rows[a]).0@ != (#[trigger] rows[b]).0@ by {
                        assert(rows[a].0 == old_rows[a].0 && rows[b].0 == old_rows[b].0);
                    }
                    lemma_lookup_at(rows, i as int);
                    assert(lookup(rows, id@) == Some(new_rec));
                    assert(rows_wf(rows));
                    assert forall|n: Seq<char>| n != id@ implies #[trigger] lookup(rows, n) == lookup(old_rows, n) by {
                        if has_name(old_rows, n) {
                            let c = choose|c: int| 0 <= c < old_rows.len() && (#[trigger] old_rows[c]).0@ == n;
                            lemma_lookup_at(rows, c);
                            lemma_lookup_at(old_rows, c);
                        } else {
                            if has_name(rows, n) {
                                let c = choose|c: int| 0 <= c < rows.len() && (#[trigger] rows[c]).0@ == n;
                                assert(rows[c].0 == old_rows[c].0);
                            }
                        }
                    }
                    assert(updated(old_rows, id@, new_rec, rows));
                }
                Some(())
            },
        }
    }
}

/// The rows `after` are `before` with the record under `name` replaced by
/// `new`, every other name keeping its record.
pub open spec fn updated(before: Seq<(String, VmRecord)>, name: Seq<char>, new: VmRecord, after: Seq<(String, VmRecord)>) -> bool {
    &&& rows_wf(after)
    &&& lookup(after, name) == Some(new)
    &&& forall|n: Seq<char>| n != name ==> #[trigger] lookup(after, n) == lookup(before, n)
}

/// Insert, update, reload: after `insert_vm` of `rec` under a new name
/// (rows `rows0` become `rows0.push((name, rec))`), `update_vm` of that name
/// finds it, and whatever rows `rows2` the update leaves, a handle loaded
/// afresh from them (`load` keeps the rows as they are) reads back exactly
/// the updated record, while every other name reads as before the insert.
pub proof fn lemma_insert_update_reload(
    rows0: Seq<(String, VmRecord)>,
    name: String,
    rec: VmRecord,
    updated_rec: VmRecord,
    rows2: Seq<(String, VmRecord)>,
    reloaded: Seq<(String, VmRecord)>,
)
    requires
        rows_wf(rows0),
        !has_name(rows0, name@),
        updated(rows0.push((name, rec)), name@, updated_rec, rows2),
        reloaded == rows2,
    ensures
        rows_wf(rows0.push((name, rec))),
        has_name(rows0.push((name, rec)), name@),
        lookup(reloaded, name@) == Some(updated_rec),
        forall|n: Seq<char>| n != name@ ==> #[trigger] lookup(reloaded, n) == lookup(rows0, n),
{
    let rows1 = rows0.push((name, rec));
    let n = rows0.len() as int;
    assert(rows1[n].0@ == name@);
    assert forall|i: int, j: int| 0 <= i < rows1.len() && 0 <= j < rows1.len() && i != j implies (#[trigger] rows1[i]).0@ != (#[trigger] rows1[j]).0@ by {
        if i < n && j < n {
            assert(rows1[i] == rows0[i] && rows1[j] == rows0[j]);
        } else if i < n {
            assert(rows1[i] == rows0[i]);
        } else {
            assert(rows1[j] == rows0[j]);
        }
    }
    assert forall|m: Seq<char>| m != name@ implies #[trigger] lookup(reloaded, m) == lookup(rows0, m) by {
        assert(lookup(rows2, m) == lookup(rows1, m));
        if has_name(rows0, m) {
            let c = choose|c: int| 0 <= c < rows0.len() && (#[trigger] rows0[c]).0@ == m;
            assert(rows1[c] == rows0[c]);
            lemma_lookup_at(rows1, c);
            lemma_lookup_at(rows0, c);
        } else {
            if has_name(rows1, m) {
                let c = choose|c: int| 0 <= c < rows1.len() && (#[trigger] rows1[c]).0@ == m;
                if c < n {
                    assert(rows1[c] == rows0[c]);
                }
            }
        }
    }
}

} // verus!
