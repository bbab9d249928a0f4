//! The host VM supervisor's decisions for one VM entry: whether a start
//! launches, reuses or must restart the VM, what a stop does, and the
//! teardown that the runtime guard performs on every exit path.

use vstd::prelude::*;
use crate::agent::{config_matches, mounts_within, HostMount, VmResources};
use crate::process::{strict_match, ProcessIdentity};

verus! {

/// Lifecycle of a supervised VM.
#[derive(Debug, Clone, Copy, PartialEq, Eq, Structural)]
pub enum VmPhase {
    /// No hypervisor child.
    Stopped,
    /// A child was forked; its identity is known.
    Running(ProcessIdentity),
}

/// What a start request leads to.
#[derive(Debug, Clone, Copy, PartialEq, Eq, Structural)]
pub enum StartAction {
    /// The recorded child is alive with the wanted configuration.
    Reuse,
    /// The recorded child is alive with another configuration: stop it, then launch.
    Restart(ProcessIdentity),
    /// No live child: launch one.
    Launch,
}

/// One step of tearing a VM down, in order.
#[derive(Debug, Clone, PartialEq, Eq)]
pub enum TeardownStep {
    /// Stop the hypervisor child, graceful then forceful, strictly by identity.
    StopChild(ProcessIdentity),
    /// Remove the per-invocation runtime directory.
    RemoveDir(String),
}

/// The supervisor's entry for one VM.
#[derive(Debug)]
pub struct VmEntry {
    pub phase: VmPhase,
    pub mounts: Vec<HostMount>,
    pub resources: VmResources,
    /// The runtime directory owned by this entry, while it exists.
    pub runtime_dir: Option<String>,
}

/// The VM is up: a child is recorded and the strict identity check passed.
pub open spec fn live(e: VmEntry, alive: bool, current_start: Option<u64>) -> bool {
    match e.phase {
        VmPhase::Running(id) => strict_match(alive, current_start, id),
        VmPhase::Stopped => false,
    }
}

impl VmEntry {
    /// A stopped entry with a configuration.
    pub fn new(mounts: Vec<HostMount>, resources: VmResources) -> (r: Self)
        ensures
            r.phase == VmPhase::Stopped,
            r.mounts == mounts,
            r.resources == resources,
            r.runtime_dir is None,
    {
        VmEntry { phase: VmPhase::Stopped, mounts, resources, runtime_dir: None }
    }

    /// Whether the VM is up, from a liveness probe of the recorded pid and
    /// the start time read for it now.
    pub fn is_alive(&self, alive: bool, current_start: Option<u64>) -> (r: bool)
        ensures
            r == live(*self, alive, current_start),
    {
        match self.phase {
            VmPhase::Running(id) => crate::process::is_our_process_strict(alive, current_start, id),
            VmPhase::Stopped => false,
        }
    }

    /// Decide a start: a live VM whose mounts (as a set) and resources equal
    /// the wanted ones is reused; a live VM with another configuration is
    /// restarted; otherwise a VM is launched.
    pub fn start_action(
        &self,
        wanted_mounts: &Vec<HostMount>,
        wanted: VmResources,
        alive: bool,
        current_start: Option<u64>,
    ) -> (r: StartAction)
        ensures
            !live(*self, alive, current_start) ==> r == StartAction::Launch,
            live(*self, alive, current_start) && mounts_within(self.mounts@, wanted_mounts@) && mounts_within(
                wanted_mounts@,
                self.mounts@,
            ) && self.resources == wanted ==> r == StartAction::Reuse,
            live(*self, alive, current_start) && !(mounts_within(self.mounts@, wanted_mounts@) && mounts_within(
                wanted_mounts@,
                self.mounts@,
            ) && self.resources == wanted) ==> r == StartAction::Restart(self.phase->Running_0),
    {
        if !self.is_alive(alive, current_start) {
            return StartAction::Launch;
        }
        match self.phase {
            VmPhase::Running(id) => {
                if config_matches(&self.mounts, self.resources, wanted_mounts, wanted) {
                    StartAction::Reuse
                } else {
                    StartAction::Restart(id)
                }
            },
            VmPhase::Stopped => StartAction::Launch,
        }
    }

    /// Record a launched child and the runtime directory made for it.
    pub fn launched(&mut self, id: ProcessIdentity, runtime_dir: String, mounts: Vec<HostMount>, resources: VmResources)
        ensures
            final(self).phase == VmPhase::Running(id),
            final(self).runtime_dir == Some(runtime_dir),
            final(self).mounts == mounts,
            final(self).resources == resources,
    {
        self.phase = VmPhase::Running(id);
        self.runtime_dir = Some(runtime_dir);
        self.mounts = mounts;
        self.resources = resources;
    }

    /// The teardown to run now: stop the child if one is recorded, and only
    /// then remove the runtime directory. The entry is left stopped and
    /// owning no directory, so a second teardown does nothing.
    pub fn teardown(&mut self) -> (r: Vec<TeardownStep>)
        ensures
            final(self).phase == VmPhase::Stopped,
            final(self).runtime_dir is None,
            final(self).mounts == old(self).mounts,
            final(self).resources == old(self).resources,
            r@.len() == (if old(self).phase is Running { 1int } else { 0int }) + (if old(self).runtime_dir is Some { 1int } else { 0int }),
            old(self).phase is Running ==> r@[0] == TeardownStep::StopChild(old(self).phase->Running_0),
            old(self).runtime_dir is Some ==> r@.last() == TeardownStep::RemoveDir(old(self).runtime_dir->Some_0),
    {
        let mut steps: Vec<TeardownStep> = Vec::new();
        if let VmPhase::Running(id) = self.phase {
            steps.push(TeardownStep::StopChild(id));
        }
        let dir = self.runtime_dir.take();
        if let Some(d) = dir {
            steps.push(TeardownStep::RemoveDir(d));
        }
        self.phase = VmPhase::Stopped;
        steps
    }
}

/// Name of a per-invocation runtime directory under a stable parent, so
/// that concurrent invocations never share storage or socket paths.
pub fn invocation_dir(parent: &str, invocation_id: &str) -> (r: String)
    ensures
        r@ == parent@ + "/run-"@ + invocation_id@,
{
    parent.to_string().concat("/run-").concat(invocation_id)
}

/// Path of the agent's control socket inside a runtime directory.
pub fn control_socket_path(runtime_dir: &str) -> (r: String)
    ensures
        r@ == runtime_dir@ + "/agent.sock"@,
{
    runtime_dir.to_string().concat("/agent.sock")
}

} // verus!
