use vstd::prelude::*;

verus! {

/// Where the router runtime stands.
#[derive(Debug, Clone, Copy, PartialEq, Eq, Structural)]
pub enum RouterState {
    Uninstalled,
    Installed,
    Running,
}

/// The state after an attempt to install the router runtime.
pub open spec fn after_install(state: RouterState, installed: bool) -> RouterState {
    if state == RouterState::Uninstalled && installed {
        RouterState::Installed
    } else {
        state
    }
}

/// The state after an attempt to spawn the router process. A runtime that
/// was never installed cannot run; a failed spawn leaves no process behind.
pub open spec fn after_spawn(state: RouterState, spawned: bool) -> RouterState {
    if state == RouterState::Uninstalled {
        RouterState::Uninstalled
    } else if spawned {
        RouterState::Running
    } else {
        RouterState::Installed
    }
}

/// The state after the router process was killed or was found dead.
pub open spec fn after_kill(state: RouterState) -> RouterState {
    if state == RouterState::Running {
        RouterState::Installed
    } else {
        state
    }
}

/// What a spawn has to do first, given the state it starts from.
#[derive(Debug, Clone, Copy, PartialEq, Eq, Structural)]
pub enum SpawnPlan {
    /// The runtime is missing: install it, then ask again.
    Install,
    /// Nothing runs: start the process.
    Start,
    /// A process runs: kill it, then start a new one.
    Restart,
}

/// Keeps track of the router child process for the leader.
#[derive(Debug, PartialEq, Eq)]
pub struct RouterSupervisor {
    state: RouterState,
}

impl RouterSupervisor {
    /// The supervisor's state.
    pub closed spec fn state(&self) -> RouterState {
        self.state
    }

    /// A supervisor whose runtime is not installed yet.
    pub fn new() -> (supervisor: RouterSupervisor)
        ensures
            supervisor.state() == RouterState::Uninstalled,
    {
        RouterSupervisor { state: RouterState::Uninstalled }
    }

    /// The current state.
    pub fn current(&self) -> (state: RouterState)
        ensures
            state == self.state(),
    {
        self.state
    }

    /// True while a router process is alive.
    pub fn is_running(&self) -> (running: bool)
        ensures
            running == (self.state() == RouterState::Running),
    {
        self.state == RouterState::Running
    }

    /// Records the outcome of installing the runtime.
    pub fn installed(&mut self, ok: bool)
        ensures
            final(self).state() == after_install(old(self).state(), ok),
    {
        if self.state == RouterState::Uninstalled && ok {
            self.state = RouterState::Installed;
        }
    }

    /// Tells what a spawn has to do from the current state.
    pub fn spawn_plan(&self) -> (plan: SpawnPlan)
        ensures
            plan == match self.state() {
                RouterState::Uninstalled => SpawnPlan::Install,
                RouterState::Installed => SpawnPlan::Start,
                RouterState::Running => SpawnPlan::Restart,
            },
    {
        match self.state {
            RouterState::Uninstalled => SpawnPlan::Install,
            RouterState::Installed => SpawnPlan::Start,
            RouterState::Running => SpawnPlan::Restart,
        }
    }

    /// Records the outcome of a spawn or restart.
    pub fn spawned(&mut self, ok: bool)
        ensures
            final(self).state() == after_spawn(old(self).state(), ok),
    {
        if self.state != RouterState::Uninstalled {
            if ok {
                self.state = RouterState::Running;
            } else {
                self.state = RouterState::Installed;
            }
        }
    }

    /// Records that the process was killed. Killing never fails the caller.
    pub fn killed(&mut self)
        ensures
            final(self).state() == after_kill(old(self).state()),
    {
        if self.state == RouterState::Running {
            self.state = RouterState::Installed;
        }
    }

    /// Records that the process was found dead.
    pub fn crashed(&mut self) -> (was_running: bool)
        ensures
            final(self).state() == after_kill(old(self).state()),
            was_running == (old(self).state() == RouterState::Running),
    {
        let was_running = self.state == RouterState::Running;
        self.killed();
        was_running
    }
}

/// No sequence of kills brings a process back, and a kill after a kill
/// changes nothing.
pub proof fn kill_is_idempotent(state: RouterState)
    ensures
        after_kill(after_kill(state)) == after_kill(state),
        after_kill(state) != RouterState::Running,
{
}

/// Spawning from any installed state ends in the same state as killing
/// first and spawning then: a spawn while running is a restart.
pub proof fn spawn_is_restart(state: RouterState, ok: bool)
    ensures
        after_spawn(state, ok) == after_spawn(after_kill(state), ok),
{
}

} // verus!
