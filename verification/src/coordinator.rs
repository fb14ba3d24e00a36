//! The orchestration state machine. All mutations of the shared state (the
//! recorded agent PID, the active flag, the current modes) go through
//! [`Coordinator::handle`]; the caller holds one lock around each call, keeps
//! performing the returned action, and feeds the action's outcome back as the
//! next event. Spawning, killing and OS reconfiguration thus stay outside the
//! machine, and every decision in here is checked.

use vstd::prelude::*;

use crate::launch::{server_addr, spec_server_addr, LaunchArgs};
use crate::network::NetTarget;
use crate::server::{AddrInfo, ServerInfo};
use crate::state::{AccessMode, BindMode, ProtocolMode};

verus! {

/// Process creation failed: the agent binary is missing or not executable.
#[derive(Clone, Copy, Debug, PartialEq, Eq, Structural)]
pub enum LaunchError {
    SpawnFailed,
}

/// Stopping the agent failed.
#[derive(Clone, Copy, Debug, PartialEq, Eq, Structural)]
pub enum StopError {
    /// No process is currently tracked; an idempotent no-op for the caller.
    NotFound,
    /// The OS refused to terminate the process.
    KillFailed,
}

/// One OS configuration directive failed; `directive` is its position in the
/// issued command plan. Directives before it are applied and stay applied.
#[derive(Clone, Copy, Debug, PartialEq, Eq, Structural)]
pub enum SwitchError {
    CommandFailed { directive: u32 },
}

/// Reading from or writing to the persistent key/value store failed.
#[derive(Clone, Copy, Debug, PartialEq, Eq, Structural)]
pub enum StoreError {
    ReadFailed,
    WriteFailed,
}

/// Reading a rule source or writing the combined rule file failed.
#[derive(Clone, Copy, Debug, PartialEq, Eq, Structural)]
pub enum CombineError {
    ReadFailed,
    WriteFailed,
}

/// The proxy configuration kind an `ApplyNetwork` action asks for; the
/// endpoints for the two listener kinds come from the coordinator's settings.
#[derive(Clone, Copy, Debug, PartialEq, Eq, Structural)]
pub enum TargetKind {
    Direct,
    Socks,
    Http,
}

/// What the caller must do after a transition, before it reports the outcome
/// back as the next event.
#[derive(Clone, Copy, Debug, PartialEq, Eq, Structural)]
pub enum Action {
    /// Nothing to perform; the transition is complete.
    Nothing,
    /// Place the OS proxy configuration into the given target; report the
    /// outcome as a `SwitchDone` event.
    ApplyNetwork(TargetKind),
    /// Spawn the agent with the coordinator's current launch arguments;
    /// report the outcome as a `SpawnDone` event.
    Spawn,
    /// Terminate the process with the given recorded PID, re-resolving it
    /// through the OS process table; report the outcome as a `KillDone` event.
    Kill(u32),
}

/// A trigger the coordinator reacts to: a user command, a liveness notice
/// from the supervisor's output drain, or the outcome of a previous action.
#[derive(Debug)]
pub enum Event {
    /// Start the agent under the current settings (initial startup, or an
    /// explicit re-trigger after a reported failure).
    RequestStart,
    /// Stop the agent and leave the OS direct (the user picked Direct, or the
    /// application is shutting down).
    RequestStop,
    /// The user selected an access mode; takes effect through a restart.
    SetAccessMode(AccessMode),
    /// The user selected a bind mode; hot-swaps the OS pointer while running.
    SetBindMode(BindMode),
    /// The user selected a protocol mode; takes effect through a restart.
    SetProtocolMode(ProtocolMode),
    /// The user deleted the profile with this host; if it is the active one,
    /// the coordinator falls back to Direct before it is removed.
    DeleteServer(String),
    /// The supervisor observed the agent terminate on its own.
    AgentExited,
    /// Outcome of an `ApplyNetwork` action.
    SwitchDone(Result<(), SwitchError>),
    /// Outcome of a `Spawn` action, with the new PID on success.
    SpawnDone(Result<u32, LaunchError>),
    /// Outcome of a `Kill` action.
    KillDone(Result<(), StopError>),
}

/// Where the machine stands between events. `StoppingSwitch` and
/// `StoppingKill` form the fail-safe stop sequence: the OS is pointed away
/// from the agent first, the process is reaped second, and `restart` carries
/// whether a start follows. `StartingSpawn` and `StartingSwitch` form the
/// start sequence; `aborted` records that the agent died before the sequence
/// finished, so its completion unwinds instead of activating.
#[derive(Clone, Copy, Debug, PartialEq, Eq, Structural)]
pub enum Phase {
    Stopped,
    StoppingSwitch { restart: bool },
    StoppingKill { restart: bool },
    StartingSpawn,
    StartingSwitch { aborted: bool },
    Rebinding { aborted: bool },
    Running,
}

/// The single-writer orchestration state: the phase, the recorded PID of the
/// last spawned and not yet confirmed-terminated process, the active flag the
/// UI reflects, and the settings a start resolves its launch arguments from.
#[derive(Debug)]
pub struct Coordinator {
    pub phase: Phase,
    /// PID of the most recently spawned agent process, kept until its
    /// termination is confirmed. A kill refused by the OS keeps it recorded,
    /// and the next start retries the kill before spawning.
    pub pid: Option<u32>,
    /// True iff an agent instance has been launched, the OS switch after it
    /// succeeded, and the instance has not yet been stopped or reported dead.
    pub active: bool,
    pub access_mode: AccessMode,
    pub bind_mode: BindMode,
    pub protocol_mode: ProtocolMode,
    /// The profile marked active, already resolved from the server list.
    pub active_server: Option<ServerInfo>,
    pub socks_addr: AddrInfo,
    pub http_addr: AddrInfo,
    pub proxy_rules_path: String,
    pub direct_rules_path: String,
    pub cert_path: String,
}

impl Coordinator {
    /// Whether the current settings resolve to launch arguments: a profile is
    /// active, and under TCP it has a TCP port.
    pub open spec fn spec_can_resolve(self) -> bool {
        match self.active_server {
            Some(s) => self.protocol_mode is Quic || s.tcp_port is Some,
            None => false,
        }
    }

    /// The proxy configuration kind of the current bind mode.
    pub open spec fn bind_kind(self) -> TargetKind {
        match self.bind_mode {
            BindMode::Socks => TargetKind::Socks,
            BindMode::Http => TargetKind::Http,
        }
    }
}

/// The state after entering the fail-safe stop sequence: the active flag
/// drops at once, and the OS is asked for Direct before any kill.
pub open spec fn enter_stop(m: Coordinator, restart: bool) -> (Coordinator, Action) {
    (
        Coordinator { phase: Phase::StoppingSwitch { restart }, active: false, ..m },
        Action::ApplyNetwork(TargetKind::Direct),
    )
}

/// The state after a start is requested from a quiescent machine: a machine
/// with a possibly-live process first runs the stop sequence; one with no
/// tracked process spawns, or refuses when no launch arguments resolve.
pub open spec fn enter_start(m: Coordinator) -> (Coordinator, Action) {
    if m.phase is Running || m.pid is Some {
        enter_stop(m, true)
    } else if m.spec_can_resolve() {
        (Coordinator { phase: Phase::StartingSpawn, ..m }, Action::Spawn)
    } else {
        (Coordinator { phase: Phase::Stopped, ..m }, Action::Nothing)
    }
}

/// The transition function: the machine after `e`, and the action the caller
/// must perform before reporting the next outcome.
pub open spec fn next(m: Coordinator, e: Event) -> (Coordinator, Action) {
    match m.phase {
        Phase::Stopped => match e {
            Event::RequestStart => enter_start(m),
            Event::RequestStop => enter_stop(m, false),
            Event::SetAccessMode(a) => enter_start(Coordinator { access_mode: a, ..m }),
            Event::SetProtocolMode(p) => enter_start(Coordinator { protocol_mode: p, ..m }),
            Event::SetBindMode(b) => (Coordinator { bind_mode: b, ..m }, Action::Nothing),
            Event::DeleteServer(h) => match m.active_server {
                Some(s) => if s.host@ == h@ {
                    (Coordinator { active_server: None, ..m }, Action::Nothing)
                } else {
                    (m, Action::Nothing)
                },
                None => (m, Action::Nothing),
            },
            Event::AgentExited => (Coordinator { pid: None, ..m }, Action::Nothing),
            _ => (m, Action::Nothing),
        },
        Phase::StoppingSwitch { restart } => match e {
            Event::SwitchDone(_) => match m.pid {
                Some(p) => (
                    Coordinator { phase: Phase::StoppingKill { restart }, ..m },
                    Action::Kill(p),
                ),
                None => if restart && m.spec_can_resolve() {
                    (Coordinator { phase: Phase::StartingSpawn, ..m }, Action::Spawn)
                } else {
                    (Coordinator { phase: Phase::Stopped, ..m }, Action::Nothing)
                },
            },
            Event::AgentExited => (Coordinator { pid: None, ..m }, Action::Nothing),
            _ => (m, Action::Nothing),
        },
        Phase::StoppingKill { restart } => match e {
            Event::KillDone(r) => if r == Err::<(), StopError>(StopError::KillFailed)
                && m.pid is Some {
                // The process would not die; give up the transition, but keep
                // the PID recorded so a later start retries the kill first.
                (Coordinator { phase: Phase::Stopped, ..m }, Action::Nothing)
            } else {
                if restart && m.spec_can_resolve() {
                    (
                        Coordinator { phase: Phase::StartingSpawn, pid: None, ..m },
                        Action::Spawn,
                    )
                } else {
                    (Coordinator { phase: Phase::Stopped, pid: None, ..m }, Action::Nothing)
                }
            },
            Event::AgentExited => (Coordinator { pid: None, ..m }, Action::Nothing),
            _ => (m, Action::Nothing),
        },
        Phase::StartingSpawn => match e {
            Event::SpawnDone(r) => match r {
                Ok(p) => (
                    Coordinator {
                        phase: Phase::StartingSwitch { aborted: false },
                        pid: Some(p),
                        ..m
                    },
                    Action::ApplyNetwork(m.bind_kind()),
                ),
                Err(_) => enter_stop(m, false),
            },
            _ => (m, Action::Nothing),
        },
        Phase::StartingSwitch { aborted } => match e {
            Event::SwitchDone(r) => if aborted || r is Err {
                // Unwind: the OS goes back to Direct and the stop sequence
                // reaps whatever was spawned. The flag never came on.
                enter_stop(m, false)
            } else {
                (Coordinator { phase: Phase::Running, active: true, ..m }, Action::Nothing)
            },
            Event::AgentExited => (
                Coordinator { phase: Phase::StartingSwitch { aborted: true }, pid: None, ..m },
                Action::Nothing,
            ),
            _ => (m, Action::Nothing),
        },
        Phase::Rebinding { aborted } => match e {
            Event::SwitchDone(_) => if aborted {
                enter_stop(m, false)
            } else {
                // On failure the agent is untouched and the OS reports which
                // directive failed; the machine stays running.
                (Coordinator { phase: Phase::Running, ..m }, Action::Nothing)
            },
            Event::AgentExited => (
                Coordinator { phase: Phase::Rebinding { aborted: true }, pid: None, ..m },
                Action::Nothing,
            ),
            _ => (m, Action::Nothing),
        },
        Phase::Running => match e {
            Event::RequestStart => enter_stop(m, true),
            Event::RequestStop => enter_stop(m, false),
            Event::SetAccessMode(a) => enter_stop(Coordinator { access_mode: a, ..m }, true),
            Event::SetProtocolMode(p) => enter_stop(
                Coordinator { protocol_mode: p, ..m },
                true,
            ),
            Event::SetBindMode(b) => {
                let updated = Coordinator {
                    bind_mode: b,
                    phase: Phase::Rebinding { aborted: false },
                    ..m
                };
                (updated, Action::ApplyNetwork(updated.bind_kind()))
            },
            Event::DeleteServer(h) => match m.active_server {
                Some(s) => if s.host@ == h@ {
                    enter_stop(Coordinator { active_server: None, ..m }, false)
                } else {
                    (m, Action::Nothing)
                },
                None => (m, Action::Nothing),
            },
            Event::AgentExited => {
                // Unexpected termination: fall back to Direct, never relaunch.
                enter_stop(Coordinator { pid: None, ..m }, false)
            },
            _ => (m, Action::Nothing),
        },
    }
}

pub open spec fn next_state(m: Coordinator, e: Event) -> Coordinator {
    next(m, e).0
}

pub open spec fn next_action(m: Coordinator, e: Event) -> Action {
    next(m, e).1
}

impl Coordinator {
    /// A freshly created coordinator: stopped, nothing tracked, flag off.
    pub fn new(
        access_mode: AccessMode,
        bind_mode: BindMode,
        protocol_mode: ProtocolMode,
        active_server: Option<ServerInfo>,
        socks_addr: AddrInfo,
        http_addr: AddrInfo,
        proxy_rules_path: String,
        direct_rules_path: String,
        cert_path: String,
    ) -> (r: Self)
        ensures
            r.phase is Stopped,
            r.pid is None,
            !r.active,
            r.access_mode == access_mode,
            r.bind_mode == bind_mode,
            r.protocol_mode == protocol_mode,
            r.active_server == active_server,
            r.socks_addr == socks_addr,
            r.http_addr == http_addr,
            r.proxy_rules_path == proxy_rules_path,
            r.direct_rules_path == direct_rules_path,
            r.cert_path == cert_path,
    {
        Coordinator {
            phase: Phase::Stopped,
            pid: None,
            active: false,
            access_mode,
            bind_mode,
            protocol_mode,
            active_server,
            socks_addr,
            http_addr,
            proxy_rules_path,
            direct_rules_path,
            cert_path,
        }
    }

    /// Performs one transition and returns the action the caller must
    /// perform; its outcome comes back as the next event, under the same
    /// lock, before any other event is admitted.
    pub fn handle(&mut self, e: Event) -> (a: Action)
        ensures
            *final(self) == next_state(*old(self), e),
            a == next_action(*old(self), e),
    {
        match self.phase {
            Phase::Stopped => match e {
                Event::RequestStart => self.enter_start_exec(),
                Event::RequestStop => self.enter_stop_exec(false),
                Event::SetAccessMode(a) => {
                    self.access_mode = a;
                    self.enter_start_exec()
                },
                Event::SetProtocolMode(p) => {
                    self.protocol_mode = p;
                    self.enter_start_exec()
                },
                Event::SetBindMode(b) => {
                    self.bind_mode = b;
                    Action::Nothing
                },
                Event::DeleteServer(h) => {
                    if self.active_host_is(&h) {
                        self.active_server = None;
                    }
                    Action::Nothing
                },
                Event::AgentExited => {
                    self.pid = None;
                    Action::Nothing
                },
                _ => Action::Nothing,
            },
            Phase::StoppingSwitch { restart } => match e {
                Event::SwitchDone(_) => match self.pid {
                    Some(p) => {
                        self.phase = Phase::StoppingKill { restart };
                        Action::Kill(p)
                    },
                    None => {
                        if restart && self.can_resolve() {
                            self.phase = Phase::StartingSpawn;
                            Action::Spawn
                        } else {
                            self.phase = Phase::Stopped;
                            Action::Nothing
                        }
                    },
                },
                Event::AgentExited => {
                    self.pid = None;
                    Action::Nothing
                },
                _ => Action::Nothing,
            },
            Phase::StoppingKill { restart } => match e {
                Event::KillDone(r) => {
                    if matches!(r, Err(StopError::KillFailed)) && self.pid.is_some() {
                        self.phase = Phase::Stopped;
                        Action::Nothing
                    } else {
                        self.pid = None;
                        if restart && self.can_resolve() {
                            self.phase = Phase::StartingSpawn;
                            Action::Spawn
                        } else {
                            self.phase = Phase::Stopped;
                            Action::Nothing
                        }
                    }
                },
                Event::AgentExited => {
                    self.pid = None;
                    Action::Nothing
                },
                _ => Action::Nothing,
            },
            Phase::StartingSpawn => match e {
                Event::SpawnDone(r) => match r {
                    Ok(p) => {
                        self.pid = Some(p);
                        self.phase = Phase::StartingSwitch { aborted: false };
                        Action::ApplyNetwork(self.bind_kind_exec())
                    },
                    Err(_) => self.enter_stop_exec(false),
                },
                _ => Action::Nothing,
            },
            Phase::StartingSwitch { aborted } => match e {
                Event::SwitchDone(r) => {
                    if aborted || r.is_err() {
                        self.enter_stop_exec(false)
                    } else {
                        self.phase = Phase::Running;
                        self.active = true;
                        Action::Nothing
                    }
                },
                Event::AgentExited => {
                    self.phase = Phase::StartingSwitch { aborted: true };
                    self.pid = None;
                    Action::Nothing
                },
                _ => Action::Nothing,
            },
            Phase::Rebinding { aborted } => match e {
                Event::SwitchDone(_) => {
                    if aborted {
                        self.enter_stop_exec(false)
                    } else {
                        self.phase = Phase::Running;
                        Action::Nothing
                    }
                },
                Event::AgentExited => {
                    self.phase = Phase::Rebinding { aborted: true };
                    self.pid = None;
                    Action::Nothing
                },
                _ => Action::Nothing,
            },
            Phase::Running => match e {
                Event::RequestStart => self.enter_stop_exec(true),
                Event::RequestStop => self.enter_stop_exec(false),
                Event::SetAccessMode(a) => {
                    self.access_mode = a;
                    self.enter_stop_exec(true)
                },
                Event::SetProtocolMode(p) => {
                    self.protocol_mode = p;
                    self.enter_stop_exec(true)
                },
                Event::SetBindMode(b) => {
                    self.bind_mode = b;
                    self.phase = Phase::Rebinding { aborted: false };
                    Action::ApplyNetwork(self.bind_kind_exec())
                },
                Event::DeleteServer(h) => {
                    if self.active_host_is(&h) {
                        self.active_server = None;
                        self.enter_stop_exec(false)
                    } else {
                        Action::Nothing
                    }
                },
                Event::AgentExited => {
                    self.pid = None;
                    self.enter_stop_exec(false)
                },
                _ => Action::Nothing,
            },
        }
    }

    fn enter_stop_exec(&mut self, restart: bool) -> (a: Action)
        ensures
            (*final(self), a) == enter_stop(*old(self), restart),
    {
        self.phase = Phase::StoppingSwitch { restart };
        self.active = false;
        Action::ApplyNetwork(TargetKind::Direct)
    }

    fn enter_start_exec(&mut self) -> (a: Action)
        ensures
            (*final(self), a) == enter_start(*old(self)),
    {
        if matches!(self.phase, Phase::Running) || self.pid.is_some() {
            self.enter_stop_exec(true)
        } else if self.can_resolve() {
            self.phase = Phase::StartingSpawn;
            Action::Spawn
        } else {
            self.phase = Phase::Stopped;
            Action::Nothing
        }
    }

    fn active_host_is(&self, host: &String) -> (r: bool)
        ensures
            r == match self.active_server {
                Some(s) => s.host@ == host@,
                None => false,
            },
    {
        match &self.active_server {
            Some(s) => {
                let a: String = s.host.clone();
                a == *host
            },
            None => false,
        }
    }

    /// Whether the current settings resolve to launch arguments.
    pub fn can_resolve(&self) -> (r: bool)
        ensures
            r == self.spec_can_resolve(),
    {
        match &self.active_server {
            Some(s) => matches!(self.protocol_mode, ProtocolMode::Quic) || s.tcp_port.is_some(),
            None => false,
        }
    }

    fn bind_kind_exec(&self) -> (k: TargetKind)
        ensures
            k == self.bind_kind(),
    {
        match self.bind_mode {
            BindMode::Socks => TargetKind::Socks,
            BindMode::Http => TargetKind::Http,
        }
    }

    /// The launch arguments the agent is spawned with: the rule and
    /// certificate paths, the upstream address resolved from the active
    /// profile under the current protocol mode, and the two mode flags.
    /// Resolves exactly when a profile is active and, under TCP, it has a TCP
    /// port.
    pub fn launch_args(&self) -> (r: Option<LaunchArgs>)
        ensures
            r is Some <==> self.spec_can_resolve(),
            match r {
                Some(args) => {
                    &&& args@.proxy_rules_path == self.proxy_rules_path@
                    &&& args@.direct_rules_path == self.direct_rules_path@
                    &&& args@.cert_path == self.cert_path@
                    &&& Some(args@.server_addr) == spec_server_addr(
                        self.active_server.unwrap()@,
                        self.protocol_mode,
                    )
                    &&& args.access_mode == self.access_mode
                    &&& args.protocol_mode == self.protocol_mode
                },
                None => true,
            },
    {
        match &self.active_server {
            Some(s) => match server_addr(s, self.protocol_mode) {
                Some(addr) => Some(
                    LaunchArgs {
                        proxy_rules_path: self.proxy_rules_path.clone(),
                        direct_rules_path: self.direct_rules_path.clone(),
                        cert_path: self.cert_path.clone(),
                        server_addr: addr,
                        access_mode: self.access_mode,
                        protocol_mode: self.protocol_mode,
                    },
                ),
                None => None,
            },
            None => None,
        }
    }

    /// The switch target for an `ApplyNetwork` action: the endpoint of the
    /// requested listener kind, or no proxy at all.
    pub fn target(&self, kind: TargetKind) -> (t: NetTarget)
        ensures
            match kind {
                TargetKind::Direct => t is Direct,
                TargetKind::Socks => t matches NetTarget::Socks(ep) && ep@ == self.socks_addr@,
                TargetKind::Http => t matches NetTarget::Http(ep) && ep@ == self.http_addr@,
            },
    {
        match kind {
            TargetKind::Direct => NetTarget::Direct,
            TargetKind::Socks => NetTarget::Socks(self.socks_addr.clone()),
            TargetKind::Http => NetTarget::Http(self.http_addr.clone()),
        }
    }
}

} // verus!
