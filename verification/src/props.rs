//! The guarantees the coordinator gives against its environment. The
//! environment model says which events can occur in which phases — outcome
//! events only while their action is pending, user events only between
//! transitions (the caller's lock serializes them) — and how many live agent
//! processes each event leaves behind. The laws are stated over every event
//! sequence the model admits, with every failure outcome included.

use vstd::prelude::*;

use crate::coordinator::{
    next_action, next_state, Action, Coordinator, Event, Phase, StopError, SwitchError,
    TargetKind,
};
use crate::state::{BindMode, ProtocolMode};

verus! {

/// The OS proxy configuration as the environment holds it: one of the three
/// targets when the last command plan was applied in full, or `Unknown` when
/// a plan failed partway (or nothing is known yet, as at startup).
pub enum OsView {
    Direct,
    Socks,
    Http,
    Unknown,
}

/// What the coordinator cannot see directly: how many agent processes are
/// actually alive, and what proxy configuration the OS is in.
pub struct World {
    pub live: nat,
    pub os: OsView,
}

/// The target a pending `ApplyNetwork` action asked for, read off the phase
/// that awaits its outcome.
pub open spec fn asked_target(m: Coordinator) -> OsView {
    match m.phase {
        Phase::StoppingSwitch { .. } => OsView::Direct,
        Phase::StartingSwitch { .. } | Phase::Rebinding { .. } => match m.bind_mode {
            BindMode::Socks => OsView::Socks,
            BindMode::Http => OsView::Http,
        },
        _ => OsView::Unknown,
    }
}

/// Whether the environment can produce `e` against machine `m` in world `w`:
/// outcome events answer exactly the pending action, a termination notice
/// needs a process to die, and user events arrive only while no transition is
/// in flight.
pub open spec fn event_possible(m: Coordinator, w: World, e: Event) -> bool {
    match e {
        Event::RequestStart
        | Event::RequestStop
        | Event::SetAccessMode(_)
        | Event::SetBindMode(_)
        | Event::SetProtocolMode(_)
        | Event::DeleteServer(_) => m.phase is Stopped || m.phase is Running,
        Event::AgentExited => w.live == 1,
        Event::SwitchDone(_) => m.phase is StoppingSwitch || m.phase is StartingSwitch
            || m.phase is Rebinding,
        Event::SpawnDone(_) => m.phase is StartingSpawn,
        Event::KillDone(r) => m.phase is StoppingKill && (r == Err::<(), StopError>(
            StopError::NotFound,
        ) ==> w.live == 0),
    }
}

/// How the world changes when `e` is delivered: a successful spawn adds a
/// process, a confirmed kill or an observed exit removes one, and a switch
/// outcome places the OS into the asked target or leaves it unknown.
pub open spec fn world_after(m: Coordinator, w: World, e: Event) -> World {
    match e {
        Event::SpawnDone(r) => match r {
            Ok(_) => World { live: w.live + 1, ..w },
            Err(_) => w,
        },
        Event::KillDone(r) => match r {
            Ok(_) => World { live: 0, ..w },
            Err(_) => w,
        },
        Event::AgentExited => World { live: (w.live - 1) as nat, ..w },
        Event::SwitchDone(r) => match r {
            Ok(_) => World { os: asked_target(m), ..w },
            Err(_) => World { os: OsView::Unknown, ..w },
        },
        _ => w,
    }
}

/// The inductive invariant tying the machine to the world: never more than
/// one live process; the flag only while running or rebinding; no live
/// process once nothing is tracked; a spawn only issued with nothing tracked;
/// and a running machine tracking exactly the one live process.
pub open spec fn inv(m: Coordinator, w: World) -> bool {
    &&& w.live <= 1
    &&& (m.active <==> (m.phase is Running || m.phase is Rebinding))
    &&& (m.pid is None ==> w.live == 0)
    &&& (m.phase is StartingSpawn ==> m.pid is None)
    &&& (m.phase is Running ==> m.pid is Some && w.live == 1)
    &&& (match m.phase {
        Phase::StartingSwitch { aborted } => if aborted {
            m.pid is None
        } else {
            m.pid is Some && w.live == 1
        },
        _ => true,
    })
    &&& (match m.phase {
        Phase::Rebinding { aborted } => if aborted {
            m.pid is None
        } else {
            m.pid is Some && w.live == 1
        },
        _ => true,
    })
    &&& ((m.phase is Stopped || m.phase is StoppingKill || m.phase is StartingSpawn) ==> (
    w.os is Direct || w.os is Unknown))
}

/// A freshly created coordinator in a world with no agent process satisfies
/// the invariant.
pub proof fn lemma_inv_init(m: Coordinator, w: World)
    requires
        m.phase is Stopped,
        m.pid is None,
        !m.active,
        w.live == 0,
        w.os is Direct || w.os is Unknown,
    ensures
        inv(m, w),
{
}

/// Every possible event preserves the invariant.
#[verifier::rlimit(50)]
pub proof fn lemma_inv_step(m: Coordinator, w: World, e: Event)
    requires
        inv(m, w),
        event_possible(m, w, e),
    ensures
        inv(next_state(m, e), world_after(m, w, e)),
{
    match e {
        Event::KillDone(r) => match r {
            Ok(_) => assert(inv(next_state(m, e), world_after(m, w, e))),
            Err(StopError::NotFound) => assert(inv(next_state(m, e), world_after(m, w, e))),
            Err(StopError::KillFailed) => assert(inv(next_state(m, e), world_after(m, w, e))),
        },
        _ => {},
    }
}

/// The machine after a whole event sequence.
pub open spec fn run_state(m: Coordinator, events: Seq<Event>) -> Coordinator
    decreases events.len(),
{
    if events.len() == 0 {
        m
    } else {
        run_state(next_state(m, events[0]), events.drop_first())
    }
}

/// The world after a whole event sequence.
pub open spec fn run_world(m: Coordinator, w: World, events: Seq<Event>) -> World
    decreases events.len(),
{
    if events.len() == 0 {
        w
    } else {
        run_world(next_state(m, events[0]), world_after(m, w, events[0]), events.drop_first())
    }
}

/// Whether the environment can produce the whole event sequence in order.
pub open spec fn trace_possible(m: Coordinator, w: World, events: Seq<Event>) -> bool
    decreases events.len(),
{
    events.len() == 0 || (event_possible(m, w, events[0]) && trace_possible(
        next_state(m, events[0]),
        world_after(m, w, events[0]),
        events.drop_first(),
    ))
}

/// Mutual exclusion: under every event sequence the environment can produce —
/// any interleaving of start requests, other user commands, failures and
/// terminations — at most one agent process is ever live, and the final state
/// reflects liveness: a running machine has exactly one live process, and a
/// machine tracking no PID has none.
pub proof fn lemma_mutual_exclusion(m: Coordinator, w: World, events: Seq<Event>)
    requires
        inv(m, w),
        trace_possible(m, w, events),
    ensures
        inv(run_state(m, events), run_world(m, w, events)),
        run_world(m, w, events).live <= 1,
        run_state(m, events).phase is Running ==> run_world(m, w, events).live == 1,
        run_state(m, events).pid is None ==> run_world(m, w, events).live == 0,
    decreases events.len(),
{
    if events.len() > 0 {
        lemma_inv_step(m, w, events[0]);
        lemma_mutual_exclusion(
            next_state(m, events[0]),
            world_after(m, w, events[0]),
            events.drop_first(),
        );
    }
}

/// Whether every switch outcome in the sequence reports success.
pub open spec fn switches_ok(events: Seq<Event>) -> bool
    decreases events.len(),
{
    events.len() == 0 || ({
        let head_ok = match events[0] {
            Event::SwitchDone(r) => r is Ok,
            _ => true,
        };
        head_ok && switches_ok(events.drop_first())
    })
}

/// No dangling proxy: starting from a known OS configuration, and as long as
/// the OS applies every issued switch plan successfully, a machine that ends
/// up stopped always leaves the OS in the Direct configuration — the host is
/// never left proxied while no agent is expected to run. When a switch plan
/// fails partway, the OS state is reported rather than silently trusted.
pub proof fn lemma_no_dangling_proxy(m: Coordinator, w: World, events: Seq<Event>)
    requires
        inv(m, w),
        trace_possible(m, w, events),
        switches_ok(events),
        !(w.os is Unknown),
    ensures
        !(run_world(m, w, events).os is Unknown),
        run_state(m, events).phase is Stopped ==> run_world(m, w, events).os is Direct,
    decreases events.len(),
{
    if events.len() > 0 {
        lemma_inv_step(m, w, events[0]);
        lemma_no_dangling_proxy(
            next_state(m, events[0]),
            world_after(m, w, events[0]),
            events.drop_first(),
        );
    }
}

/// Mutual exclusion from the beginning: a freshly created coordinator in a
/// world with no agent process keeps at most one process live under every
/// event sequence the environment can produce.
pub proof fn lemma_mutual_exclusion_from_init(m: Coordinator, events: Seq<Event>)
    requires
        m.phase is Stopped,
        m.pid is None,
        !m.active,
        trace_possible(m, (World { live: 0, os: OsView::Unknown }), events),
    ensures
        run_world(m, (World { live: 0, os: OsView::Unknown }), events).live <= 1,
        run_state(m, events).phase is Running ==> run_world(
            m,
            (World { live: 0, os: OsView::Unknown }),
            events,
        ).live == 1,
{
    lemma_inv_init(m, World { live: 0, os: OsView::Unknown });
    lemma_mutual_exclusion(m, World { live: 0, os: OsView::Unknown }, events);
}

/// Fail-safe teardown: however the network switch and the kill turn out, a
/// stop request immediately asks the switcher for Direct and drops the active
/// flag, and the flag is still down and the machine stopped when the sequence
/// ends — a stuck process never keeps the host proxied.
pub proof fn lemma_fail_safe_teardown(
    m: Coordinator,
    w: World,
    r1: Result<(), SwitchError>,
    r2: Result<(), StopError>,
)
    requires
        inv(m, w),
        m.phase is Stopped || m.phase is Running,
    ensures
        next_action(m, Event::RequestStop) == Action::ApplyNetwork(TargetKind::Direct),
        !next_state(m, Event::RequestStop).active,
        ({
            let m1 = next_state(m, Event::RequestStop);
            let m2 = next_state(m1, Event::SwitchDone(r1));
            match m1.pid {
                Some(p) => {
                    &&& next_action(m1, Event::SwitchDone(r1)) == Action::Kill(p)
                    &&& next_state(m2, Event::KillDone(r2)).phase is Stopped
                    &&& !next_state(m2, Event::KillDone(r2)).active
                },
                None => m2.phase is Stopped && !m2.active,
            }
        }),
{
}

/// Unwind on partial start failure: when the network switch fails after the
/// agent was spawned, the machine forces the OS back toward Direct, kills
/// exactly the process it just spawned, and ends stopped with the active flag
/// never having come on.
pub proof fn lemma_unwind_on_start_failure(
    m: Coordinator,
    w: World,
    err: SwitchError,
    r1: Result<(), SwitchError>,
)
    requires
        inv(m, w),
        m.phase == (Phase::StartingSwitch { aborted: false }),
    ensures
        next_action(m, Event::SwitchDone(Err(err))) == Action::ApplyNetwork(TargetKind::Direct),
        !next_state(m, Event::SwitchDone(Err(err))).active,
        ({
            let m1 = next_state(m, Event::SwitchDone(Err(err)));
            let m2 = next_state(m1, Event::SwitchDone(r1));
            &&& next_action(m1, Event::SwitchDone(r1)) == Action::Kill(m.pid.unwrap())
            &&& next_state(m2, Event::KillDone(Ok(()))).phase is Stopped
            &&& !next_state(m2, Event::KillDone(Ok(()))).active
            &&& next_state(m2, Event::KillDone(Ok(()))).pid is None
        }),
{
}

/// A protocol switch while running performs exactly one stop-then-start
/// cycle: the old process is killed once, one new process is spawned, the new
/// protocol is already in force when the spawn is issued, and the machine is
/// running again with the new protocol — never a live patch of the old
/// process.
pub proof fn lemma_protocol_switch_restart(
    m: Coordinator,
    w: World,
    p: ProtocolMode,
    new_pid: u32,
)
    requires
        inv(m, w),
        m.phase is Running,
        next_state(m, Event::SetProtocolMode(p)).spec_can_resolve(),
    ensures
        ({
            let m1 = next_state(m, Event::SetProtocolMode(p));
            let m2 = next_state(m1, Event::SwitchDone(Ok(())));
            let m3 = next_state(m2, Event::KillDone(Ok(())));
            let m4 = next_state(m3, Event::SpawnDone(Ok(new_pid)));
            let m5 = next_state(m4, Event::SwitchDone(Ok(())));
            &&& next_action(m, Event::SetProtocolMode(p)) == Action::ApplyNetwork(
                TargetKind::Direct,
            )
            &&& !m1.active
            &&& next_action(m1, Event::SwitchDone(Ok(()))) == Action::Kill(m.pid.unwrap())
            &&& next_action(m2, Event::KillDone(Ok(()))) == Action::Spawn
            &&& m3.protocol_mode == p
            &&& m3.pid is None
            &&& next_action(m3, Event::SpawnDone(Ok(new_pid))) == Action::ApplyNetwork(
                m3.bind_kind(),
            )
            &&& next_action(m4, Event::SwitchDone(Ok(()))) == Action::Nothing
            &&& m5.phase is Running
            &&& m5.active
            &&& m5.pid == Some(new_pid)
            &&& m5.protocol_mode == p
        }),
{
}

} // verus!
