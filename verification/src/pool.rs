use vstd::prelude::*;

verus! {

/// Where a directory pool keeps its volumes.
#[derive(Debug)]
pub struct Target {
    pub path: String,
}

/// A libvirt storage-pool definition.
#[derive(Debug)]
pub struct Pool {
    pub pool_type: String,
    pub name: String,
    pub target: Target,
}

/// The name of the pool that holds the machines' volumes.
pub open spec fn spec_pool_name() -> Seq<char> {
    "cvm"@
}

/// The name of the pool that holds the machines' volumes.
pub fn pool_name() -> (s: String)
    ensures
        s@ == spec_pool_name(),
{
    "cvm".to_string()
}

/// The definition of that pool: a directory pool kept in `/var/lib/cvm`.
pub open spec fn is_pool_definition(p: Pool) -> bool {
    &&& p.pool_type@ == "dir"@
    &&& p.name@ == spec_pool_name()
    &&& p.target.path@ == "/var/lib/cvm"@
}

/// Builds the definition of the pool, for when it does not exist yet.
pub fn pool_definition() -> (p: Pool)
    ensures
        is_pool_definition(p),
{
    Pool {
        pool_type: "dir".to_string(),
        name: pool_name(),
        target: Target { path: "/var/lib/cvm".to_string() },
    }
}

/// Where getting the pool ready stands.
#[derive(Debug, Clone, Copy, PartialEq, Eq)]
pub enum PoolPhase {
    /// The pool is being looked up by name.
    LookingUp,
    /// It did not exist and is being defined.
    Defining,
    /// Whether it starts with the host is being asked.
    CheckingAutostart,
    /// It is being set to start with the host.
    EnablingAutostart,
    /// Whether it is running is being asked.
    CheckingActive,
    /// It is being started.
    Starting,
    /// The pool exists, starts with the host and runs.
    Done,
}

/// What the hypervisor answered to the call of the current phase.
#[derive(Debug, Clone, Copy, PartialEq, Eq)]
pub enum PoolEvent {
    /// Whether a pool of that name was found.
    LookedUp(bool),
    /// The pool was defined.
    Defined,
    /// Whether the pool starts with the host.
    AutostartIs(bool),
    /// The pool was set to start with the host.
    AutostartEnabled,
    /// Whether the pool runs.
    ActiveIs(bool),
    /// The pool was started.
    Started,
}

/// The call that a phase makes.
#[derive(Debug)]
pub enum PoolAction {
    /// Look the pool up by name.
    LookUp,
    /// Define the pool from this definition.
    Define(Pool),
    /// Ask whether the pool starts with the host.
    CheckAutostart,
    /// Set the pool to start with the host.
    EnableAutostart,
    /// Ask whether the pool runs.
    CheckActive,
    /// Start the pool.
    Start,
    /// Nothing more: the pool is ready.
    Ready,
}

/// Whether `event` answers the call of `phase`.
pub open spec fn answers(phase: PoolPhase, event: PoolEvent) -> bool {
    match phase {
        PoolPhase::LookingUp => event is LookedUp,
        PoolPhase::Defining => event is Defined,
        PoolPhase::CheckingAutostart => event is AutostartIs,
        PoolPhase::EnablingAutostart => event is AutostartEnabled,
        PoolPhase::CheckingActive => event is ActiveIs,
        PoolPhase::Starting => event is Started,
        PoolPhase::Done => false,
    }
}

/// The phase that follows `phase` once `event` answers it: a missing pool
/// is defined, one that does not start with the host is set to, one that does
/// not run is started; each check comes after the one before.
pub open spec fn next_phase(phase: PoolPhase, event: PoolEvent) -> PoolPhase {
    match event {
        PoolEvent::LookedUp(found) => if found {
            PoolPhase::CheckingAutostart
        } else {
            PoolPhase::Defining
        },
        PoolEvent::Defined => PoolPhase::CheckingAutostart,
        PoolEvent::AutostartIs(on) => if on {
            PoolPhase::CheckingActive
        } else {
            PoolPhase::EnablingAutostart
        },
        PoolEvent::AutostartEnabled => PoolPhase::CheckingActive,
        PoolEvent::ActiveIs(running) => if running {
            PoolPhase::Done
        } else {
            PoolPhase::Starting
        },
        PoolEvent::Started => PoolPhase::Done,
    }
}

/// Whether `action` is the call that `phase` makes.
pub open spec fn is_action_of(action: PoolAction, phase: PoolPhase) -> bool {
    match phase {
        PoolPhase::LookingUp => action is LookUp,
        PoolPhase::Defining => action matches PoolAction::Define(p) && is_pool_definition(p),
        PoolPhase::CheckingAutostart => action is CheckAutostart,
        PoolPhase::EnablingAutostart => action is EnableAutostart,
        PoolPhase::CheckingActive => action is CheckActive,
        PoolPhase::Starting => action is Start,
        PoolPhase::Done => action is Ready,
    }
}

/// The call that `phase` makes.
pub fn pool_action(phase: &PoolPhase) -> (a: PoolAction)
    ensures
        is_action_of(a, *phase),
{
    match phase {
        PoolPhase::LookingUp => PoolAction::LookUp,
        PoolPhase::Defining => PoolAction::Define(pool_definition()),
        PoolPhase::CheckingAutostart => PoolAction::CheckAutostart,
        PoolPhase::EnablingAutostart => PoolAction::EnableAutostart,
        PoolPhase::CheckingActive => PoolAction::CheckActive,
        PoolPhase::Starting => PoolAction::Start,
        PoolPhase::Done => PoolAction::Ready,
    }
}

/// Takes the answer to the current phase's call and gives the next phase
/// and the call it makes.
pub fn pool_step(phase: PoolPhase, event: PoolEvent) -> (r: (PoolPhase, PoolAction))
    requires
        answers(phase, event),
    ensures
        r.0 == next_phase(phase, event),
        is_action_of(r.1, r.0),
{
    let next = match event {
        PoolEvent::LookedUp(found) => if found {
            PoolPhase::CheckingAutostart
        } else {
            PoolPhase::Defining
        },
        PoolEvent::Defined => PoolPhase::CheckingAutostart,
        PoolEvent::AutostartIs(on) => if on {
            PoolPhase::CheckingActive
        } else {
            PoolPhase::EnablingAutostart
        },
        PoolEvent::AutostartEnabled => PoolPhase::CheckingActive,
        PoolEvent::ActiveIs(running) => if running {
            PoolPhase::Done
        } else {
            PoolPhase::Starting
        },
        PoolEvent::Started => PoolPhase::Done,
    };
    let action = pool_action(&next);
    (next, action)
}

/// The phase reached from `phase` by the answers `events`, if each answers
/// the phase it meets.
pub open spec fn replay(phase: PoolPhase, events: Seq<PoolEvent>) -> Option<PoolPhase>
    decreases events.len(),
{
    if events.len() == 0 {
        Some(phase)
    } else if answers(phase, events[0]) {
        replay(next_phase(phase, events[0]), events.drop_first())
    } else {
        None
    }
}

/// The answers that show the pool starts with the host.
pub open spec fn shows_autostart(e: PoolEvent) -> bool {
    e == PoolEvent::AutostartIs(true) || e == PoolEvent::AutostartEnabled
}

/// The answers that show the pool runs.
pub open spec fn shows_active(e: PoolEvent) -> bool {
    e == PoolEvent::ActiveIs(true) || e == PoolEvent::Started
}

/// Whether a phase comes after the autostart checks.
pub open spec fn past_autostart(phase: PoolPhase) -> bool {
    phase is CheckingActive || phase is Starting || phase is Done
}

/// The pool is ready only once the hypervisor has shown that it starts with
/// the host and that it runs: a run of answers from the lookup that ends
/// ready holds an answer of each kind.
pub proof fn lemma_ready_only_when_autostarted_and_active(events: Seq<PoolEvent>)
    requires
        replay(PoolPhase::LookingUp, events) == Some(PoolPhase::Done),
    ensures
        exists|i: int| 0 <= i < events.len() && shows_autostart(events[i]),
        exists|i: int| 0 <= i < events.len() && shows_active(events[i]),
{
    lemma_replay_witnesses(PoolPhase::LookingUp, events);
}

proof fn lemma_replay_witnesses(phase: PoolPhase, events: Seq<PoolEvent>)
    requires
        replay(phase, events) == Some(PoolPhase::Done),
    ensures
        !past_autostart(phase) ==> exists|i: int|
            0 <= i < events.len() && shows_autostart(events[i]),
        !(phase is Done) ==> exists|i: int| 0 <= i < events.len() && shows_active(events[i]),
    decreases events.len(),
{
    if events.len() > 0 {
        let rest = events.drop_first();
        let next = next_phase(phase, events[0]);
        lemma_replay_witnesses(next, rest);
        if !past_autostart(phase) && !shows_autostart(events[0]) {
            assert(!past_autostart(next));
            let i = choose|i: int| 0 <= i < rest.len() && shows_autostart(rest[i]);
            assert(events[i + 1] == rest[i]);
        }
        if !(phase is Done) && !shows_active(events[0]) {
            assert(!(next is Done));
            let i = choose|i: int| 0 <= i < rest.len() && shows_active(rest[i]);
            assert(events[i + 1] == rest[i]);
        }
    }
}

/// The order of the phases: every answer moves the set-up to a later one.
pub open spec fn phase_rank(p: PoolPhase) -> int {
    match p {
        PoolPhase::LookingUp => 0,
        PoolPhase::Defining => 1,
        PoolPhase::CheckingAutostart => 2,
        PoolPhase::EnablingAutostart => 3,
        PoolPhase::CheckingActive => 4,
        PoolPhase::Starting => 5,
        PoolPhase::Done => 6,
    }
}

/// The phases that the answers `events` lead through from `phase`, one per
/// answer; each phase makes the call `pool_action` gives for it.
pub open spec fn trail(phase: PoolPhase, events: Seq<PoolEvent>) -> Seq<PoolPhase>
    decreases events.len(),
{
    if events.len() == 0 {
        Seq::empty()
    } else {
        let next = next_phase(phase, events[0]);
        seq![next] + trail(next, events.drop_first())
    }
}

proof fn lemma_trail_rises(phase: PoolPhase, events: Seq<PoolEvent>)
    requires
        replay(phase, events) is Some,
    ensures
        trail(phase, events).len() == events.len(),
        forall|i: int|
            0 <= i < events.len() ==> phase_rank(phase) < phase_rank(
                #[trigger] trail(phase, events)[i],
            ),
        forall|i: int, j: int|
            0 <= i < j < events.len() ==> phase_rank(#[trigger] trail(phase, events)[i])
                < phase_rank(#[trigger] trail(phase, events)[j]),
    decreases events.len(),
{
    if events.len() > 0 {
        let next = next_phase(phase, events[0]);
        let rest = events.drop_first();
        lemma_trail_rises(next, rest);
        let t = trail(phase, events);
        assert(t =~= seq![next] + trail(next, rest));
        assert forall|i: int| 0 <= i < events.len() implies phase_rank(phase) < phase_rank(
            #[trigger] t[i],
        ) by {
            if i > 0 {
                assert(t[i] == trail(next, rest)[i - 1]);
            }
        }
        assert forall|i: int, j: int| 0 <= i < j < events.len() implies phase_rank(
            #[trigger] t[i],
        ) < phase_rank(#[trigger] t[j]) by {
            assert(t[j] == trail(next, rest)[j - 1]);
            if i > 0 {
                assert(t[i] == trail(next, rest)[i - 1]);
            }
        }
    }
}

/// Getting the pool ready passes through each phase at most once, so it
/// defines the pool, enables its autostart and starts it at most once each:
/// the phases that a run of answers from the lookup leads through are all
/// different, and none is the lookup again.
pub proof fn lemma_each_call_at_most_once(events: Seq<PoolEvent>)
    requires
        replay(PoolPhase::LookingUp, events) is Some,
    ensures
        forall|i: int, j: int|
            0 <= i < events.len() && 0 <= j < events.len() && i != j ==> #[trigger] trail(
                PoolPhase::LookingUp,
                events,
            )[i] != #[trigger] trail(PoolPhase::LookingUp, events)[j],
        forall|i: int|
            0 <= i < events.len() ==> !(#[trigger] trail(PoolPhase::LookingUp, events)[i] is LookingUp),
{
    lemma_trail_rises(PoolPhase::LookingUp, events);
    let t = trail(PoolPhase::LookingUp, events);
    assert forall|i: int, j: int|
        0 <= i < events.len() && 0 <= j < events.len() && i != j implies #[trigger] t[i]
        != #[trigger] t[j] by {
        if i < j {
            assert(phase_rank(t[i]) < phase_rank(t[j]));
        } else {
            assert(phase_rank(t[j]) < phase_rank(t[i]));
        }
    }
    assert forall|i: int| 0 <= i < events.len() implies !(#[trigger] t[i] is LookingUp) by {
        assert(phase_rank(PoolPhase::LookingUp) < phase_rank(t[i]));
    }
}

/// A pool is defined exactly when the lookup did not find it: from the
/// lookup, the answer `false` leads to defining and `true` skips it.
pub proof fn lemma_define_only_when_missing(found: bool)
    ensures
        (next_phase(PoolPhase::LookingUp, PoolEvent::LookedUp(found)) is Defining) <==> !found,
{
}

} // verus!
