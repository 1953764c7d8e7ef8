//! The application's hunt state: which transitions it accepts, what each one
//! changes, when a phase is recorded, and what is saved of a hunt.
use vstd::prelude::*;
use crate::app::states::{
    HuntState, Transition, StateTransition, TransitionArg, TransitionArgView, RequestTransition,
    RequestTransitionView, Phase, Game, Method, transitions_of, opt_arg_view,
};
use crate::fsm::MachineView;
use crate::hunt::{HuntBuild, HuntResult, HuntResultView, hunt_fragments};
use crate::hunt::state_machine::{HuntFSM, InternalHuntState};
use crate::hunt::state_machine_build::{BaseHunt, built_upto, frags_buildable};
use crate::sys::clock_millis;

verus! {

/// The state of the application: the hunt's state, the hunt it runs (once
/// one was started), the encounters of the current phase, the phases so far,
/// and the species of the last non-target shiny.
pub struct AppState {
    pub state: HuntState,
    pub arg: Option<TransitionArg>,
    pub encounters: u64,
    pub phases: Vec<Phase>,
    pub last_phase: u32,
}

/// The abstract value of an [`AppState`].
pub struct AppView {
    pub state: HuntState,
    pub arg: Option<TransitionArgView>,
    pub encounters: u64,
    pub phases: Seq<Phase>,
    pub last_phase: u32,
}

impl View for AppState {
    type V = AppView;

    open spec fn view(&self) -> AppView {
        AppView {
            state: self.state,
            arg: opt_arg_view(self.arg),
            encounters: self.encounters,
            phases: self.phases@,
            last_phase: self.last_phase,
        }
    }
}

impl AppView {
    /// Outside `Idle`, the application knows which hunt it runs.
    pub open spec fn wf(&self) -> bool {
        self.state != HuntState::Idle ==> self.arg is Some
    }
}

/// Why a transition request was refused.
#[derive(Clone, Copy, Debug, PartialEq, Eq, Structural)]
pub enum Refusal {
    /// The current state has no such transition.
    Illegal,
    /// Only the bot itself may request this transition.
    AutomaticOnly,
    /// The request carries an argument where none is wanted, or lacks one.
    UnexpectedArgument,
}

/// What became of a transition request.
#[derive(Clone, Copy, Debug, PartialEq, Eq, Structural)]
pub enum TransitionOutcome {
    /// The transition was made.
    Applied,
    /// The transition would start a hunt that cannot be built; the
    /// application went back to `Idle`.
    HuntNotBuilt,
    /// The request was refused and nothing changed.
    Refused(Refusal),
}

/// The first transition of `ts` that is `t`, if any.
pub open spec fn find_transition(ts: Seq<StateTransition>, t: Transition) -> Option<StateTransition>
    decreases ts.len(),
{
    if ts.len() == 0 {
        None
    } else if ts[0].transition == t {
        Some(ts[0])
    } else {
        find_transition(ts.drop_first(), t)
    }
}

/// Whether the hunt that `arg` names can be built.
pub open spec fn hunt_buildable(arg: TransitionArgView) -> bool {
    match hunt_fragments(BaseHunt { target: arg.species, game: arg.game, method: arg.method }) {
        Some(frs) => frags_buildable(frs),
        None => false,
    }
}

/// Whether moving from `from` to `to` by `t` ends a phase: leaving a found
/// state other than by a false detection (or, from `FoundTarget`, by a
/// failure).
pub open spec fn is_phased(from: HuntState, to: HuntState, t: Transition) -> bool {
    ||| (to != HuntState::FoundNonTarget && from == HuntState::FoundNonTarget && t != Transition::FalseDetect)
    ||| (to != HuntState::FoundTarget && from == HuntState::FoundTarget && t != Transition::Fail
        && t != Transition::FalseDetect)
}

/// The application after a transition request: `stored` is what was saved
/// of the hunt that a `StartHunt` names (its phases and encounters), and
/// `now` the time in ms.
pub open spec fn app_next(
    s: AppView,
    req: RequestTransitionView,
    automatic: bool,
    stored: (Seq<Phase>, u64),
    now: i64,
) -> (AppView, TransitionOutcome) {
    match find_transition(transitions_of(s.state), req.transition) {
        None => (s, TransitionOutcome::Refused(Refusal::Illegal)),
        Some(tr) => {
            if (req.arg is Some) == tr.needs_arg && (automatic || !tr.automatic) {
                let s1 = AppView { state: tr.next_state, ..s };
                let s2 = if tr.needs_arg {
                    if tr.next_state == HuntState::FoundNonTarget {
                        AppView { last_phase: req.arg->0.species, ..s1 }
                    } else {
                        AppView { arg: req.arg, phases: stored.0, encounters: stored.1, ..s1 }
                    }
                } else {
                    s1
                };
                if s2.state == HuntState::Hunt && s.state != HuntState::Hunt && !hunt_buildable(s2.arg->0) {
                    (AppView { state: HuntState::Idle, ..s2 }, TransitionOutcome::HuntNotBuilt)
                } else if is_phased(s.state, s2.state, req.transition) {
                    let phase = Phase {
                        species: s2.last_phase,
                        encounters: s2.encounters,
                        caught: req.transition == Transition::Caught,
                        date: now,
                    };
                    (AppView { phases: s2.phases.push(phase), encounters: 0, ..s2 }, TransitionOutcome::Applied)
                } else {
                    (s2, TransitionOutcome::Applied)
                }
            } else if !automatic && tr.automatic {
                (s, TransitionOutcome::Refused(Refusal::AutomaticOnly))
            } else {
                (s, TransitionOutcome::Refused(Refusal::UnexpectedArgument))
            }
        },
    }
}

/// The time as the hunts count it: milliseconds, zero before the epoch.
pub open spec fn hunt_clock(now: i64) -> u64 {
    if now < 0 { 0 } else { now as u64 }
}

/// The hunt the application runs after a transition request, given the one
/// it ran before: a freshly built hunt when a hunt starts, none once the
/// application is idle, else the same.
pub open spec fn hunt_after(s: AppView, req: RequestTransitionView, automatic: bool, stored: (Seq<Phase>, u64),
    now: i64, heartbeat: bool, before: Option<HuntFSM>, after: Option<HuntFSM>) -> bool
{
    let (s2, outcome) = app_next(s, req, automatic, stored, now);
    if outcome == TransitionOutcome::Applied && s2.state == HuntState::Hunt && s.state != HuntState::Hunt {
        let a = s2.arg->0;
        let frs = hunt_fragments(BaseHunt { target: a.species, game: a.game, method: a.method })->0;
        after matches Some(h) && h.wf() && h.machine() == (MachineView {
            states: built_upto(frs, frs.len() as int),
            current: 0,
            time: hunt_clock(now),
            delay: None,
            internal: InternalHuntState::new_spec(heartbeat, hunt_clock(now)),
        })
    } else if outcome == TransitionOutcome::Applied && s2.state == HuntState::Idle {
        after is None
    } else {
        after == before
    }
}

/// The application after a hunt step that reported `r`, before the
/// transition it asks for: one more encounter where the step counted one.
pub open spec fn counted(s: AppView, r: HuntResultView) -> AppView {
    if r.incr_encounters {
        AppView { encounters: (s.encounters + 1) as u64, ..s }
    } else {
        s
    }
}

/// The application after a hunt step reported `r` at time `now` (ms), and
/// what became of the transition the step asked for: the encounter is
/// counted, then the transition is requested automatically. A hunt's
/// request names no saved hunt, so it carries no saved count.
pub open spec fn after_hunt_result(s: AppView, r: HuntResultView, now: i64) -> (AppView, Option<TransitionOutcome>) {
    match r.transition {
        Some(req) => {
            let (s2, o) = app_next(counted(s, r), req, true, (Seq::empty(), 0), now);
            (s2, Some(o))
        },
        None => (counted(s, r), None),
    }
}

fn find_in(ts: &Vec<StateTransition>, t: Transition) -> (r: Option<StateTransition>)
    ensures
        r == find_transition(ts@, t),
{
    let mut i: usize = 0;
    assert(ts@.subrange(0, ts.len() as int) =~= ts@);
    while i < ts.len()
        invariant
            i <= ts.len(),
            find_transition(ts@, t) == find_transition(ts@.subrange(i as int, ts.len() as int), t),
        decreases ts.len() - i,
    {
        let ghost rest = ts@.subrange(i as int, ts.len() as int);
        if ts[i].transition == t {
            return Some(ts[i]);
        }
        assert(rest.drop_first() =~= ts@.subrange(i + 1, ts.len() as int));
        i = i + 1;
    }
    None
}

impl AppState {
    /// An idle application with no hunt.
    pub fn new() -> (r: Self)
        ensures
            r@ == (AppView { state: HuntState::Idle, arg: None, encounters: 0, phases: Seq::empty(), last_phase: 0 }),
            r@.wf(),
    {
        AppState { state: HuntState::Idle, arg: None, encounters: 0, phases: Vec::new(), last_phase: 0 }
    }

    /// Handles a transition request at time `now` (ms): `automatic` tells
    /// whether the bot itself made it, `stored` is what was saved of the
    /// hunt that a `StartHunt` names, and `heartbeat` is given to a hunt that
    /// starts.
    pub fn do_transition_at(
        &mut self,
        req: RequestTransition,
        hunt: &mut Option<HuntFSM>,
        automatic: bool,
        stored: (Vec<Phase>, u64),
        heartbeat: bool,
        now: i64,
    ) -> (r: TransitionOutcome)
        requires
            old(self)@.wf(),
        ensures
            final(self)@.wf(),
            (final(self)@, r) == app_next(old(self)@, req@, automatic, (stored.0@, stored.1), now),
            hunt_after(old(self)@, req@, automatic, (stored.0@, stored.1), now, heartbeat, *old(hunt), *final(hunt)),
    {
        let ghost s0 = self@;
        let ghost rv = req@;
        let ghost sv = (stored.0@, stored.1);
        proof {
            reveal_with_fuel(find_transition, 4);
        }
        let possible = self.state.possible_transitions();
        let tr = match find_in(&possible, req.transition) {
            Some(tr) => tr,
            None => return TransitionOutcome::Refused(Refusal::Illegal),
        };
        let RequestTransition { transition, arg } = req;
        if arg.is_some() == tr.needs_arg && (automatic || !tr.automatic) {
            let prev = self.state;
            self.state = tr.next_state;
            if tr.needs_arg {
                match arg {
                    Some(a) => {
                        if tr.next_state == HuntState::FoundNonTarget {
                            self.last_phase = a.species;
                        } else {
                            self.arg = Some(a);
                            let (phases, encounters) = stored;
                            self.phases = phases;
                            self.encounters = encounters;
                        }
                    },
                    None => {},
                }
            }
            if self.state == HuntState::Hunt && prev != HuntState::Hunt {
                let (target, game, method) = match &self.arg {
                    Some(a) => (a.species, a.game, a.method),
                    None => (0, Game::NoGame, Method::RandomEncounter),
                };
                assert(self@.arg matches Some(a) && a.species == target && a.game == game && a.method == method);
                let clock: u64 = if now < 0 { 0 } else { now as u64 };
                match HuntBuild::build_fsm(target, game, method, heartbeat, clock) {
                    Some(h) => { *hunt = Some(h); },
                    None => {
                        self.state = HuntState::Idle;
                        return TransitionOutcome::HuntNotBuilt;
                    },
                }
            }
            let phased = (self.state != HuntState::FoundNonTarget && prev == HuntState::FoundNonTarget
                && transition != Transition::FalseDetect) || (self.state != HuntState::FoundTarget && prev
                == HuntState::FoundTarget && transition != Transition::Fail && transition != Transition::FalseDetect);
            if phased {
                let phase = Phase {
                    species: self.last_phase,
                    encounters: self.encounters,
                    caught: transition == Transition::Caught,
                    date: now,
                };
                self.phases.push(phase);
                self.encounters = 0;
            }
            if self.state == HuntState::Idle {
                match hunt {
                    Some(h) => h.cleanup(),
                    None => {},
                }
                *hunt = None;
            }
            TransitionOutcome::Applied
        } else if !automatic && tr.automatic {
            TransitionOutcome::Refused(Refusal::AutomaticOnly)
        } else {
            TransitionOutcome::Refused(Refusal::UnexpectedArgument)
        }
    }
}

impl AppState {
    /// Takes in what a hunt step reported at time `now` (ms): counts the
    /// encounter where the step counted one, then makes the transition the
    /// step asked for as an automatic request; `heartbeat` is given to a
    /// hunt that starts. Returns what became of the transition, if one was
    /// asked for.
    pub fn apply_hunt_result(&mut self, r: HuntResult, hunt: &mut Option<HuntFSM>, heartbeat: bool, now: i64)
        -> (o: Option<TransitionOutcome>)
        requires
            old(self)@.wf(),
            r.incr_encounters ==> old(self).encounters < u64::MAX,
        ensures
            final(self)@.wf(),
            (final(self)@, o) == after_hunt_result(old(self)@, r@, now),
            match r@.transition {
                Some(req) => hunt_after(counted(old(self)@, r@), req, true, (Seq::empty(), 0), now, heartbeat,
                    *old(hunt), *final(hunt)),
                None => *final(hunt) == *old(hunt),
            },
    {
        let HuntResult { transition, incr_encounters } = r;
        if incr_encounters {
            self.count_encounter();
        }
        match transition {
            Some(req) => {
                let none: Vec<Phase> = Vec::new();
                assert(none@ =~= Seq::<Phase>::empty());
                let o = self.do_transition_at(req, hunt, true, (none, 0), heartbeat, now);
                Some(o)
            },
            None => None,
        }
    }

    /// Handles a transition request now: reads the clock and does what
    /// [`Self::do_transition_at`] does at that time.
    pub fn do_transition(
        &mut self,
        req: RequestTransition,
        hunt: &mut Option<HuntFSM>,
        automatic: bool,
        stored: (Vec<Phase>, u64),
        heartbeat: bool,
    ) -> (r: TransitionOutcome)
        requires
            old(self)@.wf(),
        ensures
            final(self)@.wf(),
            exists|now: i64| {
                &&& #[trigger] app_next(old(self)@, req@, automatic, (stored.0@, stored.1), now) == (final(self)@, r)
                &&& hunt_after(old(self)@, req@, automatic, (stored.0@, stored.1), now, heartbeat, *old(hunt), *final(hunt))
            },
    {
        let now = clock_millis();
        self.do_transition_at(req, hunt, automatic, stored, heartbeat, now)
    }

    /// Counts one more encounter in the current phase.
    pub fn count_encounter(&mut self)
        requires
            old(self).encounters < u64::MAX,
        ensures
            final(self)@ == (AppView { encounters: (old(self).encounters + 1) as u64, ..old(self)@ }),
    {
        self.encounters = self.encounters + 1;
    }

    /// What is saved of the running hunt at time `now`; nothing when idle.
    pub fn hunt_information(&self, now: i64) -> (r: Option<HuntInformation>)
        requires
            self@.wf(),
        ensures
            match r {
                None => self.state == HuntState::Idle,
                Some(info) => self.state != HuntState::Idle && info@ == (HuntInformationView {
                    name: self@.arg->0.name,
                    species: self@.arg->0.species,
                    game: self@.arg->0.game,
                    method: self@.arg->0.method,
                    encounters: self.encounters,
                    phases: self.phases@,
                    complete: self.state == HuntState::FoundTarget,
                    date: if self.state == HuntState::FoundTarget { Some(now) } else { None },
                }),
            },
    {
        if self.state == HuntState::Idle {
            return None;
        }
        match &self.arg {
            Some(a) => {
                let complete = self.state == HuntState::FoundTarget;
                let phases = self.phases.clone();
                assert(phases@ =~= self.phases@);
                Some(HuntInformation {
                    name: a.name.clone(),
                    species: a.species,
                    game: a.game,
                    method: a.method,
                    encounters: self.encounters,
                    phases,
                    complete,
                    date: if complete { Some(now) } else { None },
                })
            },
            None => None,
        }
    }
}

/// What is saved of a hunt: what it seeks, its encounters and phases so
/// far, whether the target was found, and when (ms since the epoch).
pub struct HuntInformation {
    pub name: String,
    pub species: u32,
    pub game: Game,
    pub method: Method,
    pub encounters: u64,
    pub phases: Vec<Phase>,
    pub complete: bool,
    pub date: Option<i64>,
}

/// The abstract value of a [`HuntInformation`].
pub struct HuntInformationView {
    pub name: Seq<char>,
    pub species: u32,
    pub game: Game,
    pub method: Method,
    pub encounters: u64,
    pub phases: Seq<Phase>,
    pub complete: bool,
    pub date: Option<i64>,
}

impl View for HuntInformation {
    type V = HuntInformationView;

    open spec fn view(&self) -> HuntInformationView {
        HuntInformationView {
            name: self.name@,
            species: self.species,
            game: self.game,
            method: self.method,
            encounters: self.encounters,
            phases: self.phases@,
            complete: self.complete,
            date: self.date,
        }
    }
}

proof fn lemma_found_in(ts: Seq<StateTransition>, t: Transition)
    ensures
        find_transition(ts, t) matches Some(tr) ==> exists|i: int| 0 <= i < ts.len() && ts[i] == tr && tr.transition == t,
        find_transition(ts, t) is None ==> forall|i: int| 0 <= i < ts.len() ==> ts[i].transition != t,
    decreases ts.len(),
{
    if ts.len() > 0 {
        lemma_found_in(ts.drop_first(), t);
        if find_transition(ts, t) is Some && ts[0].transition != t {
            let i = choose|i: int| 0 <= i < ts.drop_first().len() && ts.drop_first()[i] == find_transition(ts, t)->0;
            assert(ts[i + 1] == ts.drop_first()[i]);
        }
        if find_transition(ts, t) is None {
            assert forall|i: int| 0 <= i < ts.len() implies ts[i].transition != t by {
                if i > 0 {
                    assert(ts[i] == ts.drop_first()[i - 1]);
                }
            }
        }
    }
}

/// A refused request changes nothing.
pub proof fn law_refusal_changes_nothing(s: AppView, req: RequestTransitionView, automatic: bool, stored: (Seq<Phase>, u64), now: i64)
    ensures
        app_next(s, req, automatic, stored, now).1 is Refused ==> app_next(s, req, automatic, stored, now).0 == s,
{
}

/// A request for a transition that the current state does not offer is
/// refused as illegal.
pub proof fn law_unoffered_is_illegal(s: AppView, req: RequestTransitionView, automatic: bool, stored: (Seq<Phase>, u64), now: i64)
    requires
        forall|i: int| 0 <= i < transitions_of(s.state).len() ==> transitions_of(s.state)[i].transition != req.transition,
    ensures
        app_next(s, req, automatic, stored, now) == (s, TransitionOutcome::Refused(Refusal::Illegal)),
{
    lemma_found_in(transitions_of(s.state), req.transition);
}

/// A transition that is made is one the state offers, and leads where that
/// transition says (or to `Idle`, when the hunt it starts cannot be built).
pub proof fn law_made_transitions_follow_the_table(s: AppView, req: RequestTransitionView, automatic: bool,
    stored: (Seq<Phase>, u64), now: i64)
    ensures
        app_next(s, req, automatic, stored, now).1 == TransitionOutcome::Applied ==> exists|i: int|
            0 <= i < transitions_of(s.state).len() && #[trigger] transitions_of(s.state)[i].transition == req.transition
                && app_next(s, req, automatic, stored, now).0.state == transitions_of(s.state)[i].next_state,
        app_next(s, req, automatic, stored, now).1 == TransitionOutcome::HuntNotBuilt
            ==> app_next(s, req, automatic, stored, now).0.state == HuntState::Idle,
{
    lemma_found_in(transitions_of(s.state), req.transition);
}

/// What the bot reports, finding a shiny, cannot be requested by hand.
pub proof fn law_reports_are_automatic(s: AppView, req: RequestTransitionView, stored: (Seq<Phase>, u64), now: i64)
    requires
        req.transition == Transition::FoundTarget || req.transition == Transition::FoundNonTarget,
    ensures
        app_next(s, req, false, stored, now).1 is Refused,
        app_next(s, req, false, stored, now).0 == s,
{
    reveal_with_fuel(find_transition, 4);
}

/// Outside `Idle` the application always knows which hunt it runs.
pub proof fn law_hunt_known_outside_idle(s: AppView, req: RequestTransitionView, automatic: bool,
    stored: (Seq<Phase>, u64), now: i64)
    requires
        s.wf(),
    ensures
        app_next(s, req, automatic, stored, now).0.wf(),
{
    reveal_with_fuel(find_transition, 4);
}

/// Leaving a found state other than by a false detection ends a phase: its
/// encounters are recorded with the species last found and the count
/// starts again from zero.
pub proof fn law_phase_records_the_count(s: AppView, req: RequestTransitionView, automatic: bool,
    stored: (Seq<Phase>, u64), now: i64)
    requires
        app_next(s, req, automatic, stored, now).1 == TransitionOutcome::Applied,
        is_phased(s.state, app_next(s, req, automatic, stored, now).0.state, req.transition),
    ensures
        app_next(s, req, automatic, stored, now).0.encounters == 0,
        app_next(s, req, automatic, stored, now).0.phases == s.phases.push(Phase {
            species: s.last_phase,
            encounters: s.encounters,
            caught: req.transition == Transition::Caught,
            date: now,
        }),
{
    reveal_with_fuel(find_transition, 4);
}

/// A false detection sends a found state back to hunting, with the hunt
/// rebuilt, and changes nothing else.
pub proof fn law_false_detect_resumes(s: AppView, req: RequestTransitionView, automatic: bool,
    stored: (Seq<Phase>, u64), now: i64)
    requires
        s.wf(),
        s.state == HuntState::FoundTarget || s.state == HuntState::FoundNonTarget,
        hunt_buildable(s.arg->0),
        req.transition == Transition::FalseDetect,
        req.arg is None,
    ensures
        app_next(s, req, automatic, stored, now) == (AppView { state: HuntState::Hunt, ..s }, TransitionOutcome::Applied),
{
    reveal_with_fuel(find_transition, 4);
}

/// A failed catch of a shiny sends the application back to hunting, from
/// either found state, with the hunt rebuilt: after the target it keeps
/// the count and records no phase; after a non-target it records the
/// phase (not caught, with the species last found) and starts the count
/// again.
pub proof fn law_fail_resumes_the_hunt(s: AppView, req: RequestTransitionView, automatic: bool,
    stored: (Seq<Phase>, u64), now: i64)
    requires
        s.wf(),
        s.state == HuntState::FoundTarget || s.state == HuntState::FoundNonTarget,
        hunt_buildable(s.arg->0),
        req.transition == Transition::Fail,
        req.arg is None,
    ensures
        find_transition(transitions_of(s.state), Transition::Fail) matches Some(tr)
            && tr.next_state == HuntState::Hunt && !tr.automatic && !tr.needs_arg,
        app_next(s, req, automatic, stored, now).1 == TransitionOutcome::Applied,
        app_next(s, req, automatic, stored, now).0.state == HuntState::Hunt,
        app_next(s, req, automatic, stored, now).0.arg == s.arg,
        s.state == HuntState::FoundTarget ==> app_next(s, req, automatic, stored, now).0
            == (AppView { state: HuntState::Hunt, ..s }),
        s.state == HuntState::FoundNonTarget ==> app_next(s, req, automatic, stored, now).0
            == (AppView {
                state: HuntState::Hunt,
                phases: s.phases.push(Phase { species: s.last_phase, encounters: s.encounters, caught: false, date: now }),
                encounters: 0,
                ..s
            }),
{
    reveal_with_fuel(find_transition, 4);
}

/// Catching a shiny: the target ends the hunt (the application goes idle
/// and records the phase as caught); a non-target records the phase as
/// caught and the hunt goes on.
pub proof fn law_caught_ends_only_the_target_hunt(s: AppView, req: RequestTransitionView, automatic: bool,
    stored: (Seq<Phase>, u64), now: i64)
    requires
        s.wf(),
        s.state == HuntState::FoundTarget || s.state == HuntState::FoundNonTarget,
        hunt_buildable(s.arg->0),
        req.transition == Transition::Caught,
        req.arg is None,
    ensures
        app_next(s, req, automatic, stored, now).1 == TransitionOutcome::Applied,
        app_next(s, req, automatic, stored, now).0.state
            == if s.state == HuntState::FoundTarget { HuntState::Idle } else { HuntState::Hunt },
        app_next(s, req, automatic, stored, now).0.phases
            == s.phases.push(Phase { species: s.last_phase, encounters: s.encounters, caught: true, date: now }),
        app_next(s, req, automatic, stored, now).0.encounters == 0,
{
    reveal_with_fuel(find_transition, 4);
}

/// Pausing a hunt makes the application idle and drops the hunt.
pub proof fn law_pause_drops_the_hunt(s: AppView, req: RequestTransitionView, automatic: bool,
    stored: (Seq<Phase>, u64), now: i64, heartbeat: bool, before: Option<HuntFSM>, after: Option<HuntFSM>)
    requires
        s.state == HuntState::Hunt,
        req.transition == Transition::PauseHunt,
        req.arg is None,
        hunt_after(s, req, automatic, stored, now, heartbeat, before, after),
    ensures
        app_next(s, req, automatic, stored, now) == (AppView { state: HuntState::Idle, ..s }, TransitionOutcome::Applied),
        after is None,
{
    reveal_with_fuel(find_transition, 4);
}

} // verus!
