//! The conditions under which a hunt state moves on, and what they report.
//!
//! Each state of a hunt holds a list of checks, each with the state it leads
//! to. A check reads the results of the frame processing and the shared
//! memory of the hunt, may change that memory, and either holds (with a
//! result to report) or does not.
use vstd::prelude::*;
use crate::app::states::{Game, Method, RequestTransition, RequestTransitionView, Transition,
    TransitionArg, TransitionArgView};
use crate::hunt::{HuntResult, HuntResultView, no_result};
use crate::hunt::state_machine::InternalHuntState;
use crate::vision::{Processing, ProcessingResult, ProcessingResultView, ProcessingView, results_view,
    ColourChannel, ColourChannelDetectSettings};

verus! {

/// How a sprite check decides that the encounter is shiny.
#[derive(Clone, Copy, Debug, PartialEq, Eq, Structural)]
pub struct ShinyDetect {
    /// The sprite is matched on a 3DS screen.
    pub three_ds: bool,
    /// The shiny star of the summary screen also counts.
    pub with_star: bool,
    /// A measured encounter duration (ms) above which the encounter counts as
    /// shiny; zero when the duration is not used.
    pub threshold: u64,
    pub uses_threshold: bool,
    pub target: u32,
    pub game: Game,
    pub method: Method,
}

/// One condition of a hunt state.
#[derive(Debug)]
pub enum Check {
    /// Always holds and reports nothing.
    Always,
    /// Always holds and reports that the target was found.
    FoundTarget,
    /// Always holds and reports one more encounter.
    IncrEncounter,
    /// Always holds; sets the counter.
    SetCounter(usize),
    /// Always holds; starts the timer.
    StartTimer,
    /// Always holds; stores the time since the timer started.
    UpdateTimer,
    /// Holds when more than the given time has passed since the timer started.
    ElapsedOver(u64),
    /// Holds when no more than the given time has passed since the timer started.
    ElapsedNotOver(u64),
    /// Holds when the stored duration is above the given time.
    LastOver(u64),
    /// Holds when the stored duration is not above the given time.
    LastNotOver(u64),
    CounterEq(usize),
    CounterNe(usize),
    /// Always holds; decrements the counter (wrapping).
    DecrCounter,
    /// Always holds; increments the counter (wrapping).
    IncrCounter,
    ToggleSet,
    ToggleClear,
    /// Always holds; flips the toggle.
    Toggle,
    /// Always holds; allows heartbeats.
    SetHeartbeat,
    /// Always holds; stops heartbeats.
    ClearHeartbeat,
    /// Holds when a result of this processing was met; may then start the
    /// timer or store the time since it started.
    ProcessMet(Processing, bool, bool),
    /// Holds when no result of this processing was met.
    ProcessNotMet(Processing),
    /// Holds when the sprite check finds a shiny; reports what was found.
    ShinyFound(ShinyDetect),
    /// Holds when the sprite check finds no shiny; reports one more encounter.
    ShinyNotFound(ShinyDetect),
}

/// The abstract value of a [`Check`].
pub enum CheckView {
    Always,
    FoundTarget,
    IncrEncounter,
    SetCounter(usize),
    StartTimer,
    UpdateTimer,
    ElapsedOver(u64),
    ElapsedNotOver(u64),
    LastOver(u64),
    LastNotOver(u64),
    CounterEq(usize),
    CounterNe(usize),
    DecrCounter,
    IncrCounter,
    ToggleSet,
    ToggleClear,
    Toggle,
    SetHeartbeat,
    ClearHeartbeat,
    ProcessMet(ProcessingView, bool, bool),
    ProcessNotMet(ProcessingView),
    ShinyFound(ShinyDetect),
    ShinyNotFound(ShinyDetect),
}

impl View for Check {
    type V = CheckView;

    open spec fn view(&self) -> CheckView {
        match self {
            Check::Always => CheckView::Always,
            Check::FoundTarget => CheckView::FoundTarget,
            Check::IncrEncounter => CheckView::IncrEncounter,
            Check::SetCounter(v) => CheckView::SetCounter(*v),
            Check::StartTimer => CheckView::StartTimer,
            Check::UpdateTimer => CheckView::UpdateTimer,
            Check::ElapsedOver(d) => CheckView::ElapsedOver(*d),
            Check::ElapsedNotOver(d) => CheckView::ElapsedNotOver(*d),
            Check::LastOver(d) => CheckView::LastOver(*d),
            Check::LastNotOver(d) => CheckView::LastNotOver(*d),
            Check::CounterEq(v) => CheckView::CounterEq(*v),
            Check::CounterNe(v) => CheckView::CounterNe(*v),
            Check::DecrCounter => CheckView::DecrCounter,
            Check::IncrCounter => CheckView::IncrCounter,
            Check::ToggleSet => CheckView::ToggleSet,
            Check::ToggleClear => CheckView::ToggleClear,
            Check::Toggle => CheckView::Toggle,
            Check::SetHeartbeat => CheckView::SetHeartbeat,
            Check::ClearHeartbeat => CheckView::ClearHeartbeat,
            Check::ProcessMet(p, s, e) => CheckView::ProcessMet(p@, *s, *e),
            Check::ProcessNotMet(p) => CheckView::ProcessNotMet(p@),
            Check::ShinyFound(d) => CheckView::ShinyFound(*d),
            Check::ShinyNotFound(d) => CheckView::ShinyNotFound(*d),
        }
    }
}

impl Check {
    /// A copy of the check.
    pub fn duplicate(&self) -> (r: Self)
        ensures
            r@ == self@,
    {
        match self {
            Check::Always => Check::Always,
            Check::FoundTarget => Check::FoundTarget,
            Check::IncrEncounter => Check::IncrEncounter,
            Check::SetCounter(v) => Check::SetCounter(*v),
            Check::StartTimer => Check::StartTimer,
            Check::UpdateTimer => Check::UpdateTimer,
            Check::ElapsedOver(d) => Check::ElapsedOver(*d),
            Check::ElapsedNotOver(d) => Check::ElapsedNotOver(*d),
            Check::LastOver(d) => Check::LastOver(*d),
            Check::LastNotOver(d) => Check::LastNotOver(*d),
            Check::CounterEq(v) => Check::CounterEq(*v),
            Check::CounterNe(v) => Check::CounterNe(*v),
            Check::DecrCounter => Check::DecrCounter,
            Check::IncrCounter => Check::IncrCounter,
            Check::ToggleSet => Check::ToggleSet,
            Check::ToggleClear => Check::ToggleClear,
            Check::Toggle => Check::Toggle,
            Check::SetHeartbeat => Check::SetHeartbeat,
            Check::ClearHeartbeat => Check::ClearHeartbeat,
            Check::ProcessMet(p, s, e) => Check::ProcessMet(p.duplicate(), *s, *e),
            Check::ProcessNotMet(p) => Check::ProcessNotMet(p.duplicate()),
            Check::ShinyFound(d) => Check::ShinyFound(*d),
            Check::ShinyNotFound(d) => Check::ShinyNotFound(*d),
        }
    }
}

/// The shiny star of the FireRed/LeafGreen summary screen.
pub open spec fn frlg_star_view() -> ProcessingView {
    ProcessingView::ColourChannelDetect(ColourChannelDetectSettings {
        x: 106, y: 52, w: 16, h: 16, col_thresh: 150, num_thresh: 5, invert: true,
        colour: ColourChannel::Blue,
    })
}

/// Whether some result of processing `p` was met.
pub open spec fn any_met(rs: Seq<ProcessingResultView>, p: ProcessingView) -> bool {
    exists|i: int| 0 <= i < rs.len() && rs[i].process == p && #[trigger] rs[i].met
}

/// The index of the first result that satisfies `pred`, if any.
pub open spec fn first_index(rs: Seq<ProcessingResultView>, pred: spec_fn(ProcessingResultView) -> bool) -> Option<int> {
    if exists|i: int| 0 <= i < rs.len() && pred(rs[i]) {
        Some(choose|i: int| 0 <= i < rs.len() && pred(rs[i]) && forall|j: int| 0 <= j < i ==> !pred(rs[j]))
    } else {
        None
    }
}

/// Whether a result comes from a sprite match of the kind `d` asks for.
pub open spec fn is_sprite_result(d: ShinyDetect) -> spec_fn(ProcessingResultView) -> bool {
    |r: ProcessingResultView| if d.three_ds { r.process is Sprite3DS } else { r.process is Sprite }
}

/// Whether a result comes from the shiny-star check.
pub open spec fn is_star_result() -> spec_fn(ProcessingResultView) -> bool {
    |r: ProcessingResultView| r.process == frlg_star_view()
}

/// The verdict of a sprite check: whether the encounter is shiny and which
/// species was seen; `None` when the results lack what the check reads.
pub open spec fn shiny_verdict(d: ShinyDetect, rs: Seq<ProcessingResultView>, mem: InternalHuntState) -> Option<(bool, u32)> {
    match first_index(rs, is_sprite_result(d)) {
        None => None,
        Some(si) => {
            let sprite = rs[si];
            let by_duration = d.uses_threshold && mem.last_duration > d.threshold;
            if d.with_star {
                match first_index(rs, is_star_result()) {
                    None => None,
                    Some(ti) => Some((sprite.shiny || rs[ti].met || by_duration, sprite.species)),
                }
            } else {
                Some((sprite.shiny || by_duration, sprite.species))
            }
        }
    }
}

/// What a sprite check reports when it finds a shiny of `species`.
pub open spec fn found_report(d: ShinyDetect, species: u32) -> HuntResultView {
    if species == d.target {
        HuntResultView {
            transition: Some(RequestTransitionView { transition: Transition::FoundTarget, arg: None }),
            incr_encounters: true,
        }
    } else {
        HuntResultView {
            transition: Some(RequestTransitionView {
                transition: Transition::FoundNonTarget,
                arg: Some(TransitionArgView { name: Seq::empty(), species, game: d.game, method: d.method }),
            }),
            incr_encounters: true,
        }
    }
}

/// A report of one more encounter and nothing else.
pub open spec fn encounter_report() -> HuntResultView {
    HuntResultView { transition: None, incr_encounters: true }
}

/// A report that the target was found.
pub open spec fn target_report() -> HuntResultView {
    HuntResultView {
        transition: Some(RequestTransitionView { transition: Transition::FoundTarget, arg: None }),
        incr_encounters: true,
    }
}

/// The counter decremented, wrapping below zero.
pub open spec fn wrapping_decr(c: usize) -> usize {
    if c == 0 { usize::MAX } else { (c - 1) as usize }
}

/// The counter incremented, wrapping above the maximum.
pub open spec fn wrapping_incr(c: usize) -> usize {
    if c == usize::MAX { 0 } else { (c + 1) as usize }
}

/// What a check does at time `now`: whether it holds, with its report, and
/// the shared memory afterwards.
pub open spec fn check_step(c: CheckView, rs: Seq<ProcessingResultView>, mem: InternalHuntState, now: u64)
    -> (Option<HuntResultView>, InternalHuntState)
{
    let elapsed = now - mem.time;
    match c {
        CheckView::Always => (Some(no_result()), mem),
        CheckView::FoundTarget => (Some(target_report()), mem),
        CheckView::IncrEncounter => (Some(encounter_report()), mem),
        CheckView::SetCounter(v) => (Some(no_result()), InternalHuntState { counter: v, ..mem }),
        CheckView::StartTimer => (Some(no_result()), InternalHuntState { time: now, ..mem }),
        CheckView::UpdateTimer => (Some(no_result()), InternalHuntState { last_duration: elapsed as u64, ..mem }),
        CheckView::ElapsedOver(d) => (if elapsed > d { Some(no_result()) } else { None }, mem),
        CheckView::ElapsedNotOver(d) => (if elapsed > d { None } else { Some(no_result()) }, mem),
        CheckView::LastOver(d) => (if mem.last_duration > d { Some(no_result()) } else { None }, mem),
        CheckView::LastNotOver(d) => (if mem.last_duration > d { None } else { Some(no_result()) }, mem),
        CheckView::CounterEq(v) => (if mem.counter == v { Some(no_result()) } else { None }, mem),
        CheckView::CounterNe(v) => (if mem.counter != v { Some(no_result()) } else { None }, mem),
        CheckView::DecrCounter => (Some(no_result()), InternalHuntState { counter: wrapping_decr(mem.counter), ..mem }),
        CheckView::IncrCounter => (Some(no_result()), InternalHuntState { counter: wrapping_incr(mem.counter), ..mem }),
        CheckView::ToggleSet => (if mem.toggle { Some(no_result()) } else { None }, mem),
        CheckView::ToggleClear => (if mem.toggle { None } else { Some(no_result()) }, mem),
        CheckView::Toggle => (Some(no_result()), InternalHuntState { toggle: !mem.toggle, ..mem }),
        CheckView::SetHeartbeat => (Some(no_result()), InternalHuntState { heartbeat: true, ..mem }),
        CheckView::ClearHeartbeat => (Some(no_result()), InternalHuntState { heartbeat: false, ..mem }),
        CheckView::ProcessMet(p, start, end) => {
            if any_met(rs, p) {
                let mem1 = if start { InternalHuntState { time: now, ..mem } } else { mem };
                let mem2 = if end { InternalHuntState { last_duration: (now - mem1.time) as u64, ..mem1 } } else { mem1 };
                (Some(no_result()), mem2)
            } else {
                (None, mem)
            }
        },
        CheckView::ProcessNotMet(p) => (if any_met(rs, p) { None } else { Some(no_result()) }, mem),
        CheckView::ShinyFound(d) => match shiny_verdict(d, rs, mem) {
            Some((true, species)) => (Some(found_report(d, species)), mem),
            _ => (None, mem),
        },
        CheckView::ShinyNotFound(d) => match shiny_verdict(d, rs, mem) {
            Some((false, _)) => (Some(encounter_report()), mem),
            _ => (None, mem),
        },
    }
}

/// An optional index as an optional integer.
pub open spec fn opt_index(r: Option<usize>) -> Option<int> {
    match r {
        Some(i) => Some(i as int),
        None => None,
    }
}

/// Finds the first result that satisfies the predicate of `d` or, when
/// `star` is set, the first shiny-star result.
fn find_first(rs: &Vec<ProcessingResult>, d: ShinyDetect, star: bool, Ghost(pred): Ghost<spec_fn(ProcessingResultView) -> bool>) -> (r: Option<usize>)
    requires
        pred == (if star { is_star_result() } else { is_sprite_result(d) }),
    ensures
        r matches Some(i) ==> i < rs.len(),
        opt_index(r) == first_index(results_view(rs@), pred),
{
    let ghost v = results_view(rs@);
    let star_p = Processing::FRLG_SHINY_STAR();
    let mut i: usize = 0;
    while i < rs.len()
        invariant
            i <= rs.len(),
            v == results_view(rs@),
            pred == (if star { is_star_result() } else { is_sprite_result(d) }),
            star_p@ == frlg_star_view(),
            forall|j: int| 0 <= j < i ==> !pred(v[j]),
        decreases rs.len() - i,
    {
        let hit = if star {
            rs[i].process.same_as(&star_p)
        } else if d.three_ds {
            rs[i].process.is_sprite_3ds()
        } else {
            rs[i].process.is_sprite()
        };
        assert(hit == pred(v[i as int]));
        if hit {
            assert(exists|k: int| 0 <= k < v.len() && pred(v[k]));
            let ghost c = choose|k: int| 0 <= k < v.len() && pred(v[k]) && forall|j: int| 0 <= j < k ==> !pred(v[j]);
            assert(c == i) by {
                if c < i { assert(!pred(v[c])); }
                if c > i { assert(!pred(v[i as int])); }
            }
            return Some(i);
        }
        i = i + 1;
    }
    None
}

/// Whether some result of processing `p` was met.
fn any_result_met(rs: &Vec<ProcessingResult>, p: &Processing) -> (r: bool)
    ensures
        r == any_met(results_view(rs@), p@),
{
    let ghost v = results_view(rs@);
    let mut i: usize = 0;
    while i < rs.len()
        invariant
            i <= rs.len(),
            v == results_view(rs@),
            forall|j: int| 0 <= j < i ==> !(v[j].process == p@ && v[j].met),
        decreases rs.len() - i,
    {
        if rs[i].met && rs[i].process.same_as(p) {
            assert(v[i as int].process == p@ && v[i as int].met);
            return true;
        }
        i = i + 1;
    }
    false
}

/// The verdict of a sprite check.
fn shiny_verdict_exec(d: ShinyDetect, rs: &Vec<ProcessingResult>, mem: &InternalHuntState) -> (r: Option<(bool, u32)>)
    ensures
        r == shiny_verdict(d, results_view(rs@), *mem),
{
    let ghost v = results_view(rs@);
    let ghost fs = first_index(v, is_sprite_result(d));
    let ghost ft = first_index(v, is_star_result());
    let found = find_first(rs, d, false, Ghost(is_sprite_result(d)));
    match found {
        None => {
            assert(fs is None);
            None
        },
        Some(si) => {
            assert(fs == Some(si as int));
            let by_duration = d.uses_threshold && mem.last_duration > d.threshold;
            let sprite_shiny = rs[si].shiny;
            let species = rs[si].species;
            assert(v[si as int] == rs@[si as int]@);
            if d.with_star {
                let star = find_first(rs, d, true, Ghost(is_star_result()));
                match star {
                    None => {
                        assert(ft is None);
                        None
                    },
                    Some(ti) => {
                        assert(ft == Some(ti as int));
                        assert(v[ti as int] == rs@[ti as int]@);
                        Some((sprite_shiny || rs[ti].met || by_duration, species))
                    },
                }
            } else {
                Some((sprite_shiny || by_duration, species))
            }
        },
    }
}

/// The report of a sprite check that found a shiny of `species`.
fn found_result(d: ShinyDetect, species: u32) -> (r: HuntResult)
    ensures
        r@ == found_report(d, species),
{
    if species == d.target {
        HuntResult {
            transition: Some(RequestTransition { transition: Transition::FoundTarget, arg: None }),
            incr_encounters: true,
        }
    } else {
        let arg = TransitionArg { name: String::new(), species, game: d.game, method: d.method };
        HuntResult {
            transition: Some(RequestTransition { transition: Transition::FoundNonTarget, arg: Some(arg) }),
            incr_encounters: true,
        }
    }
}

/// Runs one check at time `now` on the results of the frame processing.
pub fn run_check(c: &Check, rs: &Vec<ProcessingResult>, mem: &mut InternalHuntState, now: u64) -> (r: Option<HuntResult>)
    requires
        now >= old(mem).time,
    ensures
        (match r { Some(x) => Some(x@), None => None }, *final(mem))
            == check_step(c@, results_view(rs@), *old(mem), now),
        final(mem).time <= now,
{
    let ghost v = results_view(rs@);
    match c {
        Check::Always => Some(HuntResult::default()),
        Check::FoundTarget => Some(HuntResult {
            transition: Some(RequestTransition { transition: Transition::FoundTarget, arg: None }),
            incr_encounters: true,
        }),
        Check::IncrEncounter => Some(HuntResult { transition: None, incr_encounters: true }),
        Check::SetCounter(value) => {
            mem.counter = *value;
            Some(HuntResult::default())
        },
        Check::StartTimer => {
            mem.time = now;
            Some(HuntResult::default())
        },
        Check::UpdateTimer => {
            mem.last_duration = now - mem.time;
            Some(HuntResult::default())
        },
        Check::ElapsedOver(d) => if now - mem.time > *d { Some(HuntResult::default()) } else { None },
        Check::ElapsedNotOver(d) => if now - mem.time > *d { None } else { Some(HuntResult::default()) },
        Check::LastOver(d) => if mem.last_duration > *d { Some(HuntResult::default()) } else { None },
        Check::LastNotOver(d) => if mem.last_duration > *d { None } else { Some(HuntResult::default()) },
        Check::CounterEq(value) => if mem.counter == *value { Some(HuntResult::default()) } else { None },
        Check::CounterNe(value) => if mem.counter != *value { Some(HuntResult::default()) } else { None },
        Check::DecrCounter => {
            mem.counter = if mem.counter == 0 { usize::MAX } else { mem.counter - 1 };
            Some(HuntResult::default())
        },
        Check::IncrCounter => {
            mem.counter = if mem.counter == usize::MAX { 0 } else { mem.counter + 1 };
            Some(HuntResult::default())
        },
        Check::ToggleSet => if mem.toggle { Some(HuntResult::default()) } else { None },
        Check::ToggleClear => if mem.toggle { None } else { Some(HuntResult::default()) },
        Check::Toggle => {
            mem.toggle = !mem.toggle;
            Some(HuntResult::default())
        },
        Check::SetHeartbeat => {
            mem.heartbeat = true;
            Some(HuntResult::default())
        },
        Check::ClearHeartbeat => {
            mem.heartbeat = false;
            Some(HuntResult::default())
        },
        Check::ProcessMet(p, start, end) => {
            if any_result_met(rs, p) {
                if *start {
                    mem.time = now;
                }
                if *end {
                    mem.last_duration = now - mem.time;
                }
                Some(HuntResult::default())
            } else {
                None
            }
        },
        Check::ProcessNotMet(p) => if any_result_met(rs, p) { None } else { Some(HuntResult::default()) },
        Check::ShinyFound(d) => match shiny_verdict_exec(*d, rs, mem) {
            Some((true, species)) => Some(found_result(*d, species)),
            _ => None,
        },
        Check::ShinyNotFound(d) => match shiny_verdict_exec(*d, rs, mem) {
            Some((false, _)) => Some(HuntResult { transition: None, incr_encounters: true }),
            _ => None,
        },
    }
}

/// A sprite check that finds a shiny counts the encounter and reports a find:
/// the target when the shiny's species is the hunt's target, and otherwise a
/// non-target find that carries the species seen, in the hunt's game and
/// method.
pub proof fn law_shiny_find_names_its_species(d: ShinyDetect, rs: Seq<ProcessingResultView>,
    mem: InternalHuntState, now: u64, species: u32)
    requires
        shiny_verdict(d, rs, mem) == Some((true, species)),
    ensures
        check_step(CheckView::ShinyFound(d), rs, mem, now).0 matches Some(r) && {
            &&& r.incr_encounters
            &&& r.transition matches Some(t) && {
                &&& (t.transition == Transition::FoundTarget) == (species == d.target)
                &&& species == d.target ==> t.arg is None
                &&& species != d.target ==> (t.transition == Transition::FoundNonTarget
                    && (t.arg matches Some(a) && a.species == species && a.game == d.game && a.method == d.method))
            }
        },
        check_step(CheckView::ShinyFound(d), rs, mem, now).1 == mem,
        check_step(CheckView::ShinyNotFound(d), rs, mem, now).0 is None,
{
}

/// A frame whose only result is a shiny sprite of the hunt's own target,
/// for a sprite check that reads no star, is a find of the target.
pub proof fn law_shiny_sprite_of_the_target_is_found(d: ShinyDetect, mem: InternalHuntState, now: u64,
    game: Game, species: Seq<u32>, flipped: bool, met: bool)
    requires
        !d.three_ds,
        !d.with_star,
    ensures
        check_step(CheckView::ShinyFound(d), seq![ProcessingResultView {
            process: ProcessingView::Sprite(game, species, flipped), met, species: d.target, shiny: true,
        }], mem, now).0 == Some(HuntResultView {
            transition: Some(RequestTransitionView { transition: Transition::FoundTarget, arg: None }),
            incr_encounters: true,
        }),
{
    let rs = seq![ProcessingResultView {
        process: ProcessingView::Sprite(game, species, flipped), met, species: d.target, shiny: true,
    }];
    assert(is_sprite_result(d)(rs[0]));
    let i = first_index(rs, is_sprite_result(d))->0;
    assert(i == 0);
    assert(shiny_verdict(d, rs, mem) == Some((true, d.target)));
}

} // verus!
