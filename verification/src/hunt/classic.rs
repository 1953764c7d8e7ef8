//! The classic hunts: hand-timed state machines that press buttons, wait, and
//! watch the frame checks until an encounter can be judged. Each hunt is a
//! table of steps run by one interpreter.
use vstd::prelude::*;
use crate::app::states::{Game, Method, Transition, RequestTransition, RequestTransitionView, TransitionArg, TransitionArgView};
use crate::control::{Button, Delay, BotControl, PressRecord};
use crate::hunt::{HuntBuild, HuntResult, HuntResultView};
use crate::sys::{now_millis, random_between};
use crate::vision::{Processing, ProcessingView, ProcessingResult, ProcessingResultView, results_view, processings_view, copy_processings};
use crate::vision::{
    frlg_shiny_star, frlg_start_encounter, frlg_in_encounter, frlg_encounter_ready, bw2_bar_present, bw2_black_screen,
    bw2_white_screen, bw2_bar_negate_confirm, dp_start_encounter, dp_in_encounter, dp_encounter_ready,
    dp_safari_encounter_ready,
};

verus! {

/// A press that a classic hunt makes.
#[derive(Clone, Copy, Debug, PartialEq, Eq, Structural)]
pub enum Press {
    /// A press of the button for the default length.
    Plain(Button),
    /// A press of the button for the given length.
    Held(Button, Delay),
    /// The soft-reset chord of generation 3: A+B+Start+Select.
    ResetGen3,
    /// The soft-reset chord of generation 5: L+R+Start+Select.
    ResetGen5,
}

/// Where each of the four directions leads; any other button leads up.
#[derive(Clone, Copy, Debug, PartialEq, Eq, Structural)]
pub struct Turn {
    pub up: Button,
    pub down: Button,
    pub left: Button,
    pub right: Button,
}

/// A condition on the frame checks that a hunt tracks, by position.
#[derive(Clone, Copy, Debug, PartialEq, Eq, Structural)]
pub enum Cond {
    /// The check is met.
    Met(usize),
    /// The first check is met and the second is not.
    MetNot(usize, usize),
    /// Neither check is met.
    NeitherMet(usize, usize),
}

/// What a step does to the encounter timer.
#[derive(Clone, Copy, Debug, PartialEq, Eq, Structural)]
pub enum TimerOp {
    Keep,
    /// Starts the timer.
    Start,
    /// Stores the time since the timer started.
    Stop,
}

/// How an encounter is judged shiny.
#[derive(Clone, Copy, Debug, PartialEq, Eq, Structural)]
pub enum ShinyRule {
    /// The sprite is shiny, or the encounter took longer than this many ms
    /// to become ready.
    SpriteOrTime(u64),
    /// The encounter took longer than this many ms to become ready.
    TimeOnly(u64),
    /// The sprite is shiny, or the shiny star (the tracked check at this
    /// position) is.
    SpriteOrStar(usize),
}

/// A wait of `base` ms plus a random draw below `extra` ms (none when
/// `extra` is zero).
#[derive(Clone, Copy, Debug)]
pub struct DrawnWait {
    pub base: u64,
    pub extra: u64,
}

/// What a step of a classic hunt does.
#[derive(Clone, Copy, Debug)]
pub enum Action {
    /// Makes the press, if any, and the timer operation, then moves to
    /// `next`: at once, or after `base` plus a draw below `extra` ms.
    Act { press: Option<Press>, timer: TimerOp, wait: Option<DrawnWait>, next: usize },
    /// Stays until the condition holds, then makes the timer operation and
    /// moves to `next`, at once or after the given ms.
    Await { cond: Cond, timer: TimerOp, wait: Option<u64>, next: usize },
    /// Walks in the grass: once check `enter` is met, turns the walking
    /// direction by `turn` if given and moves to `entering`; until then
    /// presses the direction (held when a length is given), turns it by
    /// `rotate`, presses B if `then_b`, and waits `wait_ms`.
    Walk { enter: usize, held: Option<Delay>, rotate: Turn, turn: Option<Turn>, then_b: bool, wait_ms: u64, entering: usize },
    /// Judges the encounter by `rule`. A shiny reports the target when
    /// `any_is_target` or the species is the target, else the species found
    /// (in `game` and `method`), and moves to `done`; otherwise moves to
    /// `next`, at once or after `base` plus a draw below `extra` ms. With no
    /// sprite result (under a rule that needs one) it moves to `done`
    /// quietly.
    Detect { rule: ShinyRule, any_is_target: bool, game: Game, method: Method, done: usize, next: usize, wait: Option<DrawnWait> },
    /// Stays here for good.
    Stop,
}

/// One step of a classic hunt: the frame checks it asks for, and what it does.
pub struct ClassicStep {
    pub inputs: Vec<Processing>,
    pub action: Action,
}

/// The abstract value of a [`ClassicStep`].
pub struct StepView {
    pub inputs: Seq<ProcessingView>,
    pub action: Action,
}

impl View for ClassicStep {
    type V = StepView;

    open spec fn view(&self) -> StepView {
        StepView { inputs: processings_view(self.inputs@), action: self.action }
    }
}

/// The abstract values of a list of steps.
pub open spec fn steps_view(s: Seq<ClassicStep>) -> Seq<StepView> {
    s.map_values(|x: ClassicStep| x@)
}

/// A classic hunt in progress: its table of steps, the checks it tracks, the
/// current step, a pending wait (its length in ms and the step after it),
/// and its clocks (ms).
pub struct ClassicHunt {
    target: u32,
    flags: Vec<Processing>,
    steps: Vec<ClassicStep>,
    current: usize,
    wait: Option<(u64, usize)>,
    wait_start: u64,
    timer: u64,
    last_duration: u64,
    next_dir: Button,
}

/// The abstract value of a [`ClassicHunt`].
pub struct ClassicView {
    pub target: u32,
    pub flags: Seq<ProcessingView>,
    pub steps: Seq<StepView>,
    pub current: usize,
    pub wait: Option<(u64, usize)>,
    pub wait_start: u64,
    pub timer: u64,
    pub last_duration: u64,
    pub next_dir: Button,
}

impl View for ClassicHunt {
    type V = ClassicView;

    closed spec fn view(&self) -> ClassicView {
        ClassicView {
            target: self.target,
            flags: processings_view(self.flags@),
            steps: steps_view(self.steps@),
            current: self.current,
            wait: self.wait,
            wait_start: self.wait_start,
            timer: self.timer,
            last_duration: self.last_duration,
            next_dir: self.next_dir,
        }
    }
}

/// Whether a wait of `base` plus a draw below `extra` fits in a `u64`.
pub open spec fn wait_fits(w: Option<DrawnWait>) -> bool {
    match w {
        Some(d) => d.base + d.extra <= u64::MAX,
        None => true,
    }
}

/// Whether a condition names tracked checks only.
pub open spec fn cond_ok(c: Cond, nflags: nat) -> bool {
    match c {
        Cond::Met(i) => i < nflags,
        Cond::MetNot(i, j) => i < nflags && j < nflags,
        Cond::NeitherMet(i, j) => i < nflags && j < nflags,
    }
}

/// Whether an action leads to steps of the table and names tracked checks
/// only.
pub open spec fn action_ok(a: Action, nsteps: nat, nflags: nat) -> bool {
    match a {
        Action::Act { wait, next, .. } => next < nsteps && wait_fits(wait),
        Action::Await { cond, next, .. } => next < nsteps && cond_ok(cond, nflags),
        Action::Walk { enter, entering, .. } => enter < nflags && entering < nsteps,
        Action::Detect { rule, done, next, wait, .. } => done < nsteps && next < nsteps && wait_fits(wait)
            && match rule {
                ShinyRule::SpriteOrStar(i) => i < nflags,
                _ => true,
            },
        Action::Stop => true,
    }
}

/// Whether a table of steps is well formed.
pub open spec fn table_ok(steps: Seq<StepView>, nflags: nat) -> bool {
    &&& steps.len() > 0
    &&& forall|i: int| 0 <= i < steps.len() ==> action_ok(#[trigger] steps[i].action, steps.len(), nflags)
}

impl ClassicView {
    /// Whether the hunt is well formed: its table is, and it stands on a
    /// step of it.
    pub open spec fn wf(&self) -> bool {
        &&& table_ok(self.steps, self.flags.len())
        &&& self.current < self.steps.len()
        &&& match self.wait {
            Some((_, n)) => n < self.steps.len(),
            None => true,
        }
    }

    /// The action of the current step.
    pub open spec fn action(&self) -> Action {
        self.steps[self.current as int].action
    }

    /// The bound below which the random draw of this step must lie, where
    /// the step draws one; zero where it draws none.
    pub open spec fn draw_bound(&self) -> u64 {
        if self.wait is Some {
            0
        } else {
            match self.action() {
                Action::Act { wait: Some(d), .. } => d.extra,
                Action::Detect { wait: Some(d), .. } => d.extra,
                _ => 0,
            }
        }
    }
}

/// Whether check `p` was met in the last result that answers it; false when
/// none does.
pub open spec fn last_met(rs: Seq<ProcessingResultView>, p: ProcessingView) -> bool
    decreases rs.len(),
{
    if rs.len() == 0 {
        false
    } else if rs.last().process == p {
        rs.last().met
    } else {
        last_met(rs.drop_last(), p)
    }
}

/// Whether the last result that answers check `p` reported a shiny; false
/// when none does.
pub open spec fn last_shiny(rs: Seq<ProcessingResultView>, p: ProcessingView) -> bool
    decreases rs.len(),
{
    if rs.len() == 0 {
        false
    } else if rs.last().process == p {
        rs.last().shiny
    } else {
        last_shiny(rs.drop_last(), p)
    }
}

/// The species and shininess of the last sprite result, if any.
pub open spec fn last_sprite(rs: Seq<ProcessingResultView>) -> Option<(u32, bool)>
    decreases rs.len(),
{
    if rs.len() == 0 {
        None
    } else if rs.last().process is Sprite {
        Some((rs.last().species, rs.last().shiny))
    } else {
        last_sprite(rs.drop_last())
    }
}

/// Whether a condition holds on the results.
pub open spec fn cond_holds(c: Cond, flags: Seq<ProcessingView>, rs: Seq<ProcessingResultView>) -> bool {
    match c {
        Cond::Met(i) => last_met(rs, flags[i as int]),
        Cond::MetNot(i, j) => last_met(rs, flags[i as int]) && !last_met(rs, flags[j as int]),
        Cond::NeitherMet(i, j) => !last_met(rs, flags[i as int]) && !last_met(rs, flags[j as int]),
    }
}

/// Where `t` sends direction `b`.
pub open spec fn turn_to(t: Turn, b: Button) -> Button {
    match b {
        Button::Up => t.up,
        Button::Down => t.down,
        Button::Left => t.left,
        Button::Right => t.right,
        _ => Button::Up,
    }
}

/// The clocks after a timer operation at `now`.
pub open spec fn with_timer(h: ClassicView, op: TimerOp, now: u64) -> ClassicView {
    match op {
        TimerOp::Keep => h,
        TimerOp::Start => ClassicView { timer: now, ..h },
        TimerOp::Stop => ClassicView { last_duration: (now - h.timer) as u64, ..h },
    }
}

/// The hunt moved to `next`, at once or after a wait started at `now`.
pub open spec fn go(h: ClassicView, wait: Option<u64>, next: usize, now: u64) -> ClassicView {
    match wait {
        Some(ms) => ClassicView { wait: Some((ms, next)), wait_start: now, ..h },
        None => ClassicView { current: next, ..h },
    }
}

/// The length of a wait of `base` plus a draw below `extra`, with `drawn`
/// as the draw.
pub open spec fn drawn_wait(w: Option<DrawnWait>, drawn: u64) -> Option<u64> {
    match w {
        Some(d) => Some((d.base + if d.extra > 0 { drawn } else { 0 }) as u64),
        None => None,
    }
}

/// The request a shiny of `species` makes.
pub open spec fn found_request(h: ClassicView, any_is_target: bool, game: Game, method: Method, species: u32) -> RequestTransitionView {
    if any_is_target || species == h.target {
        RequestTransitionView { transition: Transition::FoundTarget, arg: None }
    } else {
        RequestTransitionView {
            transition: Transition::FoundNonTarget,
            arg: Some(TransitionArgView { name: Seq::empty(), species, game, method }),
        }
    }
}

/// One step of a classic hunt on the results of a frame, at time `now`,
/// with `drawn` as the random draw where the step makes one: the hunt after
/// the step, the presses it makes, and what it reports.
pub open spec fn classic_next(h: ClassicView, rs: Seq<ProcessingResultView>, now: u64, drawn: u64)
    -> (ClassicView, Seq<Press>, HuntResultView)
{
    let quiet = HuntResultView { transition: None, incr_encounters: false };
    match h.wait {
        Some((ms, next)) => {
            if now - h.wait_start > ms {
                (ClassicView { current: next, wait: None, ..h }, Seq::empty(), quiet)
            } else {
                (h, Seq::empty(), quiet)
            }
        },
        None => match h.action() {
            Action::Act { press, timer, wait, next } => (
                go(with_timer(h, timer, now), drawn_wait(wait, drawn), next, now),
                match press {
                    Some(p) => seq![p],
                    None => Seq::empty(),
                },
                quiet,
            ),
            Action::Await { cond, timer, wait, next } => {
                if cond_holds(cond, h.flags, rs) {
                    (go(with_timer(h, timer, now), wait, next, now), Seq::empty(), quiet)
                } else {
                    (h, Seq::empty(), quiet)
                }
            },
            Action::Walk { enter, held, rotate, turn, then_b, wait_ms, entering } => {
                if last_met(rs, h.flags[enter as int]) {
                    let dir = match turn {
                        Some(t) => turn_to(t, h.next_dir),
                        None => h.next_dir,
                    };
                    (ClassicView { current: entering, next_dir: dir, ..h }, Seq::empty(), quiet)
                } else {
                    let p = match held {
                        Some(d) => Press::Held(h.next_dir, d),
                        None => Press::Plain(h.next_dir),
                    };
                    (
                        ClassicView { next_dir: turn_to(rotate, h.next_dir), wait: Some((wait_ms, h.current)), wait_start: now, ..h },
                        if then_b { seq![p, Press::Plain(Button::B)] } else { seq![p] },
                        quiet,
                    )
                }
            },
            Action::Detect { rule, any_is_target, game, method, done, next, wait } => {
                let counted = HuntResultView { transition: None, incr_encounters: true };
                let sprite = last_sprite(rs);
                match rule {
                    ShinyRule::SpriteOrStar(star) => {
                        let shiny = (match sprite {
                            Some((_, s)) => s,
                            None => false,
                        }) || last_shiny(rs, h.flags[star as int]);
                        if shiny {
                            (ClassicView { current: done, ..h }, Seq::empty(),
                                HuntResultView { transition: Some(RequestTransitionView { transition: Transition::FoundTarget, arg: None }), incr_encounters: true })
                        } else {
                            (go(h, drawn_wait(wait, drawn), next, now), Seq::empty(), counted)
                        }
                    },
                    _ => match sprite {
                        None => (ClassicView { current: done, ..h }, Seq::empty(), counted),
                        Some((species, sprite_shiny)) => {
                            let shiny = match rule {
                                ShinyRule::SpriteOrTime(t) => sprite_shiny || h.last_duration > t,
                                ShinyRule::TimeOnly(t) => h.last_duration > t,
                                ShinyRule::SpriteOrStar(_) => false,
                            };
                            if shiny {
                                (ClassicView { current: done, ..h }, Seq::empty(),
                                    HuntResultView { transition: Some(found_request(h, any_is_target, game, method, species)), incr_encounters: true })
                            } else {
                                (go(h, drawn_wait(wait, drawn), next, now), Seq::empty(), counted)
                            }
                        },
                    },
                }
            },
            Action::Stop => (h, Seq::empty(), quiet),
        },
    }
}

fn last_result(results: &Vec<ProcessingResult>, p: &Processing) -> (r: (bool, bool))
    ensures
        r == (last_met(results_view(results@), p@), last_shiny(results_view(results@), p@)),
{
    let ghost rs = results_view(results@);
    let mut met = false;
    let mut shiny = false;
    let mut i: usize = 0;
    while i < results.len()
        invariant
            i <= results.len(),
            rs == results_view(results@),
            met == last_met(rs.subrange(0, i as int), p@),
            shiny == last_shiny(rs.subrange(0, i as int), p@),
        decreases results.len() - i,
    {
        if results[i].process.same_as(p) {
            met = results[i].met;
            shiny = results[i].shiny;
        }
        assert(rs.subrange(0, i + 1).drop_last() =~= rs.subrange(0, i as int));
        i = i + 1;
    }
    assert(rs.subrange(0, results.len() as int) =~= rs);
    (met, shiny)
}

fn last_sprite_result(results: &Vec<ProcessingResult>) -> (r: Option<(u32, bool)>)
    ensures
        r == last_sprite(results_view(results@)),
{
    let ghost rs = results_view(results@);
    let mut found: Option<(u32, bool)> = None;
    let mut i: usize = 0;
    while i < results.len()
        invariant
            i <= results.len(),
            rs == results_view(results@),
            found == last_sprite(rs.subrange(0, i as int)),
        decreases results.len() - i,
    {
        if results[i].process.is_sprite() {
            found = Some((results[i].species, results[i].shiny));
        }
        assert(rs.subrange(0, i + 1).drop_last() =~= rs.subrange(0, i as int));
        i = i + 1;
    }
    assert(rs.subrange(0, results.len() as int) =~= rs);
    found
}

fn turn_dir(t: &Turn, b: Button) -> (r: Button)
    ensures
        r == turn_to(*t, b),
{
    match b {
        Button::Up => t.up,
        Button::Down => t.down,
        Button::Left => t.left,
        Button::Right => t.right,
        _ => Button::Up,
    }
}

impl ClassicHunt {
    /// The hunt's table of steps must be well formed and start at step 0.
    pub fn new(target: u32, flags: Vec<Processing>, steps: Vec<ClassicStep>, next_dir: Button, now: u64) -> (r: Self)
        requires
            table_ok(steps_view(steps@), flags.len() as nat),
        ensures
            r@ == (ClassicView {
                target,
                flags: processings_view(flags@),
                steps: steps_view(steps@),
                current: 0,
                wait: None,
                wait_start: now,
                timer: now,
                last_duration: 0,
                next_dir,
            }),
            r@.wf(),
    {
        ClassicHunt { target, flags, steps, current: 0, wait: None, wait_start: now, timer: now, last_duration: 0, next_dir }
    }

    fn cond_now(&self, c: Cond, results: &Vec<ProcessingResult>) -> (r: bool)
        requires
            cond_ok(c, self@.flags.len()),
        ensures
            r == cond_holds(c, self@.flags, results_view(results@)),
    {
        match c {
            Cond::Met(i) => last_result(results, &self.flags[i]).0,
            Cond::MetNot(i, j) => last_result(results, &self.flags[i]).0 && !last_result(results, &self.flags[j]).0,
            Cond::NeitherMet(i, j) => !last_result(results, &self.flags[i]).0 && !last_result(results, &self.flags[j]).0,
        }
    }

    fn apply_timer(&mut self, op: TimerOp, now: u64)
        requires
            now >= old(self)@.timer,
        ensures
            final(self)@ == with_timer(old(self)@, op, now),
    {
        match op {
            TimerOp::Keep => {},
            TimerOp::Start => { self.timer = now; },
            TimerOp::Stop => { self.last_duration = now - self.timer; },
        }
    }

    fn go_to(&mut self, wait: Option<u64>, next: usize, now: u64)
        ensures
            final(self)@ == go(old(self)@, wait, next, now),
    {
        match wait {
            Some(ms) => {
                self.wait = Some((ms, next));
                self.wait_start = now;
            },
            None => { self.current = next; },
        }
    }

    /// One step on the results of a frame, at time `now`, with `drawn` as
    /// the random draw where the step makes one.
    pub fn step_at(&mut self, results: &Vec<ProcessingResult>, now: u64, drawn: u64) -> (r: (Vec<Press>, HuntResult))
        requires
            old(self)@.wf(),
            now >= old(self)@.wait_start,
            now >= old(self)@.timer,
            old(self)@.draw_bound() == 0 || drawn < old(self)@.draw_bound(),
        ensures
            final(self)@.wf(),
            (final(self)@, r.0@, r.1@) == classic_next(old(self)@, results_view(results@), now, drawn),
    {
        let ghost h0 = self@;
        let ghost rs = results_view(results@);
        let quiet = HuntResult { transition: None, incr_encounters: false };
        if let Some((ms, next)) = self.wait {
            if now - self.wait_start > ms {
                self.current = next;
                self.wait = None;
            }
            return (Vec::new(), quiet);
        }
        assert(action_ok(h0.steps[h0.current as int].action, h0.steps.len(), h0.flags.len()));
        match self.steps[self.current].action {
            Action::Act { press, timer, wait, next } => {
                self.apply_timer(timer, now);
                let w = match wait {
                    Some(d) => Some(d.base + if d.extra > 0 { drawn } else { 0 }),
                    None => None,
                };
                self.go_to(w, next, now);
                let presses = match press {
                    Some(p) => vec![p],
                    None => Vec::new(),
                };
                assert(presses@ =~= match press { Some(p) => seq![p], None => Seq::<Press>::empty() });
                (presses, quiet)
            },
            Action::Await { cond, timer, wait, next } => {
                if self.cond_now(cond, results) {
                    self.apply_timer(timer, now);
                    self.go_to(wait, next, now);
                }
                (Vec::new(), quiet)
            },
            Action::Walk { enter, held, rotate, turn, then_b, wait_ms, entering } => {
                let entered = last_result(results, &self.flags[enter]).0;
                if entered {
                    let dir = match turn {
                        Some(t) => turn_dir(&t, self.next_dir),
                        None => self.next_dir,
                    };
                    self.current = entering;
                    self.next_dir = dir;
                    (Vec::new(), quiet)
                } else {
                    let p = match held {
                        Some(d) => Press::Held(self.next_dir, d),
                        None => Press::Plain(self.next_dir),
                    };
                    self.next_dir = turn_dir(&rotate, self.next_dir);
                    self.wait = Some((wait_ms, self.current));
                    self.wait_start = now;
                    let presses = if then_b { vec![p, Press::Plain(Button::B)] } else { vec![p] };
                    assert(presses@ =~= if then_b { seq![p, Press::Plain(Button::B)] } else { seq![p] });
                    (presses, quiet)
                }
            },
            Action::Detect { rule, any_is_target, game, method, done, next, wait } => {
                let counted = HuntResult { transition: None, incr_encounters: true };
                let sprite = last_sprite_result(results);
                let w = match wait {
                    Some(d) => Some(d.base + if d.extra > 0 { drawn } else { 0 }),
                    None => None,
                };
                match rule {
                    ShinyRule::SpriteOrStar(star) => {
                        let sprite_shiny = match sprite {
                            Some((_, s)) => s,
                            None => false,
                        };
                        let shiny = sprite_shiny || last_result(results, &self.flags[star]).1;
                        if shiny {
                            self.current = done;
                            (Vec::new(), HuntResult {
                                transition: Some(RequestTransition { transition: Transition::FoundTarget, arg: None }),
                                incr_encounters: true,
                            })
                        } else {
                            self.go_to(w, next, now);
                            (Vec::new(), counted)
                        }
                    },
                    _ => match sprite {
                        None => {
                            self.current = done;
                            (Vec::new(), counted)
                        },
                        Some((species, sprite_shiny)) => {
                            let shiny = match rule {
                                ShinyRule::SpriteOrTime(t) => sprite_shiny || self.last_duration > t,
                                ShinyRule::TimeOnly(t) => self.last_duration > t,
                                ShinyRule::SpriteOrStar(_) => false,
                            };
                            if shiny {
                                let request = if any_is_target || species == self.target {
                                    RequestTransition { transition: Transition::FoundTarget, arg: None }
                                } else {
                                    RequestTransition {
                                        transition: Transition::FoundNonTarget,
                                        arg: Some(TransitionArg::new("", species, game, method)),
                                    }
                                };
                                proof {
                                    reveal_strlit("");
                                }
                                assert(""@ =~= Seq::<char>::empty());
                                self.current = done;
                                (Vec::new(), HuntResult { transition: Some(request), incr_encounters: true })
                            } else {
                                self.go_to(w, next, now);
                                (Vec::new(), counted)
                            }
                        },
                    },
                }
            },
            Action::Stop => (Vec::new(), quiet),
        }
    }
}

/// A hunt that starts at `now` on step 0 of `steps`, tracking `flags`, with
/// `dir` as its first walking direction.
pub open spec fn fresh(target: u32, flags: Seq<ProcessingView>, steps: Seq<StepView>, dir: Button, now: u64) -> ClassicView {
    ClassicView { target, flags, steps, current: 0, wait: None, wait_start: now, timer: now, last_duration: 0, next_dir: dir }
}

/// The press that a classic-hunt press makes on the console: one button
/// for the default length or held, or a soft-reset chord held for a tenth
/// of a second.
pub open spec fn press_record(p: Press) -> PressRecord {
    match p {
        Press::Plain(b) => PressRecord { buttons: seq![b], delay: None },
        Press::Held(b, d) => PressRecord { buttons: seq![b], delay: Some(d) },
        Press::ResetGen3 => PressRecord {
            buttons: seq![Button::A, Button::B, Button::Start, Button::Select],
            delay: Some(Delay::Tenth),
        },
        Press::ResetGen5 => PressRecord {
            buttons: seq![Button::L, Button::R, Button::Start, Button::Select],
            delay: Some(Delay::Tenth),
        },
    }
}

/// The presses that a list of classic-hunt presses makes, in order.
pub open spec fn press_records(ps: Seq<Press>) -> Seq<PressRecord> {
    ps.map_values(|p: Press| press_record(p))
}

/// Makes a press on the console.
pub fn make_press<C: BotControl>(control: &mut C, p: &Press)
    ensures
        final(control).keeps_account() == old(control).keeps_account(),
        old(control).keeps_account() ==> final(control).pressed() == old(control).pressed().push(press_record(*p)),
{
    match p {
        Press::Plain(b) => control.press(b),
        Press::Held(b, d) => control.press_delay(b, d),
        Press::ResetGen3 => {
            let chord = [Button::A, Button::B, Button::Start, Button::Select];
            assert(chord@ =~= seq![Button::A, Button::B, Button::Start, Button::Select]);
            control.presses_delay(&chord, &Delay::Tenth)
        },
        Press::ResetGen5 => {
            let chord = [Button::L, Button::R, Button::Start, Button::Select];
            assert(chord@ =~= seq![Button::L, Button::R, Button::Start, Button::Select]);
            control.presses_delay(&chord, &Delay::Tenth)
        },
    }
}

impl ClassicHunt {
    /// The frame checks the hunt asks for: those of its step, none while it
    /// waits.
    pub fn processing(&self) -> (r: Vec<Processing>)
        requires
            self@.wf(),
        ensures
            processings_view(r@) == if self@.wait is Some { Seq::empty() } else { self@.steps[self@.current as int].inputs },
    {
        if self.wait.is_some() {
            let r: Vec<Processing> = Vec::new();
            assert(processings_view(r@) =~= Seq::empty());
            r
        } else {
            copy_processings(&self.steps[self.current].inputs)
        }
    }

    fn draw_bound_now(&self) -> (r: u64)
        requires
            self@.wf(),
        ensures
            r == self@.draw_bound(),
    {
        if self.wait.is_some() {
            return 0;
        }
        match self.steps[self.current].action {
            Action::Act { wait: Some(d), .. } => d.extra,
            Action::Detect { wait: Some(d), .. } => d.extra,
            _ => 0,
        }
    }

    /// One step on the results of a frame: reads the clock, draws the
    /// random part of a wait where the step has one, and makes the presses
    /// of the step.
    pub fn step<C: BotControl>(&mut self, control: &mut C, results: Vec<ProcessingResult>) -> (r: HuntResult)
        requires
            old(self)@.wf(),
        ensures
            final(self)@.wf(),
            final(control).keeps_account() == old(control).keeps_account(),
            exists|now: u64, drawn: u64| {
                &&& now >= old(self)@.wait_start
                &&& now >= old(self)@.timer
                &&& (old(self)@.draw_bound() == 0 || drawn < old(self)@.draw_bound())
                &&& #[trigger] classic_next(old(self)@, results_view(results@), now, drawn).0 == final(self)@
                &&& classic_next(old(self)@, results_view(results@), now, drawn).2 == r@
                &&& old(control).keeps_account() ==> final(control).pressed() == old(control).pressed()
                    + press_records(classic_next(old(self)@, results_view(results@), now, drawn).1)
            },
    {
        let t = now_millis();
        let mut now = t;
        if now < self.wait_start {
            now = self.wait_start;
        }
        if now < self.timer {
            now = self.timer;
        }
        let bound = self.draw_bound_now();
        let drawn = if bound > 0 { random_between(0, bound) } else { 0 };
        let (presses, r) = self.step_at(&results, now, drawn);
        assert(classic_next(old(self)@, results_view(results@), now, drawn).0 == self@);
        let ghost after = self@;
        let ghost before = control.pressed();
        let ghost before_keeps = control.keeps_account();
        let mut i: usize = 0;
        while i < presses.len()
            invariant
                i <= presses.len(),
                self@ == after,
                control.keeps_account() == before_keeps,
                before_keeps ==> control.pressed() == before + press_records(presses@.subrange(0, i as int)),
            decreases presses.len() - i,
        {
            make_press(control, &presses[i]);
            i = i + 1;
            assert(press_records(presses@.subrange(0, i as int))
                =~= press_records(presses@.subrange(0, i - 1)).push(press_record(presses@[i - 1])));
        }
        assert(presses@.subrange(0, presses.len() as int) =~= presses@);
        r
    }

    /// Nothing to release.
    pub fn cleanup(&mut self)
        ensures
            final(self)@ == old(self)@,
    {
    }
}

/// The steps of the FireRed / LeafGreen starter gift hunt
pub open spec fn frlg_starter_table(target: u32) -> Seq<StepView> {
    seq![
        StepView { inputs: seq![], action: Action::Act { press: Some(Press::ResetGen3), timer: TimerOp::Keep, wait: Some(DrawnWait { base: 3500, extra: 0 }), next: 1 } },
        StepView { inputs: seq![], action: Action::Act { press: Some(Press::Plain(Button::Start)), timer: TimerOp::Keep, wait: Some(DrawnWait { base: 4500, extra: 0 }), next: 2 } },
        StepView { inputs: seq![], action: Action::Act { press: Some(Press::Plain(Button::Start)), timer: TimerOp::Keep, wait: Some(DrawnWait { base: 3000, extra: 0 }), next: 3 } },
        StepView { inputs: seq![], action: Action::Act { press: Some(Press::Plain(Button::A)), timer: TimerOp::Keep, wait: Some(DrawnWait { base: 1500, extra: 0 }), next: 4 } },
        StepView { inputs: seq![], action: Action::Act { press: Some(Press::Plain(Button::B)), timer: TimerOp::Keep, wait: Some(DrawnWait { base: 2500, extra: 0 }), next: 5 } },
        StepView { inputs: seq![], action: Action::Act { press: Some(Press::Plain(Button::A)), timer: TimerOp::Keep, wait: Some(DrawnWait { base: 1000, extra: 0 }), next: 6 } },
        StepView { inputs: seq![], action: Action::Act { press: Some(Press::Plain(Button::A)), timer: TimerOp::Keep, wait: Some(DrawnWait { base: 1000, extra: 0 }), next: 7 } },
        StepView { inputs: seq![], action: Action::Act { press: Some(Press::Plain(Button::A)), timer: TimerOp::Keep, wait: Some(DrawnWait { base: 500, extra: 0 }), next: 8 } },
        StepView { inputs: seq![], action: Action::Act { press: Some(Press::Plain(Button::A)), timer: TimerOp::Keep, wait: Some(DrawnWait { base: 4500, extra: 0 }), next: 9 } },
        StepView { inputs: seq![], action: Action::Act { press: Some(Press::Plain(Button::B)), timer: TimerOp::Keep, wait: Some(DrawnWait { base: 2500, extra: 0 }), next: 10 } },
        StepView { inputs: seq![], action: Action::Act { press: Some(Press::Plain(Button::A)), timer: TimerOp::Keep, wait: Some(DrawnWait { base: 3750, extra: 0 }), next: 11 } },
        StepView { inputs: seq![], action: Action::Act { press: Some(Press::Plain(Button::Start)), timer: TimerOp::Keep, wait: Some(DrawnWait { base: 1000, extra: 0 }), next: 12 } },
        StepView { inputs: seq![], action: Action::Act { press: Some(Press::Plain(Button::A)), timer: TimerOp::Keep, wait: Some(DrawnWait { base: 1000, extra: 0 }), next: 13 } },
        StepView { inputs: seq![], action: Action::Act { press: Some(Press::Plain(Button::A)), timer: TimerOp::Keep, wait: Some(DrawnWait { base: 1000, extra: 0 }), next: 14 } },
        StepView { inputs: seq![], action: Action::Act { press: Some(Press::Plain(Button::A)), timer: TimerOp::Keep, wait: Some(DrawnWait { base: 1000, extra: 0 }), next: 15 } },
        StepView { inputs: seq![], action: Action::Act { press: Some(Press::Plain(Button::Right)), timer: TimerOp::Keep, wait: Some(DrawnWait { base: 1000, extra: 0 }), next: 16 } },
        StepView { inputs: seq![ProcessingView::Sprite(Game::FireRedLeafGreen, seq![target], true), frlg_shiny_star()], action: Action::Detect { rule: ShinyRule::SpriteOrStar(0), any_is_target: true, game: Game::FireRedLeafGreen, method: Method::SoftResetGift, done: 17, next: 0, wait: None } },
        StepView { inputs: seq![], action: Action::Stop },
    ]
}

/// The checks that the FireRed / LeafGreen starter gift hunt tracks.
pub open spec fn frlg_starter_flags() -> Seq<ProcessingView> {
    seq![frlg_shiny_star()]
}

/// The steps of the Ruby / Sapphire static encounter hunt
pub open spec fn rs_softreset_table(target: u32) -> Seq<StepView> {
    seq![
        StepView { inputs: seq![], action: Action::Act { press: None, timer: TimerOp::Keep, wait: None, next: 1 } },
        StepView { inputs: seq![], action: Action::Act { press: Some(Press::ResetGen3), timer: TimerOp::Keep, wait: Some(DrawnWait { base: 5000, extra: 1000 }), next: 2 } },
        StepView { inputs: seq![], action: Action::Act { press: Some(Press::Plain(Button::Start)), timer: TimerOp::Keep, wait: Some(DrawnWait { base: 5000, extra: 0 }), next: 3 } },
        StepView { inputs: seq![], action: Action::Act { press: Some(Press::Plain(Button::Start)), timer: TimerOp::Keep, wait: Some(DrawnWait { base: 2000, extra: 0 }), next: 4 } },
        StepView { inputs: seq![], action: Action::Act { press: Some(Press::Plain(Button::Start)), timer: TimerOp::Keep, wait: Some(DrawnWait { base: 1000, extra: 0 }), next: 5 } },
        StepView { inputs: seq![], action: Action::Act { press: Some(Press::Plain(Button::A)), timer: TimerOp::Keep, wait: Some(DrawnWait { base: 1000, extra: 2100 }), next: 6 } },
        StepView { inputs: seq![], action: Action::Act { press: Some(Press::Plain(Button::A)), timer: TimerOp::Keep, wait: Some(DrawnWait { base: 1000, extra: 2100 }), next: 7 } },
        StepView { inputs: seq![frlg_start_encounter()], action: Action::Await { cond: Cond::Met(0), timer: TimerOp::Keep, wait: None, next: 8 } },
        StepView { inputs: seq![frlg_in_encounter()], action: Action::Await { cond: Cond::Met(1), timer: TimerOp::Start, wait: None, next: 9 } },
        StepView { inputs: seq![frlg_in_encounter(), frlg_encounter_ready()], action: Action::Await { cond: Cond::Met(2), timer: TimerOp::Stop, wait: None, next: 10 } },
        StepView { inputs: seq![ProcessingView::Sprite(Game::RubySapphire, seq![target], false)], action: Action::Detect { rule: ShinyRule::SpriteOrTime(2400), any_is_target: false, game: Game::RubySapphire, method: Method::SoftResetEncounter, done: 11, next: 1, wait: Some(DrawnWait { base: 0, extra: 2000 }) } },
        StepView { inputs: seq![], action: Action::Stop },
    ]
}

/// The checks that the Ruby / Sapphire static encounter hunt tracks.
pub open spec fn rs_softreset_flags() -> Seq<ProcessingView> {
    seq![frlg_start_encounter(), frlg_in_encounter(), frlg_encounter_ready()]
}

/// The steps of the Black 2 / White 2 static encounter hunt
pub open spec fn bw2_softreset_table(target: u32) -> Seq<StepView> {
    seq![
        StepView { inputs: seq![], action: Action::Act { press: None, timer: TimerOp::Keep, wait: None, next: 1 } },
        StepView { inputs: seq![], action: Action::Act { press: Some(Press::ResetGen5), timer: TimerOp::Keep, wait: Some(DrawnWait { base: 5000, extra: 1000 }), next: 2 } },
        StepView { inputs: seq![], action: Action::Act { press: Some(Press::Plain(Button::A)), timer: TimerOp::Keep, wait: Some(DrawnWait { base: 5000, extra: 0 }), next: 3 } },
        StepView { inputs: seq![], action: Action::Act { press: Some(Press::Plain(Button::A)), timer: TimerOp::Keep, wait: Some(DrawnWait { base: 5000, extra: 0 }), next: 4 } },
        StepView { inputs: seq![], action: Action::Act { press: Some(Press::Plain(Button::A)), timer: TimerOp::Keep, wait: Some(DrawnWait { base: 7000, extra: 0 }), next: 5 } },
        StepView { inputs: seq![], action: Action::Act { press: Some(Press::Plain(Button::A)), timer: TimerOp::Keep, wait: Some(DrawnWait { base: 3500, extra: 0 }), next: 6 } },
        StepView { inputs: seq![], action: Action::Act { press: Some(Press::Plain(Button::A)), timer: TimerOp::Keep, wait: Some(DrawnWait { base: 2500, extra: 0 }), next: 7 } },
        StepView { inputs: seq![], action: Action::Act { press: Some(Press::Plain(Button::B)), timer: TimerOp::Keep, wait: Some(DrawnWait { base: 1000, extra: 0 }), next: 8 } },
        StepView { inputs: seq![], action: Action::Act { press: Some(Press::Plain(Button::A)), timer: TimerOp::Keep, wait: Some(DrawnWait { base: 8000, extra: 1000 }), next: 9 } },
        StepView { inputs: seq![], action: Action::Act { press: Some(Press::Plain(Button::Right)), timer: TimerOp::Keep, wait: Some(DrawnWait { base: 2000, extra: 0 }), next: 10 } },
        StepView { inputs: seq![], action: Action::Act { press: Some(Press::Plain(Button::A)), timer: TimerOp::Keep, wait: Some(DrawnWait { base: 3500, extra: 0 }), next: 11 } },
        StepView { inputs: seq![], action: Action::Act { press: Some(Press::Plain(Button::A)), timer: TimerOp::Start, wait: None, next: 12 } },
        StepView { inputs: seq![bw2_bar_present(), bw2_black_screen(), bw2_white_screen(), bw2_bar_negate_confirm()], action: Action::Await { cond: Cond::Met(2), timer: TimerOp::Keep, wait: None, next: 13 } },
        StepView { inputs: seq![bw2_bar_present(), bw2_black_screen(), bw2_white_screen(), bw2_bar_negate_confirm()], action: Action::Await { cond: Cond::MetNot(0, 3), timer: TimerOp::Stop, wait: None, next: 14 } },
        StepView { inputs: seq![ProcessingView::Sprite(Game::Black2White2, seq![target], false)], action: Action::Detect { rule: ShinyRule::SpriteOrTime(6000), any_is_target: true, game: Game::Black2White2, method: Method::SoftResetEncounter, done: 15, next: 1, wait: Some(DrawnWait { base: 500, extra: 2000 }) } },
        StepView { inputs: seq![], action: Action::Stop },
    ]
}

/// The checks that the Black 2 / White 2 static encounter hunt tracks.
pub open spec fn bw2_softreset_flags() -> Seq<ProcessingView> {
    seq![bw2_bar_present(), bw2_black_screen(), bw2_white_screen(), bw2_bar_negate_confirm()]
}

/// The steps of the FireRed / LeafGreen Route 1 hunt
pub open spec fn frlg_random_table(target: u32) -> Seq<StepView> {
    seq![
        StepView { inputs: seq![frlg_start_encounter()], action: Action::Walk { enter: 0, held: None, rotate: Turn { up: Button::Left, down: Button::Right, left: Button::Down, right: Button::Up }, turn: None, then_b: false, wait_ms: 200, entering: 1 } },
        StepView { inputs: seq![frlg_in_encounter()], action: Action::Await { cond: Cond::Met(1), timer: TimerOp::Start, wait: None, next: 2 } },
        StepView { inputs: seq![frlg_in_encounter(), frlg_encounter_ready()], action: Action::Await { cond: Cond::Met(2), timer: TimerOp::Stop, wait: None, next: 3 } },
        StepView { inputs: seq![], action: Action::Act { press: Some(Press::Plain(Button::A)), timer: TimerOp::Keep, wait: Some(DrawnWait { base: 5000, extra: 0 }), next: 4 } },
        StepView { inputs: seq![ProcessingView::Sprite(Game::FireRedLeafGreen, seq![16, 19], false)], action: Action::Detect { rule: ShinyRule::SpriteOrTime(3250), any_is_target: false, game: Game::DiamondPearl, method: Method::RandomEncounter, done: 9, next: 5, wait: None } },
        StepView { inputs: seq![], action: Action::Act { press: Some(Press::Plain(Button::Down)), timer: TimerOp::Keep, wait: Some(DrawnWait { base: 1000, extra: 0 }), next: 6 } },
        StepView { inputs: seq![], action: Action::Act { press: Some(Press::Plain(Button::Right)), timer: TimerOp::Keep, wait: Some(DrawnWait { base: 1000, extra: 0 }), next: 7 } },
        StepView { inputs: seq![], action: Action::Act { press: Some(Press::Plain(Button::A)), timer: TimerOp::Keep, wait: Some(DrawnWait { base: 1000, extra: 0 }), next: 8 } },
        StepView { inputs: seq![], action: Action::Act { press: Some(Press::Plain(Button::A)), timer: TimerOp::Keep, wait: Some(DrawnWait { base: 3000, extra: 0 }), next: 0 } },
        StepView { inputs: seq![], action: Action::Stop },
    ]
}

/// The checks that the FireRed / LeafGreen Route 1 hunt tracks.
pub open spec fn frlg_random_flags() -> Seq<ProcessingView> {
    seq![frlg_start_encounter(), frlg_in_encounter(), frlg_encounter_ready()]
}

/// The steps of the Ruby / Sapphire Safari Zone hunt
pub open spec fn rs_safari_table(target: u32) -> Seq<StepView> {
    seq![
        StepView { inputs: seq![frlg_start_encounter()], action: Action::Walk { enter: 0, held: Some(Delay::Twentieth), rotate: Turn { up: Button::Down, down: Button::Up, left: Button::Right, right: Button::Left }, turn: Some(Turn { up: Button::Left, down: Button::Left, left: Button::Up, right: Button::Up }), then_b: false, wait_ms: 200, entering: 1 } },
        StepView { inputs: seq![frlg_in_encounter()], action: Action::Await { cond: Cond::Met(1), timer: TimerOp::Start, wait: None, next: 2 } },
        StepView { inputs: seq![frlg_in_encounter(), frlg_encounter_ready()], action: Action::Await { cond: Cond::Met(2), timer: TimerOp::Stop, wait: None, next: 3 } },
        StepView { inputs: seq![], action: Action::Act { press: Some(Press::Plain(Button::A)), timer: TimerOp::Keep, wait: Some(DrawnWait { base: 2000, extra: 0 }), next: 4 } },
        StepView { inputs: seq![ProcessingView::Sprite(Game::RubySapphire, seq![25, 43, 44, 84, 177, 203, 202], false)], action: Action::Detect { rule: ShinyRule::SpriteOrTime(3250), any_is_target: false, game: Game::DiamondPearl, method: Method::RandomEncounter, done: 9, next: 5, wait: None } },
        StepView { inputs: seq![], action: Action::Act { press: Some(Press::Plain(Button::Down)), timer: TimerOp::Keep, wait: Some(DrawnWait { base: 1000, extra: 0 }), next: 6 } },
        StepView { inputs: seq![], action: Action::Act { press: Some(Press::Plain(Button::Right)), timer: TimerOp::Keep, wait: Some(DrawnWait { base: 1000, extra: 0 }), next: 7 } },
        StepView { inputs: seq![], action: Action::Act { press: Some(Press::Plain(Button::A)), timer: TimerOp::Keep, wait: Some(DrawnWait { base: 1000, extra: 0 }), next: 8 } },
        StepView { inputs: seq![], action: Action::Act { press: Some(Press::Plain(Button::A)), timer: TimerOp::Keep, wait: Some(DrawnWait { base: 3000, extra: 0 }), next: 0 } },
        StepView { inputs: seq![], action: Action::Stop },
    ]
}

/// The checks that the Ruby / Sapphire Safari Zone hunt tracks.
pub open spec fn rs_safari_flags() -> Seq<ProcessingView> {
    seq![frlg_start_encounter(), frlg_in_encounter(), frlg_encounter_ready()]
}

/// The steps of the FireRed / LeafGreen Safari Zone hunt
pub open spec fn frlg_safari_table(target: u32) -> Seq<StepView> {
    seq![
        StepView { inputs: seq![frlg_start_encounter()], action: Action::Walk { enter: 0, held: Some(Delay::Twentieth), rotate: Turn { up: Button::Down, down: Button::Up, left: Button::Right, right: Button::Left }, turn: Some(Turn { up: Button::Left, down: Button::Left, left: Button::Up, right: Button::Up }), then_b: false, wait_ms: 100, entering: 1 } },
        StepView { inputs: seq![frlg_in_encounter()], action: Action::Await { cond: Cond::Met(1), timer: TimerOp::Start, wait: None, next: 2 } },
        StepView { inputs: seq![frlg_in_encounter(), frlg_encounter_ready()], action: Action::Await { cond: Cond::Met(2), timer: TimerOp::Stop, wait: None, next: 3 } },
        StepView { inputs: seq![], action: Action::Act { press: Some(Press::Plain(Button::A)), timer: TimerOp::Keep, wait: Some(DrawnWait { base: 2000, extra: 0 }), next: 4 } },
        StepView { inputs: seq![ProcessingView::Sprite(Game::FireRedLeafGreen, seq![32, 102, 111, 46, 33, 30, 49, 113, 128], false)], action: Action::Detect { rule: ShinyRule::SpriteOrTime(2900), any_is_target: false, game: Game::DiamondPearl, method: Method::RandomEncounter, done: 9, next: 5, wait: None } },
        StepView { inputs: seq![], action: Action::Act { press: Some(Press::Plain(Button::Down)), timer: TimerOp::Keep, wait: Some(DrawnWait { base: 200, extra: 0 }), next: 6 } },
        StepView { inputs: seq![], action: Action::Act { press: Some(Press::Plain(Button::Right)), timer: TimerOp::Keep, wait: Some(DrawnWait { base: 200, extra: 0 }), next: 7 } },
        StepView { inputs: seq![], action: Action::Act { press: Some(Press::Plain(Button::A)), timer: TimerOp::Keep, wait: Some(DrawnWait { base: 500, extra: 0 }), next: 8 } },
        StepView { inputs: seq![], action: Action::Act { press: Some(Press::Plain(Button::A)), timer: TimerOp::Keep, wait: Some(DrawnWait { base: 3000, extra: 2100 }), next: 0 } },
        StepView { inputs: seq![], action: Action::Stop },
    ]
}

/// The checks that the FireRed / LeafGreen Safari Zone hunt tracks.
pub open spec fn frlg_safari_flags() -> Seq<ProcessingView> {
    seq![frlg_start_encounter(), frlg_in_encounter(), frlg_encounter_ready()]
}

/// The steps of the HeartGold / SoulSilver Safari Zone hunt
pub open spec fn hgss_safari_table(target: u32) -> Seq<StepView> {
    seq![
        StepView { inputs: seq![], action: Action::Act { press: None, timer: TimerOp::Keep, wait: None, next: 1 } },
        StepView { inputs: seq![], action: Action::Act { press: Some(Press::Plain(Button::X)), timer: TimerOp::Keep, wait: Some(DrawnWait { base: 500, extra: 0 }), next: 2 } },
        StepView { inputs: seq![], action: Action::Act { press: Some(Press::Plain(Button::A)), timer: TimerOp::Keep, wait: Some(DrawnWait { base: 1500, extra: 0 }), next: 3 } },
        StepView { inputs: seq![], action: Action::Act { press: Some(Press::Plain(Button::A)), timer: TimerOp::Keep, wait: Some(DrawnWait { base: 500, extra: 0 }), next: 4 } },
        StepView { inputs: seq![], action: Action::Act { press: Some(Press::Plain(Button::Left)), timer: TimerOp::Keep, wait: Some(DrawnWait { base: 1000, extra: 0 }), next: 5 } },
        StepView { inputs: seq![], action: Action::Act { press: Some(Press::Plain(Button::A)), timer: TimerOp::Keep, wait: Some(DrawnWait { base: 2000, extra: 0 }), next: 6 } },
        StepView { inputs: seq![dp_start_encounter()], action: Action::Await { cond: Cond::Met(0), timer: TimerOp::Keep, wait: None, next: 7 } },
        StepView { inputs: seq![dp_in_encounter()], action: Action::Await { cond: Cond::Met(1), timer: TimerOp::Start, wait: None, next: 8 } },
        StepView { inputs: seq![dp_in_encounter(), dp_safari_encounter_ready()], action: Action::Await { cond: Cond::Met(2), timer: TimerOp::Stop, wait: None, next: 9 } },
        StepView { inputs: seq![ProcessingView::Sprite(Game::HeartGoldSoulSilver, seq![19, 20, 108, 82, 246, 41, 42], false)], action: Action::Detect { rule: ShinyRule::SpriteOrTime(4650), any_is_target: false, game: Game::HeartGoldSoulSilver, method: Method::SafariZone, done: 14, next: 10, wait: Some(DrawnWait { base: 500, extra: 0 }) } },
        StepView { inputs: seq![], action: Action::Act { press: Some(Press::Plain(Button::Down)), timer: TimerOp::Keep, wait: Some(DrawnWait { base: 1000, extra: 0 }), next: 11 } },
        StepView { inputs: seq![], action: Action::Act { press: Some(Press::Plain(Button::Down)), timer: TimerOp::Keep, wait: Some(DrawnWait { base: 1000, extra: 0 }), next: 12 } },
        StepView { inputs: seq![], action: Action::Act { press: Some(Press::Plain(Button::Right)), timer: TimerOp::Keep, wait: Some(DrawnWait { base: 1000, extra: 0 }), next: 13 } },
        StepView { inputs: seq![], action: Action::Act { press: Some(Press::Plain(Button::A)), timer: TimerOp::Keep, wait: Some(DrawnWait { base: 4000, extra: 0 }), next: 15 } },
        StepView { inputs: seq![], action: Action::Stop },
        StepView { inputs: seq![dp_in_encounter(), dp_start_encounter()], action: Action::Await { cond: Cond::NeitherMet(0, 1), timer: TimerOp::Keep, wait: Some(2000), next: 0 } },
    ]
}

/// The checks that the HeartGold / SoulSilver Safari Zone hunt tracks.
pub open spec fn hgss_safari_flags() -> Seq<ProcessingView> {
    seq![dp_start_encounter(), dp_in_encounter(), dp_safari_encounter_ready()]
}

/// The steps of the Diamond / Pearl Route 202 hunt
pub open spec fn dp_random_table(target: u32) -> Seq<StepView> {
    seq![
        StepView { inputs: seq![dp_start_encounter()], action: Action::Walk { enter: 0, held: None, rotate: Turn { up: Button::Left, down: Button::Right, left: Button::Down, right: Button::Up }, turn: None, then_b: false, wait_ms: 200, entering: 1 } },
        StepView { inputs: seq![dp_in_encounter()], action: Action::Await { cond: Cond::Met(1), timer: TimerOp::Start, wait: None, next: 2 } },
        StepView { inputs: seq![dp_in_encounter(), dp_encounter_ready()], action: Action::Await { cond: Cond::Met(2), timer: TimerOp::Stop, wait: None, next: 3 } },
        StepView { inputs: seq![ProcessingView::Sprite(Game::DiamondPearl, seq![396, 399, 401, 403], false)], action: Action::Detect { rule: ShinyRule::SpriteOrTime(10200), any_is_target: false, game: Game::DiamondPearl, method: Method::RandomEncounter, done: 9, next: 4, wait: None } },
        StepView { inputs: seq![], action: Action::Act { press: None, timer: TimerOp::Keep, wait: Some(DrawnWait { base: 7000, extra: 0 }), next: 5 } },
        StepView { inputs: seq![], action: Action::Act { press: Some(Press::Plain(Button::Down)), timer: TimerOp::Keep, wait: Some(DrawnWait { base: 1000, extra: 0 }), next: 6 } },
        StepView { inputs: seq![], action: Action::Act { press: Some(Press::Plain(Button::Down)), timer: TimerOp::Keep, wait: Some(DrawnWait { base: 1000, extra: 0 }), next: 7 } },
        StepView { inputs: seq![], action: Action::Act { press: Some(Press::Plain(Button::Right)), timer: TimerOp::Keep, wait: Some(DrawnWait { base: 1000, extra: 0 }), next: 8 } },
        StepView { inputs: seq![], action: Action::Act { press: Some(Press::Plain(Button::A)), timer: TimerOp::Keep, wait: Some(DrawnWait { base: 5000, extra: 0 }), next: 10 } },
        StepView { inputs: seq![], action: Action::Stop },
        StepView { inputs: seq![dp_in_encounter(), dp_start_encounter()], action: Action::Await { cond: Cond::NeitherMet(0, 1), timer: TimerOp::Keep, wait: None, next: 0 } },
    ]
}

/// The checks that the Diamond / Pearl Route 202 hunt tracks.
pub open spec fn dp_random_flags() -> Seq<ProcessingView> {
    seq![dp_start_encounter(), dp_in_encounter(), dp_encounter_ready()]
}

/// The steps of the HeartGold / SoulSilver Route 47 hunt
pub open spec fn hgss_random_table(target: u32) -> Seq<StepView> {
    seq![
        StepView { inputs: seq![dp_start_encounter()], action: Action::Walk { enter: 0, held: Some(Delay::Twentieth), rotate: Turn { up: Button::Down, down: Button::Up, left: Button::Right, right: Button::Left }, turn: Some(Turn { up: Button::Right, down: Button::Right, left: Button::Up, right: Button::Up }), then_b: true, wait_ms: 200, entering: 1 } },
        StepView { inputs: seq![dp_in_encounter()], action: Action::Await { cond: Cond::Met(1), timer: TimerOp::Start, wait: None, next: 2 } },
        StepView { inputs: seq![dp_in_encounter(), dp_safari_encounter_ready()], action: Action::Await { cond: Cond::Met(2), timer: TimerOp::Stop, wait: None, next: 3 } },
        StepView { inputs: seq![ProcessingView::Sprite(Game::HeartGoldSoulSilver, seq![132, 83, 241, 20, 21, 44, 22], false)], action: Action::Detect { rule: ShinyRule::TimeOnly(7075), any_is_target: false, game: Game::HeartGoldSoulSilver, method: Method::RandomEncounter, done: 9, next: 4, wait: None } },
        StepView { inputs: seq![], action: Action::Act { press: None, timer: TimerOp::Keep, wait: Some(DrawnWait { base: 2000, extra: 0 }), next: 5 } },
        StepView { inputs: seq![], action: Action::Act { press: Some(Press::Plain(Button::Down)), timer: TimerOp::Keep, wait: Some(DrawnWait { base: 1000, extra: 0 }), next: 6 } },
        StepView { inputs: seq![], action: Action::Act { press: Some(Press::Plain(Button::Down)), timer: TimerOp::Keep, wait: Some(DrawnWait { base: 1000, extra: 0 }), next: 7 } },
        StepView { inputs: seq![], action: Action::Act { press: Some(Press::Plain(Button::Right)), timer: TimerOp::Keep, wait: Some(DrawnWait { base: 1000, extra: 0 }), next: 8 } },
        StepView { inputs: seq![], action: Action::Act { press: Some(Press::Plain(Button::A)), timer: TimerOp::Keep, wait: Some(DrawnWait { base: 5000, extra: 0 }), next: 10 } },
        StepView { inputs: seq![], action: Action::Stop },
        StepView { inputs: seq![dp_in_encounter(), dp_start_encounter()], action: Action::Await { cond: Cond::NeitherMet(0, 1), timer: TimerOp::Keep, wait: None, next: 0 } },
    ]
}

/// The checks that the HeartGold / SoulSilver Route 47 hunt tracks.
pub open spec fn hgss_random_flags() -> Seq<ProcessingView> {
    seq![dp_start_encounter(), dp_in_encounter(), dp_safari_encounter_ready()]
}

/// Starts the FireRed / LeafGreen starter gift hunt, at time `now`.
pub fn frlg_starter(target: u32, now: u64) -> (r: ClassicHunt)
    ensures
        r@ == fresh(target, frlg_starter_flags(), frlg_starter_table(target), Button::Up, now),
        r@.wf(),
{
    let in0 = vec![];
    assert(processings_view(in0@) =~= seq![]);
    let in1 = vec![];
    assert(processings_view(in1@) =~= seq![]);
    let in2 = vec![];
    assert(processings_view(in2@) =~= seq![]);
    let in3 = vec![];
    assert(processings_view(in3@) =~= seq![]);
    let in4 = vec![];
    assert(processings_view(in4@) =~= seq![]);
    let in5 = vec![];
    assert(processings_view(in5@) =~= seq![]);
    let in6 = vec![];
    assert(processings_view(in6@) =~= seq![]);
    let in7 = vec![];
    assert(processings_view(in7@) =~= seq![]);
    let in8 = vec![];
    assert(processings_view(in8@) =~= seq![]);
    let in9 = vec![];
    assert(processings_view(in9@) =~= seq![]);
    let in10 = vec![];
    assert(processings_view(in10@) =~= seq![]);
    let in11 = vec![];
    assert(processings_view(in11@) =~= seq![]);
    let in12 = vec![];
    assert(processings_view(in12@) =~= seq![]);
    let in13 = vec![];
    assert(processings_view(in13@) =~= seq![]);
    let in14 = vec![];
    assert(processings_view(in14@) =~= seq![]);
    let in15 = vec![];
    assert(processings_view(in15@) =~= seq![]);
    let sp16 = vec![target];
    assert(sp16@ =~= seq![target]);
    let in16 = vec![Processing::Sprite(Game::FireRedLeafGreen, sp16, true), Processing::FRLG_SHINY_STAR()];
    assert(processings_view(in16@) =~= seq![ProcessingView::Sprite(Game::FireRedLeafGreen, seq![target], true), frlg_shiny_star()]);
    let in17 = vec![];
    assert(processings_view(in17@) =~= seq![]);
    let steps = vec![
        ClassicStep { inputs: in0, action: Action::Act { press: Some(Press::ResetGen3), timer: TimerOp::Keep, wait: Some(DrawnWait { base: 3500, extra: 0 }), next: 1 } },
        ClassicStep { inputs: in1, action: Action::Act { press: Some(Press::Plain(Button::Start)), timer: TimerOp::Keep, wait: Some(DrawnWait { base: 4500, extra: 0 }), next: 2 } },
        ClassicStep { inputs: in2, action: Action::Act { press: Some(Press::Plain(Button::Start)), timer: TimerOp::Keep, wait: Some(DrawnWait { base: 3000, extra: 0 }), next: 3 } },
        ClassicStep { inputs: in3, action: Action::Act { press: Some(Press::Plain(Button::A)), timer: TimerOp::Keep, wait: Some(DrawnWait { base: 1500, extra: 0 }), next: 4 } },
        ClassicStep { inputs: in4, action: Action::Act { press: Some(Press::Plain(Button::B)), timer: TimerOp::Keep, wait: Some(DrawnWait { base: 2500, extra: 0 }), next: 5 } },
        ClassicStep { inputs: in5, action: Action::Act { press: Some(Press::Plain(Button::A)), timer: TimerOp::Keep, wait: Some(DrawnWait { base: 1000, extra: 0 }), next: 6 } },
        ClassicStep { inputs: in6, action: Action::Act { press: Some(Press::Plain(Button::A)), timer: TimerOp::Keep, wait: Some(DrawnWait { base: 1000, extra: 0 }), next: 7 } },
        ClassicStep { inputs: in7, action: Action::Act { press: Some(Press::Plain(Button::A)), timer: TimerOp::Keep, wait: Some(DrawnWait { base: 500, extra: 0 }), next: 8 } },
        ClassicStep { inputs: in8, action: Action::Act { press: Some(Press::Plain(Button::A)), timer: TimerOp::Keep, wait: Some(DrawnWait { base: 4500, extra: 0 }), next: 9 } },
        ClassicStep { inputs: in9, action: Action::Act { press: Some(Press::Plain(Button::B)), timer: TimerOp::Keep, wait: Some(DrawnWait { base: 2500, extra: 0 }), next: 10 } },
        ClassicStep { inputs: in10, action: Action::Act { press: Some(Press::Plain(Button::A)), timer: TimerOp::Keep, wait: Some(DrawnWait { base: 3750, extra: 0 }), next: 11 } },
        ClassicStep { inputs: in11, action: Action::Act { press: Some(Press::Plain(Button::Start)), timer: TimerOp::Keep, wait: Some(DrawnWait { base: 1000, extra: 0 }), next: 12 } },
        ClassicStep { inputs: in12, action: Action::Act { press: Some(Press::Plain(Button::A)), timer: TimerOp::Keep, wait: Some(DrawnWait { base: 1000, extra: 0 }), next: 13 } },
        ClassicStep { inputs: in13, action: Action::Act { press: Some(Press::Plain(Button::A)), timer: TimerOp::Keep, wait: Some(DrawnWait { base: 1000, extra: 0 }), next: 14 } },
        ClassicStep { inputs: in14, action: Action::Act { press: Some(Press::Plain(Button::A)), timer: TimerOp::Keep, wait: Some(DrawnWait { base: 1000, extra: 0 }), next: 15 } },
        ClassicStep { inputs: in15, action: Action::Act { press: Some(Press::Plain(Button::Right)), timer: TimerOp::Keep, wait: Some(DrawnWait { base: 1000, extra: 0 }), next: 16 } },
        ClassicStep { inputs: in16, action: Action::Detect { rule: ShinyRule::SpriteOrStar(0), any_is_target: true, game: Game::FireRedLeafGreen, method: Method::SoftResetGift, done: 17, next: 0, wait: None } },
        ClassicStep { inputs: in17, action: Action::Stop },
    ];
    let flags = vec![Processing::FRLG_SHINY_STAR()];
    assert(steps_view(steps@) =~= frlg_starter_table(target));
    assert(processings_view(flags@) =~= frlg_starter_flags());
    ClassicHunt::new(target, flags, steps, Button::Up, now)
}

/// Starts the Ruby / Sapphire static encounter hunt, at time `now`.
pub fn rs_softreset(target: u32, now: u64) -> (r: ClassicHunt)
    ensures
        r@ == fresh(target, rs_softreset_flags(), rs_softreset_table(target), Button::Up, now),
        r@.wf(),
{
    let in0 = vec![];
    assert(processings_view(in0@) =~= seq![]);
    let in1 = vec![];
    assert(processings_view(in1@) =~= seq![]);
    let in2 = vec![];
    assert(processings_view(in2@) =~= seq![]);
    let in3 = vec![];
    assert(processings_view(in3@) =~= seq![]);
    let in4 = vec![];
    assert(processings_view(in4@) =~= seq![]);
    let in5 = vec![];
    assert(processings_view(in5@) =~= seq![]);
    let in6 = vec![];
    assert(processings_view(in6@) =~= seq![]);
    let in7 = vec![Processing::FRLG_START_ENCOUNTER()];
    assert(processings_view(in7@) =~= seq![frlg_start_encounter()]);
    let in8 = vec![Processing::FRLG_IN_ENCOUNTER()];
    assert(processings_view(in8@) =~= seq![frlg_in_encounter()]);
    let in9 = vec![Processing::FRLG_IN_ENCOUNTER(), Processing::FRLG_ENCOUNTER_READY()];
    assert(processings_view(in9@) =~= seq![frlg_in_encounter(), frlg_encounter_ready()]);
    let sp10 = vec![target];
    assert(sp10@ =~= seq![target]);
    let in10 = vec![Processing::Sprite(Game::RubySapphire, sp10, false)];
    assert(processings_view(in10@) =~= seq![ProcessingView::Sprite(Game::RubySapphire, seq![target], false)]);
    let in11 = vec![];
    assert(processings_view(in11@) =~= seq![]);
    let steps = vec![
        ClassicStep { inputs: in0, action: Action::Act { press: None, timer: TimerOp::Keep, wait: None, next: 1 } },
        ClassicStep { inputs: in1, action: Action::Act { press: Some(Press::ResetGen3), timer: TimerOp::Keep, wait: Some(DrawnWait { base: 5000, extra: 1000 }), next: 2 } },
        ClassicStep { inputs: in2, action: Action::Act { press: Some(Press::Plain(Button::Start)), timer: TimerOp::Keep, wait: Some(DrawnWait { base: 5000, extra: 0 }), next: 3 } },
        ClassicStep { inputs: in3, action: Action::Act { press: Some(Press::Plain(Button::Start)), timer: TimerOp::Keep, wait: Some(DrawnWait { base: 2000, extra: 0 }), next: 4 } },
        ClassicStep { inputs: in4, action: Action::Act { press: Some(Press::Plain(Button::Start)), timer: TimerOp::Keep, wait: Some(DrawnWait { base: 1000, extra: 0 }), next: 5 } },
        ClassicStep { inputs: in5, action: Action::Act { press: Some(Press::Plain(Button::A)), timer: TimerOp::Keep, wait: Some(DrawnWait { base: 1000, extra: 2100 }), next: 6 } },
        ClassicStep { inputs: in6, action: Action::Act { press: Some(Press::Plain(Button::A)), timer: TimerOp::Keep, wait: Some(DrawnWait { base: 1000, extra: 2100 }), next: 7 } },
        ClassicStep { inputs: in7, action: Action::Await { cond: Cond::Met(0), timer: TimerOp::Keep, wait: None, next: 8 } },
        ClassicStep { inputs: in8, action: Action::Await { cond: Cond::Met(1), timer: TimerOp::Start, wait: None, next: 9 } },
        ClassicStep { inputs: in9, action: Action::Await { cond: Cond::Met(2), timer: TimerOp::Stop, wait: None, next: 10 } },
        ClassicStep { inputs: in10, action: Action::Detect { rule: ShinyRule::SpriteOrTime(2400), any_is_target: false, game: Game::RubySapphire, method: Method::SoftResetEncounter, done: 11, next: 1, wait: Some(DrawnWait { base: 0, extra: 2000 }) } },
        ClassicStep { inputs: in11, action: Action::Stop },
    ];
    let flags = vec![Processing::FRLG_START_ENCOUNTER(), Processing::FRLG_IN_ENCOUNTER(), Processing::FRLG_ENCOUNTER_READY()];
    assert(steps_view(steps@) =~= rs_softreset_table(target));
    assert(processings_view(flags@) =~= rs_softreset_flags());
    ClassicHunt::new(target, flags, steps, Button::Up, now)
}

/// Starts the Black 2 / White 2 static encounter hunt, at time `now`.
pub fn bw2_softreset(target: u32, now: u64) -> (r: ClassicHunt)
    ensures
        r@ == fresh(target, bw2_softreset_flags(), bw2_softreset_table(target), Button::Up, now),
        r@.wf(),
{
    let in0 = vec![];
    assert(processings_view(in0@) =~= seq![]);
    let in1 = vec![];
    assert(processings_view(in1@) =~= seq![]);
    let in2 = vec![];
    assert(processings_view(in2@) =~= seq![]);
    let in3 = vec![];
    assert(processings_view(in3@) =~= seq![]);
    let in4 = vec![];
    assert(processings_view(in4@) =~= seq![]);
    let in5 = vec![];
    assert(processings_view(in5@) =~= seq![]);
    let in6 = vec![];
    assert(processings_view(in6@) =~= seq![]);
    let in7 = vec![];
    assert(processings_view(in7@) =~= seq![]);
    let in8 = vec![];
    assert(processings_view(in8@) =~= seq![]);
    let in9 = vec![];
    assert(processings_view(in9@) =~= seq![]);
    let in10 = vec![];
    assert(processings_view(in10@) =~= seq![]);
    let in11 = vec![];
    assert(processings_view(in11@) =~= seq![]);
    let in12 = vec![Processing::BW2_BAR_PRESENT(), Processing::BW2_BLACK_SCREEN(), Processing::BW2_WHITE_SCREEN(), Processing::BW2_BAR_NEGATE_CONFIRM()];
    assert(processings_view(in12@) =~= seq![bw2_bar_present(), bw2_black_screen(), bw2_white_screen(), bw2_bar_negate_confirm()]);
    let in13 = vec![Processing::BW2_BAR_PRESENT(), Processing::BW2_BLACK_SCREEN(), Processing::BW2_WHITE_SCREEN(), Processing::BW2_BAR_NEGATE_CONFIRM()];
    assert(processings_view(in13@) =~= seq![bw2_bar_present(), bw2_black_screen(), bw2_white_screen(), bw2_bar_negate_confirm()]);
    let sp14 = vec![target];
    assert(sp14@ =~= seq![target]);
    let in14 = vec![Processing::Sprite(Game::Black2White2, sp14, false)];
    assert(processings_view(in14@) =~= seq![ProcessingView::Sprite(Game::Black2White2, seq![target], false)]);
    let in15 = vec![];
    assert(processings_view(in15@) =~= seq![]);
    let steps = vec![
        ClassicStep { inputs: in0, action: Action::Act { press: None, timer: TimerOp::Keep, wait: None, next: 1 } },
        ClassicStep { inputs: in1, action: Action::Act { press: Some(Press::ResetGen5), timer: TimerOp::Keep, wait: Some(DrawnWait { base: 5000, extra: 1000 }), next: 2 } },
        ClassicStep { inputs: in2, action: Action::Act { press: Some(Press::Plain(Button::A)), timer: TimerOp::Keep, wait: Some(DrawnWait { base: 5000, extra: 0 }), next: 3 } },
        ClassicStep { inputs: in3, action: Action::Act { press: Some(Press::Plain(Button::A)), timer: TimerOp::Keep, wait: Some(DrawnWait { base: 5000, extra: 0 }), next: 4 } },
        ClassicStep { inputs: in4, action: Action::Act { press: Some(Press::Plain(Button::A)), timer: TimerOp::Keep, wait: Some(DrawnWait { base: 7000, extra: 0 }), next: 5 } },
        ClassicStep { inputs: in5, action: Action::Act { press: Some(Press::Plain(Button::A)), timer: TimerOp::Keep, wait: Some(DrawnWait { base: 3500, extra: 0 }), next: 6 } },
        ClassicStep { inputs: in6, action: Action::Act { press: Some(Press::Plain(Button::A)), timer: TimerOp::Keep, wait: Some(DrawnWait { base: 2500, extra: 0 }), next: 7 } },
        ClassicStep { inputs: in7, action: Action::Act { press: Some(Press::Plain(Button::B)), timer: TimerOp::Keep, wait: Some(DrawnWait { base: 1000, extra: 0 }), next: 8 } },
        ClassicStep { inputs: in8, action: Action::Act { press: Some(Press::Plain(Button::A)), timer: TimerOp::Keep, wait: Some(DrawnWait { base: 8000, extra: 1000 }), next: 9 } },
        ClassicStep { inputs: in9, action: Action::Act { press: Some(Press::Plain(Button::Right)), timer: TimerOp::Keep, wait: Some(DrawnWait { base: 2000, extra: 0 }), next: 10 } },
        ClassicStep { inputs: in10, action: Action::Act { press: Some(Press::Plain(Button::A)), timer: TimerOp::Keep, wait: Some(DrawnWait { base: 3500, extra: 0 }), next: 11 } },
        ClassicStep { inputs: in11, action: Action::Act { press: Some(Press::Plain(Button::A)), timer: TimerOp::Start, wait: None, next: 12 } },
        ClassicStep { inputs: in12, action: Action::Await { cond: Cond::Met(2), timer: TimerOp::Keep, wait: None, next: 13 } },
        ClassicStep { inputs: in13, action: Action::Await { cond: Cond::MetNot(0, 3), timer: TimerOp::Stop, wait: None, next: 14 } },
        ClassicStep { inputs: in14, action: Action::Detect { rule: ShinyRule::SpriteOrTime(6000), any_is_target: true, game: Game::Black2White2, method: Method::SoftResetEncounter, done: 15, next: 1, wait: Some(DrawnWait { base: 500, extra: 2000 }) } },
        ClassicStep { inputs: in15, action: Action::Stop },
    ];
    let flags = vec![Processing::BW2_BAR_PRESENT(), Processing::BW2_BLACK_SCREEN(), Processing::BW2_WHITE_SCREEN(), Processing::BW2_BAR_NEGATE_CONFIRM()];
    assert(steps_view(steps@) =~= bw2_softreset_table(target));
    assert(processings_view(flags@) =~= bw2_softreset_flags());
    ClassicHunt::new(target, flags, steps, Button::Up, now)
}

/// Starts the FireRed / LeafGreen Route 1 hunt, at time `now`.
pub fn frlg_random(target: u32, now: u64) -> (r: ClassicHunt)
    ensures
        r@ == fresh(target, frlg_random_flags(), frlg_random_table(target), Button::Down, now),
        r@.wf(),
{
    let in0 = vec![Processing::FRLG_START_ENCOUNTER()];
    assert(processings_view(in0@) =~= seq![frlg_start_encounter()]);
    let in1 = vec![Processing::FRLG_IN_ENCOUNTER()];
    assert(processings_view(in1@) =~= seq![frlg_in_encounter()]);
    let in2 = vec![Processing::FRLG_IN_ENCOUNTER(), Processing::FRLG_ENCOUNTER_READY()];
    assert(processings_view(in2@) =~= seq![frlg_in_encounter(), frlg_encounter_ready()]);
    let in3 = vec![];
    assert(processings_view(in3@) =~= seq![]);
    let sp4 = vec![16, 19];
    assert(sp4@ =~= seq![16, 19]);
    let in4 = vec![Processing::Sprite(Game::FireRedLeafGreen, sp4, false)];
    assert(processings_view(in4@) =~= seq![ProcessingView::Sprite(Game::FireRedLeafGreen, seq![16, 19], false)]);
    let in5 = vec![];
    assert(processings_view(in5@) =~= seq![]);
    let in6 = vec![];
    assert(processings_view(in6@) =~= seq![]);
    let in7 = vec![];
    assert(processings_view(in7@) =~= seq![]);
    let in8 = vec![];
    assert(processings_view(in8@) =~= seq![]);
    let in9 = vec![];
    assert(processings_view(in9@) =~= seq![]);
    let steps = vec![
        ClassicStep { inputs: in0, action: Action::Walk { enter: 0, held: None, rotate: Turn { up: Button::Left, down: Button::Right, left: Button::Down, right: Button::Up }, turn: None, then_b: false, wait_ms: 200, entering: 1 } },
        ClassicStep { inputs: in1, action: Action::Await { cond: Cond::Met(1), timer: TimerOp::Start, wait: None, next: 2 } },
        ClassicStep { inputs: in2, action: Action::Await { cond: Cond::Met(2), timer: TimerOp::Stop, wait: None, next: 3 } },
        ClassicStep { inputs: in3, action: Action::Act { press: Some(Press::Plain(Button::A)), timer: TimerOp::Keep, wait: Some(DrawnWait { base: 5000, extra: 0 }), next: 4 } },
        ClassicStep { inputs: in4, action: Action::Detect { rule: ShinyRule::SpriteOrTime(3250), any_is_target: false, game: Game::DiamondPearl, method: Method::RandomEncounter, done: 9, next: 5, wait: None } },
        ClassicStep { inputs: in5, action: Action::Act { press: Some(Press::Plain(Button::Down)), timer: TimerOp::Keep, wait: Some(DrawnWait { base: 1000, extra: 0 }), next: 6 } },
        ClassicStep { inputs: in6, action: Action::Act { press: Some(Press::Plain(Button::Right)), timer: TimerOp::Keep, wait: Some(DrawnWait { base: 1000, extra: 0 }), next: 7 } },
        ClassicStep { inputs: in7, action: Action::Act { press: Some(Press::Plain(Button::A)), timer: TimerOp::Keep, wait: Some(DrawnWait { base: 1000, extra: 0 }), next: 8 } },
        ClassicStep { inputs: in8, action: Action::Act { press: Some(Press::Plain(Button::A)), timer: TimerOp::Keep, wait: Some(DrawnWait { base: 3000, extra: 0 }), next: 0 } },
        ClassicStep { inputs: in9, action: Action::Stop },
    ];
    let flags = vec![Processing::FRLG_START_ENCOUNTER(), Processing::FRLG_IN_ENCOUNTER(), Processing::FRLG_ENCOUNTER_READY()];
    assert(steps_view(steps@) =~= frlg_random_table(target));
    assert(processings_view(flags@) =~= frlg_random_flags());
    ClassicHunt::new(target, flags, steps, Button::Down, now)
}

/// Starts the Ruby / Sapphire Safari Zone hunt, at time `now`.
pub fn rs_safari(target: u32, now: u64) -> (r: ClassicHunt)
    ensures
        r@ == fresh(target, rs_safari_flags(), rs_safari_table(target), Button::Down, now),
        r@.wf(),
{
    let in0 = vec![Processing::FRLG_START_ENCOUNTER()];
    assert(processings_view(in0@) =~= seq![frlg_start_encounter()]);
    let in1 = vec![Processing::FRLG_IN_ENCOUNTER()];
    assert(processings_view(in1@) =~= seq![frlg_in_encounter()]);
    let in2 = vec![Processing::FRLG_IN_ENCOUNTER(), Processing::FRLG_ENCOUNTER_READY()];
    assert(processings_view(in2@) =~= seq![frlg_in_encounter(), frlg_encounter_ready()]);
    let in3 = vec![];
    assert(processings_view(in3@) =~= seq![]);
    let sp4 = vec![25, 43, 44, 84, 177, 203, 202];
    assert(sp4@ =~= seq![25, 43, 44, 84, 177, 203, 202]);
    let in4 = vec![Processing::Sprite(Game::RubySapphire, sp4, false)];
    assert(processings_view(in4@) =~= seq![ProcessingView::Sprite(Game::RubySapphire, seq![25, 43, 44, 84, 177, 203, 202], false)]);
    let in5 = vec![];
    assert(processings_view(in5@) =~= seq![]);
    let in6 = vec![];
    assert(processings_view(in6@) =~= seq![]);
    let in7 = vec![];
    assert(processings_view(in7@) =~= seq![]);
    let in8 = vec![];
    assert(processings_view(in8@) =~= seq![]);
    let in9 = vec![];
    assert(processings_view(in9@) =~= seq![]);
    let steps = vec![
        ClassicStep { inputs: in0, action: Action::Walk { enter: 0, held: Some(Delay::Twentieth), rotate: Turn { up: Button::Down, down: Button::Up, left: Button::Right, right: Button::Left }, turn: Some(Turn { up: Button::Left, down: Button::Left, left: Button::Up, right: Button::Up }), then_b: false, wait_ms: 200, entering: 1 } },
        ClassicStep { inputs: in1, action: Action::Await { cond: Cond::Met(1), timer: TimerOp::Start, wait: None, next: 2 } },
        ClassicStep { inputs: in2, action: Action::Await { cond: Cond::Met(2), timer: TimerOp::Stop, wait: None, next: 3 } },
        ClassicStep { inputs: in3, action: Action::Act { press: Some(Press::Plain(Button::A)), timer: TimerOp::Keep, wait: Some(DrawnWait { base: 2000, extra: 0 }), next: 4 } },
        ClassicStep { inputs: in4, action: Action::Detect { rule: ShinyRule::SpriteOrTime(3250), any_is_target: false, game: Game::DiamondPearl, method: Method::RandomEncounter, done: 9, next: 5, wait: None } },
        ClassicStep { inputs: in5, action: Action::Act { press: Some(Press::Plain(Button::Down)), timer: TimerOp::Keep, wait: Some(DrawnWait { base: 1000, extra: 0 }), next: 6 } },
        ClassicStep { inputs: in6, action: Action::Act { press: Some(Press::Plain(Button::Right)), timer: TimerOp::Keep, wait: Some(DrawnWait { base: 1000, extra: 0 }), next: 7 } },
        ClassicStep { inputs: in7, action: Action::Act { press: Some(Press::Plain(Button::A)), timer: TimerOp::Keep, wait: Some(DrawnWait { base: 1000, extra: 0 }), next: 8 } },
        ClassicStep { inputs: in8, action: Action::Act { press: Some(Press::Plain(Button::A)), timer: TimerOp::Keep, wait: Some(DrawnWait { base: 3000, extra: 0 }), next: 0 } },
        ClassicStep { inputs: in9, action: Action::Stop },
    ];
    let flags = vec![Processing::FRLG_START_ENCOUNTER(), Processing::FRLG_IN_ENCOUNTER(), Processing::FRLG_ENCOUNTER_READY()];
    assert(steps_view(steps@) =~= rs_safari_table(target));
    assert(processings_view(flags@) =~= rs_safari_flags());
    ClassicHunt::new(target, flags, steps, Button::Down, now)
}

/// Starts the FireRed / LeafGreen Safari Zone hunt, at time `now`.
pub fn frlg_safari(target: u32, now: u64) -> (r: ClassicHunt)
    ensures
        r@ == fresh(target, frlg_safari_flags(), frlg_safari_table(target), Button::Down, now),
        r@.wf(),
{
    let in0 = vec![Processing::FRLG_START_ENCOUNTER()];
    assert(processings_view(in0@) =~= seq![frlg_start_encounter()]);
    let in1 = vec![Processing::FRLG_IN_ENCOUNTER()];
    assert(processings_view(in1@) =~= seq![frlg_in_encounter()]);
    let in2 = vec![Processing::FRLG_IN_ENCOUNTER(), Processing::FRLG_ENCOUNTER_READY()];
    assert(processings_view(in2@) =~= seq![frlg_in_encounter(), frlg_encounter_ready()]);
    let in3 = vec![];
    assert(processings_view(in3@) =~= seq![]);
    let sp4 = vec![32, 102, 111, 46, 33, 30, 49, 113, 128];
    assert(sp4@ =~= seq![32, 102, 111, 46, 33, 30, 49, 113, 128]);
    let in4 = vec![Processing::Sprite(Game::FireRedLeafGreen, sp4, false)];
    assert(processings_view(in4@) =~= seq![ProcessingView::Sprite(Game::FireRedLeafGreen, seq![32, 102, 111, 46, 33, 30, 49, 113, 128], false)]);
    let in5 = vec![];
    assert(processings_view(in5@) =~= seq![]);
    let in6 = vec![];
    assert(processings_view(in6@) =~= seq![]);
    let in7 = vec![];
    assert(processings_view(in7@) =~= seq![]);
    let in8 = vec![];
    assert(processings_view(in8@) =~= seq![]);
    let in9 = vec![];
    assert(processings_view(in9@) =~= seq![]);
    let steps = vec![
        ClassicStep { inputs: in0, action: Action::Walk { enter: 0, held: Some(Delay::Twentieth), rotate: Turn { up: Button::Down, down: Button::Up, left: Button::Right, right: Button::Left }, turn: Some(Turn { up: Button::Left, down: Button::Left, left: Button::Up, right: Button::Up }), then_b: false, wait_ms: 100, entering: 1 } },
        ClassicStep { inputs: in1, action: Action::Await { cond: Cond::Met(1), timer: TimerOp::Start, wait: None, next: 2 } },
        ClassicStep { inputs: in2, action: Action::Await { cond: Cond::Met(2), timer: TimerOp::Stop, wait: None, next: 3 } },
        ClassicStep { inputs: in3, action: Action::Act { press: Some(Press::Plain(Button::A)), timer: TimerOp::Keep, wait: Some(DrawnWait { base: 2000, extra: 0 }), next: 4 } },
        ClassicStep { inputs: in4, action: Action::Detect { rule: ShinyRule::SpriteOrTime(2900), any_is_target: false, game: Game::DiamondPearl, method: Method::RandomEncounter, done: 9, next: 5, wait: None } },
        ClassicStep { inputs: in5, action: Action::Act { press: Some(Press::Plain(Button::Down)), timer: TimerOp::Keep, wait: Some(DrawnWait { base: 200, extra: 0 }), next: 6 } },
        ClassicStep { inputs: in6, action: Action::Act { press: Some(Press::Plain(Button::Right)), timer: TimerOp::Keep, wait: Some(DrawnWait { base: 200, extra: 0 }), next: 7 } },
        ClassicStep { inputs: in7, action: Action::Act { press: Some(Press::Plain(Button::A)), timer: TimerOp::Keep, wait: Some(DrawnWait { base: 500, extra: 0 }), next: 8 } },
        ClassicStep { inputs: in8, action: Action::Act { press: Some(Press::Plain(Button::A)), timer: TimerOp::Keep, wait: Some(DrawnWait { base: 3000, extra: 2100 }), next: 0 } },
        ClassicStep { inputs: in9, action: Action::Stop },
    ];
    let flags = vec![Processing::FRLG_START_ENCOUNTER(), Processing::FRLG_IN_ENCOUNTER(), Processing::FRLG_ENCOUNTER_READY()];
    assert(steps_view(steps@) =~= frlg_safari_table(target));
    assert(processings_view(flags@) =~= frlg_safari_flags());
    ClassicHunt::new(target, flags, steps, Button::Down, now)
}

/// Starts the HeartGold / SoulSilver Safari Zone hunt, at time `now`.
pub fn hgss_safari(target: u32, now: u64) -> (r: ClassicHunt)
    ensures
        r@ == fresh(target, hgss_safari_flags(), hgss_safari_table(target), Button::Up, now),
        r@.wf(),
{
    let in0 = vec![];
    assert(processings_view(in0@) =~= seq![]);
    let in1 = vec![];
    assert(processings_view(in1@) =~= seq![]);
    let in2 = vec![];
    assert(processings_view(in2@) =~= seq![]);
    let in3 = vec![];
    assert(processings_view(in3@) =~= seq![]);
    let in4 = vec![];
    assert(processings_view(in4@) =~= seq![]);
    let in5 = vec![];
    assert(processings_view(in5@) =~= seq![]);
    let in6 = vec![Processing::DP_START_ENCOUNTER()];
    assert(processings_view(in6@) =~= seq![dp_start_encounter()]);
    let in7 = vec![Processing::DP_IN_ENCOUNTER()];
    assert(processings_view(in7@) =~= seq![dp_in_encounter()]);
    let in8 = vec![Processing::DP_IN_ENCOUNTER(), Processing::DP_SAFARI_ENCOUNTER_READY()];
    assert(processings_view(in8@) =~= seq![dp_in_encounter(), dp_safari_encounter_ready()]);
    let sp9 = vec![19, 20, 108, 82, 246, 41, 42];
    assert(sp9@ =~= seq![19, 20, 108, 82, 246, 41, 42]);
    let in9 = vec![Processing::Sprite(Game::HeartGoldSoulSilver, sp9, false)];
    assert(processings_view(in9@) =~= seq![ProcessingView::Sprite(Game::HeartGoldSoulSilver, seq![19, 20, 108, 82, 246, 41, 42], false)]);
    let in10 = vec![];
    assert(processings_view(in10@) =~= seq![]);
    let in11 = vec![];
    assert(processings_view(in11@) =~= seq![]);
    let in12 = vec![];
    assert(processings_view(in12@) =~= seq![]);
    let in13 = vec![];
    assert(processings_view(in13@) =~= seq![]);
    let in14 = vec![];
    assert(processings_view(in14@) =~= seq![]);
    let in15 = vec![Processing::DP_IN_ENCOUNTER(), Processing::DP_START_ENCOUNTER()];
    assert(processings_view(in15@) =~= seq![dp_in_encounter(), dp_start_encounter()]);
    let steps = vec![
        ClassicStep { inputs: in0, action: Action::Act { press: None, timer: TimerOp::Keep, wait: None, next: 1 } },
        ClassicStep { inputs: in1, action: Action::Act { press: Some(Press::Plain(Button::X)), timer: TimerOp::Keep, wait: Some(DrawnWait { base: 500, extra: 0 }), next: 2 } },
        ClassicStep { inputs: in2, action: Action::Act { press: Some(Press::Plain(Button::A)), timer: TimerOp::Keep, wait: Some(DrawnWait { base: 1500, extra: 0 }), next: 3 } },
        ClassicStep { inputs: in3, action: Action::Act { press: Some(Press::Plain(Button::A)), timer: TimerOp::Keep, wait: Some(DrawnWait { base: 500, extra: 0 }), next: 4 } },
        ClassicStep { inputs: in4, action: Action::Act { press: Some(Press::Plain(Button::Left)), timer: TimerOp::Keep, wait: Some(DrawnWait { base: 1000, extra: 0 }), next: 5 } },
        ClassicStep { inputs: in5, action: Action::Act { press: Some(Press::Plain(Button::A)), timer: TimerOp::Keep, wait: Some(DrawnWait { base: 2000, extra: 0 }), next: 6 } },
        ClassicStep { inputs: in6, action: Action::Await { cond: Cond::Met(0), timer: TimerOp::Keep, wait: None, next: 7 } },
        ClassicStep { inputs: in7, action: Action::Await { cond: Cond::Met(1), timer: TimerOp::Start, wait: None, next: 8 } },
        ClassicStep { inputs: in8, action: Action::Await { cond: Cond::Met(2), timer: TimerOp::Stop, wait: None, next: 9 } },
        ClassicStep { inputs: in9, action: Action::Detect { rule: ShinyRule::SpriteOrTime(4650), any_is_target: false, game: Game::HeartGoldSoulSilver, method: Method::SafariZone, done: 14, next: 10, wait: Some(DrawnWait { base: 500, extra: 0 }) } },
        ClassicStep { inputs: in10, action: Action::Act { press: Some(Press::Plain(Button::Down)), timer: TimerOp::Keep, wait: Some(DrawnWait { base: 1000, extra: 0 }), next: 11 } },
        ClassicStep { inputs: in11, action: Action::Act { press: Some(Press::Plain(Button::Down)), timer: TimerOp::Keep, wait: Some(DrawnWait { base: 1000, extra: 0 }), next: 12 } },
        ClassicStep { inputs: in12, action: Action::Act { press: Some(Press::Plain(Button::Right)), timer: TimerOp::Keep, wait: Some(DrawnWait { base: 1000, extra: 0 }), next: 13 } },
        ClassicStep { inputs: in13, action: Action::Act { press: Some(Press::Plain(Button::A)), timer: TimerOp::Keep, wait: Some(DrawnWait { base: 4000, extra: 0 }), next: 15 } },
        ClassicStep { inputs: in14, action: Action::Stop },
        ClassicStep { inputs: in15, action: Action::Await { cond: Cond::NeitherMet(0, 1), timer: TimerOp::Keep, wait: Some(2000), next: 0 } },
    ];
    let flags = vec![Processing::DP_START_ENCOUNTER(), Processing::DP_IN_ENCOUNTER(), Processing::DP_SAFARI_ENCOUNTER_READY()];
    assert(steps_view(steps@) =~= hgss_safari_table(target));
    assert(processings_view(flags@) =~= hgss_safari_flags());
    ClassicHunt::new(target, flags, steps, Button::Up, now)
}

/// Starts the Diamond / Pearl Route 202 hunt, at time `now`.
pub fn dp_random(target: u32, now: u64) -> (r: ClassicHunt)
    ensures
        r@ == fresh(target, dp_random_flags(), dp_random_table(target), Button::Up, now),
        r@.wf(),
{
    let in0 = vec![Processing::DP_START_ENCOUNTER()];
    assert(processings_view(in0@) =~= seq![dp_start_encounter()]);
    let in1 = vec![Processing::DP_IN_ENCOUNTER()];
    assert(processings_view(in1@) =~= seq![dp_in_encounter()]);
    let in2 = vec![Processing::DP_IN_ENCOUNTER(), Processing::DP_ENCOUNTER_READY()];
    assert(processings_view(in2@) =~= seq![dp_in_encounter(), dp_encounter_ready()]);
    let sp3 = vec![396, 399, 401, 403];
    assert(sp3@ =~= seq![396, 399, 401, 403]);
    let in3 = vec![Processing::Sprite(Game::DiamondPearl, sp3, false)];
    assert(processings_view(in3@) =~= seq![ProcessingView::Sprite(Game::DiamondPearl, seq![396, 399, 401, 403], false)]);
    let in4 = vec![];
    assert(processings_view(in4@) =~= seq![]);
    let in5 = vec![];
    assert(processings_view(in5@) =~= seq![]);
    let in6 = vec![];
    assert(processings_view(in6@) =~= seq![]);
    let in7 = vec![];
    assert(processings_view(in7@) =~= seq![]);
    let in8 = vec![];
    assert(processings_view(in8@) =~= seq![]);
    let in9 = vec![];
    assert(processings_view(in9@) =~= seq![]);
    let in10 = vec![Processing::DP_IN_ENCOUNTER(), Processing::DP_START_ENCOUNTER()];
    assert(processings_view(in10@) =~= seq![dp_in_encounter(), dp_start_encounter()]);
    let steps = vec![
        ClassicStep { inputs: in0, action: Action::Walk { enter: 0, held: None, rotate: Turn { up: Button::Left, down: Button::Right, left: Button::Down, right: Button::Up }, turn: None, then_b: false, wait_ms: 200, entering: 1 } },
        ClassicStep { inputs: in1, action: Action::Await { cond: Cond::Met(1), timer: TimerOp::Start, wait: None, next: 2 } },
        ClassicStep { inputs: in2, action: Action::Await { cond: Cond::Met(2), timer: TimerOp::Stop, wait: None, next: 3 } },
        ClassicStep { inputs: in3, action: Action::Detect { rule: ShinyRule::SpriteOrTime(10200), any_is_target: false, game: Game::DiamondPearl, method: Method::RandomEncounter, done: 9, next: 4, wait: None } },
        ClassicStep { inputs: in4, action: Action::Act { press: None, timer: TimerOp::Keep, wait: Some(DrawnWait { base: 7000, extra: 0 }), next: 5 } },
        ClassicStep { inputs: in5, action: Action::Act { press: Some(Press::Plain(Button::Down)), timer: TimerOp::Keep, wait: Some(DrawnWait { base: 1000, extra: 0 }), next: 6 } },
        ClassicStep { inputs: in6, action: Action::Act { press: Some(Press::Plain(Button::Down)), timer: TimerOp::Keep, wait: Some(DrawnWait { base: 1000, extra: 0 }), next: 7 } },
        ClassicStep { inputs: in7, action: Action::Act { press: Some(Press::Plain(Button::Right)), timer: TimerOp::Keep, wait: Some(DrawnWait { base: 1000, extra: 0 }), next: 8 } },
        ClassicStep { inputs: in8, action: Action::Act { press: Some(Press::Plain(Button::A)), timer: TimerOp::Keep, wait: Some(DrawnWait { base: 5000, extra: 0 }), next: 10 } },
        ClassicStep { inputs: in9, action: Action::Stop },
        ClassicStep { inputs: in10, action: Action::Await { cond: Cond::NeitherMet(0, 1), timer: TimerOp::Keep, wait: None, next: 0 } },
    ];
    let flags = vec![Processing::DP_START_ENCOUNTER(), Processing::DP_IN_ENCOUNTER(), Processing::DP_ENCOUNTER_READY()];
    assert(steps_view(steps@) =~= dp_random_table(target));
    assert(processings_view(flags@) =~= dp_random_flags());
    ClassicHunt::new(target, flags, steps, Button::Up, now)
}

/// Starts the HeartGold / SoulSilver Route 47 hunt, at time `now`.
pub fn hgss_random(target: u32, now: u64) -> (r: ClassicHunt)
    ensures
        r@ == fresh(target, hgss_random_flags(), hgss_random_table(target), Button::Up, now),
        r@.wf(),
{
    let in0 = vec![Processing::DP_START_ENCOUNTER()];
    assert(processings_view(in0@) =~= seq![dp_start_encounter()]);
    let in1 = vec![Processing::DP_IN_ENCOUNTER()];
    assert(processings_view(in1@) =~= seq![dp_in_encounter()]);
    let in2 = vec![Processing::DP_IN_ENCOUNTER(), Processing::DP_SAFARI_ENCOUNTER_READY()];
    assert(processings_view(in2@) =~= seq![dp_in_encounter(), dp_safari_encounter_ready()]);
    let sp3 = vec![132, 83, 241, 20, 21, 44, 22];
    assert(sp3@ =~= seq![132, 83, 241, 20, 21, 44, 22]);
    let in3 = vec![Processing::Sprite(Game::HeartGoldSoulSilver, sp3, false)];
    assert(processings_view(in3@) =~= seq![ProcessingView::Sprite(Game::HeartGoldSoulSilver, seq![132, 83, 241, 20, 21, 44, 22], false)]);
    let in4 = vec![];
    assert(processings_view(in4@) =~= seq![]);
    let in5 = vec![];
    assert(processings_view(in5@) =~= seq![]);
    let in6 = vec![];
    assert(processings_view(in6@) =~= seq![]);
    let in7 = vec![];
    assert(processings_view(in7@) =~= seq![]);
    let in8 = vec![];
    assert(processings_view(in8@) =~= seq![]);
    let in9 = vec![];
    assert(processings_view(in9@) =~= seq![]);
    let in10 = vec![Processing::DP_IN_ENCOUNTER(), Processing::DP_START_ENCOUNTER()];
    assert(processings_view(in10@) =~= seq![dp_in_encounter(), dp_start_encounter()]);
    let steps = vec![
        ClassicStep { inputs: in0, action: Action::Walk { enter: 0, held: Some(Delay::Twentieth), rotate: Turn { up: Button::Down, down: Button::Up, left: Button::Right, right: Button::Left }, turn: Some(Turn { up: Button::Right, down: Button::Right, left: Button::Up, right: Button::Up }), then_b: true, wait_ms: 200, entering: 1 } },
        ClassicStep { inputs: in1, action: Action::Await { cond: Cond::Met(1), timer: TimerOp::Start, wait: None, next: 2 } },
        ClassicStep { inputs: in2, action: Action::Await { cond: Cond::Met(2), timer: TimerOp::Stop, wait: None, next: 3 } },
        ClassicStep { inputs: in3, action: Action::Detect { rule: ShinyRule::TimeOnly(7075), any_is_target: false, game: Game::HeartGoldSoulSilver, method: Method::RandomEncounter, done: 9, next: 4, wait: None } },
        ClassicStep { inputs: in4, action: Action::Act { press: None, timer: TimerOp::Keep, wait: Some(DrawnWait { base: 2000, extra: 0 }), next: 5 } },
        ClassicStep { inputs: in5, action: Action::Act { press: Some(Press::Plain(Button::Down)), timer: TimerOp::Keep, wait: Some(DrawnWait { base: 1000, extra: 0 }), next: 6 } },
        ClassicStep { inputs: in6, action: Action::Act { press: Some(Press::Plain(Button::Down)), timer: TimerOp::Keep, wait: Some(DrawnWait { base: 1000, extra: 0 }), next: 7 } },
        ClassicStep { inputs: in7, action: Action::Act { press: Some(Press::Plain(Button::Right)), timer: TimerOp::Keep, wait: Some(DrawnWait { base: 1000, extra: 0 }), next: 8 } },
        ClassicStep { inputs: in8, action: Action::Act { press: Some(Press::Plain(Button::A)), timer: TimerOp::Keep, wait: Some(DrawnWait { base: 5000, extra: 0 }), next: 10 } },
        ClassicStep { inputs: in9, action: Action::Stop },
        ClassicStep { inputs: in10, action: Action::Await { cond: Cond::NeitherMet(0, 1), timer: TimerOp::Keep, wait: None, next: 0 } },
    ];
    let flags = vec![Processing::DP_START_ENCOUNTER(), Processing::DP_IN_ENCOUNTER(), Processing::DP_SAFARI_ENCOUNTER_READY()];
    assert(steps_view(steps@) =~= hgss_random_table(target));
    assert(processings_view(flags@) =~= hgss_random_flags());
    ClassicHunt::new(target, flags, steps, Button::Up, now)
}

/// The classic hunt for a species, game and method, when there is one,
/// started at `now`.
pub open spec fn classic_hunt(target: u32, game: Game, method: Method, now: u64) -> Option<ClassicView> {
    if game == Game::FireRedLeafGreen && method == Method::SoftResetGift && (target == 1 || target == 4 || target == 7) {
        Some(fresh(target, frlg_starter_flags(), frlg_starter_table(target), Button::Up, now))
    } else if game == Game::RubySapphire && method == Method::SoftResetEncounter {
        Some(fresh(target, rs_softreset_flags(), rs_softreset_table(target), Button::Up, now))
    } else if game == Game::Black2White2 && method == Method::SoftResetEncounter {
        Some(fresh(target, bw2_softreset_flags(), bw2_softreset_table(target), Button::Up, now))
    } else if game == Game::FireRedLeafGreen && method == Method::RandomEncounter && (target == 16 || target == 19) {
        Some(fresh(target, frlg_random_flags(), frlg_random_table(target), Button::Down, now))
    } else if game == Game::RubySapphire && method == Method::SafariZone && target == 43 {
        Some(fresh(target, rs_safari_flags(), rs_safari_table(target), Button::Down, now))
    } else if game == Game::FireRedLeafGreen && method == Method::SafariZone && target == 102 {
        Some(fresh(target, frlg_safari_flags(), frlg_safari_table(target), Button::Down, now))
    } else if game == Game::HeartGoldSoulSilver && method == Method::SafariZone && target == 19 {
        Some(fresh(target, hgss_safari_flags(), hgss_safari_table(target), Button::Up, now))
    } else if game == Game::DiamondPearl && method == Method::RandomEncounter && (target == 396 || target == 399
        || target == 401 || target == 403) {
        Some(fresh(target, dp_random_flags(), dp_random_table(target), Button::Up, now))
    } else if game == Game::HeartGoldSoulSilver && method == Method::RandomEncounter && target == 132 {
        Some(fresh(target, hgss_random_flags(), hgss_random_table(target), Button::Up, now))
    } else {
        None
    }
}

impl HuntBuild {
    /// The classic hunt for `target` in `game` by `method`, started at
    /// `now`; `Err` when there is none.
    pub fn build_at(target: u32, game: Game, method: Method, now: u64) -> (r: Result<ClassicHunt, ()>)
        ensures
            match classic_hunt(target, game, method, now) {
                Some(v) => r matches Ok(h) && h@ == v && h@.wf(),
                None => r is Err,
            },
    {
        if game == Game::FireRedLeafGreen && method == Method::SoftResetGift && (target == 1 || target == 4 || target == 7) {
            Ok(frlg_starter(target, now))
        } else if game == Game::RubySapphire && method == Method::SoftResetEncounter {
            Ok(rs_softreset(target, now))
        } else if game == Game::Black2White2 && method == Method::SoftResetEncounter {
            Ok(bw2_softreset(target, now))
        } else if game == Game::FireRedLeafGreen && method == Method::RandomEncounter && (target == 16 || target == 19) {
            Ok(frlg_random(target, now))
        } else if game == Game::RubySapphire && method == Method::SafariZone && target == 43 {
            Ok(rs_safari(target, now))
        } else if game == Game::FireRedLeafGreen && method == Method::SafariZone && target == 102 {
            Ok(frlg_safari(target, now))
        } else if game == Game::HeartGoldSoulSilver && method == Method::SafariZone && target == 19 {
            Ok(hgss_safari(target, now))
        } else if game == Game::DiamondPearl && method == Method::RandomEncounter && (target == 396 || target == 399
            || target == 401 || target == 403) {
            Ok(dp_random(target, now))
        } else if game == Game::HeartGoldSoulSilver && method == Method::RandomEncounter && target == 132 {
            Ok(hgss_random(target, now))
        } else {
            Err(())
        }
    }

    /// The classic hunt for `target` in `game` by `method`, started now;
    /// `Err` when there is none.
    pub fn build(target: u32, game: Game, method: Method) -> (r: Result<ClassicHunt, ()>)
        ensures
            match r {
                Ok(h) => classic_hunt(target, game, method, h@.timer) == Some(h@) && h@.wf(),
                Err(_) => classic_hunt(target, game, method, 0) is None,
            },
    {
        Self::build_at(target, game, method, now_millis())
    }
}

/// While a classic hunt waits it presses nothing and reports nothing.
pub proof fn law_classic_wait_is_quiet(h: ClassicView, rs: Seq<ProcessingResultView>, now: u64, drawn: u64)
    requires
        h.wait is Some,
    ensures
        classic_next(h, rs, now, drawn).1 == Seq::<Press>::empty(),
        classic_next(h, rs, now, drawn).2 == (HuntResultView { transition: None, incr_encounters: false }),
{
}

/// A classic hunt counts an encounter exactly when it judges one.
pub proof fn law_classic_counts_judgements(h: ClassicView, rs: Seq<ProcessingResultView>, now: u64, drawn: u64)
    requires
        h.wf(),
    ensures
        classic_next(h, rs, now, drawn).2.incr_encounters == (h.wait is None && h.action() is Detect),
{
}

/// A classic hunt that has stopped stays as it is.
pub proof fn law_classic_stop_is_final(h: ClassicView, rs: Seq<ProcessingResultView>, now: u64, drawn: u64)
    requires
        h.wait is None,
        h.action() is Stop,
    ensures
        classic_next(h, rs, now, drawn) == (h, Seq::<Press>::empty(), HuntResultView { transition: None, incr_encounters: false }),
{
}

/// A classic hunt reports a find only when it judges an encounter, and
/// then stops at the step named for a find.
pub proof fn law_classic_finds_stop(h: ClassicView, rs: Seq<ProcessingResultView>, now: u64, drawn: u64)
    requires
        h.wf(),
        classic_next(h, rs, now, drawn).2.transition is Some,
    ensures
        h.wait is None,
        h.action() matches Action::Detect { done, .. } && classic_next(h, rs, now, drawn).0.current == done,
{
}

/// Whether check `p` was last reported met: there is a result for `p`, and
/// the latest such result is met.
pub open spec fn latest_met(rs: Seq<ProcessingResultView>, p: ProcessingView) -> bool {
    exists|k: int| 0 <= k < rs.len() && rs[k].process == p && #[trigger] rs[k].met
        && forall|j: int| k < j < rs.len() ==> rs[j].process != p
}

/// A check counts as met exactly when its latest result in the frame is
/// met; a check with no result in the frame is not met.
pub proof fn law_met_is_the_latest_result(rs: Seq<ProcessingResultView>, p: ProcessingView)
    ensures
        last_met(rs, p) == latest_met(rs, p),
    decreases rs.len(),
{
    if rs.len() > 0 {
        let k = rs.len() - 1;
        law_met_is_the_latest_result(rs.drop_last(), p);
        if rs.last().process == p {
            if rs.last().met {
                assert(rs[k].met);
            } else if latest_met(rs, p) {
                let k2 = choose|k2: int| 0 <= k2 < rs.len() && rs[k2].process == p && #[trigger] rs[k2].met
                    && forall|j: int| k2 < j < rs.len() ==> rs[j].process != p;
                assert(k2 == k);
            }
        } else {
            let d = rs.drop_last();
            if latest_met(d, p) {
                let k2 = choose|k2: int| 0 <= k2 < d.len() && d[k2].process == p && #[trigger] d[k2].met
                    && forall|j: int| k2 < j < d.len() ==> d[j].process != p;
                assert(rs[k2].met);
                assert forall|j: int| k2 < j < rs.len() implies rs[j].process != p by {
                    if j < k {
                        assert(rs[j] == d[j]);
                    }
                }
            }
            if latest_met(rs, p) {
                let k2 = choose|k2: int| 0 <= k2 < rs.len() && rs[k2].process == p && #[trigger] rs[k2].met
                    && forall|j: int| k2 < j < rs.len() ==> rs[j].process != p;
                assert(k2 < k);
                assert(d[k2].met);
                assert(forall|j: int| k2 < j < d.len() ==> d[j].process != p);
            }
        }
    }
}

/// The conditions of a waiting step: `Met(i)` holds when check `i` is met,
/// `MetNot(i, j)` when `i` is met and `j` is not, and `NeitherMet(i, j)`
/// only when neither is met, so it fails as soon as either one is.
pub proof fn law_conditions_read_the_checks(flags: Seq<ProcessingView>, rs: Seq<ProcessingResultView>, i: usize, j: usize)
    ensures
        cond_holds(Cond::Met(i), flags, rs) == latest_met(rs, flags[i as int]),
        cond_holds(Cond::MetNot(i, j), flags, rs)
            == (latest_met(rs, flags[i as int]) && !latest_met(rs, flags[j as int])),
        latest_met(rs, flags[i as int]) ==> !cond_holds(Cond::NeitherMet(i, j), flags, rs),
        latest_met(rs, flags[j as int]) ==> !cond_holds(Cond::NeitherMet(i, j), flags, rs),
        !latest_met(rs, flags[i as int]) && !latest_met(rs, flags[j as int])
            ==> cond_holds(Cond::NeitherMet(i, j), flags, rs),
{
    law_met_is_the_latest_result(rs, flags[i as int]);
    law_met_is_the_latest_result(rs, flags[j as int]);
}

/// A step that waits for both of two screens to be gone stays where it is,
/// pressing and reporting nothing, while either screen is still seen.
pub proof fn law_waiting_for_neither_stays_while_one_is_seen(h: ClassicView, rs: Seq<ProcessingResultView>,
    now: u64, drawn: u64, i: usize, j: usize)
    requires
        h.wf(),
        h.wait is None,
        h.action() matches Action::Await { cond, .. } && cond == Cond::NeitherMet(i, j),
        latest_met(rs, h.flags[i as int]) || latest_met(rs, h.flags[j as int]),
    ensures
        classic_next(h, rs, now, drawn)
            == (h, Seq::<Press>::empty(), HuntResultView { transition: None, incr_encounters: false }),
{
    law_conditions_read_the_checks(h.flags, rs, i, j);
}

} // verus!
