//! Hunts are written as lists of state descriptions, in fragments: what to
//! press, how long to wait, what to look for, and where to go next.
use vstd::prelude::*;
use std::ops::Range;
use crate::app::states::{Game, Method};
use crate::hunt::checks::{Check, CheckView, ShinyDetect};
use crate::hunt::state_machine::HuntStateOutput;
use crate::vision::{Processing, ProcessingView, processings_view, copy_processings};
use crate::fsm::{StateId, StateMachine, StateCheck, StateView, MachineView, checks_view};
use crate::hunt::state_machine::{HuntFSM, closed_targets, InternalHuntState};
use crate::text::{decimal, u64_to_string};

verus! {

/// The names of the states of one hunt fragment. Each has a number that
/// tells it apart from the others and a name that is shown.
pub trait StateTag: Copy {
    spec fn spec_tag_id(&self) -> u64;

    spec fn spec_tag_name(&self) -> Seq<char>;

    fn tag_id(&self) -> (r: u64)
        ensures
            r == self.spec_tag_id();

    fn tag_name(&self) -> (r: String)
        ensures
            r@ == self.spec_tag_name();
}

/// A state and the state it leads to when its condition holds.
pub struct Branch2<K> {
    pub tag: K,
    pub to_met: K,
}

/// A state and the states it leads to when its condition holds or not.
pub struct Branch3<K> {
    pub tag: K,
    pub to_met: K,
    pub to_not: K,
}

impl<K> Branch2<K> {
    pub fn new(tag: K, to_met: K) -> (r: Self)
        ensures
            r.tag == tag,
            r.to_met == to_met,
    {
        Branch2 { tag, to_met }
    }
}

impl<K> Branch3<K> {
    pub fn new(tag: K, to_met: K, to_not: K) -> (r: Self)
        ensures
            r.tag == tag,
            r.to_met == to_met,
            r.to_not == to_not,
    {
        Branch3 { tag, to_met, to_not }
    }
}

/// One state of a fragment: its name, the processing it asks for, the
/// buttons it presses, its delay (ms), and its checks, at most one per
/// target state.
pub struct StateDescription<K> {
    tag: K,
    inputs: Vec<Processing>,
    buttons: Vec<HuntStateOutput>,
    delay_msecs: Range<u64>,
    check: Vec<(K, Check)>,
}

/// The abstract value of a [`StateDescription`].
pub struct DescView {
    pub tag: u64,
    pub name: Seq<char>,
    pub inputs: Seq<ProcessingView>,
    pub buttons: Seq<HuntStateOutput>,
    pub delay_lo: u64,
    pub delay_hi: u64,
    pub checks: Seq<(u64, CheckView)>,
}

/// The abstract value of a list of tagged checks.
pub open spec fn tagged_checks_view<K: StateTag>(cs: Seq<(K, Check)>) -> Seq<(u64, CheckView)> {
    cs.map_values(|c: (K, Check)| (c.0.spec_tag_id(), c.1@))
}

/// Whether no two checks lead to the same state.
pub open spec fn distinct_targets(cs: Seq<(u64, CheckView)>) -> bool {
    forall|i: int, j: int| 0 <= i < j < cs.len() ==> cs[i].0 != cs[j].0
}

/// A description with no processing, no presses and no delay.
pub open spec fn plain(tag: u64, name: Seq<char>, checks: Seq<(u64, CheckView)>) -> DescView {
    DescView { tag, name, inputs: Seq::empty(), buttons: Seq::empty(), delay_lo: 0, delay_hi: 0, checks }
}

/// The checks `(k1, c1)` then `(k2, c2)`, the second replacing the first when
/// both lead to the same state.
pub open spec fn two_checks(k1: u64, c1: CheckView, k2: u64, c2: CheckView) -> Seq<(u64, CheckView)> {
    if k1 == k2 { seq![(k2, c2)] } else { seq![(k1, c1), (k2, c2)] }
}

/// The shiny detection of a sprite state.
pub open spec fn detect(three_ds: bool, with_star: bool, threshold: u64, uses_threshold: bool, target: u32, game: Game, method: Method) -> ShinyDetect {
    ShinyDetect { three_ds, with_star, threshold, uses_threshold, target, game, method }
}

/// The description of a state that presses `buttons` and moves on after a
/// delay of `lo` to `hi` ms.
pub open spec fn linear_desc<K: StateTag>(tag: K, buttons: Seq<HuntStateOutput>, lo: u64, hi: u64) -> DescView {
    DescView {
        tag: tag.spec_tag_id(),
        name: tag.spec_tag_name(),
        inputs: Seq::empty(),
        buttons,
        delay_lo: lo,
        delay_hi: hi,
        checks: Seq::empty(),
    }
}

/// The description of a state with the single check `c`, leading to `to`.
pub open spec fn step_desc<K: StateTag>(tag: K, to: K, c: CheckView) -> DescView {
    plain(tag.spec_tag_id(), tag.spec_tag_name(), seq![(to.spec_tag_id(), c)])
}

/// The description of a state that moves to `to` after a delay of `lo` to
/// `hi` ms.
pub open spec fn wait_desc<K: StateTag>(tag: K, to: K, lo: u64, hi: u64) -> DescView {
    DescView {
        tag: tag.spec_tag_id(),
        name: tag.spec_tag_name(),
        inputs: Seq::empty(),
        buttons: Seq::empty(),
        delay_lo: lo,
        delay_hi: hi,
        checks: seq![(to.spec_tag_id(), CheckView::Always)],
    }
}

/// The description of a state with the checks `c1` leading to `k1` and `c2`
/// leading to `k2`.
pub open spec fn fork_desc<K: StateTag>(tag: K, k1: K, c1: CheckView, k2: K, c2: CheckView) -> DescView {
    plain(tag.spec_tag_id(), tag.spec_tag_name(), two_checks(k1.spec_tag_id(), c1, k2.spec_tag_id(), c2))
}

/// The description of a state that asks for `p`, presses `buttons`, and
/// moves to `met` when `p` is met, else to `not`.
pub open spec fn process_desc<K: StateTag>(
    tag: K,
    met: K,
    not: K,
    p: ProcessingView,
    start_timer: bool,
    end_timer: bool,
    buttons: Seq<HuntStateOutput>,
    lo: u64,
    hi: u64,
) -> DescView {
    DescView {
        tag: tag.spec_tag_id(),
        name: tag.spec_tag_name(),
        inputs: seq![p],
        buttons,
        delay_lo: lo,
        delay_hi: hi,
        checks: two_checks(met.spec_tag_id(), CheckView::ProcessMet(p, start_timer, end_timer),
            not.spec_tag_id(), CheckView::ProcessNotMet(p)),
    }
}

/// The description of a state that asks for `inputs` and moves to `met`
/// when the encounter is shiny, else to `not`.
pub open spec fn sprite_desc<K: StateTag>(tag: K, met: K, not: K, inputs: Seq<ProcessingView>, d: ShinyDetect) -> DescView {
    DescView {
        inputs,
        ..plain(tag.spec_tag_id(), tag.spec_tag_name(),
            two_checks(met.spec_tag_id(), CheckView::ShinyFound(d), not.spec_tag_id(), CheckView::ShinyNotFound(d)))
    }
}

/// `d` with a delay of `lo` to `hi` ms.
pub open spec fn with_delay(d: DescView, lo: u64, hi: u64) -> DescView {
    DescView { delay_lo: lo, delay_hi: hi, ..d }
}

fn pair<K: StateTag>(k1: K, c1: Check, k2: K, c2: Check) -> (r: Vec<(K, Check)>)
    ensures
        tagged_checks_view(r@) == two_checks(k1.spec_tag_id(), c1@, k2.spec_tag_id(), c2@),
        distinct_targets(tagged_checks_view(r@)),
{
    let mut v = Vec::new();
    if k1.tag_id() != k2.tag_id() {
        v.push((k1, c1));
    }
    v.push((k2, c2));
    assert(tagged_checks_view(v@) =~= two_checks(k1.spec_tag_id(), c1@, k2.spec_tag_id(), c2@));
    v
}

fn single<K: StateTag>(k: K, c: Check) -> (r: Vec<(K, Check)>)
    ensures
        tagged_checks_view(r@) == seq![(k.spec_tag_id(), c@)],
{
    let v = vec![(k, c)];
    assert(tagged_checks_view(v@) =~= seq![(k.spec_tag_id(), c@)]);
    v
}

impl<K: StateTag> StateDescription<K> {
    /// The abstract value of the description.
    pub closed spec fn view_desc(&self) -> DescView {
        DescView {
            tag: self.tag.spec_tag_id(),
            name: self.tag.spec_tag_name(),
            inputs: processings_view(self.inputs@),
            buttons: self.buttons@,
            delay_lo: self.delay_msecs.start,
            delay_hi: self.delay_msecs.end,
            checks: tagged_checks_view(self.check@),
        }
    }

    /// Whether no two checks lead to the same state.
    pub open spec fn well_keyed(&self) -> bool {
        distinct_targets(self.view_desc().checks)
    }

    /// A description from its parts; the checks are keyed by target state.
    pub fn new(
        tag: K,
        inputs: Vec<Processing>,
        buttons: Vec<HuntStateOutput>,
        delay_msecs: Range<u64>,
        check: Vec<(K, Check)>,
    ) -> (r: Self)
        requires
            distinct_targets(tagged_checks_view(check@)),
        ensures
            r.well_keyed(),
            r.view_desc() == (DescView {
                tag: tag.spec_tag_id(),
                name: tag.spec_tag_name(),
                inputs: processings_view(inputs@),
                buttons: buttons@,
                delay_lo: delay_msecs.start,
                delay_hi: delay_msecs.end,
                checks: tagged_checks_view(check@),
            }),
    {
        StateDescription { tag, inputs, buttons, delay_msecs, check }
    }

    /// Sets the counter to `value` and moves to `to`.
    pub fn set_counter_state(tag: K, to: K, value: usize) -> (r: Self)
        ensures
            r.well_keyed(),
            r.view_desc() == plain(tag.spec_tag_id(), tag.spec_tag_name(), seq![(to.spec_tag_id(), CheckView::SetCounter(value))]),
    {
        let r = Self::new(tag, vec![], vec![], 0..0, single(to, Check::SetCounter(value)));
        assert(processings_view(r.inputs@) =~= Seq::empty());
        r
    }

    /// Moves to `to` after the delay.
    pub fn branch_state(tag: K, to: K, delay: Range<u64>) -> (r: Self)
        ensures
            r.well_keyed(),
            r.view_desc() == (DescView {
                delay_lo: delay.start,
                delay_hi: delay.end,
                ..plain(tag.spec_tag_id(), tag.spec_tag_name(), seq![(to.spec_tag_id(), CheckView::Always)])
            }),
    {
        let r = Self::new(tag, vec![], vec![], delay, single(to, Check::Always));
        assert(processings_view(r.inputs@) =~= Seq::empty());
        r
    }

    /// Starts the timer and moves to `to`.
    pub fn start_timer_state(tag: K, to: K) -> (r: Self)
        ensures
            r.well_keyed(),
            r.view_desc() == plain(tag.spec_tag_id(), tag.spec_tag_name(), seq![(to.spec_tag_id(), CheckView::StartTimer)]),
    {
        let r = Self::new(tag, vec![], vec![], 0..0, single(to, Check::StartTimer));
        assert(processings_view(r.inputs@) =~= Seq::empty());
        r
    }

    /// Stores the time since the timer started and moves to `to`.
    pub fn update_timer_state(tag: K, to: K) -> (r: Self)
        ensures
            r.well_keyed(),
            r.view_desc() == plain(tag.spec_tag_id(), tag.spec_tag_name(), seq![(to.spec_tag_id(), CheckView::UpdateTimer)]),
    {
        let r = Self::new(tag, vec![], vec![], 0..0, single(to, Check::UpdateTimer));
        assert(processings_view(r.inputs@) =~= Seq::empty());
        r
    }

    /// Moves to `to_met` once more than `delay` ms have passed since the timer
    /// started, else to `to_not`.
    pub fn branch_delay_state(branch: Branch3<K>, delay: u64) -> (r: Self)
        ensures
            r.well_keyed(),
            r.view_desc() == plain(branch.tag.spec_tag_id(), branch.tag.spec_tag_name(),
                two_checks(branch.to_met.spec_tag_id(), CheckView::ElapsedOver(delay),
                    branch.to_not.spec_tag_id(), CheckView::ElapsedNotOver(delay))),
    {
        let Branch3 { tag, to_met, to_not } = branch;
        let r = Self::new(tag, vec![], vec![], 0..0, pair(to_met, Check::ElapsedOver(delay), to_not, Check::ElapsedNotOver(delay)));
        assert(processings_view(r.inputs@) =~= Seq::empty());
        r
    }

    /// Moves to `to_met` when the stored duration is above `delay` ms, else to
    /// `to_not`.
    pub fn branch_last_delay_state(branch: Branch3<K>, delay: u64) -> (r: Self)
        ensures
            r.well_keyed(),
            r.view_desc() == plain(branch.tag.spec_tag_id(), branch.tag.spec_tag_name(),
                two_checks(branch.to_met.spec_tag_id(), CheckView::LastOver(delay),
                    branch.to_not.spec_tag_id(), CheckView::LastNotOver(delay))),
    {
        let Branch3 { tag, to_met, to_not } = branch;
        let r = Self::new(tag, vec![], vec![], 0..0, pair(to_met, Check::LastOver(delay), to_not, Check::LastNotOver(delay)));
        assert(processings_view(r.inputs@) =~= Seq::empty());
        r
    }

    /// As [`Self::branch_last_delay_state`], waiting `delay_msecs` in the
    /// state before the choice is made.
    pub fn branch_last_delay_state_plus_range(branch: Branch3<K>, delay: u64, delay_msecs: Range<u64>) -> (r: Self)
        ensures
            r.well_keyed(),
            r.view_desc() == with_delay(plain(branch.tag.spec_tag_id(), branch.tag.spec_tag_name(),
                two_checks(branch.to_met.spec_tag_id(), CheckView::LastOver(delay),
                    branch.to_not.spec_tag_id(), CheckView::LastNotOver(delay))), delay_msecs.start, delay_msecs.end),
    {
        let Branch3 { tag, to_met, to_not } = branch;
        let r = Self::new(tag, vec![], vec![], delay_msecs, pair(to_met, Check::LastOver(delay), to_not, Check::LastNotOver(delay)));
        assert(processings_view(r.inputs@) =~= Seq::empty());
        r
    }

    /// Moves to `zero` when the counter is zero, else to `nonzero`.
    pub fn choose_counter_state(tag: K, zero: K, nonzero: K) -> (r: Self)
        ensures
            r.well_keyed(),
            r.view_desc() == plain(tag.spec_tag_id(), tag.spec_tag_name(),
                two_checks(zero.spec_tag_id(), CheckView::CounterEq(0), nonzero.spec_tag_id(), CheckView::CounterNe(0))),
    {
        let r = Self::new(tag, vec![], vec![], 0..0, pair(zero, Check::CounterEq(0), nonzero, Check::CounterNe(0)));
        assert(processings_view(r.inputs@) =~= Seq::empty());
        r
    }

    /// Moves to `equal` when the counter is `value`, else to `nonequal`.
    pub fn choose_counter_state_val(tag: K, equal: K, nonequal: K, value: usize) -> (r: Self)
        ensures
            r.well_keyed(),
            r.view_desc() == plain(tag.spec_tag_id(), tag.spec_tag_name(),
                two_checks(equal.spec_tag_id(), CheckView::CounterEq(value), nonequal.spec_tag_id(), CheckView::CounterNe(value))),
    {
        let r = Self::new(tag, vec![], vec![], 0..0, pair(equal, Check::CounterEq(value), nonequal, Check::CounterNe(value)));
        assert(processings_view(r.inputs@) =~= Seq::empty());
        r
    }

    /// Decrements the counter and moves to `to`.
    pub fn decr_counter_state(tag: K, to: K) -> (r: Self)
        ensures
            r.well_keyed(),
            r.view_desc() == plain(tag.spec_tag_id(), tag.spec_tag_name(), seq![(to.spec_tag_id(), CheckView::DecrCounter)]),
    {
        let r = Self::new(tag, vec![], vec![], 0..0, single(to, Check::DecrCounter));
        assert(processings_view(r.inputs@) =~= Seq::empty());
        r
    }

    /// Increments the counter and moves to `to`.
    pub fn incr_counter_state(tag: K, to: K) -> (r: Self)
        ensures
            r.well_keyed(),
            r.view_desc() == plain(tag.spec_tag_id(), tag.spec_tag_name(), seq![(to.spec_tag_id(), CheckView::IncrCounter)]),
    {
        let r = Self::new(tag, vec![], vec![], 0..0, single(to, Check::IncrCounter));
        assert(processings_view(r.inputs@) =~= Seq::empty());
        r
    }

    /// Moves to `set` when the toggle is set, else to `clear`.
    pub fn choose_toggle_state(tag: K, set: K, clear: K) -> (r: Self)
        ensures
            r.well_keyed(),
            r.view_desc() == plain(tag.spec_tag_id(), tag.spec_tag_name(),
                two_checks(set.spec_tag_id(), CheckView::ToggleSet, clear.spec_tag_id(), CheckView::ToggleClear)),
    {
        let r = Self::new(tag, vec![], vec![], 0..0, pair(set, Check::ToggleSet, clear, Check::ToggleClear));
        assert(processings_view(r.inputs@) =~= Seq::empty());
        r
    }

    /// Flips the toggle and moves to `to`.
    pub fn toggle_state(tag: K, to: K) -> (r: Self)
        ensures
            r.well_keyed(),
            r.view_desc() == plain(tag.spec_tag_id(), tag.spec_tag_name(), seq![(to.spec_tag_id(), CheckView::Toggle)]),
    {
        let r = Self::new(tag, vec![], vec![], 0..0, single(to, Check::Toggle));
        assert(processings_view(r.inputs@) =~= Seq::empty());
        r
    }

    /// Allows heartbeats and moves to `to`.
    pub fn set_atomic_state(tag: K, to: K) -> (r: Self)
        ensures
            r.well_keyed(),
            r.view_desc() == plain(tag.spec_tag_id(), tag.spec_tag_name(), seq![(to.spec_tag_id(), CheckView::SetHeartbeat)]),
    {
        let r = Self::new(tag, vec![], vec![], 0..0, single(to, Check::SetHeartbeat));
        assert(processings_view(r.inputs@) =~= Seq::empty());
        r
    }

    /// Stops heartbeats and moves to `to`.
    pub fn clear_atomic_state(tag: K, to: K) -> (r: Self)
        ensures
            r.well_keyed(),
            r.view_desc() == plain(tag.spec_tag_id(), tag.spec_tag_name(), seq![(to.spec_tag_id(), CheckView::ClearHeartbeat)]),
    {
        let r = Self::new(tag, vec![], vec![], 0..0, single(to, Check::ClearHeartbeat));
        assert(processings_view(r.inputs@) =~= Seq::empty());
        r
    }

    /// Presses `buttons` and moves on to the next state of the fragment at
    /// once.
    pub fn linear_state_no_delay(tag: K, buttons: Vec<HuntStateOutput>) -> (r: Self)
        ensures
            r.well_keyed(),
            r.view_desc() == (DescView { buttons: buttons@, ..plain(tag.spec_tag_id(), tag.spec_tag_name(), Seq::empty()) }),
    {
        Self::linear_state(tag, buttons, 0..0)
    }

    /// Presses `buttons` and moves on to the next state of the fragment after
    /// the delay.
    pub fn linear_state(tag: K, buttons: Vec<HuntStateOutput>, delay_msecs: Range<u64>) -> (r: Self)
        ensures
            r.well_keyed(),
            r.view_desc() == (DescView {
                buttons: buttons@,
                delay_lo: delay_msecs.start,
                delay_hi: delay_msecs.end,
                ..plain(tag.spec_tag_id(), tag.spec_tag_name(), Seq::empty())
            }),
    {
        let r = Self::new(tag, Vec::new(), buttons, delay_msecs, Vec::new());
        assert(processings_view(r.inputs@) =~= Seq::empty());
        assert(tagged_checks_view(r.check@) =~= Seq::empty());
        r
    }

    /// Stays in this state for good.
    pub fn deadend_state(tag: K) -> (r: Self)
        ensures
            r.well_keyed(),
            r.view_desc() == plain(tag.spec_tag_id(), tag.spec_tag_name(), seq![(tag.spec_tag_id(), CheckView::Always)]),
    {
        let r = Self::new(tag, Vec::new(), Vec::new(), 0..0, single(tag, Check::Always));
        assert(processings_view(r.inputs@) =~= Seq::empty());
        r
    }

    fn simple_process_state_helper(
        branch: Branch3<K>,
        processing: Processing,
        output: Vec<HuntStateOutput>,
        delay_msecs: Range<u64>,
        start_timer: bool,
        end_timer: bool,
    ) -> (r: Self)
        ensures
            r.well_keyed(),
            r.view_desc() == (DescView {
                tag: branch.tag.spec_tag_id(),
                name: branch.tag.spec_tag_name(),
                inputs: seq![processing@],
                buttons: output@,
                delay_lo: delay_msecs.start,
                delay_hi: delay_msecs.end,
                checks: two_checks(branch.to_met.spec_tag_id(), CheckView::ProcessMet(processing@, start_timer, end_timer),
                    branch.to_not.spec_tag_id(), CheckView::ProcessNotMet(processing@)),
            }),
    {
        let Branch3 { tag, to_met, to_not } = branch;
        let p1 = processing.duplicate();
        let p2 = processing.duplicate();
        let checks = pair(to_met, Check::ProcessMet(p1, start_timer, end_timer), to_not, Check::ProcessNotMet(p2));
        let inputs = vec![processing];
        assert(processings_view(inputs@) =~= seq![processing@]);
        Self::new(tag, inputs, output, delay_msecs, checks)
    }

    /// Waits for `processing` to be met, then moves to `to_met`.
    pub fn simple_process_state_no_output(branch: Branch2<K>, processing: Processing) -> (r: Self)
        ensures
            r.well_keyed(),
            r.view_desc() == (DescView {
                inputs: seq![processing@],
                ..plain(branch.tag.spec_tag_id(), branch.tag.spec_tag_name(),
                    two_checks(branch.to_met.spec_tag_id(), CheckView::ProcessMet(processing@, false, false),
                        branch.tag.spec_tag_id(), CheckView::ProcessNotMet(processing@)))
            }),
    {
        let Branch2 { tag, to_met } = branch;
        let r = Self::simple_process_state_helper(Branch3::new(tag, to_met, tag), processing, vec![], 0..0, false, false);
        r
    }

    /// Moves to `to_met` when `processing` is met, else to `to_not`.
    pub fn simple_process_state_no_output3(branch: Branch3<K>, processing: Processing) -> (r: Self)
        ensures
            r.well_keyed(),
            r.view_desc() == (DescView {
                inputs: seq![processing@],
                ..plain(branch.tag.spec_tag_id(), branch.tag.spec_tag_name(),
                    two_checks(branch.to_met.spec_tag_id(), CheckView::ProcessMet(processing@, false, false),
                        branch.to_not.spec_tag_id(), CheckView::ProcessNotMet(processing@)))
            }),
    {
        Self::simple_process_state_helper(branch, processing, vec![], 0..0, false, false)
    }

    /// Waits for `processing` to be met, then starts the timer and moves to
    /// `to_met`.
    pub fn simple_process_state_no_output_start_timer(branch: Branch2<K>, processing: Processing) -> (r: Self)
        ensures
            r.well_keyed(),
            r.view_desc() == (DescView {
                inputs: seq![processing@],
                ..plain(branch.tag.spec_tag_id(), branch.tag.spec_tag_name(),
                    two_checks(branch.to_met.spec_tag_id(), CheckView::ProcessMet(processing@, true, false),
                        branch.tag.spec_tag_id(), CheckView::ProcessNotMet(processing@)))
            }),
    {
        let Branch2 { tag, to_met } = branch;
        Self::simple_process_state_helper(Branch3::new(tag, to_met, tag), processing, vec![], 0..0, true, false)
    }

    /// Waits for `processing` to be met, then stores the time since the timer
    /// started and moves to `to_met`.
    pub fn simple_process_state_no_output_end_timer(branch: Branch2<K>, processing: Processing) -> (r: Self)
        ensures
            r.well_keyed(),
            r.view_desc() == (DescView {
                inputs: seq![processing@],
                ..plain(branch.tag.spec_tag_id(), branch.tag.spec_tag_name(),
                    two_checks(branch.to_met.spec_tag_id(), CheckView::ProcessMet(processing@, false, true),
                        branch.tag.spec_tag_id(), CheckView::ProcessNotMet(processing@)))
            }),
    {
        let Branch2 { tag, to_met } = branch;
        Self::simple_process_state_helper(Branch3::new(tag, to_met, tag), processing, vec![], 0..0, false, true)
    }

    /// Presses `output`, then moves to `to_met` when `processing` is met,
    /// else to `to_not`, after the delay.
    pub fn simple_process_state(branch: Branch3<K>, processing: Processing, output: HuntStateOutput, delay_msecs: Range<u64>) -> (r: Self)
        ensures
            r.well_keyed(),
            r.view_desc() == (DescView {
                tag: branch.tag.spec_tag_id(),
                name: branch.tag.spec_tag_name(),
                inputs: seq![processing@],
                buttons: seq![output],
                delay_lo: delay_msecs.start,
                delay_hi: delay_msecs.end,
                checks: two_checks(branch.to_met.spec_tag_id(), CheckView::ProcessMet(processing@, false, false),
                    branch.to_not.spec_tag_id(), CheckView::ProcessNotMet(processing@)),
            }),
    {
        let out = vec![output];
        assert(out@ =~= seq![output]);
        Self::simple_process_state_helper(branch, processing, out, delay_msecs, false, false)
    }

    /// Reports that the target was found and moves to `next`.
    pub fn found_target_state(tag: K, next: K) -> (r: Self)
        ensures
            r.well_keyed(),
            r.view_desc() == plain(tag.spec_tag_id(), tag.spec_tag_name(), seq![(next.spec_tag_id(), CheckView::FoundTarget)]),
    {
        let r = Self::new(tag, vec![], vec![], 0..0, single(next, Check::FoundTarget));
        assert(processings_view(r.inputs@) =~= Seq::empty());
        r
    }

    /// Reports one more encounter and moves to `next`.
    pub fn incr_encounter_state(tag: K, next: K) -> (r: Self)
        ensures
            r.well_keyed(),
            r.view_desc() == plain(tag.spec_tag_id(), tag.spec_tag_name(), seq![(next.spec_tag_id(), CheckView::IncrEncounter)]),
    {
        let r = Self::new(tag, vec![], vec![], 0..0, single(next, Check::IncrEncounter));
        assert(processings_view(r.inputs@) =~= Seq::empty());
        r
    }

    fn sprite_state(branch: Branch3<K>, inputs: Vec<Processing>, d: ShinyDetect) -> (r: Self)
        ensures
            r.well_keyed(),
            r.view_desc() == (DescView {
                inputs: processings_view(inputs@),
                ..plain(branch.tag.spec_tag_id(), branch.tag.spec_tag_name(),
                    two_checks(branch.to_met.spec_tag_id(), CheckView::ShinyFound(d),
                        branch.to_not.spec_tag_id(), CheckView::ShinyNotFound(d)))
            }),
    {
        let Branch3 { tag, to_met, to_not } = branch;
        Self::new(tag, inputs, vec![], 0..0, pair(to_met, Check::ShinyFound(d), to_not, Check::ShinyNotFound(d)))
    }

    /// Looks for `species` and decides whether it is shiny from its sprite.
    pub fn simple_sprite_state(branch: Branch3<K>, game: &Game, method: &Method, species: u32, target: u32) -> (r: Self)
        ensures
            r.well_keyed(),
            r.view_desc() == (DescView {
                inputs: seq![ProcessingView::Sprite(*game, seq![species], false)],
                ..plain(branch.tag.spec_tag_id(), branch.tag.spec_tag_name(),
                    two_checks(branch.to_met.spec_tag_id(), CheckView::ShinyFound(detect(false, false, 0, false, target, *game, *method)),
                        branch.to_not.spec_tag_id(), CheckView::ShinyNotFound(detect(false, false, 0, false, target, *game, *method))))
            }),
    {
        Self::simple_sprite_state_flip(branch, game, method, species, target, false)
    }

    /// Looks for `species`, flipped or not, and decides whether it is shiny
    /// from its sprite.
    pub fn simple_sprite_state_flip(branch: Branch3<K>, game: &Game, method: &Method, species: u32, target: u32, flip: bool) -> (r: Self)
        ensures
            r.well_keyed(),
            r.view_desc() == (DescView {
                inputs: seq![ProcessingView::Sprite(*game, seq![species], flip)],
                ..plain(branch.tag.spec_tag_id(), branch.tag.spec_tag_name(),
                    two_checks(branch.to_met.spec_tag_id(), CheckView::ShinyFound(detect(false, false, 0, false, target, *game, *method)),
                        branch.to_not.spec_tag_id(), CheckView::ShinyNotFound(detect(false, false, 0, false, target, *game, *method))))
            }),
    {
        let sp = vec![species];
        assert(sp@ =~= seq![species]);
        let inputs = vec![Processing::Sprite(*game, sp, flip)];
        assert(processings_view(inputs@) =~= seq![ProcessingView::Sprite(*game, seq![species], flip)]);
        Self::sprite_state(branch, inputs, ShinyDetect {
            three_ds: false, with_star: false, threshold: 0, uses_threshold: false, target, game: *game, method: *method,
        })
    }

    /// As `simple_sprite_state_flip`, where the shiny star of the summary
    /// screen also counts.
    pub fn simple_sprite_state_flip_w_star(branch: Branch3<K>, game: &Game, method: &Method, species: u32, target: u32, flip: bool) -> (r: Self)
        ensures
            r.well_keyed(),
            r.view_desc() == (DescView {
                inputs: seq![ProcessingView::Sprite(*game, seq![species], flip), crate::hunt::checks::frlg_star_view()],
                ..plain(branch.tag.spec_tag_id(), branch.tag.spec_tag_name(),
                    two_checks(branch.to_met.spec_tag_id(), CheckView::ShinyFound(detect(false, true, 0, false, target, *game, *method)),
                        branch.to_not.spec_tag_id(), CheckView::ShinyNotFound(detect(false, true, 0, false, target, *game, *method))))
            }),
    {
        let sp = vec![species];
        assert(sp@ =~= seq![species]);
        let inputs = vec![Processing::Sprite(*game, sp, flip), Processing::FRLG_SHINY_STAR()];
        assert(processings_view(inputs@) =~= seq![ProcessingView::Sprite(*game, seq![species], flip), crate::hunt::checks::frlg_star_view()]);
        Self::sprite_state(branch, inputs, ShinyDetect {
            three_ds: false, with_star: true, threshold: 0, uses_threshold: false, target, game: *game, method: *method,
        })
    }

    /// Looks for `species`; shiny from its sprite, or when the encounter took
    /// longer than `threshold` ms.
    pub fn sprite_state_delay(branch: Branch3<K>, game: &Game, method: &Method, species: u32, target: u32, threshold: u64) -> (r: Self)
        ensures
            r.well_keyed(),
            r.view_desc() == (DescView {
                inputs: seq![ProcessingView::Sprite(*game, seq![species], false)],
                ..plain(branch.tag.spec_tag_id(), branch.tag.spec_tag_name(),
                    two_checks(branch.to_met.spec_tag_id(), CheckView::ShinyFound(detect(false, false, threshold, true, target, *game, *method)),
                        branch.to_not.spec_tag_id(), CheckView::ShinyNotFound(detect(false, false, threshold, true, target, *game, *method))))
            }),
    {
        let sp = vec![species];
        assert(sp@ =~= seq![species]);
        let inputs = vec![Processing::Sprite(*game, sp, false)];
        assert(processings_view(inputs@) =~= seq![ProcessingView::Sprite(*game, seq![species], false)]);
        Self::sprite_state(branch, inputs, ShinyDetect {
            three_ds: false, with_star: false, threshold, uses_threshold: true, target, game: *game, method: *method,
        })
    }

    /// As `sprite_state_delay`, for any of several species.
    pub fn sprite_state_delay_targets(branch: Branch3<K>, game: &Game, method: &Method, species: Vec<u32>, target: u32, threshold: u64) -> (r: Self)
        ensures
            r.well_keyed(),
            r.view_desc() == (DescView {
                inputs: seq![ProcessingView::Sprite(*game, species@, false)],
                ..plain(branch.tag.spec_tag_id(), branch.tag.spec_tag_name(),
                    two_checks(branch.to_met.spec_tag_id(), CheckView::ShinyFound(detect(false, false, threshold, true, target, *game, *method)),
                        branch.to_not.spec_tag_id(), CheckView::ShinyNotFound(detect(false, false, threshold, true, target, *game, *method))))
            }),
    {
        let ghost sv = species@;
        let inputs = vec![Processing::Sprite(*game, species, false)];
        assert(processings_view(inputs@) =~= seq![ProcessingView::Sprite(*game, sv, false)]);
        Self::sprite_state(branch, inputs, ShinyDetect {
            three_ds: false, with_star: false, threshold, uses_threshold: true, target, game: *game, method: *method,
        })
    }

    /// Looks for `species` on a 3DS screen and decides whether it is shiny
    /// from its sprite.
    pub fn simple_sprite_state_3ds(branch: Branch3<K>, game: &Game, method: &Method, species: u32, target: u32) -> (r: Self)
        ensures
            r.well_keyed(),
            r.view_desc() == (DescView {
                inputs: seq![ProcessingView::Sprite3DS(*game, seq![species])],
                ..plain(branch.tag.spec_tag_id(), branch.tag.spec_tag_name(),
                    two_checks(branch.to_met.spec_tag_id(), CheckView::ShinyFound(detect(true, false, 0, false, target, *game, *method)),
                        branch.to_not.spec_tag_id(), CheckView::ShinyNotFound(detect(true, false, 0, false, target, *game, *method))))
            }),
    {
        let sp = vec![species];
        assert(sp@ =~= seq![species]);
        let inputs = vec![Processing::Sprite3DS(*game, sp)];
        assert(processings_view(inputs@) =~= seq![ProcessingView::Sprite3DS(*game, seq![species])]);
        Self::sprite_state(branch, inputs, ShinyDetect {
            three_ds: true, with_star: false, threshold: 0, uses_threshold: false, target, game: *game, method: *method,
        })
    }
}

/// The identity of a hunt: the species sought, in which game, by which method.
#[derive(Clone, Copy, Debug, PartialEq, Eq, Structural)]
pub struct BaseHunt {
    pub target: u32,
    pub game: Game,
    pub method: Method,
}

/// A state of a fragment, with its checks keyed by the position of the
/// target state in the fragment.
pub struct FragmentState {
    pub tag: usize,
    pub name: String,
    pub inputs: Vec<Processing>,
    pub outputs: Vec<HuntStateOutput>,
    pub delay_msecs: Range<u64>,
    pub checks: Vec<(usize, Check)>,
}

/// The abstract value of a [`FragmentState`].
pub struct FragStateView {
    pub tag: usize,
    pub name: Seq<char>,
    pub inputs: Seq<ProcessingView>,
    pub outputs: Seq<HuntStateOutput>,
    pub delay_lo: u64,
    pub delay_hi: u64,
    pub checks: Seq<(usize, CheckView)>,
}

impl View for FragmentState {
    type V = FragStateView;

    open spec fn view(&self) -> FragStateView {
        FragStateView {
            tag: self.tag,
            name: self.name@,
            inputs: processings_view(self.inputs@),
            outputs: self.outputs@,
            delay_lo: self.delay_msecs.start,
            delay_hi: self.delay_msecs.end,
            checks: self.checks@.map_values(|c: (usize, Check)| (c.0, c.1@)),
        }
    }
}

/// The abstract value of a fragment.
pub open spec fn fragment_view(f: Seq<FragmentState>) -> Seq<FragStateView> {
    f.map_values(|s: FragmentState| s@)
}

/// The numbers of a list of descriptions.
pub open spec fn desc_ids(ds: Seq<DescView>) -> Seq<u64> {
    ds.map_values(|d: DescView| d.tag)
}

/// The position of `id` in `ids`.
pub open spec fn index_of(ids: Seq<u64>, id: u64) -> int {
    choose|i: int| 0 <= i < ids.len() && ids[i] == id
}

/// Whether a list of descriptions can form a fragment: no two states share a
/// name, and every check leads to a state of the list.
pub open spec fn fragment_ok(ds: Seq<DescView>) -> bool {
    &&& forall|i: int, j: int| 0 <= i < j < ds.len() ==> ds[i].tag != ds[j].tag
    &&& forall|i: int, k: int| 0 <= i < ds.len() && 0 <= k < ds[i].checks.len()
        ==> desc_ids(ds).contains(#[trigger] ds[i].checks[k].0)
}

/// Whether some description from position `j` on has the number `x`.
pub open spec fn tag_in(ds: Seq<DescView>, x: u64, j: nat) -> bool
    decreases ds.len() - j,
{
    if j >= ds.len() { false } else { ds[j as int].tag == x || tag_in(ds, x, j + 1) }
}

/// Whether the descriptions from position `i` on have numbers that no later
/// description repeats.
pub open spec fn tags_distinct_from(ds: Seq<DescView>, i: nat) -> bool
    decreases ds.len() - i,
{
    if i >= ds.len() { true } else { !tag_in(ds, ds[i as int].tag, i + 1) && tags_distinct_from(ds, i + 1) }
}

/// Whether the checks from position `k` on lead to states of the list.
pub open spec fn targets_in(ds: Seq<DescView>, cs: Seq<(u64, CheckView)>, k: nat) -> bool
    decreases cs.len() - k,
{
    if k >= cs.len() { true } else { tag_in(ds, cs[k as int].0, 0) && targets_in(ds, cs, k + 1) }
}

/// Whether the checks of the descriptions from position `i` on lead to
/// states of the list.
pub open spec fn checks_in_from(ds: Seq<DescView>, i: nat) -> bool
    decreases ds.len() - i,
{
    if i >= ds.len() { true } else { targets_in(ds, ds[i as int].checks, 0) && checks_in_from(ds, i + 1) }
}

/// [`fragment_ok`], stated by recursion over the list so that it can be
/// evaluated on a given list.
pub open spec fn fragment_ok_rec(ds: Seq<DescView>) -> bool {
    tags_distinct_from(ds, 0) && checks_in_from(ds, 0)
}

proof fn lemma_tag_in(ds: Seq<DescView>, x: u64, j: nat)
    ensures
        tag_in(ds, x, j) <==> exists|m: int| j <= m < ds.len() && ds[m].tag == x,
    decreases ds.len() - j,
{
    if j < ds.len() {
        lemma_tag_in(ds, x, j + 1);
        if exists|m: int| j <= m < ds.len() && ds[m].tag == x {
            let m = choose|m: int| j <= m < ds.len() && ds[m].tag == x;
            if m != j {
                assert(j + 1 <= m);
            }
        }
    }
}

proof fn lemma_distinct_from(ds: Seq<DescView>, i: nat)
    requires
        tags_distinct_from(ds, i),
    ensures
        forall|a: int, b: int| i <= a < b < ds.len() ==> ds[a].tag != ds[b].tag,
    decreases ds.len() - i,
{
    if i < ds.len() {
        lemma_distinct_from(ds, i + 1);
        lemma_tag_in(ds, ds[i as int].tag, i + 1);
    }
}

proof fn lemma_targets_in(ds: Seq<DescView>, cs: Seq<(u64, CheckView)>, k: nat)
    requires
        targets_in(ds, cs, k),
    ensures
        forall|m: int| k <= m < cs.len() ==> desc_ids(ds).contains(#[trigger] cs[m].0),
    decreases cs.len() - k,
{
    if k < cs.len() {
        lemma_targets_in(ds, cs, k + 1);
        lemma_tag_in(ds, cs[k as int].0, 0);
        let w = choose|w: int| 0 <= w < ds.len() && ds[w].tag == cs[k as int].0;
        assert(desc_ids(ds)[w] == cs[k as int].0);
    }
}

proof fn lemma_checks_in_from(ds: Seq<DescView>, i: nat)
    requires
        checks_in_from(ds, i),
    ensures
        forall|a: int, m: int| i <= a < ds.len() && 0 <= m < ds[a].checks.len()
            ==> desc_ids(ds).contains(#[trigger] ds[a].checks[m].0),
    decreases ds.len() - i,
{
    if i < ds.len() {
        lemma_checks_in_from(ds, i + 1);
        lemma_targets_in(ds, ds[i as int].checks, 0);
    }
}

/// A list that passes the recursive test can form a fragment.
pub proof fn lemma_fragment_ok(ds: Seq<DescView>)
    requires
        fragment_ok_rec(ds),
    ensures
        fragment_ok(ds),
{
    lemma_distinct_from(ds, 0);
    lemma_checks_in_from(ds, 0);
}

/// The fragment made of a list of descriptions: each state takes its
/// position as its number, and each check the position of its target.
pub open spec fn fragment_of(ds: Seq<DescView>) -> Seq<FragStateView> {
    Seq::new(ds.len(), |i: int| FragStateView {
        tag: i as usize,
        name: ds[i].name,
        inputs: ds[i].inputs,
        outputs: ds[i].buttons,
        delay_lo: ds[i].delay_lo,
        delay_hi: ds[i].delay_hi,
        checks: ds[i].checks.map_values(|c: (u64, CheckView)| (index_of(desc_ids(ds), c.0) as usize, c.1)),
    })
}

/// Whether each state of a fragment is numbered by its position and each
/// check leads to a state of the fragment.
pub open spec fn fragment_wf(f: Seq<FragStateView>) -> bool {
    forall|i: int| 0 <= i < f.len() ==> {
        &&& #[trigger] f[i].tag == i
        &&& forall|k: int| 0 <= k < f[i].checks.len() ==> (#[trigger] f[i].checks[k]).0 < f.len()
    }
}

/// The number of states in the first `k` fragments.
pub open spec fn offset(frs: Seq<Seq<FragStateView>>, k: int) -> nat
    decreases k,
{
    if k <= 0 { 0 } else { offset(frs, k - 1) + frs[k - 1].len() }
}

/// The state that fragment `fi`, state `si` becomes in the built machine.
/// Its number is its position plus the number of states before its
/// fragment; a state with no checks moves on to the next number, or to the
/// first state when it is the last state of the last fragment.
pub open spec fn state_for(frs: Seq<Seq<FragStateView>>, fi: int, si: int) -> StateView {
    let s = frs[fi][si];
    let first = offset(frs, fi);
    let tag = s.tag + first;
    let next = if fi == frs.len() - 1 && tag == first + frs[fi].len() - 1 { 0 } else { tag + 1 };
    let checks = if s.checks.len() > 0 {
        s.checks.map_values(|c: (usize, CheckView)| ((c.0 + first) as usize, c.1))
    } else {
        seq![(next as usize, CheckView::Always)]
    };
    StateView {
        name: s.name,
        debug_name: "fragment"@ + decimal(fi as nat) + "-"@ + s.name + " ["@ + decimal(s.checks.len())
            + " next state(s)]"@,
        outputs: s.outputs,
        delay_lo: s.delay_lo,
        delay_hi: s.delay_hi,
        inputs: s.inputs,
        next_states: checks.map_values(|c: (usize, CheckView)| c.0),
        checks,
    }
}

/// The first `n` states of fragment `fi` in the built machine.
pub open spec fn frag_states(frs: Seq<Seq<FragStateView>>, fi: int, n: int) -> Map<usize, StateView>
    decreases n,
{
    if n <= 0 {
        Map::empty()
    } else {
        frag_states(frs, fi, n - 1).insert((offset(frs, fi) + n - 1) as usize, state_for(frs, fi, n - 1))
    }
}

/// The states of the first `k` fragments in the built machine.
pub open spec fn built_upto(frs: Seq<Seq<FragStateView>>, k: int) -> Map<usize, StateView>
    decreases k,
{
    if k <= 0 {
        Map::empty()
    } else {
        built_upto(frs, k - 1).union_prefer_right(frag_states(frs, k - 1, frs[k - 1].len() as int))
    }
}

/// The fragments made of a list of description lists.
pub open spec fn fragments_of(dss: Seq<Seq<DescView>>) -> Seq<Seq<FragStateView>> {
    dss.map_values(|ds: Seq<DescView>| fragment_of(ds))
}

/// Whether fragments can be built into a hunt: there are some, none of them
/// empty, and fewer states in all than `usize::MAX`.
pub open spec fn frags_buildable(frs: Seq<Seq<FragStateView>>) -> bool {
    &&& frs.len() > 0
    &&& forall|i: int| 0 <= i < frs.len() ==> #[trigger] frs[i].len() > 0
    &&& offset(frs, frs.len() as int) < usize::MAX
}

/// Builds hunts from fragments of state descriptions.
pub struct HuntFSMBuilder {
    fragments: Vec<Vec<FragmentState>>,
    base: BaseHunt,
}

impl HuntFSMBuilder {
    /// The fragments added so far.
    pub closed spec fn fragments_view(&self) -> Seq<Seq<FragStateView>> {
        self.fragments@.map_values(|f: Vec<FragmentState>| fragment_view(f@))
    }

    /// The hunt the builder builds.
    pub closed spec fn base_view(&self) -> BaseHunt {
        self.base
    }

    /// Whether every fragment is well formed.
    pub open spec fn wf(&self) -> bool {
        forall|i: int| 0 <= i < self.fragments_view().len() ==> fragment_wf(#[trigger] self.fragments_view()[i])
    }

    /// A builder with no fragments.
    pub fn new(base: BaseHunt) -> (r: Self)
        ensures
            r.fragments_view() == Seq::<Seq<FragStateView>>::empty(),
            r.base_view() == base,
            r.wf(),
    {
        let r = HuntFSMBuilder { fragments: Vec::new(), base };
        assert(r.fragments_view() =~= Seq::<Seq<FragStateView>>::empty());
        r
    }

    /// The game of the hunt.
    pub fn game(&self) -> (r: &Game)
        ensures
            *r == self.base_view().game,
    {
        &self.base.game
    }

    /// The method of the hunt.
    pub fn method(&self) -> (r: &Method)
        ensures
            *r == self.base_view().method,
    {
        &self.base.method
    }

    /// The species sought.
    pub fn target(&self) -> (r: u32)
        ensures
            r == self.base_view().target,
    {
        self.base.target
    }

    /// Appends a fragment made of the given descriptions.
    pub fn add_states<K: StateTag>(&mut self, states: Vec<StateDescription<K>>)
        requires
            old(self).wf(),
            fragment_ok(states@.map_values(|d: StateDescription<K>| d.view_desc())),
        ensures
            final(self).wf(),
            final(self).base_view() == old(self).base_view(),
            final(self).fragments_view() == old(self).fragments_view().push(
                fragment_of(states@.map_values(|d: StateDescription<K>| d.view_desc()))),
    {
        let ghost ds = states@.map_values(|d: StateDescription<K>| d.view_desc());
        let ghost ids = desc_ids(ds);
        let mut id_list: Vec<u64> = Vec::new();
        let mut i: usize = 0;
        while i < states.len()
            invariant
                i <= states.len(),
                ds == states@.map_values(|d: StateDescription<K>| d.view_desc()),
                ids == desc_ids(ds),
                id_list@ == ids.subrange(0, i as int),
            decreases states.len() - i,
        {
            id_list.push(states[i].tag.tag_id());
            i = i + 1;
            assert(id_list@ =~= ids.subrange(0, i as int));
        }
        assert(id_list@ =~= ids);
        let mut fragment: Vec<FragmentState> = Vec::new();
        let mut i: usize = 0;
        while i < states.len()
            invariant
                i <= states.len(),
                ds == states@.map_values(|d: StateDescription<K>| d.view_desc()),
                ids == desc_ids(ds),
                id_list@ == ids,
                fragment_ok(ds),
                fragment_view(fragment@) == fragment_of(ds).subrange(0, i as int),
            decreases states.len() - i,
        {
            let d = &states[i];
            let mut checks: Vec<(usize, Check)> = Vec::new();
            let mut k: usize = 0;
            while k < d.check.len()
                invariant
                    k <= d.check.len(),
                    ids == desc_ids(ds),
                    id_list@ == ids,
                    fragment_ok(ds),
                    ds[i as int] == d.view_desc(),
                    i < ds.len(),
                    checks@.map_values(|c: (usize, Check)| (c.0, c.1@))
                        == fragment_of(ds)[i as int].checks.subrange(0, k as int),
                decreases d.check.len() - k,
            {
                let target = d.check[k].0.tag_id();
                assert(target == ds[i as int].checks[k as int].0);
                assert(ids.contains(target));
                let mut pos: usize = 0;
                while id_list[pos] != target
                    invariant
                        id_list@ == ids,
                        ids.contains(target),
                        pos < ids.len(),
                        forall|j: int| 0 <= j < pos ==> ids[j] != target,
                    decreases ids.len() - pos,
                {
                    assert(pos < id_list.len());
                    pos = pos + 1;
                    assert(pos < ids.len()) by {
                        let w = choose|w: int| 0 <= w < ids.len() && ids[w] == target;
                        assert(w >= pos);
                    }
                }
                assert(index_of(ids, target) == pos as int) by {
                    let c = index_of(ids, target);
                    assert(0 <= c < ids.len() && ids[c] == target);
                    if c != pos as int {
                        assert(ds[c].tag == ds[pos as int].tag);
                    }
                }
                let ghost before = checks@.map_values(|c: (usize, Check)| (c.0, c.1@));
                let dup = d.check[k].1.duplicate();
                assert(dup@ == ds[i as int].checks[k as int].1);
                checks.push((pos, dup));
                assert(checks@.map_values(|c: (usize, Check)| (c.0, c.1@)) =~= before.push((pos, dup@)));
                assert(fragment_of(ds)[i as int].checks[k as int] == (pos, dup@));
                k = k + 1;
                assert(checks@.map_values(|c: (usize, Check)| (c.0, c.1@))
                    =~= fragment_of(ds)[i as int].checks.subrange(0, k as int));
            }
            assert(fragment_of(ds)[i as int].checks.subrange(0, d.check.len() as int) =~= fragment_of(ds)[i as int].checks);
            let fs = FragmentState {
                tag: i,
                name: d.tag.tag_name(),
                inputs: copy_processings(&d.inputs),
                outputs: d.buttons.clone(),
                delay_msecs: d.delay_msecs.start..d.delay_msecs.end,
                checks,
            };
            assert(fs.outputs@ =~= d.buttons@);
            assert(fs@.checks =~= fragment_of(ds)[i as int].checks);
            assert(fs@ == fragment_of(ds)[i as int]);
            let ghost fsv = fs@;
            let ghost fv = fragment_view(fragment@);
            fragment.push(fs);
            assert(fragment_view(fragment@) =~= fv.push(fsv));
            i = i + 1;
            assert(fragment_view(fragment@) =~= fragment_of(ds).subrange(0, i as int));
        }
        assert(fragment_of(ds).subrange(0, states.len() as int) =~= fragment_of(ds));
        proof {
            let f = fragment_of(ds);
            assert forall|a: int| 0 <= a < f.len() implies {
                &&& #[trigger] f[a].tag == a
                &&& forall|k: int| 0 <= k < f[a].checks.len() ==> (#[trigger] f[a].checks[k]).0 < f.len()
            } by {
                assert forall|k: int| 0 <= k < f[a].checks.len() implies (#[trigger] f[a].checks[k]).0 < f.len() by {
                    let t = ds[a].checks[k].0;
                    assert(ids.contains(t));
                    let c = index_of(ids, t);
                    assert(0 <= c < ids.len());
                }
            }
        }
        self.fragments.push(fragment);
        assert(self.fragments_view() =~= old(self).fragments_view().push(fragment_of(ds)));
    }
}

/// The number of states before fragment `i` grows with `i`.
pub proof fn lemma_offset_mono(frs: Seq<Seq<FragStateView>>, i: int, j: int)
    requires
        0 <= i <= j <= frs.len(),
    ensures
        offset(frs, i) <= offset(frs, j),
    decreases j - i,
{
    if i < j {
        lemma_offset_mono(frs, i, j - 1);
    }
}

/// Every check of a built state leads to a state number below the total,
/// when every fragment has a state.
pub proof fn lemma_state_targets(frs: Seq<Seq<FragStateView>>, fi: int, si: int)
    requires
        0 <= fi < frs.len(),
        0 <= si < frs[fi].len(),
        forall|i: int| 0 <= i < frs.len() ==> fragment_wf(#[trigger] frs[i]),
        forall|i: int| 0 <= i < frs.len() ==> #[trigger] frs[i].len() > 0,
    ensures
        forall|k: int| 0 <= k < state_for(frs, fi, si).checks.len()
            ==> (#[trigger] state_for(frs, fi, si).checks[k]).0 < offset(frs, frs.len() as int),
{
    let total = offset(frs, frs.len() as int);
    let first = offset(frs, fi);
    assert(fragment_wf(frs[fi]));
    assert(frs[fi][si].tag == si);
    lemma_offset_mono(frs, fi + 1, frs.len() as int);
    assert(offset(frs, fi + 1) == first + frs[fi].len());
    if fi + 1 < frs.len() {
        lemma_offset_mono(frs, fi + 2, frs.len() as int);
        assert(frs[fi + 1].len() > 0);
        assert(offset(frs, fi + 2) == offset(frs, fi + 1) + frs[fi + 1].len());
    }
    let st = state_for(frs, fi, si);
    assert forall|k: int| 0 <= k < st.checks.len() implies (#[trigger] st.checks[k]).0 < total by {
        if frs[fi][si].checks.len() > 0 {
            assert(frs[fi][si].checks[k].0 < frs[fi].len());
        }
    }
}

impl HuntFSMBuilder {
    /// Whether the hunt can be built: it has fragments, none of them empty,
    /// and fewer states in all than `usize::MAX`.
    pub open spec fn buildable(&self) -> bool {
        frags_buildable(self.fragments_view())
    }

    /// Tells whether the hunt can be built.
    pub fn can_build(&self) -> (r: bool)
        ensures
            r == self.buildable(),
    {
        let ghost frs = self.fragments_view();
        if self.fragments.len() == 0 {
            return false;
        }
        let mut total: usize = 0;
        let mut i: usize = 0;
        while i < self.fragments.len()
            invariant
                frs == self.fragments_view(),
                frs.len() == self.fragments@.len(),
                i <= self.fragments.len(),
                total == offset(frs, i as int),
                total < usize::MAX,
                forall|j: int| 0 <= j < i ==> #[trigger] frs[j].len() > 0,
            decreases self.fragments.len() - i,
        {
            assert(frs[i as int].len() == self.fragments@[i as int]@.len());
            let n = self.fragments[i].len();
            if n == 0 {
                return false;
            }
            if n >= usize::MAX - total {
                proof {
                    lemma_offset_mono(frs, i + 1, frs.len() as int);
                }
                return false;
            }
            total = total + n;
            i = i + 1;
        }
        true
    }

    /// Builds the hunt: the states of all fragments, numbered one after the
    /// other, starting in the first state.
    pub fn build(self, heartbeat: bool, now: u64) -> (r: HuntFSM)
        requires
            self.wf(),
            self.fragments_view().len() > 0,
            forall|i: int| 0 <= i < self.fragments_view().len() ==> #[trigger] self.fragments_view()[i].len() > 0,
            offset(self.fragments_view(), self.fragments_view().len() as int) < usize::MAX,
        ensures
            r.wf(),
            r.machine() == (MachineView {
                states: built_upto(self.fragments_view(), self.fragments_view().len() as int),
                current: 0,
                time: now,
                delay: None,
                internal: InternalHuntState::new_spec(heartbeat, now),
            }),
    {
        broadcast use vstd::std_specs::hash::group_hash_axioms;
        let ghost frs = self.fragments_view();
        let ghost total = offset(frs, frs.len() as int);
        let mut fsm = StateMachine::new(heartbeat, now);
        proof {
            reveal_strlit("fragment");
            reveal_strlit("-");
            reveal_strlit(" [");
            reveal_strlit(" next state(s)]");
        }
        let last_fragment = self.fragments.len() - 1;
        let mut last_index: usize = 0;
        let mut findex: usize = 0;
        while findex < self.fragments.len()
            invariant
                frs == self.fragments_view(),
                total == offset(frs, frs.len() as int),
                total < usize::MAX,
                self.wf(),
                forall|i: int| 0 <= i < frs.len() ==> #[trigger] frs[i].len() > 0,
                last_fragment == frs.len() - 1,
                findex <= frs.len(),
                last_index == offset(frs, findex as int),
                fsm.wf(),
                fsm.view_machine().states == built_upto(frs, findex as int),
                fsm.view_machine().current == 0,
                fsm.view_machine().delay is None,
                fsm.view_machine().time == now,
                fsm.view_machine().internal == InternalHuntState::new_spec(heartbeat, now),
                fsm.view_machine().states.dom() == Set::new(|t: usize| t < last_index),
                forall|t: usize, k: int| fsm.view_machine().states.dom().contains(t)
                    && 0 <= k < fsm.view_machine().states[t].checks.len()
                    ==> (#[trigger] fsm.view_machine().states[t].checks[k]).0 < total,
            decreases frs.len() - findex,
        {
            let fragment = &self.fragments[findex];
            let ghost fv = frs[findex as int];
            assert(fv == fragment_view(fragment@));
            assert(fragment_wf(fv));
            proof {
                lemma_offset_mono(frs, findex + 1, frs.len() as int);
                assert(offset(frs, findex + 1) == last_index + fv.len());
            }
            let fragment_first = last_index;
            let fragment_last = last_index + fragment.len() - 1;
            let ghost base = fsm.view_machine().states;
            let mut si: usize = 0;
            while si < fragment.len()
                invariant
                    frs == self.fragments_view(),
                    total == offset(frs, frs.len() as int),
                    total < usize::MAX,
                    self.wf(),
                    forall|i: int| 0 <= i < frs.len() ==> #[trigger] frs[i].len() > 0,
                    last_fragment == frs.len() - 1,
                    findex < frs.len(),
                    fv == frs[findex as int],
                    fv == fragment_view(fragment@),
                    fragment == self.fragments@[findex as int],
                    fragment_wf(fv),
                    fragment_first == offset(frs, findex as int),
                    fragment_first + fv.len() == offset(frs, findex + 1),
                    offset(frs, findex + 1) <= total,
                    fragment_last == fragment_first + fv.len() - 1,
                    si <= fv.len(),
                    base == built_upto(frs, findex as int),
                    fsm.wf(),
                    fsm.view_machine().states == base.union_prefer_right(frag_states(frs, findex as int, si as int)),
                    fsm.view_machine().current == 0,
                    fsm.view_machine().delay is None,
                    fsm.view_machine().time == now,
                    fsm.view_machine().internal == InternalHuntState::new_spec(heartbeat, now),
                    fsm.view_machine().states.dom() == Set::new(|t: usize| t < fragment_first + si),
                    forall|t: usize, k: int| fsm.view_machine().states.dom().contains(t)
                        && 0 <= k < fsm.view_machine().states[t].checks.len()
                        ==> (#[trigger] fsm.view_machine().states[t].checks[k]).0 < total,
                decreases fv.len() - si,
            {
                let state = &fragment[si];
                let ghost sv = fv[si as int];
                assert(sv == state@);
                assert(sv.tag == si);
                let tag = state.tag + fragment_first;
                let next_state = if findex == last_fragment && tag == fragment_last { 0 } else { tag + 1 };
                let mut debug_name = String::from_str("fragment");
                let fs = u64_to_string(findex as u64);
                debug_name.append(fs.as_str());
                debug_name.append("-");
                debug_name.append(state.name.as_str());
                debug_name.append(" [");
                let cs = u64_to_string(state.checks.len() as u64);
                debug_name.append(cs.as_str());
                debug_name.append(" next state(s)]");
                let ghost want = state_for(frs, findex as int, si as int);
                let mut next_states: Vec<usize> = Vec::new();
                let mut checks: Vec<StateCheck> = Vec::new();
                if state.checks.len() > 0 {
                    let mut k: usize = 0;
                    while k < state.checks.len()
                        invariant
                            k <= state.checks.len(),
                            sv == state@,
                            fragment_wf(fv),
                            fv[si as int] == sv,
                            si < fv.len(),
                            fragment_first + fv.len() <= total,
                            total < usize::MAX,
                            sv.checks.len() > 0,
                            want == state_for(frs, findex as int, si as int),
                            fragment_first == offset(frs, findex as int),
                            findex < frs.len(),
                            frs[findex as int] == fv,
                            want.checks.len() == state.checks.len(),
                            want.next_states.len() == state.checks.len(),
                            checks_view(checks@) == want.checks.subrange(0, k as int),
                            next_states@ == want.next_states.subrange(0, k as int),
                        decreases state.checks.len() - k,
                    {
                        assert(fv[si as int].tag == si);
                        assert(fv[si as int].checks[k as int].0 < fv.len());
                        assert(sv.checks[k as int] == (state.checks@[k as int].0, state.checks@[k as int].1@));
                        let t = state.checks[k].0 + fragment_first;
                        let c = state.checks[k].1.duplicate();
                        assert(want.checks[k as int] == (t, c@));
                        let ghost cv = checks_view(checks@);
                        let ghost ccv = c@;
                        checks.push(StateCheck { target: t, check: c });
                        assert(checks_view(checks@) =~= cv.push((t, ccv)));
                        next_states.push(t);
                        k = k + 1;
                        assert(checks_view(checks@) =~= want.checks.subrange(0, k as int));
                        assert(next_states@ =~= want.next_states.subrange(0, k as int));
                    }
                    assert(want.checks.subrange(0, state.checks.len() as int) =~= want.checks);
                    assert(want.next_states.subrange(0, state.checks.len() as int) =~= want.next_states);
                } else {
                    checks.push(StateCheck { target: next_state, check: Check::Always });
                    next_states.push(next_state);
                    assert(checks_view(checks@) =~= want.checks);
                    assert(next_states@ =~= want.next_states);
                }
                let name = state.name.clone();
                let outputs = state.outputs.clone();
                assert(outputs@ =~= sv.outputs);
                let inputs = copy_processings(&state.inputs);
                let delay = state.delay_msecs.start..state.delay_msecs.end;
                assert(debug_name@ =~= want.debug_name);
                let ghost before = fsm.view_machine().states;
                fsm.add_state(StateId::new(tag, name, debug_name), outputs, delay, inputs, next_states, checks);
                proof {
                    lemma_state_targets(frs, findex as int, si as int);
                    let added = fsm.view_machine().states[tag];
                    assert(added == want);
                    assert(fsm.view_machine().states =~= base.union_prefer_right(frag_states(frs, findex as int, si + 1)));
                    assert(fsm.view_machine().states.dom() =~= Set::new(|t: usize| t < fragment_first + si + 1));
                    assert forall|t2: usize, k2: int| fsm.view_machine().states.dom().contains(t2)
                        && 0 <= k2 < fsm.view_machine().states[t2].checks.len()
                        implies (#[trigger] fsm.view_machine().states[t2].checks[k2]).0 < total by {
                        if t2 != tag {
                            assert(before.dom().contains(t2));
                            assert(fsm.view_machine().states[t2] == before[t2]);
                        }
                    }
                }
                si = si + 1;
            }
            proof {
                assert(fsm.view_machine().states =~= built_upto(frs, findex + 1));
            }
            last_index = fragment_last + 1;
            findex = findex + 1;
        }
        proof {
            assert(fsm.view_machine().states.dom().contains(0));
            assert(closed_targets(fsm.view_machine().states));
        }
        HuntFSM::new(fsm)
    }
}

/// Whether `r` is `b` with the fragments of `dss` appended, in order.
pub open spec fn extended(r: HuntFSMBuilder, b: HuntFSMBuilder, dss: Seq<Seq<DescView>>) -> bool {
    &&& r.wf()
    &&& r.base_view() == b.base_view()
    &&& r.fragments_view() == b.fragments_view() + fragments_of(dss)
}

/// Whether `r` is what a resolver returns on `b` when its plan for `b` is
/// `plan`: nothing when there is no plan, else `b` extended by the plan.
pub open spec fn resolved(r: Option<HuntFSMBuilder>, b: HuntFSMBuilder, plan: Option<Seq<Seq<DescView>>>) -> bool {
    match plan {
        None => r is None,
        Some(dss) => r matches Some(x) && extended(x, b, dss),
    }
}

} // verus!
