//! The button presses of a hunt state and the memory that its checks share.
use vstd::prelude::*;
use crate::control::{Button, Delay};
use crate::fsm::{StateView, StateMachine, MachineView, run_checks, process_spec};
use crate::hunt::{HuntResult, HuntResultView, no_result, opt_result_view};
use crate::hunt::checks::check_step;
use crate::control::{BotControl, PressRecord};
use crate::vision::{Processing, ProcessingResult, ProcessingResultView, processings_view, results_view};
use crate::text::duration_text;
use crate::fsm::graph_text;

verus! {

/// A button pressed when a state is entered, and for how long.
#[derive(Clone, Copy, Debug, PartialEq, Eq, Structural)]
pub struct HuntStateOutput {
    pub button: Button,
    pub delay: Delay,
}

impl HuntStateOutput {
    /// A press of `button` for `delay`.
    pub fn new(button: Button, delay: Delay) -> (r: Self)
        ensures
            r == (HuntStateOutput { button, delay }),
    {
        HuntStateOutput { button, delay }
    }

    /// A press of `button` for a tenth of a second.
    pub fn button(button: Button) -> (r: Self)
        ensures
            r == (HuntStateOutput { button, delay: Delay::Tenth }),
    {
        HuntStateOutput { button, delay: Delay::Tenth }
    }
}

/// The memory shared by the checks of a hunt: a toggle, a counter, a timer
/// and the last measured duration (both in milliseconds), and whether the
/// console link may send heartbeats.
#[derive(Clone, Copy, Debug, PartialEq, Eq, Structural)]
pub struct InternalHuntState {
    pub toggle: bool,
    pub heartbeat: bool,
    pub time: u64,
    pub last_duration: u64,
    pub counter: usize,
}

impl InternalHuntState {
    /// Fresh memory, with the timer started at `now`.
    pub open spec fn new_spec(heartbeat: bool, now: u64) -> Self {
        InternalHuntState { toggle: false, heartbeat, time: now, last_duration: 0, counter: 0 }
    }

    /// Fresh memory, with the timer started at `now`.
    pub fn new(heartbeat: bool, now: u64) -> (r: Self)
        ensures
            r == Self::new_spec(heartbeat, now),
    {
        InternalHuntState { toggle: false, heartbeat, time: now, last_duration: 0, counter: 0 }
    }
}

/// Whether every check of every state leads to a state of the machine.
pub open spec fn closed_targets(states: Map<usize, StateView>) -> bool {
    forall|t: usize, i: int| states.dom().contains(t) && 0 <= i < states[t].checks.len()
        ==> states.dom().contains(#[trigger] states[t].checks[i].0)
}

/// A running hunt.
pub struct HuntFSM {
    fsm: StateMachine,
}

impl HuntFSM {
    /// The hunt's state machine is ready to step, and every check leads to a
    /// state of it.
    pub closed spec fn wf(&self) -> bool {
        &&& self.fsm.ready()
        &&& closed_targets(self.fsm.view_machine().states)
    }

    /// The numbers of the hunt's states, in increasing order.
    pub closed spec fn state_numbers(&self) -> Seq<usize> {
        self.fsm.tags_view()
    }

    /// The abstract value of the hunt's state machine.
    pub closed spec fn machine(&self) -> MachineView {
        self.fsm.view_machine()
    }

    /// Wraps a state machine that is ready to run.
    pub fn new(fsm: StateMachine) -> (r: Self)
        requires
            fsm.ready(),
            closed_targets(fsm.view_machine().states),
        ensures
            r.wf(),
            r.machine() == fsm.view_machine(),
    {
        HuntFSM { fsm }
    }
}

/// The state a check leads to when the checks of a state hold is the target
/// of one of them.
pub proof fn lemma_run_checks_target(cs: Seq<(usize, crate::hunt::checks::CheckView)>, rs: Seq<ProcessingResultView>, mem: InternalHuntState, now: u64)
    ensures
        run_checks(cs, rs, mem, now).0 matches Some((t, _)) ==> exists|k: int| 0 <= k < cs.len() && cs[k].0 == t,
    decreases cs.len(),
{
    if cs.len() > 0 {
        lemma_run_checks_target(cs.drop_last(), rs, mem, now);
        let (prev, mem1) = run_checks(cs.drop_last(), rs, mem, now);
        if let Some((t, _)) = prev {
            let k = choose|k: int| 0 <= k < cs.drop_last().len() && cs.drop_last()[k].0 == t;
            assert(cs[k].0 == t);
        }
        assert(cs[cs.len() - 1] == cs.last());
    }
}

/// A step keeps a machine ready to step when every check leads to one of
/// its states: the states do not change, and the state entered or pending is
/// the target of a check.
pub proof fn lemma_process_keeps_ready(m: MachineView, rs: Seq<ProcessingResultView>, now: u64, drawn: u64)
    requires
        m.states.dom().contains(m.current),
        m.delay matches Some((_, n)) ==> m.states.dom().contains(n),
        closed_targets(m.states),
    ensures
        process_spec(m, rs, now, drawn).0.states == m.states,
        process_spec(m, rs, now, drawn).0.states.dom().contains(process_spec(m, rs, now, drawn).0.current),
        process_spec(m, rs, now, drawn).0.delay matches Some((_, n)) ==> m.states.dom().contains(n),
{
    if m.delay is None {
        let st = m.states[m.current];
        lemma_run_checks_target(st.checks, rs, m.internal, now);
        let (res, mem) = run_checks(st.checks, rs, m.internal, now);
        if let Some((t, _)) = res {
            let k = choose|k: int| 0 <= k < st.checks.len() && st.checks[k].0 == t;
            assert(m.states.dom().contains(m.states[m.current].checks[k].0));
        }
    }
}

/// How the presses of a state are made: all together when they share one
/// press length, else one after the other.
pub open spec fn press_plan_of(outs: Seq<HuntStateOutput>) -> Seq<(Seq<Button>, Delay)> {
    if outs.len() == 0 {
        Seq::empty()
    } else if forall|i: int| 0 <= i < outs.len() ==> #[trigger] outs[i].delay == outs[0].delay {
        seq![(outs.map_values(|o: HuntStateOutput| o.button), outs[0].delay)]
    } else {
        outs.map_values(|o: HuntStateOutput| (seq![o.button], o.delay))
    }
}

/// The presses that a press plan makes: each group held together for its
/// length.
pub open spec fn plan_records(plan: Seq<(Seq<Button>, Delay)>) -> Seq<PressRecord> {
    plan.map_values(|g: (Seq<Button>, Delay)| PressRecord { buttons: g.0, delay: Some(g.1) })
}

/// A group of buttons pressed together for one length.
pub struct PressGroup {
    pub buttons: Vec<Button>,
    pub delay: Delay,
}

/// The abstract values of a list of press groups.
pub open spec fn plan_view(p: Seq<PressGroup>) -> Seq<(Seq<Button>, Delay)> {
    p.map_values(|g: PressGroup| (g.buttons@, g.delay))
}

/// The presses of a list of outputs.
pub fn press_plan(outs: &Vec<HuntStateOutput>) -> (r: Vec<PressGroup>)
    ensures
        plan_view(r@) == press_plan_of(outs@),
{
    let mut r: Vec<PressGroup> = Vec::new();
    if outs.len() == 0 {
        assert(plan_view(r@) =~= press_plan_of(outs@));
        return r;
    }
    let mut same = true;
    let mut i: usize = 0;
    while i < outs.len()
        invariant
            i <= outs.len(),
            outs.len() > 0,
            same == forall|j: int| 0 <= j < i ==> #[trigger] outs@[j].delay == outs@[0].delay,
        decreases outs.len() - i,
    {
        if outs[i].delay != outs[0].delay {
            same = false;
        }
        i = i + 1;
    }
    if same {
        let mut buttons: Vec<Button> = Vec::new();
        let mut i: usize = 0;
        while i < outs.len()
            invariant
                i <= outs.len(),
                buttons@ == outs@.subrange(0, i as int).map_values(|o: HuntStateOutput| o.button),
            decreases outs.len() - i,
        {
            buttons.push(outs[i].button);
            i = i + 1;
            assert(buttons@ =~= outs@.subrange(0, i as int).map_values(|o: HuntStateOutput| o.button));
        }
        assert(outs@.subrange(0, outs.len() as int) =~= outs@);
        r.push(PressGroup { buttons, delay: outs[0].delay });
    } else {
        let mut i: usize = 0;
        while i < outs.len()
            invariant
                i <= outs.len(),
                r.len() == i,
                forall|j: int| 0 <= j < i ==> (#[trigger] r@[j]).buttons@ == seq![outs@[j].button]
                    && r@[j].delay == outs@[j].delay,
            decreases outs.len() - i,
        {
            let b = vec![outs[i].button];
            assert(b@ =~= seq![outs@[i as int].button]);
            r.push(PressGroup { buttons: b, delay: outs[i].delay });
            i = i + 1;
        }
        assert(plan_view(r@) =~= outs@.map_values(|o: HuntStateOutput| (seq![o.button], o.delay)));
    }
    assert(plan_view(r@) =~= press_plan_of(outs@));
    r
}

impl HuntFSM {
    /// The processing the hunt asks of the next frame.
    pub fn processing(&self) -> (r: &Vec<Processing>)
        requires
            self.wf(),
        ensures
            processings_view(r@) == if self.machine().delay is None {
                self.machine().states[self.machine().current].inputs
            } else {
                Seq::empty()
            },
    {
        self.fsm.inputs()
    }

    /// The presses the hunt makes before its next step.
    pub fn pending_presses(&self) -> (r: Vec<PressGroup>)
        requires
            self.wf(),
        ensures
            plan_view(r@) == press_plan_of(if self.machine().delay is None {
                self.machine().states[self.machine().current].outputs
            } else {
                Seq::empty()
            }),
    {
        press_plan(self.fsm.outputs())
    }

    /// One step at time `now` with `drawn` as the delay where the current
    /// state draws its delay; reports nothing when no check held.
    pub fn step_no_output_at(&mut self, results: Vec<ProcessingResult>, now: u64, drawn: u64) -> (r: HuntResult)
        requires
            old(self).wf(),
            now >= old(self).machine().time,
            now >= old(self).machine().internal.time,
        ensures
            final(self).wf(),
            ({
                let (m, out) = process_spec(old(self).machine(), results_view(results@), now, drawn);
                &&& final(self).machine() == m
                &&& r@ == match out { Some(x) => x, None => no_result() }
            }),
    {
        proof {
            lemma_process_keeps_ready(self.fsm.view_machine(), results_view(results@), now, drawn);
        }
        let out = self.fsm.process_at(results, now, drawn);
        match out {
            Some(o) => o,
            None => HuntResult::default(),
        }
    }

    /// One step at the clock's time, drawing delays at random; reports
    /// nothing when no check held.
    pub fn step_no_output(&mut self, results: Vec<ProcessingResult>) -> (r: HuntResult)
        requires
            old(self).wf(),
        ensures
            final(self).wf(),
            exists|now: u64, drawn: u64|
                now >= old(self).machine().time && now >= old(self).machine().internal.time
                && (old(self).machine().delay is None
                    && old(self).machine().states[old(self).machine().current].delay_lo
                        < old(self).machine().states[old(self).machine().current].delay_hi
                    ==> old(self).machine().states[old(self).machine().current].delay_lo <= drawn
                        < old(self).machine().states[old(self).machine().current].delay_hi)
                && ({
                    let (m, out) = #[trigger] process_spec(old(self).machine(), results_view(results@), now, drawn);
                    &&& final(self).machine() == m
                    &&& r@ == match out { Some(x) => x, None => no_result() }
                }),
    {
        let ghost m = self.fsm.view_machine();
        let ghost rs = results_view(results@);
        assert forall|now: u64, drawn: u64| #[trigger] process_spec(m, rs, now, drawn).0.states == m.states by {
            lemma_process_keeps_ready(m, rs, now, drawn);
        }
        assert forall|now: u64, drawn: u64| #[trigger] process_spec(m, rs, now, drawn).0.states.dom().contains(process_spec(m, rs, now, drawn).0.current) by {
            lemma_process_keeps_ready(m, rs, now, drawn);
        }
        assert forall|now: u64, drawn: u64| (#[trigger] process_spec(m, rs, now, drawn)).0.delay matches Some((_, n)) ==> m.states.dom().contains(n) by {
            lemma_process_keeps_ready(m, rs, now, drawn);
        }
        let out = self.fsm.process(results);
        match out {
            Some(o) => o,
            None => HuntResult::default(),
        }
    }

    /// Presses the buttons of the current state through `control`, then
    /// steps the hunt on the frame's results.
    pub fn step<C: BotControl>(&mut self, control: &mut C, results: Vec<ProcessingResult>) -> (r: HuntResult)
        requires
            old(self).wf(),
        ensures
            final(self).wf(),
            final(control).keeps_account() == old(control).keeps_account(),
            old(control).keeps_account() ==> final(control).pressed() == old(control).pressed() + plan_records(press_plan_of(
                if old(self).machine().delay is None {
                    old(self).machine().states[old(self).machine().current].outputs
                } else {
                    Seq::empty()
                })),
            exists|now: u64, drawn: u64|
                now >= old(self).machine().time && now >= old(self).machine().internal.time
                && (old(self).machine().delay is None
                    && old(self).machine().states[old(self).machine().current].delay_lo
                        < old(self).machine().states[old(self).machine().current].delay_hi
                    ==> old(self).machine().states[old(self).machine().current].delay_lo <= drawn
                        < old(self).machine().states[old(self).machine().current].delay_hi)
                && ({
                    let (m, out) = #[trigger] process_spec(old(self).machine(), results_view(results@), now, drawn);
                    &&& final(self).machine() == m
                    &&& r@ == match out { Some(x) => x, None => no_result() }
                }),
    {
        let plan = self.pending_presses();
        let ghost before = control.pressed();
        let ghost before_keeps = control.keeps_account();
        let mut i: usize = 0;
        while i < plan.len()
            invariant
                i <= plan.len(),
                control.keeps_account() == before_keeps,
                before_keeps ==> control.pressed() == before + plan_records(plan_view(plan@).subrange(0, i as int)),
            decreases plan.len() - i,
        {
            let g = &plan[i];
            if g.buttons.len() == 1 {
                assert(seq![g.buttons@[0]] =~= g.buttons@);
                control.press_delay(&g.buttons[0], &g.delay);
            } else {
                control.presses_delay(g.buttons.as_slice(), &g.delay);
            }
            i = i + 1;
            assert(plan_records(plan_view(plan@).subrange(0, i as int))
                =~= plan_records(plan_view(plan@).subrange(0, i - 1)).push(
                    PressRecord { buttons: plan@[i - 1].buttons@, delay: Some(plan@[i - 1].delay) }));
        }
        assert(plan_view(plan@).subrange(0, plan.len() as int) =~= plan_view(plan@));
        self.step_no_output(results)
    }

    /// Nothing to release.
    pub fn cleanup(&mut self)
        ensures
            *final(self) == *old(self),
    {
    }

    /// The name of the current state.
    pub fn current_name(&self) -> (r: String)
        requires
            self.wf(),
        ensures
            r@ == match self.machine().delay {
                None => self.machine().states[self.machine().current].name,
                Some((d, _)) => seq!['W', 'a', 'i', 't', '<'] + self.machine().states[self.machine().current].name
                    + seq![','] + duration_text(d as nat) + seq!['>'],
            },
    {
        self.fsm.current_name()
    }

    /// The debugging name of the current state.
    pub fn debug_name(&self) -> (r: String)
        requires
            self.wf(),
        ensures
            r@ == match self.machine().delay {
                None => self.machine().states[self.machine().current].debug_name,
                Some((d, n)) => seq!['W', 'a', 'i', 't', '<'] + self.machine().states[self.machine().current].debug_name
                    + seq!['-', '>'] + self.machine().states[n].debug_name
                    + seq![','] + duration_text(d as nat) + seq!['>'],
            },
    {
        self.fsm.debug_name()
    }

    /// The graph of the hunt in the dot language.
    pub fn graph_str(&self) -> (r: String)
        requires
            self.wf(),
        ensures
            r@ == graph_text(self.state_numbers(), self.machine().states),
    {
        self.fsm.graph_str()
    }

    /// Whether the hunt allows the console link to send heartbeats.
    pub fn heartbeat(&self) -> (r: bool)
        ensures
            r == self.machine().internal.heartbeat,
    {
        self.fsm.heartbeat()
    }
}

} // verus!
