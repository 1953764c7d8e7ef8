//! A state machine whose states press buttons, wait, and move on when one of
//! their checks holds.
use vstd::prelude::*;
use std::collections::HashMap;
use std::ops::Range;
use crate::hunt::{HuntResult, HuntResultView, opt_result_view};
use crate::hunt::checks::{Check, CheckView, check_step, run_check};
use crate::hunt::state_machine::{HuntStateOutput, InternalHuntState};
use crate::vision::{Processing, ProcessingView, ProcessingResult, ProcessingResultView, processings_view, results_view};
use crate::text::{decimal, duration_text, u64_to_string, duration_to_string};
use crate::sys::{now_millis, random_between};

verus! {

/// The number, name and debugging name of a state.
pub struct StateId {
    tag: usize,
    name: String,
    debug_name: String,
}

impl StateId {
    pub closed spec fn tag_view(&self) -> usize { self.tag }
    pub closed spec fn name_view(&self) -> Seq<char> { self.name@ }
    pub closed spec fn debug_name_view(&self) -> Seq<char> { self.debug_name@ }

    /// Groups the number and names of a state.
    pub fn new(tag: usize, name: String, debug_name: String) -> (r: Self)
        ensures
            r.tag_view() == tag,
            r.name_view() == name@,
            r.debug_name_view() == debug_name@,
    {
        StateId { tag, name, debug_name }
    }
}

/// A check of a state and the state it leads to.
#[derive(Debug)]
pub struct StateCheck {
    pub target: usize,
    pub check: Check,
}

impl View for StateCheck {
    type V = (usize, CheckView);

    open spec fn view(&self) -> (usize, CheckView) {
        (self.target, self.check@)
    }
}

/// The abstract values of a list of checks.
pub open spec fn checks_view(cs: Seq<StateCheck>) -> Seq<(usize, CheckView)> {
    cs.map_values(|c: StateCheck| c@)
}

/// One state: the presses made on entering it, the delay (ms) before the
/// next state is entered once a check holds, the processing it asks of each
/// frame, the states it may lead to, and its checks in order.
#[derive(Debug)]
pub struct State {
    pub name: String,
    pub debug_name: String,
    pub outputs: Vec<HuntStateOutput>,
    pub delay_msec: Range<u64>,
    pub inputs: Vec<Processing>,
    pub next_states: Vec<usize>,
    pub checks: Vec<StateCheck>,
}

/// The abstract value of a [`State`].
pub struct StateView {
    pub name: Seq<char>,
    pub debug_name: Seq<char>,
    pub outputs: Seq<HuntStateOutput>,
    pub delay_lo: u64,
    pub delay_hi: u64,
    pub inputs: Seq<ProcessingView>,
    pub next_states: Seq<usize>,
    pub checks: Seq<(usize, CheckView)>,
}

impl View for State {
    type V = StateView;

    open spec fn view(&self) -> StateView {
        StateView {
            name: self.name@,
            debug_name: self.debug_name@,
            outputs: self.outputs@,
            delay_lo: self.delay_msec.start,
            delay_hi: self.delay_msec.end,
            inputs: processings_view(self.inputs@),
            next_states: self.next_states@,
            checks: checks_view(self.checks@),
        }
    }
}

/// Runs the checks of a state in order. Every check runs, each on the memory
/// left by the one before; the outcome is that of the last check that held,
/// with the state it leads to.
pub open spec fn run_checks(cs: Seq<(usize, CheckView)>, rs: Seq<ProcessingResultView>, mem: InternalHuntState, now: u64)
    -> (Option<(usize, HuntResultView)>, InternalHuntState)
    decreases cs.len(),
{
    if cs.len() == 0 {
        (None, mem)
    } else {
        let (prev, mem1) = run_checks(cs.drop_last(), rs, mem, now);
        let (r, mem2) = check_step(cs.last().1, rs, mem1, now);
        (match r { Some(x) => Some((cs.last().0, x)), None => prev }, mem2)
    }
}

/// The abstract value of a [`StateMachine`].
pub struct MachineView {
    pub states: Map<usize, StateView>,
    pub current: usize,
    pub time: u64,
    pub delay: Option<(u64, usize)>,
    pub internal: InternalHuntState,
}

/// What one call of `process` does: while a delay runs, it only waits for
/// the delay to pass and then enters the pending state; otherwise it runs
/// the checks of the current state, and when one holds it enters the target
/// at once (no delay), after the fixed delay, or after the drawn delay.
pub open spec fn process_spec(m: MachineView, rs: Seq<ProcessingResultView>, now: u64, drawn: u64)
    -> (MachineView, Option<HuntResultView>)
{
    match m.delay {
        Some((d, next)) => {
            if now - m.time > d {
                (MachineView { current: next, delay: None, ..m }, None)
            } else {
                (m, None)
            }
        },
        None => {
            let st = m.states[m.current];
            let (res, mem) = run_checks(st.checks, rs, m.internal, now);
            match res {
                None => (MachineView { internal: mem, ..m }, None),
                Some((target, out)) => {
                    let m1 = MachineView { internal: mem, time: now, ..m };
                    if st.delay_hi == 0 {
                        (MachineView { current: target, ..m1 }, Some(out))
                    } else if st.delay_lo >= st.delay_hi {
                        (MachineView { delay: Some((st.delay_lo, target)), ..m1 }, Some(out))
                    } else {
                        (MachineView { delay: Some((drawn, target)), ..m1 }, Some(out))
                    }
                },
            }
        },
    }
}

/// Whether a list of numbers is strictly increasing.
pub open spec fn strictly_sorted(s: Seq<usize>) -> bool {
    forall|i: int, j: int| 0 <= i < j < s.len() ==> s[i] < s[j]
}

/// The state machine of a hunt.
pub struct StateMachine {
    states: HashMap<usize, State>,
    tags: Vec<usize>,
    current: usize,
    time: u64,
    delay: Option<(u64, usize)>,
    internal: InternalHuntState,
    empty_input: Vec<Processing>,
    empty_output: Vec<HuntStateOutput>,
}

impl StateMachine {
    /// The abstract value of the machine.
    pub closed spec fn view_machine(&self) -> MachineView {
        MachineView {
            states: self.states@.map_values(|s: State| s@),
            current: self.current,
            time: self.time,
            delay: self.delay,
            internal: self.internal,
        }
    }

    /// The numbers of the states, in increasing order.
    pub closed spec fn tags_view(&self) -> Seq<usize> {
        self.tags@
    }

    /// The machine's internal consistency: the list of state numbers is
    /// sorted and names exactly the states held.
    pub closed spec fn wf(&self) -> bool {
        &&& strictly_sorted(self.tags@)
        &&& forall|t: usize| self.tags@.contains(t) <==> self.states@.dom().contains(t)
        &&& self.empty_input@.len() == 0
        &&& self.empty_output@.len() == 0
        &&& vstd::std_specs::hash::obeys_key_model::<usize>()
    }

    /// Whether the current state, and a pending state, exist.
    pub open spec fn ready(&self) -> bool {
        &&& self.wf()
        &&& self.view_machine().states.dom().contains(self.view_machine().current)
        &&& (self.view_machine().delay matches Some((_, n)) ==> self.view_machine().states.dom().contains(n))
    }

    /// An empty machine in state 0, with fresh memory whose timer starts at
    /// `now`.
    pub fn new(heartbeat: bool, now: u64) -> (r: Self)
        ensures
            r.wf(),
            r.view_machine().states == Map::<usize, StateView>::empty(),
            r.view_machine().current == 0,
            r.view_machine().time == now,
            r.view_machine().delay is None,
            r.view_machine().internal == InternalHuntState::new_spec(heartbeat, now),
            r.tags_view() == Seq::<usize>::empty(),
    {
        broadcast use vstd::std_specs::hash::group_hash_axioms;
        let r = StateMachine {
            states: HashMap::new(),
            tags: Vec::new(),
            current: 0,
            time: now,
            delay: None,
            internal: InternalHuntState::new(heartbeat, now),
            empty_input: Vec::new(),
            empty_output: Vec::new(),
        };
        assert(r.view_machine().states =~= Map::<usize, StateView>::empty());
        r
    }

    /// Adds a state, or replaces the state with the same number.
    pub fn add_state(
        &mut self,
        id: StateId,
        outputs: Vec<HuntStateOutput>,
        delay_msec: Range<u64>,
        inputs: Vec<Processing>,
        next_states: Vec<usize>,
        checks: Vec<StateCheck>,
    )
        requires
            old(self).wf(),
        ensures
            final(self).wf(),
            final(self).view_machine() == (MachineView {
                states: old(self).view_machine().states.insert(id.tag_view(), StateView {
                    name: id.name_view(),
                    debug_name: id.debug_name_view(),
                    outputs: outputs@,
                    delay_lo: delay_msec.start,
                    delay_hi: delay_msec.end,
                    inputs: processings_view(inputs@),
                    next_states: next_states@,
                    checks: checks_view(checks@),
                }),
                ..old(self).view_machine()
            }),
            final(self).tags_view().to_set() == old(self).tags_view().to_set().insert(id.tag_view()),
    {
        broadcast use vstd::std_specs::hash::group_hash_axioms;
        let StateId { tag, name, debug_name } = id;
        let state = State { name, debug_name, outputs, delay_msec, inputs, next_states, checks };
        // keep the list of numbers sorted
        let mut pos: usize = 0;
        while pos < self.tags.len() && self.tags[pos] < tag
            invariant
                self.tags == old(self).tags,
                self.states == old(self).states,
                pos <= self.tags.len(),
                forall|j: int| 0 <= j < pos ==> self.tags@[j] < tag,
            decreases self.tags.len() - pos,
        {
            pos = pos + 1;
        }
        let ghost old_tags = self.tags@;
        assert(forall|t: usize| old_tags.contains(t) <==> old(self).states@.dom().contains(t));
        if pos == self.tags.len() || self.tags[pos] != tag {
            self.tags.insert(pos, tag);
            proof {
                assert forall|i: int, j: int| 0 <= i < j < self.tags@.len() implies self.tags@[i] < self.tags@[j] by {
                    if j < pos {
                    } else if i < pos && j == pos {
                    } else if i < pos && j > pos {
                        assert(old_tags[i] < tag);
                        assert(tag < old_tags[pos as int]);
                        assert(old_tags[pos as int] <= old_tags[j - 1]);
                    } else if i == pos {
                        assert(tag < old_tags[pos as int]);
                        assert(old_tags[pos as int] <= old_tags[j - 1]);
                    } else {
                    }
                }
                assert forall|t: usize| self.tags@.contains(t) <==> (old_tags.contains(t) || t == tag) by {
                    if self.tags@.contains(t) {
                        let k = choose|k: int| 0 <= k < self.tags@.len() && self.tags@[k] == t;
                        if k < pos { assert(old_tags[k] == t); }
                        else if k > pos { assert(old_tags[k - 1] == t); }
                    }
                    if old_tags.contains(t) {
                        let k = choose|k: int| 0 <= k < old_tags.len() && old_tags[k] == t;
                        if k < pos { assert(self.tags@[k] == t); }
                        else { assert(self.tags@[k + 1] == t); }
                    }
                    if t == tag { assert(self.tags@[pos as int] == t); }
                }
            }
        } else {
            assert(self.tags@[pos as int] == tag);
            assert(old_tags.contains(tag));
        }
        assert(forall|t: usize| self.tags@.contains(t) <==> (old_tags.contains(t) || t == tag));
        self.states.insert(tag, state);
        proof {
            assert forall|t: usize| #[trigger] self.tags@.to_set().contains(t) == old_tags.to_set().insert(tag).contains(t) by {
                assert(self.tags@.contains(t) <==> (old_tags.contains(t) || t == tag));
            }
            assert(self.tags@.to_set() =~= old_tags.to_set().insert(tag));
            assert(strictly_sorted(self.tags@));
            assert(forall|t: usize| self.states@.dom().contains(t) <==> (old(self).states@.dom().contains(t) || t == tag));
            assert forall|t: usize| self.tags@.contains(t) <==> self.states@.dom().contains(t) by {
                assert(self.tags@.contains(t) <==> (old_tags.contains(t) || t == tag));
                assert(old_tags.contains(t) <==> old(self).states@.dom().contains(t));
                assert(self.states@.dom().contains(t) <==> (old(self).states@.dom().contains(t) || t == tag));
            }
            assert(self.view_machine().states =~= old(self).view_machine().states.insert(tag, self.states@[tag]@));
        }
    }

    /// The processing asked of the next frame: that of the current state, or
    /// none while a delay runs.
    pub fn inputs(&self) -> (r: &Vec<Processing>)
        requires
            self.ready(),
        ensures
            processings_view(r@) == if self.view_machine().delay is None {
                self.view_machine().states[self.view_machine().current].inputs
            } else {
                Seq::empty()
            },
    {
        broadcast use vstd::std_specs::hash::group_hash_axioms;
        if self.delay.is_none() {
            let st = self.states.get(&self.current).unwrap();
            &st.inputs
        } else {
            assert(processings_view(self.empty_input@) =~= Seq::empty());
            &self.empty_input
        }
    }

    /// The presses of the current state, or none while a delay runs.
    pub fn outputs(&self) -> (r: &Vec<HuntStateOutput>)
        requires
            self.ready(),
        ensures
            r@ == if self.view_machine().delay is None {
                self.view_machine().states[self.view_machine().current].outputs
            } else {
                Seq::empty()
            },
    {
        broadcast use vstd::std_specs::hash::group_hash_axioms;
        if self.delay.is_none() {
            let st = self.states.get(&self.current).unwrap();
            &st.outputs
        } else {
            &self.empty_output
        }
    }

    /// Whether the machine's memory allows heartbeats.
    pub fn heartbeat(&self) -> (r: bool)
        ensures
            r == self.view_machine().internal.heartbeat,
    {
        self.internal.heartbeat
    }

    /// The debugging name of state `indx`.
    pub fn debug_name_at_indx(&self, indx: usize) -> (r: String)
        requires
            self.wf(),
            self.view_machine().states.dom().contains(indx),
        ensures
            r@ == self.view_machine().states[indx].debug_name,
    {
        broadcast use vstd::std_specs::hash::group_hash_axioms;
        self.states.get(&indx).unwrap().debug_name.clone()
    }

    /// The name of the current state, wrapped in `Wait<..>` with the delay
    /// while a delay runs.
    pub fn current_name(&self) -> (r: String)
        requires
            self.ready(),
        ensures
            r@ == match self.view_machine().delay {
                None => self.view_machine().states[self.view_machine().current].name,
                Some((d, _)) => seq!['W', 'a', 'i', 't', '<'] + self.view_machine().states[self.view_machine().current].name
                    + seq![','] + duration_text(d as nat) + seq!['>'],
            },
    {
        broadcast use vstd::std_specs::hash::group_hash_axioms;
        let st = self.states.get(&self.current).unwrap();
        match self.delay {
            Some((d, _)) => {
                proof {
                    reveal_strlit("Wait<");
                    reveal_strlit(",");
                    reveal_strlit(">");
                }
                let mut s = String::from_str("Wait<");
                s.append(st.name.as_str());
                s.append(",");
                let ds = duration_to_string(d);
                s.append(ds.as_str());
                s.append(">");
                s
            },
            None => st.name.clone(),
        }
    }

    /// The debugging name of the current state; while a delay runs, also
    /// that of the pending state and the delay.
    pub fn debug_name(&self) -> (r: String)
        requires
            self.ready(),
        ensures
            r@ == match self.view_machine().delay {
                None => self.view_machine().states[self.view_machine().current].debug_name,
                Some((d, n)) => seq!['W', 'a', 'i', 't', '<'] + self.view_machine().states[self.view_machine().current].debug_name
                    + seq!['-', '>'] + self.view_machine().states[n].debug_name
                    + seq![','] + duration_text(d as nat) + seq!['>'],
            },
    {
        broadcast use vstd::std_specs::hash::group_hash_axioms;
        let st = self.states.get(&self.current).unwrap();
        match self.delay {
            Some((d, n)) => {
                proof {
                    reveal_strlit("Wait<");
                    reveal_strlit("->");
                    reveal_strlit(",");
                    reveal_strlit(">");
                }
                let next = self.states.get(&n).unwrap();
                let mut s = String::from_str("Wait<");
                s.append(st.debug_name.as_str());
                s.append("->");
                s.append(next.debug_name.as_str());
                s.append(",");
                let ds = duration_to_string(d);
                s.append(ds.as_str());
                s.append(">");
                s
            },
            None => st.debug_name.clone(),
        }
    }

    /// One step at time `now` on the results of the frame processing, with
    /// `drawn` as the delay to use where the current state's delay is drawn
    /// at random.
    pub fn process_at(&mut self, inputs: Vec<ProcessingResult>, now: u64, drawn: u64) -> (r: Option<HuntResult>)
        requires
            old(self).ready(),
            now >= old(self).view_machine().time,
            now >= old(self).view_machine().internal.time,
        ensures
            final(self).wf(),
            final(self).tags_view() == old(self).tags_view(),
            (final(self).view_machine(), opt_result_view(r))
                == process_spec(old(self).view_machine(), results_view(inputs@), now, drawn),
            final(self).view_machine().time <= now,
            final(self).view_machine().internal.time <= now,
    {
        broadcast use vstd::std_specs::hash::group_hash_axioms;
        let ghost rs = results_view(inputs@);
        let ghost m = self.view_machine();
        if let Some((d, next)) = self.delay {
            if now - self.time > d {
                self.current = next;
                self.delay = None;
            }
            return None;
        }
        let st = self.states.get(&self.current).unwrap();
        let ghost cs = st@.checks;
        assert(cs == m.states[m.current].checks);
        let mut result: Option<(usize, HuntResult)> = None;
        let mut i: usize = 0;
        while i < st.checks.len()
            invariant
                i <= st.checks.len(),
                cs == checks_view(st.checks@),
                self.states == old(self).states,
                self.tags == old(self).tags,
                self.current == old(self).current,
                self.time == old(self).time,
                self.delay == old(self).delay,
                self.empty_input == old(self).empty_input,
                self.empty_output == old(self).empty_output,
                st == old(self).states@[old(self).current],
                now >= self.internal.time,
                rs == results_view(inputs@),
                ({
                    let (res, mem) = run_checks(cs.subrange(0, i as int), rs, m.internal, now);
                    &&& self.internal == mem
                    &&& res == match result { Some((t, x)) => Some((t, x@)), None => None }
                }),
            decreases st.checks.len() - i,
        {
            let ghost before = self.internal;
            let c = &st.checks[i];
            let out = run_check(&c.check, &inputs, &mut self.internal, now);
            proof {
                assert(cs.subrange(0, i + 1).drop_last() =~= cs.subrange(0, i as int));
                assert(cs.subrange(0, i + 1).last() == cs[i as int]);
                assert(cs[i as int] == st.checks@[i as int]@);
            }
            match out {
                Some(x) => {
                    result = Some((c.target, x));
                },
                None => {},
            }
            i = i + 1;
        }
        assert(cs.subrange(0, st.checks.len() as int) =~= cs);
        match result {
            None => None,
            Some((target, out)) => {
                let lo = st.delay_msec.start;
                let hi = st.delay_msec.end;
                self.time = now;
                if hi == 0 {
                    self.current = target;
                } else if lo >= hi {
                    self.delay = Some((lo, target));
                } else {
                    self.delay = Some((drawn, target));
                }
                proof {
                    assert(self.view_machine().states =~= m.states);
                }
                Some(out)
            },
        }
    }

    /// One step on the results of the frame processing, at the current time
    /// of the clock, drawing the delay at random where the current state asks
    /// for a random delay. A clock that reads earlier than the machine's last
    /// step is taken as the time of that step.
    pub fn process(&mut self, inputs: Vec<ProcessingResult>) -> (r: Option<HuntResult>)
        requires
            old(self).ready(),
        ensures
            final(self).wf(),
            final(self).tags_view() == old(self).tags_view(),
            exists|now: u64, drawn: u64|
                now >= old(self).view_machine().time && now >= old(self).view_machine().internal.time
                && (old(self).view_machine().delay is None
                    && old(self).view_machine().states[old(self).view_machine().current].delay_lo
                        < old(self).view_machine().states[old(self).view_machine().current].delay_hi
                    ==> old(self).view_machine().states[old(self).view_machine().current].delay_lo <= drawn
                        < old(self).view_machine().states[old(self).view_machine().current].delay_hi)
                && (final(self).view_machine(), opt_result_view(r))
                    == #[trigger] process_spec(old(self).view_machine(), results_view(inputs@), now, drawn),
    {
        broadcast use vstd::std_specs::hash::group_hash_axioms;
        let mut now = now_millis();
        if now < self.time {
            now = self.time;
        }
        if now < self.internal.time {
            now = self.internal.time;
        }
        let st = self.states.get(&self.current).unwrap();
        let lo = st.delay_msec.start;
        let hi = st.delay_msec.end;
        let drawn = if self.delay.is_none() && lo < hi { random_between(lo, hi) } else { lo };
        self.process_at(inputs, now, drawn)
    }
}

/// The line of the graph that draws state `t`.
pub open spec fn node_line(t: usize, st: StateView) -> Seq<char> {
    "  "@ + decimal(t as nat) + " [label=\""@ + st.name + "\",id=\"shaoooh_"@ + decimal(t as nat) + "\","@
        + "shape=rect,height=0.1,style=filled,color=\"#D48735\",fillcolor=\"#FBCF9D\",fontcolor=\"#7A151B\",fontsize=8,fontname=\"DejaVu Sans Mono\""@
        + "];\n"@
}

/// The line of the graph that draws the edge from `t` to `n`.
pub open spec fn edge_line(t: usize, n: usize) -> Seq<char> {
    "  "@ + decimal(t as nat) + " -> "@ + decimal(n as nat) + " ["@ + "arrowsize=0.5,color=\"#D48735\""@ + "];\n"@
}

/// The lines that draw the states `ts`.
pub open spec fn node_lines(ts: Seq<usize>, states: Map<usize, StateView>) -> Seq<char>
    decreases ts.len(),
{
    if ts.len() == 0 { Seq::empty() } else { node_lines(ts.drop_last(), states) + node_line(ts.last(), states[ts.last()]) }
}

/// The lines that draw the edges from `t` to each of `ns`.
pub open spec fn edge_lines_of(t: usize, ns: Seq<usize>) -> Seq<char>
    decreases ns.len(),
{
    if ns.len() == 0 { Seq::empty() } else { edge_lines_of(t, ns.drop_last()) + edge_line(t, ns.last()) }
}

/// The lines that draw the edges out of the states `ts`.
pub open spec fn edge_lines(ts: Seq<usize>, states: Map<usize, StateView>) -> Seq<char>
    decreases ts.len(),
{
    if ts.len() == 0 { Seq::empty() } else {
        edge_lines(ts.drop_last(), states) + edge_lines_of(ts.last(), states[ts.last()].next_states)
    }
}

/// The graph of the machine in the dot language: its states in increasing
/// order, then the edges out of each.
pub open spec fn graph_text(ts: Seq<usize>, states: Map<usize, StateView>) -> Seq<char> {
    "digraph {\n  "@ + "ranksep=0.1; bgcolor=\"#7A151B\"; dpi=72; size=\"4.6,7!\";"@ + "\n"@
        + node_lines(ts, states) + edge_lines(ts, states) + "}"@
}

impl StateMachine {
    /// The graph of the machine in the dot language.
    pub fn graph_str(&self) -> (r: String)
        requires
            self.wf(),
        ensures
            r@ == graph_text(self.tags_view(), self.view_machine().states),
    {
        broadcast use vstd::std_specs::hash::group_hash_axioms;
        let ghost states = self.view_machine().states;
        let ghost ts = self.tags@;
        let mut graph = String::from_str("digraph {\n  ");
        graph.append("ranksep=0.1; bgcolor=\"#7A151B\"; dpi=72; size=\"4.6,7!\";");
        graph.append("\n");
        let ghost head = graph@;
        let mut i: usize = 0;
        while i < self.tags.len()
            invariant
                self.wf(),
                states == self.view_machine().states,
                ts == self.tags@,
                i <= ts.len(),
                graph@ == head + node_lines(ts.subrange(0, i as int), states),
            decreases self.tags.len() - i,
        {
            let t = self.tags[i];
            assert(ts.contains(t));
            let st = self.states.get(&t).unwrap();
            graph.append("  ");
            let ds = u64_to_string(t as u64);
            graph.append(ds.as_str());
            graph.append(" [label=\"");
            graph.append(st.name.as_str());
            graph.append("\",id=\"shaoooh_");
            graph.append(ds.as_str());
            graph.append("\",");
            graph.append("shape=rect,height=0.1,style=filled,color=\"#D48735\",fillcolor=\"#FBCF9D\",fontcolor=\"#7A151B\",fontsize=8,fontname=\"DejaVu Sans Mono\"");
            graph.append("];\n");
            proof {
                assert(ts.subrange(0, i + 1).drop_last() =~= ts.subrange(0, i as int));
                assert(graph@ =~= head + node_lines(ts.subrange(0, i + 1), states));
            }
            i = i + 1;
        }
        assert(ts.subrange(0, ts.len() as int) =~= ts);
        let ghost mid = graph@;
        let mut i: usize = 0;
        while i < self.tags.len()
            invariant
                self.wf(),
                states == self.view_machine().states,
                ts == self.tags@,
                i <= ts.len(),
                graph@ == mid + edge_lines(ts.subrange(0, i as int), states),
            decreases self.tags.len() - i,
        {
            let t = self.tags[i];
            assert(ts.contains(t));
            let st = self.states.get(&t).unwrap();
            let ghost before = graph@;
            let ghost ns = st.next_states@;
            let mut j: usize = 0;
            while j < st.next_states.len()
                invariant
                    j <= ns.len(),
                    ns == st.next_states@,
                    graph@ == before + edge_lines_of(t, ns.subrange(0, j as int)),
                decreases st.next_states.len() - j,
            {
                let n = st.next_states[j];
                graph.append("  ");
                let ds = u64_to_string(t as u64);
                graph.append(ds.as_str());
                graph.append(" -> ");
                let dn = u64_to_string(n as u64);
                graph.append(dn.as_str());
                graph.append(" [");
                graph.append("arrowsize=0.5,color=\"#D48735\"");
                graph.append("];\n");
                proof {
                    assert(ns.subrange(0, j + 1).drop_last() =~= ns.subrange(0, j as int));
                    assert(graph@ =~= before + edge_lines_of(t, ns.subrange(0, j + 1)));
                }
                j = j + 1;
            }
            proof {
                assert(ns.subrange(0, ns.len() as int) =~= ns);
                assert(ts.subrange(0, i + 1).drop_last() =~= ts.subrange(0, i as int));
                assert(states[t].next_states == ns);
                assert(graph@ =~= mid + edge_lines(ts.subrange(0, i + 1), states));
            }
            i = i + 1;
        }
        assert(ts.subrange(0, ts.len() as int) =~= ts);
        graph.append("}");
        assert(graph@ =~= graph_text(ts, states));
        graph
    }
}

} // verus!
