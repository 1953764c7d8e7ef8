//! Hunts: the state machines that drive the console towards an encounter and
//! decide whether what appeared is shiny.
use vstd::prelude::*;
use crate::app::states::{Game, Method, RequestTransition, RequestTransitionView};
use crate::fsm::MachineView;
use crate::hunt::detection::{DetectionResolver, detection_plan};
use crate::hunt::encounter_type::{EncounterTypeResolver, encounter_plan};
use crate::hunt::state_machine::{HuntFSM, InternalHuntState};
use crate::hunt::state_machine_build::{BaseHunt, HuntFSMBuilder, built_upto, fragments_of, frags_buildable};

pub mod checks;
pub mod state_machine;
pub mod state_machine_build;
pub mod encounter_type;
pub mod detection;
pub mod classic;

verus! {

/// What one step of a hunt reports to the application.
#[derive(Debug)]
pub struct HuntResult {
    pub transition: Option<RequestTransition>,
    pub incr_encounters: bool,
}

/// The abstract value of a [`HuntResult`].
pub struct HuntResultView {
    pub transition: Option<RequestTransitionView>,
    pub incr_encounters: bool,
}

/// The abstract value of an optional request.
pub open spec fn opt_request_view(r: Option<RequestTransition>) -> Option<RequestTransitionView> {
    match r {
        Some(x) => Some(x@),
        None => None,
    }
}

impl View for HuntResult {
    type V = HuntResultView;

    open spec fn view(&self) -> HuntResultView {
        HuntResultView { transition: opt_request_view(self.transition), incr_encounters: self.incr_encounters }
    }
}

/// A step that reports nothing.
pub open spec fn no_result() -> HuntResultView {
    HuntResultView { transition: None, incr_encounters: false }
}

impl HuntResult {
    /// A result that reports nothing.
    pub fn default() -> (r: Self)
        ensures
            r@ == no_result(),
    {
        HuntResult { transition: None, incr_encounters: false }
    }

    /// A copy of the result.
    pub fn duplicate(&self) -> (r: Self)
        ensures
            r@ == self@,
    {
        let transition = match &self.transition {
            Some(t) => Some(t.duplicate()),
            None => None,
        };
        HuntResult { transition, incr_encounters: self.incr_encounters }
    }
}

/// The abstract value of an optional result.
pub open spec fn opt_result_view(r: Option<HuntResult>) -> Option<HuntResultView> {
    match r {
        Some(x) => Some(x@),
        None => None,
    }
}

/// Builds hunts: the classic ones from their tables, the others from the
/// encounter and detection fragments of the hunt.
pub struct HuntBuild {}

/// The fragments of the hunt for `b`, when both its encounter and its
/// detection are supported.
pub open spec fn hunt_fragments(b: BaseHunt) -> Option<Seq<Seq<crate::hunt::state_machine_build::FragStateView>>> {
    match (encounter_plan(b), detection_plan(b)) {
        (Some(e), Some(d)) => Some(fragments_of(e) + fragments_of(d)),
        _ => None,
    }
}

impl HuntBuild {
    /// The hunt for `target` in `game` by `method`, made of its encounter
    /// and detection fragments and started at `now`; `None` when either is
    /// not supported or the fragments cannot be built.
    pub fn build_fsm(target: u32, game: Game, method: Method, heartbeat: bool, now: u64) -> (r: Option<HuntFSM>)
        ensures
            match hunt_fragments(BaseHunt { target, game, method }) {
                Some(frs) => if frags_buildable(frs) {
                    r matches Some(h) && h.wf() && h.machine() == (MachineView {
                        states: built_upto(frs, frs.len() as int),
                        current: 0,
                        time: now,
                        delay: None,
                        internal: InternalHuntState::new_spec(heartbeat, now),
                    })
                } else {
                    r is None
                },
                None => r is None,
            },
    {
        let b = BaseHunt { target, game, method };
        let builder = HuntFSMBuilder::new(b);
        let ghost b0 = builder;
        let builder = match EncounterTypeResolver::add_states(builder) {
            Some(x) => x,
            None => return None,
        };
        let ghost b1 = builder;
        let builder = match DetectionResolver::add_states(builder) {
            Some(x) => x,
            None => return None,
        };
        proof {
            let e = encounter_plan(b);
            let d = detection_plan(b);
            assert(b1.fragments_view() =~= fragments_of(e->0));
            assert(builder.fragments_view() =~= fragments_of(e->0) + fragments_of(d->0));
        }
        if !builder.can_build() {
            return None;
        }
        Some(builder.build(heartbeat, now))
    }
}

} // verus!
