use shaoooh::app::states::{Game, Method};
use shaoooh::control::{Button, Delay, NopControl};
use shaoooh::hunt::state_machine::HuntFSM;
use shaoooh::hunt::HuntBuild;
use shaoooh::vision::{Processing, ProcessingResult};

fn start_encounter(met: bool) -> ProcessingResult {
    ProcessingResult { process: Processing::FRLG_START_ENCOUNTER(), met, species: 0, shiny: false }
}

fn route_hunt() -> HuntFSM {
    HuntBuild::build_fsm(16, Game::FireRedLeafGreen, Method::RandomEncounter, true, 0).unwrap()
}

#[test]
fn builder_hunts_that_exist() {
    assert!(HuntBuild::build_fsm(16, Game::FireRedLeafGreen, Method::RandomEncounter, true, 0).is_some());
    assert!(HuntBuild::build_fsm(206, Game::HeartGoldSoulSilver, Method::SoftResetEncounter, true, 0).is_some());
    assert!(HuntBuild::build_fsm(252, Game::Emerald, Method::RandomEncounter, true, 0).is_none());
    assert!(HuntBuild::build_fsm(25, Game::BlackWhite, Method::SafariZone, false, 0).is_none());
}

#[test]
fn route_hunt_starts_at_its_first_state() {
    let h = route_hunt();
    assert_eq!(h.current_name(), "Init");
    assert_eq!(h.debug_name(), "fragment0-Init [2 next state(s)]");
    assert!(h.processing().is_empty());
    assert!(h.pending_presses().is_empty());
    assert!(h.heartbeat());
}

#[test]
fn route_hunt_chooses_a_direction_by_the_toggle() {
    let mut h = route_hunt();
    let r = h.step_no_output_at(Vec::new(), 1, 0);
    assert!(r.transition.is_none());
    assert!(!r.incr_encounters);
    assert_eq!(h.current_name(), "Left");
    assert_eq!(h.processing().len(), 1);
    assert!(h.processing()[0].same_as(&Processing::FRLG_START_ENCOUNTER()));
    let plan = h.pending_presses();
    assert_eq!(plan.len(), 1);
    assert_eq!(plan[0].buttons, vec![Button::Left]);
    assert_eq!(plan[0].delay, Delay::Tenth);
}

#[test]
fn route_hunt_waits_then_turns_round() {
    let mut h = route_hunt();
    h.step_no_output_at(Vec::new(), 1, 0);
    h.step_no_output_at(vec![start_encounter(false)], 2, 0);
    assert_eq!(h.current_name(), "Wait<Left,75ms>");
    assert!(h.processing().is_empty());
    assert!(h.pending_presses().is_empty());
    let r = h.step_no_output_at(Vec::new(), 77, 0);
    assert!(r.transition.is_none() && !r.incr_encounters);
    assert_eq!(h.current_name(), "Wait<Left,75ms>");
    h.step_no_output_at(Vec::new(), 78, 0);
    assert_eq!(h.current_name(), "Right");
}

#[test]
fn route_hunt_enters_the_encounter() {
    let mut h = route_hunt();
    h.step_no_output_at(Vec::new(), 1, 0);
    h.step_no_output_at(vec![start_encounter(true)], 2, 0);
    h.step_no_output_at(Vec::new(), 100, 0);
    assert_eq!(h.current_name(), "Entering");
}

#[test]
fn route_hunt_graph_lists_its_states() {
    let h = route_hunt();
    let g = h.graph_str();
    assert!(g.starts_with("digraph {\n"));
    assert!(g.ends_with("}"));
    assert!(g.contains("  0 [label=\"Init\",id=\"shaoooh_0\","));
    assert!(g.contains("\"Entering\""));
    assert!(g.contains("  0 -> "));
}

#[test]
fn live_steps_press_through_a_control() {
    let mut h = route_hunt();
    let mut c = NopControl::new();
    h.step(&mut c, Vec::new());
    h.step_no_output(Vec::new());
    h.cleanup();
    assert!(h.current_name().len() > 0);
}

#[test]
fn builder_hunts_of_each_resolver_pair() {
    let some = |t: u32, g: Game, m: Method| HuntBuild::build_fsm(t, g, m, true, 0).is_some();
    assert!(some(152, Game::HeartGoldSoulSilver, Method::SoftResetGift));
    assert!(!some(153, Game::HeartGoldSoulSilver, Method::SoftResetGift));
    assert!(some(442, Game::DiamondPearl, Method::SoftResetEncounter));
    assert!(some(143, Game::FireRedLeafGreen, Method::SoftResetEncounter));
    assert!(some(131, Game::FireRedLeafGreen, Method::SoftResetGift));
    assert!(!some(131, Game::Emerald, Method::SoftResetGift));
    assert!(some(1, Game::UltraSunUltraMoon, Method::Utility));
    assert!(!some(3, Game::UltraSunUltraMoon, Method::Utility));
}

#[test]
fn wailmer_hunt_fishes() {
    let mut h = HuntBuild::build_fsm(320, Game::RubySapphire, Method::RandomEncounter, true, 0).unwrap();
    assert_eq!(h.current_name(), "TryFish");
    let plan = h.pending_presses();
    assert_eq!(plan.len(), 1);
    assert_eq!(plan[0].buttons, vec![Button::Select]);
    assert_eq!(plan[0].delay, Delay::Tenth);
    h.step_no_output_at(Vec::new(), 1, 0);
    assert_eq!(h.current_name(), "Wait<TryFish,100ms>");
    h.step_no_output_at(Vec::new(), 102, 0);
    assert_eq!(h.current_name(), "WaitFishActive");
    assert_eq!(h.processing().len(), 1);
    assert!(h.processing()[0].same_as(&Processing::RS_FISHING_ACTIVE()));
    let active = ProcessingResult { process: Processing::RS_FISHING_ACTIVE(), met: true, species: 0, shiny: false };
    h.step_no_output_at(vec![active], 200, 0);
    assert_eq!(h.current_name(), "ShouldPressA");
}

#[test]
fn other_ruby_sapphire_hunts_walk() {
    let h = HuntBuild::build_fsm(263, Game::RubySapphire, Method::RandomEncounter, true, 0).unwrap();
    assert_eq!(h.current_name(), "Init");
}
