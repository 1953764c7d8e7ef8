use shaoooh::app::control::{AppState, Refusal, TransitionOutcome};
use shaoooh::app::error::ShaooohError;
use shaoooh::app::states::{Game, HuntState, Method, Phase, RequestTransition, Transition, TransitionArg};
use shaoooh::hunt::state_machine::HuntFSM;
use shaoooh::hunt::HuntResult;

fn start_request(name: &str, species: u32, game: Game, method: Method) -> RequestTransition {
    RequestTransition { transition: Transition::StartHunt, arg: Some(TransitionArg::new(name, species, game, method)) }
}

fn plain(t: Transition) -> RequestTransition {
    RequestTransition { transition: t, arg: None }
}

fn hunting_app(hunt: &mut Option<HuntFSM>) -> AppState {
    let mut app = AppState::new();
    let out = app.do_transition_at(
        start_request("pidgey", 16, Game::FireRedLeafGreen, Method::RandomEncounter),
        hunt,
        false,
        (Vec::new(), 0),
        true,
        1000,
    );
    assert_eq!(out, TransitionOutcome::Applied);
    app
}

#[test]
fn start_hunt_builds_the_hunt() {
    let mut hunt = None;
    let app = hunting_app(&mut hunt);
    assert_eq!(app.state, HuntState::Hunt);
    assert!(hunt.is_some());
    let arg = app.arg.as_ref().unwrap();
    assert_eq!(arg.name, "pidgey");
    assert_eq!(arg.species, 16);
}

#[test]
fn start_hunt_loads_the_saved_count() {
    let mut hunt = None;
    let mut app = AppState::new();
    let saved = vec![Phase { species: 19, encounters: 40, caught: true, date: 5 }];
    let out = app.do_transition_at(
        start_request("pidgey", 16, Game::FireRedLeafGreen, Method::RandomEncounter),
        &mut hunt,
        false,
        (saved.clone(), 123),
        true,
        1000,
    );
    assert_eq!(out, TransitionOutcome::Applied);
    assert_eq!(app.encounters, 123);
    assert_eq!(app.phases, saved);
}

#[test]
fn unsupported_hunt_returns_to_idle() {
    let mut hunt = None;
    let mut app = AppState::new();
    let out = app.do_transition_at(
        start_request("x", 252, Game::Emerald, Method::RandomEncounter),
        &mut hunt,
        false,
        (Vec::new(), 0),
        true,
        1000,
    );
    assert_eq!(out, TransitionOutcome::HuntNotBuilt);
    assert_eq!(app.state, HuntState::Idle);
    assert!(hunt.is_none());
}

#[test]
fn illegal_transition_is_refused() {
    let mut hunt = None;
    let mut app = AppState::new();
    let out = app.do_transition_at(plain(Transition::PauseHunt), &mut hunt, false, (Vec::new(), 0), true, 1);
    assert_eq!(out, TransitionOutcome::Refused(Refusal::Illegal));
    assert_eq!(app.state, HuntState::Idle);
}

#[test]
fn start_without_argument_is_refused() {
    let mut hunt = None;
    let mut app = AppState::new();
    let out = app.do_transition_at(plain(Transition::StartHunt), &mut hunt, false, (Vec::new(), 0), true, 1);
    assert_eq!(out, TransitionOutcome::Refused(Refusal::UnexpectedArgument));
    assert_eq!(app.state, HuntState::Idle);
    assert!(app.arg.is_none());
}

#[test]
fn manual_found_target_is_refused() {
    let mut hunt = None;
    let mut app = hunting_app(&mut hunt);
    let out = app.do_transition_at(plain(Transition::FoundTarget), &mut hunt, false, (Vec::new(), 0), true, 2);
    assert_eq!(out, TransitionOutcome::Refused(Refusal::AutomaticOnly));
    assert_eq!(app.state, HuntState::Hunt);
}

#[test]
fn automatic_found_target_is_made() {
    let mut hunt = None;
    let mut app = hunting_app(&mut hunt);
    let out = app.do_transition_at(plain(Transition::FoundTarget), &mut hunt, true, (Vec::new(), 0), true, 2);
    assert_eq!(out, TransitionOutcome::Applied);
    assert_eq!(app.state, HuntState::FoundTarget);
}

#[test]
fn caught_non_target_records_a_phase() {
    let mut hunt = None;
    let mut app = hunting_app(&mut hunt);
    for _ in 0..7 {
        app.count_encounter();
    }
    let found = RequestTransition {
        transition: Transition::FoundNonTarget,
        arg: Some(TransitionArg::new("", 19, Game::FireRedLeafGreen, Method::RandomEncounter)),
    };
    assert_eq!(app.do_transition_at(found, &mut hunt, true, (Vec::new(), 0), true, 50), TransitionOutcome::Applied);
    assert_eq!(app.state, HuntState::FoundNonTarget);
    assert_eq!(app.last_phase, 19);
    assert_eq!(app.do_transition_at(plain(Transition::Caught), &mut hunt, false, (Vec::new(), 0), true, 60), TransitionOutcome::Applied);
    assert_eq!(app.state, HuntState::Hunt);
    assert_eq!(app.encounters, 0);
    assert_eq!(app.phases, vec![Phase { species: 19, encounters: 7, caught: true, date: 60 }]);
}

#[test]
fn false_detect_keeps_the_count() {
    let mut hunt = None;
    let mut app = hunting_app(&mut hunt);
    app.count_encounter();
    app.count_encounter();
    assert_eq!(app.do_transition_at(plain(Transition::FoundTarget), &mut hunt, true, (Vec::new(), 0), true, 2), TransitionOutcome::Applied);
    assert_eq!(app.do_transition_at(plain(Transition::FalseDetect), &mut hunt, false, (Vec::new(), 0), true, 3), TransitionOutcome::Applied);
    assert_eq!(app.state, HuntState::Hunt);
    assert_eq!(app.encounters, 2);
    assert!(app.phases.is_empty());
    assert!(hunt.is_some());
}

#[test]
fn caught_target_ends_the_hunt() {
    let mut hunt = None;
    let mut app = hunting_app(&mut hunt);
    app.count_encounter();
    assert_eq!(app.do_transition_at(plain(Transition::FoundTarget), &mut hunt, true, (Vec::new(), 0), true, 2), TransitionOutcome::Applied);
    assert_eq!(app.do_transition_at(plain(Transition::Caught), &mut hunt, false, (Vec::new(), 0), true, 9), TransitionOutcome::Applied);
    assert_eq!(app.state, HuntState::Idle);
    assert!(hunt.is_none());
    assert_eq!(app.phases, vec![Phase { species: 0, encounters: 1, caught: true, date: 9 }]);
    assert_eq!(app.encounters, 0);
}

#[test]
fn pause_drops_the_hunt() {
    let mut hunt = None;
    let mut app = hunting_app(&mut hunt);
    assert_eq!(app.do_transition_at(plain(Transition::PauseHunt), &mut hunt, false, (Vec::new(), 0), true, 2), TransitionOutcome::Applied);
    assert_eq!(app.state, HuntState::Idle);
    assert!(hunt.is_none());
}

#[test]
fn hunt_information_of_a_found_target() {
    let mut hunt = None;
    let mut app = hunting_app(&mut hunt);
    assert!(app.hunt_information(5).unwrap().date.is_none());
    app.count_encounter();
    assert_eq!(app.do_transition_at(plain(Transition::FoundTarget), &mut hunt, true, (Vec::new(), 0), true, 2), TransitionOutcome::Applied);
    let info = app.hunt_information(77).unwrap();
    assert_eq!(info.name, "pidgey");
    assert_eq!(info.species, 16);
    assert_eq!(info.encounters, 1);
    assert!(info.complete);
    assert_eq!(info.date, Some(77));
}

#[test]
fn idle_has_no_hunt_information() {
    let app = AppState::new();
    assert!(app.hunt_information(1).is_none());
}

#[test]
fn possible_transitions_of_each_state() {
    assert_eq!(HuntState::Idle.possible_transitions().len(), 1);
    assert_eq!(HuntState::Hunt.possible_transitions().len(), 3);
    let t = HuntState::FoundTarget.possible_transitions();
    assert_eq!(t[0].transition, Transition::Caught);
    assert_eq!(t[0].next_state, HuntState::Idle);
    let t = HuntState::FoundNonTarget.possible_transitions();
    assert_eq!(t[0].next_state, HuntState::Hunt);
}

#[test]
fn error_messages() {
    assert_eq!(ShaooohError::CommunicationError.message(), "Communication Error");
    assert_eq!(ShaooohError::UnexpectedEndOfLoop.message(), "Unexpected End of Loop");
    assert_eq!(ShaooohError::ProcessingError.message(), "Processing Error");
}

#[test]
fn hunt_result_counts_the_encounter() {
    let mut hunt = None;
    let mut app = hunting_app(&mut hunt);
    let out = app.apply_hunt_result(HuntResult { transition: None, incr_encounters: true }, &mut hunt, true, 5);
    assert_eq!(out, None);
    assert_eq!(app.encounters, 1);
    assert_eq!(app.state, HuntState::Hunt);
    let out = app.apply_hunt_result(HuntResult { transition: None, incr_encounters: false }, &mut hunt, true, 6);
    assert_eq!(out, None);
    assert_eq!(app.encounters, 1);
}

#[test]
fn hunt_result_makes_the_automatic_transition() {
    let mut hunt = None;
    let mut app = hunting_app(&mut hunt);
    let out = app.apply_hunt_result(
        HuntResult { transition: Some(plain(Transition::FoundTarget)), incr_encounters: true },
        &mut hunt,
        true,
        7,
    );
    assert_eq!(out, Some(TransitionOutcome::Applied));
    assert_eq!(app.state, HuntState::FoundTarget);
    assert_eq!(app.encounters, 1);
    assert!(hunt.is_some());
}

#[test]
fn hunt_result_with_an_illegal_transition_only_counts() {
    let mut hunt = None;
    let mut app = hunting_app(&mut hunt);
    let out = app.apply_hunt_result(
        HuntResult { transition: Some(plain(Transition::Caught)), incr_encounters: true },
        &mut hunt,
        true,
        7,
    );
    assert_eq!(out, Some(TransitionOutcome::Refused(Refusal::Illegal)));
    assert_eq!(app.state, HuntState::Hunt);
    assert_eq!(app.encounters, 1);
}
