use shaoooh::app::states::{Game, Method, Transition};
use shaoooh::control::{BotControl, Button, Delay, NopControl};
use shaoooh::hunt::classic::{
    dp_random, frlg_random, frlg_starter, hgss_random, make_press, ClassicHunt, Press,
};
use shaoooh::hunt::{HuntBuild, HuntResult};
use shaoooh::vision::{Processing, ProcessingResult};

fn met(p: Processing) -> ProcessingResult {
    ProcessingResult { process: p, met: true, species: 0, shiny: false }
}

fn sprite(game: Game, species: u32, shiny: bool) -> ProcessingResult {
    ProcessingResult {
        process: Processing::Sprite(game, vec![species], false),
        met: true,
        species,
        shiny,
    }
}

fn quiet(r: &HuntResult) -> bool {
    r.transition.is_none() && !r.incr_encounters
}

/// Runs the current step, then lets any wait it starts run out; returns the
/// presses of the step.
fn act(h: &mut ClassicHunt, now: &mut u64) -> Vec<Press> {
    let (presses, r) = h.step_at(&Vec::new(), *now, 0);
    assert!(quiet(&r));
    *now += 10_000;
    let (more, r) = h.step_at(&Vec::new(), *now, 0);
    assert!(more.is_empty());
    assert!(quiet(&r));
    *now += 1;
    presses
}

#[test]
fn starter_hunt_resets_then_waits() {
    let mut h = frlg_starter(4, 0);
    assert!(h.processing().is_empty());
    let (p, r) = h.step_at(&Vec::new(), 0, 0);
    assert_eq!(p, vec![Press::ResetGen3]);
    assert!(quiet(&r));
    let (p, r) = h.step_at(&Vec::new(), 3000, 0);
    assert!(p.is_empty());
    assert!(quiet(&r));
    let (p, _) = h.step_at(&Vec::new(), 3500, 0);
    assert!(p.is_empty());
    let (p, _) = h.step_at(&Vec::new(), 3501, 0);
    assert!(p.is_empty());
    let (p, _) = h.step_at(&Vec::new(), 3502, 0);
    assert_eq!(p, vec![Press::Plain(Button::Start)]);
}

fn starter_at_detection(now: &mut u64) -> ClassicHunt {
    let mut h = frlg_starter(4, 0);
    let mut all = Vec::new();
    for _ in 0..16 {
        all.extend(act(&mut h, now));
    }
    assert_eq!(
        all,
        vec![
            Press::ResetGen3,
            Press::Plain(Button::Start),
            Press::Plain(Button::Start),
            Press::Plain(Button::A),
            Press::Plain(Button::B),
            Press::Plain(Button::A),
            Press::Plain(Button::A),
            Press::Plain(Button::A),
            Press::Plain(Button::A),
            Press::Plain(Button::B),
            Press::Plain(Button::A),
            Press::Plain(Button::Start),
            Press::Plain(Button::A),
            Press::Plain(Button::A),
            Press::Plain(Button::A),
            Press::Plain(Button::Right),
        ]
    );
    h
}

#[test]
fn starter_hunt_counts_a_plain_starter_and_resets() {
    let mut now = 0;
    let mut h = starter_at_detection(&mut now);
    let checks = h.processing();
    assert_eq!(checks.len(), 2);
    assert!(matches!(&checks[0], Processing::Sprite(Game::FireRedLeafGreen, s, true) if s == &vec![4]));
    let (p, r) = h.step_at(&vec![sprite(Game::FireRedLeafGreen, 4, false)], now, 0);
    assert!(p.is_empty());
    assert!(r.incr_encounters);
    assert!(r.transition.is_none());
    let (p, _) = h.step_at(&Vec::new(), now + 1, 0);
    assert_eq!(p, vec![Press::ResetGen3]);
}

#[test]
fn starter_hunt_reports_a_shiny_starter_and_stops() {
    let mut now = 0;
    let mut h = starter_at_detection(&mut now);
    let (_, r) = h.step_at(&vec![sprite(Game::FireRedLeafGreen, 4, true)], now, 0);
    assert!(r.incr_encounters);
    assert_eq!(r.transition.as_ref().unwrap().transition, Transition::FoundTarget);
    for k in 1..5 {
        let (p, r) = h.step_at(&vec![sprite(Game::FireRedLeafGreen, 4, true)], now + k, 0);
        assert!(p.is_empty());
        assert!(quiet(&r));
        assert!(h.processing().is_empty());
    }
}

#[test]
fn starter_hunt_reports_a_shiny_star() {
    let mut now = 0;
    let mut h = starter_at_detection(&mut now);
    let star = ProcessingResult { process: Processing::FRLG_SHINY_STAR(), met: true, species: 0, shiny: true };
    let (_, r) = h.step_at(&vec![sprite(Game::FireRedLeafGreen, 4, false), star], now, 0);
    assert_eq!(r.transition.unwrap().transition, Transition::FoundTarget);
}

#[test]
fn walking_hunt_turns_round_until_an_encounter() {
    let mut h = frlg_random(16, 0);
    let mut now = 0;
    let mut dirs = Vec::new();
    for _ in 0..5 {
        dirs.extend(act(&mut h, &mut now));
    }
    assert_eq!(
        dirs,
        vec![
            Press::Plain(Button::Down),
            Press::Plain(Button::Right),
            Press::Plain(Button::Up),
            Press::Plain(Button::Left),
            Press::Plain(Button::Down),
        ]
    );
}

fn walk_into_encounter(h: &mut ClassicHunt, ready_after: u64) -> u64 {
    let (p, r) = h.step_at(&vec![met(Processing::FRLG_START_ENCOUNTER())], 10, 0);
    assert!(p.is_empty() && quiet(&r));
    let (_, r) = h.step_at(&Vec::new(), 11, 0);
    assert!(quiet(&r));
    let (_, _) = h.step_at(&vec![met(Processing::FRLG_IN_ENCOUNTER())], 100, 0);
    let (_, _) = h.step_at(&vec![met(Processing::FRLG_ENCOUNTER_READY())], 100 + ready_after, 0);
    let mut now = 200 + ready_after;
    let presses = act(h, &mut now);
    assert_eq!(presses, vec![Press::Plain(Button::A)]);
    now
}

#[test]
fn walking_hunt_counts_a_plain_encounter_and_runs() {
    let mut h = frlg_random(16, 0);
    let now = walk_into_encounter(&mut h, 1000);
    let (_, r) = h.step_at(&vec![sprite(Game::FireRedLeafGreen, 19, false)], now, 0);
    assert!(r.incr_encounters);
    assert!(r.transition.is_none());
    let (p, _) = h.step_at(&Vec::new(), now + 1, 0);
    assert_eq!(p, vec![Press::Plain(Button::Down)]);
}

#[test]
fn walking_hunt_judges_a_slow_encounter_shiny() {
    let mut h = frlg_random(16, 0);
    let now = walk_into_encounter(&mut h, 4000);
    let (_, r) = h.step_at(&vec![sprite(Game::FireRedLeafGreen, 19, false)], now, 0);
    assert!(r.incr_encounters);
    let t = r.transition.unwrap();
    assert_eq!(t.transition, Transition::FoundNonTarget);
    assert_eq!(t.arg.unwrap().species, 19);
}

#[test]
fn walking_hunt_reports_its_target() {
    let mut h = frlg_random(16, 0);
    let now = walk_into_encounter(&mut h, 500);
    let (_, r) = h.step_at(&vec![sprite(Game::FireRedLeafGreen, 16, true)], now, 0);
    assert_eq!(r.transition.unwrap().transition, Transition::FoundTarget);
}

#[test]
fn encounter_without_a_sprite_is_counted_and_stops() {
    let mut h = frlg_random(16, 0);
    let now = walk_into_encounter(&mut h, 500);
    let (_, r) = h.step_at(&Vec::new(), now, 0);
    assert!(r.incr_encounters);
    assert!(r.transition.is_none());
    let (p, r) = h.step_at(&Vec::new(), now + 1, 0);
    assert!(p.is_empty() && quiet(&r));
}

#[test]
fn route_hunts_start_by_walking() {
    let mut now = 0;
    let mut h = dp_random(396, 0);
    assert_eq!(act(&mut h, &mut now), vec![Press::Plain(Button::Up)]);
    let mut h = hgss_random(132, 0);
    let p = act(&mut h, &mut now);
    assert_eq!(p.len(), 2);
    assert_eq!(p[1], Press::Plain(Button::B));
}

#[test]
fn classic_hunts_that_exist() {
    assert!(HuntBuild::build_at(1, Game::FireRedLeafGreen, Method::SoftResetGift, 0).is_ok());
    assert!(HuntBuild::build_at(2, Game::FireRedLeafGreen, Method::SoftResetGift, 0).is_err());
    assert!(HuntBuild::build_at(380, Game::RubySapphire, Method::SoftResetEncounter, 0).is_ok());
    assert!(HuntBuild::build_at(646, Game::Black2White2, Method::SoftResetEncounter, 0).is_ok());
    assert!(HuntBuild::build_at(19, Game::FireRedLeafGreen, Method::RandomEncounter, 0).is_ok());
    assert!(HuntBuild::build_at(43, Game::RubySapphire, Method::SafariZone, 0).is_ok());
    assert!(HuntBuild::build_at(102, Game::FireRedLeafGreen, Method::SafariZone, 0).is_ok());
    assert!(HuntBuild::build_at(19, Game::HeartGoldSoulSilver, Method::SafariZone, 0).is_ok());
    assert!(HuntBuild::build_at(403, Game::DiamondPearl, Method::RandomEncounter, 0).is_ok());
    assert!(HuntBuild::build_at(132, Game::HeartGoldSoulSilver, Method::RandomEncounter, 0).is_ok());
    assert!(HuntBuild::build_at(132, Game::Emerald, Method::RandomEncounter, 0).is_err());
    assert!(HuntBuild::build(25, Game::Platinum, Method::SafariZone).is_err());
    assert!(HuntBuild::build(7, Game::FireRedLeafGreen, Method::SoftResetGift).is_ok());
}

#[test]
fn live_step_presses_through_a_control() {
    let mut h = frlg_starter(1, 0);
    let mut c = NopControl::new();
    let r = h.step(&mut c, Vec::new());
    assert!(quiet(&r));
    make_press(&mut c, &Press::ResetGen3);
    make_press(&mut c, &Press::Plain(Button::A));
    h.cleanup();
}

#[test]
fn clock_reads_the_time_of_day() {
    assert!(shaoooh::sys::now_millis() > 1_600_000_000_000);
}

/// A control that writes down what it is asked to press.
struct Recorder {
    presses: Vec<(Vec<Button>, Option<Delay>)>,
}

impl BotControl for Recorder {
    fn press(&mut self, button: &Button) {
        self.presses.push((vec![*button], None));
    }

    fn presses_delay(&mut self, buttons: &[Button], delay: &Delay) {
        self.presses.push((buttons.to_vec(), Some(*delay)));
    }

    fn press_delay(&mut self, button: &Button, delay: &Delay) {
        self.presses.push((vec![*button], Some(*delay)));
    }
}

#[test]
fn live_step_makes_the_presses_of_the_step() {
    let mut h = frlg_starter(1, 0);
    let mut c = Recorder { presses: Vec::new() };
    h.step(&mut c, Vec::new());
    assert_eq!(
        c.presses,
        vec![(vec![Button::A, Button::B, Button::Start, Button::Select], Some(Delay::Tenth))]
    );
    make_press(&mut c, &Press::ResetGen5);
    make_press(&mut c, &Press::Held(Button::Up, Delay::Half));
    make_press(&mut c, &Press::Plain(Button::B));
    assert_eq!(
        &c.presses[1..],
        &[
            (vec![Button::L, Button::R, Button::Start, Button::Select], Some(Delay::Tenth)),
            (vec![Button::Up], Some(Delay::Half)),
            (vec![Button::B], None),
        ]
    );
}

#[test]
fn builder_step_presses_the_outputs_of_the_state() {
    let mut h = HuntBuild::build_fsm(16, Game::FireRedLeafGreen, Method::RandomEncounter, true, 0).unwrap();
    let mut c = Recorder { presses: Vec::new() };
    h.step(&mut c, Vec::new());
    assert!(c.presses.is_empty());
    assert_eq!(h.current_name(), "Left");
    h.step(&mut c, Vec::new());
    assert_eq!(c.presses, vec![(vec![Button::Left], Some(Delay::Tenth))]);
}
