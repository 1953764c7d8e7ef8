use std::time::Duration;

use shaoooh::app::control::AppState;
use shaoooh::app::error::ShaooohError;
use shaoooh::app::states::{
    ip_to_string, CaptureControlPaths, Config, Game, HuntState, Method, TransitionArg,
};
use shaoooh::displays::{pixel_bytes, GfxDisplay, LightsDisplay, PixelData, Webhook};
use shaoooh::text::{duration_to_string, u64_to_padded_string, u64_to_string};
use shaoooh::vision::found::FoundToggle;

fn px(r: u8, g: u8, b: u8) -> PixelData {
    PixelData { r, g, b, w: 0 }
}

fn rgbw(p: &PixelData) -> (u8, u8, u8, u8) {
    (p.r, p.g, p.b, p.w)
}

fn app(state: HuntState, encounters: u64, last_phase: u32) -> AppState {
    AppState {
        state,
        arg: Some(TransitionArg::new("mew", 151, Game::FireRedLeafGreen, Method::SoftResetEncounter)),
        encounters,
        phases: Vec::new(),
        last_phase,
    }
}

#[test]
fn decimal_text_matches_format() {
    for n in [0u64, 7, 10, 99, 100, 12345, u64::MAX] {
        assert_eq!(u64_to_string(n), format!("{}", n));
    }
    assert_eq!(u64_to_padded_string(7, 3), "007");
    assert_eq!(u64_to_padded_string(1234, 3), "1234");
    assert_eq!(u64_to_padded_string(0, 0), "0");
}

#[test]
fn duration_text_matches_debug_of_duration() {
    for ms in [0u64, 1, 20, 999, 1000, 1001, 1010, 1100, 1250, 1234, 61000, 3_600_001] {
        assert_eq!(duration_to_string(ms), format!("{:?}", Duration::from_millis(ms)), "{}", ms);
    }
    assert_eq!(duration_to_string(1500), "1.5s");
    assert_eq!(duration_to_string(250), "250ms");
}

#[test]
fn pixel_bytes_are_white_blue_red_green() {
    let data = vec![PixelData { r: 1, g: 2, b: 3, w: 4 }, px(9, 8, 7)];
    assert_eq!(pixel_bytes(&data), vec![4, 3, 1, 2, 0, 7, 9, 8]);
    assert_eq!(pixel_bytes(&Vec::new()), Vec::<u8>::new());
}

#[test]
fn lights_are_dark_when_idle() {
    let mut l = LightsDisplay::default();
    let f = l.frame(HuntState::Idle, 12);
    assert_eq!(f.len(), 7);
    assert!(f.iter().all(|p| rgbw(p) == (0, 0, 0, 0)));
}

#[test]
fn lights_follow_the_encounters_while_hunting() {
    let mut l = LightsDisplay::default();
    let f = l.frame(HuntState::Hunt, 0);
    let reds: Vec<u8> = f.iter().map(|p| p.r).collect();
    assert_eq!(reds, vec![0, 60, 0, 0, 0, 10, 25]);
    let f = l.frame(HuntState::Hunt, 2);
    let reds: Vec<u8> = f.iter().map(|p| p.r).collect();
    assert_eq!(reds, vec![0, 10, 25, 60, 0, 0, 0]);
    assert!(f.iter().all(|p| p.g == 0 && p.b == 0));
}

#[test]
fn lights_run_round_when_found() {
    let mut l = LightsDisplay::default();
    let f0 = l.frame(HuntState::FoundTarget, 5);
    assert_eq!(rgbw(&f0[0]), (0, 50, 0, 0));
    let greens: Vec<u8> = f0.iter().skip(1).map(|p| p.g).collect();
    assert_eq!(greens, vec![60, 0, 0, 0, 5, 10]);
    let f1 = l.frame(HuntState::FoundTarget, 5);
    let greens: Vec<u8> = f1.iter().skip(1).map(|p| p.g).collect();
    assert_eq!(greens, vec![10, 60, 0, 0, 0, 5]);
    let f2 = l.frame(HuntState::FoundNonTarget, 5);
    assert_eq!(rgbw(&f2[0]), (0, 0, 50, 0));
    let blues: Vec<u8> = f2.iter().skip(1).map(|p| p.b).collect();
    assert_eq!(blues, vec![5, 10, 60, 0, 0, 0]);
}

#[test]
fn gfx_sends_only_changes() {
    let mut g = GfxDisplay::default();
    assert_eq!(g.update(3, Some(16)), vec!["E3e".to_string(), "T16e".to_string()]);
    assert_eq!(g.update(3, Some(16)), Vec::<String>::new());
    assert_eq!(g.update(4, Some(16)), vec!["E4e".to_string()]);
    assert_eq!(g.update(4, None), Vec::<String>::new());
    assert_eq!(g.update(4, Some(25)), vec!["T25e".to_string()]);
    assert_eq!(g.update(0, None), vec!["E0e".to_string()]);
}

#[test]
fn webhook_status_while_hunting() {
    let m = Webhook::status(&app(HuntState::Hunt, 10, 0), "Shaoooh").unwrap();
    assert_eq!(m.title, "Shaoooh Status");
    assert_eq!(m.message, "State = Hunt, No. encounters = 10");
    assert_eq!(m.species, 151);
    assert_eq!(m.game, Game::FireRedLeafGreen);
    assert!(!m.shiny);
    assert!(!m.send);
    let m = Webhook::status(&app(HuntState::Hunt, 128, 0), "Shaoooh").unwrap();
    assert!(m.send);
    let m = Webhook::status(&app(HuntState::Hunt, 0, 0), "Shaoooh").unwrap();
    assert!(!m.send);
}

#[test]
fn webhook_alert_when_found() {
    let m = Webhook::status(&app(HuntState::FoundNonTarget, 3, 19), "Shaoooh").unwrap();
    assert_eq!(m.title, "Shaoooh Alert");
    assert_eq!(m.message, "State = FoundNonTarget, No. encounters = 3");
    assert_eq!(m.species, 19);
    assert!(m.shiny);
    assert!(m.send);
    let m = Webhook::status(&app(HuntState::FoundTarget, 3, 19), "Shaoooh").unwrap();
    assert_eq!(m.species, 151);
}

#[test]
fn webhook_status_without_a_hunt() {
    assert!(Webhook::status(&AppState::new(), "Shaoooh").is_none());
}

#[test]
fn webhook_error_text() {
    let (title, msg) = Webhook::error(&ShaooohError::ProcessingError, "Shaoooh");
    assert_eq!(title, "Shaoooh Error");
    assert_eq!(msg, "ERROR = Processing Error");
}

#[test]
fn found_toggle_keeps_the_last_two_frames() {
    let mut t = FoundToggle::new(vec![1, 2]);
    assert_eq!(t.latest(), &[1, 2]);
    assert_eq!(t.last(), &[1, 2]);
    t.update(&[3]);
    assert_eq!(t.latest(), &[3]);
    assert_eq!(t.last(), &[1, 2]);
    t.update(&[4, 5, 6]);
    assert_eq!(t.latest(), &[4, 5, 6]);
    assert_eq!(t.last(), &[3]);
}

#[test]
fn configuration_texts() {
    let c = Config::Shaoooh(CaptureControlPaths::new("/dev/video0".to_string(), "/dev/ttyACM0".to_string()));
    assert_eq!(c.name(), "Shaoooh ショオーッ");
    assert_eq!(c.description(), "DS-Lite with video mod");
    assert!(c.info().contains("/dev/video0"));
    assert!(c.info().contains("/dev/ttyACM0"));
    assert_eq!(ip_to_string(&[192, 168, 0, 12]), "192.168.0.12");
}

#[test]
fn lights_bounds_depend_on_the_state() {
    let mut l = LightsDisplay { anim: u64::MAX };
    let f = l.frame(HuntState::Hunt, 1);
    assert_eq!(f.len(), 7);
    assert_eq!(l.anim, u64::MAX);
    let mut l = LightsDisplay::default();
    let f = l.frame(HuntState::FoundTarget, u64::MAX);
    assert_eq!(f.len(), 7);
    assert_eq!(l.anim, 1);
    let f = l.frame(HuntState::Idle, u64::MAX);
    assert!(f.iter().all(|p| rgbw(p) == (0, 0, 0, 0)));
}
