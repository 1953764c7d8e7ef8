//! Deciding whether the encounter is shiny: sprite matches, shiny stars and
//! timings, and what to do after each verdict, each a fragment of a hunt.
use vstd::prelude::*;
use crate::app::states::{Game, Method};
use crate::control::{Button, Delay};
use crate::hunt::checks::{Check, CheckView, ShinyDetect, frlg_star_view};
use crate::hunt::encounter_type::{press, hold, one, one_held};
use crate::hunt::state_machine::HuntStateOutput;
use crate::hunt::state_machine_build::{
    BaseHunt, StateTag, StateDescription, Branch2, Branch3, HuntFSMBuilder, DescView, fragment_ok_rec, fragments_of,
    lemma_fragment_ok, tag_in, tags_distinct_from, targets_in, checks_in_from, linear_desc, step_desc, fork_desc,
    process_desc, sprite_desc, with_delay, detect, tagged_checks_view, extended, resolved,
};
use crate::vision::{Processing, ProcessingView, processings_view};
use crate::vision::{
    dp_in_encounter, hgss_encounter_ready, dp_encounter_ready, frlg_in_encounter, frlg_encounter_ready,
    usum_shiny_star,
};

verus! {

/// The states of detecting a shiny in an encounter and running from it.
#[derive(Clone, Copy, Debug, PartialEq, Eq, Structural)]
pub enum Detection {
    PrePreEnterEncounter,
    WaitPrePreEnter,
    PreEnterEncounter,
    EnterEncounter,
    WaitEncounterReady,
    PressA,
    Detect,
    Done,
    Run1,
    Run2,
    Run3,
    Run4,
    Run5,
    Run6,
    Toggle,
}

impl StateTag for Detection {
    open spec fn spec_tag_id(&self) -> u64 {
        match self {
            Detection::PrePreEnterEncounter => 0,
            Detection::WaitPrePreEnter => 1,
            Detection::PreEnterEncounter => 2,
            Detection::EnterEncounter => 3,
            Detection::WaitEncounterReady => 4,
            Detection::PressA => 5,
            Detection::Detect => 6,
            Detection::Done => 7,
            Detection::Run1 => 8,
            Detection::Run2 => 9,
            Detection::Run3 => 10,
            Detection::Run4 => 11,
            Detection::Run5 => 12,
            Detection::Run6 => 13,
            Detection::Toggle => 14,
        }
    }

    open spec fn spec_tag_name(&self) -> Seq<char> {
        match self {
            Detection::PrePreEnterEncounter => "PrePreEnterEncounter"@,
            Detection::WaitPrePreEnter => "WaitPrePreEnter"@,
            Detection::PreEnterEncounter => "PreEnterEncounter"@,
            Detection::EnterEncounter => "EnterEncounter"@,
            Detection::WaitEncounterReady => "WaitEncounterReady"@,
            Detection::PressA => "PressA"@,
            Detection::Detect => "Detect"@,
            Detection::Done => "Done"@,
            Detection::Run1 => "Run1"@,
            Detection::Run2 => "Run2"@,
            Detection::Run3 => "Run3"@,
            Detection::Run4 => "Run4"@,
            Detection::Run5 => "Run5"@,
            Detection::Run6 => "Run6"@,
            Detection::Toggle => "Toggle"@,
        }
    }

    fn tag_id(&self) -> (r: u64) {
        match self {
            Detection::PrePreEnterEncounter => 0,
            Detection::WaitPrePreEnter => 1,
            Detection::PreEnterEncounter => 2,
            Detection::EnterEncounter => 3,
            Detection::WaitEncounterReady => 4,
            Detection::PressA => 5,
            Detection::Detect => 6,
            Detection::Done => 7,
            Detection::Run1 => 8,
            Detection::Run2 => 9,
            Detection::Run3 => 10,
            Detection::Run4 => 11,
            Detection::Run5 => 12,
            Detection::Run6 => 13,
            Detection::Toggle => 14,
        }
    }

    fn tag_name(&self) -> (r: String) {
        match self {
            Detection::PrePreEnterEncounter => String::from_str("PrePreEnterEncounter"),
            Detection::WaitPrePreEnter => String::from_str("WaitPrePreEnter"),
            Detection::PreEnterEncounter => String::from_str("PreEnterEncounter"),
            Detection::EnterEncounter => String::from_str("EnterEncounter"),
            Detection::WaitEncounterReady => String::from_str("WaitEncounterReady"),
            Detection::PressA => String::from_str("PressA"),
            Detection::Detect => String::from_str("Detect"),
            Detection::Done => String::from_str("Done"),
            Detection::Run1 => String::from_str("Run1"),
            Detection::Run2 => String::from_str("Run2"),
            Detection::Run3 => String::from_str("Run3"),
            Detection::Run4 => String::from_str("Run4"),
            Detection::Run5 => String::from_str("Run5"),
            Detection::Run6 => String::from_str("Run6"),
            Detection::Toggle => String::from_str("Toggle"),
        }
    }
}
/// The states of checking the three starters on HeartGold / SoulSilver.
#[derive(Clone, Copy, Debug, PartialEq, Eq, Structural)]
pub enum HGSSStarter {
    Left1,
    Detect155,
    Left2,
    Detect158,
    Left3,
    Detect152,
    Done,
    NextAttempt,
}

impl StateTag for HGSSStarter {
    open spec fn spec_tag_id(&self) -> u64 {
        match self {
            HGSSStarter::Left1 => 0,
            HGSSStarter::Detect155 => 1,
            HGSSStarter::Left2 => 2,
            HGSSStarter::Detect158 => 3,
            HGSSStarter::Left3 => 4,
            HGSSStarter::Detect152 => 5,
            HGSSStarter::Done => 6,
            HGSSStarter::NextAttempt => 7,
        }
    }

    open spec fn spec_tag_name(&self) -> Seq<char> {
        match self {
            HGSSStarter::Left1 => "Left1"@,
            HGSSStarter::Detect155 => "Detect155"@,
            HGSSStarter::Left2 => "Left2"@,
            HGSSStarter::Detect158 => "Detect158"@,
            HGSSStarter::Left3 => "Left3"@,
            HGSSStarter::Detect152 => "Detect152"@,
            HGSSStarter::Done => "Done"@,
            HGSSStarter::NextAttempt => "NextAttempt"@,
        }
    }

    fn tag_id(&self) -> (r: u64) {
        match self {
            HGSSStarter::Left1 => 0,
            HGSSStarter::Detect155 => 1,
            HGSSStarter::Left2 => 2,
            HGSSStarter::Detect158 => 3,
            HGSSStarter::Left3 => 4,
            HGSSStarter::Detect152 => 5,
            HGSSStarter::Done => 6,
            HGSSStarter::NextAttempt => 7,
        }
    }

    fn tag_name(&self) -> (r: String) {
        match self {
            HGSSStarter::Left1 => String::from_str("Left1"),
            HGSSStarter::Detect155 => String::from_str("Detect155"),
            HGSSStarter::Left2 => String::from_str("Left2"),
            HGSSStarter::Detect158 => String::from_str("Detect158"),
            HGSSStarter::Left3 => String::from_str("Left3"),
            HGSSStarter::Detect152 => String::from_str("Detect152"),
            HGSSStarter::Done => String::from_str("Done"),
            HGSSStarter::NextAttempt => String::from_str("NextAttempt"),
        }
    }
}
/// The states of opening the summary of the last party member.
#[derive(Clone, Copy, Debug, PartialEq, Eq, Structural)]
pub enum CheckSummary {
    Start,
    Down,
    ToPokemon,
    Up1,
    Up2,
    Select,
    ToSummary,
    Detect,
    Done,
    NextAttempt,
}

impl StateTag for CheckSummary {
    open spec fn spec_tag_id(&self) -> u64 {
        match self {
            CheckSummary::Start => 0,
            CheckSummary::Down => 1,
            CheckSummary::ToPokemon => 2,
            CheckSummary::Up1 => 3,
            CheckSummary::Up2 => 4,
            CheckSummary::Select => 5,
            CheckSummary::ToSummary => 6,
            CheckSummary::Detect => 7,
            CheckSummary::Done => 8,
            CheckSummary::NextAttempt => 9,
        }
    }

    open spec fn spec_tag_name(&self) -> Seq<char> {
        match self {
            CheckSummary::Start => "Start"@,
            CheckSummary::Down => "Down"@,
            CheckSummary::ToPokemon => "ToPokemon"@,
            CheckSummary::Up1 => "Up1"@,
            CheckSummary::Up2 => "Up2"@,
            CheckSummary::Select => "Select"@,
            CheckSummary::ToSummary => "ToSummary"@,
            CheckSummary::Detect => "Detect"@,
            CheckSummary::Done => "Done"@,
            CheckSummary::NextAttempt => "NextAttempt"@,
        }
    }

    fn tag_id(&self) -> (r: u64) {
        match self {
            CheckSummary::Start => 0,
            CheckSummary::Down => 1,
            CheckSummary::ToPokemon => 2,
            CheckSummary::Up1 => 3,
            CheckSummary::Up2 => 4,
            CheckSummary::Select => 5,
            CheckSummary::ToSummary => 6,
            CheckSummary::Detect => 7,
            CheckSummary::Done => 8,
            CheckSummary::NextAttempt => 9,
        }
    }

    fn tag_name(&self) -> (r: String) {
        match self {
            CheckSummary::Start => String::from_str("Start"),
            CheckSummary::Down => String::from_str("Down"),
            CheckSummary::ToPokemon => String::from_str("ToPokemon"),
            CheckSummary::Up1 => String::from_str("Up1"),
            CheckSummary::Up2 => String::from_str("Up2"),
            CheckSummary::Select => String::from_str("Select"),
            CheckSummary::ToSummary => String::from_str("ToSummary"),
            CheckSummary::Detect => String::from_str("Detect"),
            CheckSummary::Done => String::from_str("Done"),
            CheckSummary::NextAttempt => String::from_str("NextAttempt"),
        }
    }
}
/// The states of checking a gift on Ultra Sun / Ultra Moon.
#[derive(Clone, Copy, Debug, PartialEq, Eq, Structural)]
pub enum StickyState {
    DetectSprite,
    StartMashB,
    MashB,
    CheckTimer,
    OpenMenu,
    ToParty,
    ToLast,
    Select,
    OpenSummary,
    DetectStar,
    FoundTarget,
    Done,
    StopHeartbeat,
    NextAttempt,
}

impl StateTag for StickyState {
    open spec fn spec_tag_id(&self) -> u64 {
        match self {
            StickyState::DetectSprite => 0,
            StickyState::StartMashB => 1,
            StickyState::MashB => 2,
            StickyState::CheckTimer => 3,
            StickyState::OpenMenu => 4,
            StickyState::ToParty => 5,
            StickyState::ToLast => 6,
            StickyState::Select => 7,
            StickyState::OpenSummary => 8,
            StickyState::DetectStar => 9,
            StickyState::FoundTarget => 10,
            StickyState::Done => 11,
            StickyState::StopHeartbeat => 12,
            StickyState::NextAttempt => 13,
        }
    }

    open spec fn spec_tag_name(&self) -> Seq<char> {
        match self {
            StickyState::DetectSprite => "DetectSprite"@,
            StickyState::StartMashB => "StartMashB"@,
            StickyState::MashB => "MashB"@,
            StickyState::CheckTimer => "CheckTimer"@,
            StickyState::OpenMenu => "OpenMenu"@,
            StickyState::ToParty => "ToParty"@,
            StickyState::ToLast => "ToLast"@,
            StickyState::Select => "Select"@,
            StickyState::OpenSummary => "OpenSummary"@,
            StickyState::DetectStar => "DetectStar"@,
            StickyState::FoundTarget => "FoundTarget"@,
            StickyState::Done => "Done"@,
            StickyState::StopHeartbeat => "StopHeartbeat"@,
            StickyState::NextAttempt => "NextAttempt"@,
        }
    }

    fn tag_id(&self) -> (r: u64) {
        match self {
            StickyState::DetectSprite => 0,
            StickyState::StartMashB => 1,
            StickyState::MashB => 2,
            StickyState::CheckTimer => 3,
            StickyState::OpenMenu => 4,
            StickyState::ToParty => 5,
            StickyState::ToLast => 6,
            StickyState::Select => 7,
            StickyState::OpenSummary => 8,
            StickyState::DetectStar => 9,
            StickyState::FoundTarget => 10,
            StickyState::Done => 11,
            StickyState::StopHeartbeat => 12,
            StickyState::NextAttempt => 13,
        }
    }

    fn tag_name(&self) -> (r: String) {
        match self {
            StickyState::DetectSprite => String::from_str("DetectSprite"),
            StickyState::StartMashB => String::from_str("StartMashB"),
            StickyState::MashB => String::from_str("MashB"),
            StickyState::CheckTimer => String::from_str("CheckTimer"),
            StickyState::OpenMenu => String::from_str("OpenMenu"),
            StickyState::ToParty => String::from_str("ToParty"),
            StickyState::ToLast => String::from_str("ToLast"),
            StickyState::Select => String::from_str("Select"),
            StickyState::OpenSummary => String::from_str("OpenSummary"),
            StickyState::DetectStar => String::from_str("DetectStar"),
            StickyState::FoundTarget => String::from_str("FoundTarget"),
            StickyState::Done => String::from_str("Done"),
            StickyState::StopHeartbeat => String::from_str("StopHeartbeat"),
            StickyState::NextAttempt => String::from_str("NextAttempt"),
        }
    }
}

/// Opening the summary of the last party member, with steps of `b` ms.
pub open spec fn summary_descs(b: u64) -> Seq<DescView> {
    seq![
        linear_desc(CheckSummary::Start, seq![press(Button::Start)], (b * 2) as u64, (b * 2) as u64),
        linear_desc(CheckSummary::Down, seq![press(Button::Down)], b, b),
        linear_desc(CheckSummary::ToPokemon, seq![press(Button::A)], (b * 4) as u64, (b * 4) as u64),
        linear_desc(CheckSummary::Up1, seq![press(Button::Up)], b, b),
        linear_desc(CheckSummary::Up2, seq![press(Button::Up)], b, b),
        linear_desc(CheckSummary::Select, seq![press(Button::A)], (b * 2) as u64, (b * 2) as u64),
        linear_desc(CheckSummary::ToSummary, seq![press(Button::A)], (b * 4) as u64, (b * 4) as u64),
    ]
}

/// Checking the summary sprite on Ruby / Sapphire.
pub open spec fn summary_rs(game: Game, method: Method, target: u32) -> Seq<DescView> {
    seq![
        sprite_desc(CheckSummary::Detect, CheckSummary::Done, CheckSummary::NextAttempt, seq![ProcessingView::Sprite(game, seq![target], true)], detect(false, false, 0, false, target, game, method)),
        step_desc(CheckSummary::Done, CheckSummary::Done, CheckView::Always),
        linear_desc(CheckSummary::NextAttempt, seq![], 500, 5000),
    ]
}

/// Checking the summary sprite and star on FireRed / LeafGreen.
pub open spec fn summary_frlg(game: Game, method: Method, target: u32) -> Seq<DescView> {
    seq![
        sprite_desc(CheckSummary::Detect, CheckSummary::Done, CheckSummary::NextAttempt, seq![ProcessingView::Sprite(game, seq![target], true), frlg_star_view()], detect(false, true, 0, false, target, game, method)),
        step_desc(CheckSummary::Done, CheckSummary::Done, CheckView::Always),
        linear_desc(CheckSummary::NextAttempt, seq![], 500, 5000),
    ]
}

/// Detecting Dunsparce or Geodude in Dark Cave, and running.
pub open spec fn dark_cave_detect(game: Game, method: Method, target: u32) -> Seq<DescView> {
    seq![
        process_desc(Detection::EnterEncounter, Detection::WaitEncounterReady, Detection::EnterEncounter, dp_in_encounter(), true, false, seq![], 0, 0),
        process_desc(Detection::WaitEncounterReady, Detection::Detect, Detection::WaitEncounterReady, hgss_encounter_ready(), false, true, seq![], 0, 0),
        sprite_desc(Detection::Detect, Detection::Done, Detection::Run1, seq![ProcessingView::Sprite(game, seq![206u32, 74u32], false)], detect(false, false, 6800, true, target, game, method)),
        step_desc(Detection::Done, Detection::Done, CheckView::Always),
        linear_desc(Detection::Run1, seq![press(Button::Down)], 1000, 1000),
        linear_desc(Detection::Run2, seq![press(Button::Down)], 1000, 1000),
        linear_desc(Detection::Run3, seq![press(Button::Right)], 1000, 1000),
        linear_desc(Detection::Run4, seq![press(Button::Right)], 1000, 1000),
        linear_desc(Detection::Run5, seq![press(Button::Left)], 1000, 1000),
        linear_desc(Detection::Run6, seq![press(Button::A)], 10000, 10000),
    ]
}

/// Looking at each of the three starters in turn.
pub open spec fn hgss_starter_descs(game: Game, method: Method, target: u32) -> Seq<DescView> {
    seq![
        linear_desc(HGSSStarter::Left1, seq![press(Button::Left)], 1000, 1500),
        sprite_desc(HGSSStarter::Detect155, HGSSStarter::Done, HGSSStarter::Left2, seq![ProcessingView::Sprite(game, seq![155], false)], detect(false, false, 0, false, target, game, method)),
        linear_desc(HGSSStarter::Left2, seq![press(Button::Left)], 1000, 1500),
        sprite_desc(HGSSStarter::Detect158, HGSSStarter::Done, HGSSStarter::Left3, seq![ProcessingView::Sprite(game, seq![158], false)], detect(false, false, 0, false, target, game, method)),
        linear_desc(HGSSStarter::Left3, seq![press(Button::Left)], 1000, 1500),
        sprite_desc(HGSSStarter::Detect152, HGSSStarter::Done, HGSSStarter::NextAttempt, seq![ProcessingView::Sprite(game, seq![152], false)], detect(false, false, 0, false, target, game, method)),
        step_desc(HGSSStarter::Done, HGSSStarter::Done, CheckView::Always),
        linear_desc(HGSSStarter::NextAttempt, seq![], 0, 2000),
    ]
}

/// Detecting a legendary on generation 4, shiny when its entry took over `duration` ms.
pub open spec fn gen4_legend_detect(game: Game, method: Method, target: u32, duration: u64) -> Seq<DescView> {
    seq![
        process_desc(Detection::EnterEncounter, Detection::WaitEncounterReady, Detection::EnterEncounter, dp_in_encounter(), true, false, seq![], 0, 0),
        process_desc(Detection::WaitEncounterReady, Detection::Detect, Detection::WaitEncounterReady, dp_encounter_ready(), false, true, seq![], 0, 0),
        sprite_desc(Detection::Detect, Detection::Done, Detection::Run1, seq![ProcessingView::Sprite(game, seq![target], false)], detect(false, false, duration, true, target, game, method)),
        step_desc(Detection::Done, Detection::Done, CheckView::Always),
        linear_desc(Detection::Run1, seq![], 1000, 3000),
    ]
}

/// Waiting out the bottom screen going dark and light again.
pub open spec fn usum_pre() -> Seq<DescView> {
    seq![
        process_desc(Detection::PrePreEnterEncounter, Detection::WaitPrePreEnter, Detection::PrePreEnterEncounter, ProcessingView::USUMBottomScreenInv(5), false, false, seq![], 0, 0),
        process_desc(Detection::WaitPrePreEnter, Detection::PreEnterEncounter, Detection::WaitPrePreEnter, ProcessingView::USUMBottomScreen(5), false, false, seq![], 0, 0),
        linear_desc(Detection::PreEnterEncounter, seq![], 0, 0),
    ]
}

/// Timing the entry of a static encounter on Ultra Sun / Ultra Moon, shiny when over `timer` ms, waiting 10.5 to 15 s before the choice.
pub open spec fn usum_legend_wait(timer: u64) -> Seq<DescView> {
    seq![
        process_desc(Detection::PreEnterEncounter, Detection::EnterEncounter, Detection::PreEnterEncounter, ProcessingView::USUMBottomScreenInv(5), false, false, seq![], 0, 0),
        process_desc(Detection::EnterEncounter, Detection::Detect, Detection::EnterEncounter, ProcessingView::USUMBottomScreen(5), true, false, seq![], 0, 0),
        process_desc(Detection::Detect, Detection::Run1, Detection::Detect, ProcessingView::USUMBottomScreen(60), false, true, seq![], 0, 0),
        with_delay(fork_desc(Detection::Run1, Detection::Toggle, CheckView::LastOver(timer), Detection::Run2, CheckView::LastNotOver(timer)), 10500, 15000),
        step_desc(Detection::Toggle, Detection::Done, CheckView::FoundTarget),
        step_desc(Detection::Done, Detection::Done, CheckView::Always),
        step_desc(Detection::Run2, Detection::Run3, CheckView::IncrEncounter),
        step_desc(Detection::Run3, Detection::Run4, CheckView::ClearHeartbeat),
        linear_desc(Detection::Run4, seq![], 0, 500),
    ]
}

/// Timing the entry of a static encounter on Ultra Sun / Ultra Moon, shiny when over `timer` ms.
pub open spec fn usum_legend(timer: u64) -> Seq<DescView> {
    seq![
        process_desc(Detection::PreEnterEncounter, Detection::EnterEncounter, Detection::PreEnterEncounter, ProcessingView::USUMBottomScreenInv(5), false, false, seq![], 0, 0),
        process_desc(Detection::EnterEncounter, Detection::Detect, Detection::EnterEncounter, ProcessingView::USUMBottomScreen(5), true, false, seq![], 0, 0),
        process_desc(Detection::Detect, Detection::Run1, Detection::Detect, ProcessingView::USUMBottomScreen(60), false, true, seq![], 0, 0),
        fork_desc(Detection::Run1, Detection::Toggle, CheckView::LastOver(timer), Detection::Run2, CheckView::LastNotOver(timer)),
        step_desc(Detection::Toggle, Detection::Done, CheckView::FoundTarget),
        step_desc(Detection::Done, Detection::Done, CheckView::Always),
        step_desc(Detection::Run2, Detection::Run3, CheckView::IncrEncounter),
        step_desc(Detection::Run3, Detection::Run4, CheckView::ClearHeartbeat),
        linear_desc(Detection::Run4, seq![], 0, 500),
    ]
}

/// Detecting a static encounter on FireRed / LeafGreen.
pub open spec fn frlg_softreset_detect(game: Game, method: Method, target: u32) -> Seq<DescView> {
    seq![
        process_desc(Detection::EnterEncounter, Detection::WaitEncounterReady, Detection::EnterEncounter, frlg_in_encounter(), true, false, seq![], 0, 0),
        process_desc(Detection::WaitEncounterReady, Detection::PressA, Detection::WaitEncounterReady, frlg_encounter_ready(), false, true, seq![], 0, 0),
        linear_desc(Detection::PressA, seq![hold(Button::A, Delay::Tenth)], 3000, 3000),
        sprite_desc(Detection::Detect, Detection::Done, Detection::Run1, seq![ProcessingView::Sprite(game, seq![target], false)], detect(false, false, 2385, true, target, game, method)),
        step_desc(Detection::Done, Detection::Done, CheckView::Always),
        linear_desc(Detection::Run1, seq![], 1000, 3000),
    ]
}

/// Detecting a random encounter on Ruby / Sapphire among `species`, and running.
pub open spec fn rs_random_detect(game: Game, method: Method, target: u32, species: Seq<u32>) -> Seq<DescView> {
    seq![
        step_desc(Detection::Toggle, Detection::EnterEncounter, CheckView::Toggle),
        process_desc(Detection::EnterEncounter, Detection::WaitEncounterReady, Detection::EnterEncounter, frlg_in_encounter(), true, false, seq![], 0, 0),
        process_desc(Detection::WaitEncounterReady, Detection::PressA, Detection::WaitEncounterReady, frlg_encounter_ready(), false, true, seq![], 0, 0),
        linear_desc(Detection::PressA, seq![hold(Button::A, Delay::Tenth)], 3000, 3000),
        sprite_desc(Detection::Detect, Detection::Done, Detection::Run1, seq![ProcessingView::Sprite(game, species, false)], detect(false, false, 2381, true, target, game, method)),
        step_desc(Detection::Done, Detection::Done, CheckView::Always),
        linear_desc(Detection::Run1, seq![hold(Button::Down, Delay::Tenth)], 500, 500),
        linear_desc(Detection::Run2, seq![hold(Button::Right, Delay::Tenth)], 500, 500),
        linear_desc(Detection::Run3, seq![hold(Button::A, Delay::Tenth)], 500, 500),
        linear_desc(Detection::Run4, seq![hold(Button::A, Delay::Tenth)], 3000, 9200),
    ]
}

/// Detecting a random encounter on FireRed / LeafGreen among `species`, and running.
pub open spec fn frlg_random_detect(game: Game, method: Method, target: u32, species: Seq<u32>, threshold: u64) -> Seq<DescView> {
    seq![
        step_desc(Detection::Toggle, Detection::EnterEncounter, CheckView::Toggle),
        process_desc(Detection::EnterEncounter, Detection::WaitEncounterReady, Detection::EnterEncounter, frlg_in_encounter(), true, false, seq![], 0, 0),
        process_desc(Detection::WaitEncounterReady, Detection::PressA, Detection::WaitEncounterReady, frlg_encounter_ready(), false, true, seq![], 0, 0),
        linear_desc(Detection::PressA, seq![hold(Button::A, Delay::Tenth)], 3000, 3000),
        sprite_desc(Detection::Detect, Detection::Done, Detection::Run1, seq![ProcessingView::Sprite(Game::FireRedLeafGreen, species, false)], detect(false, false, threshold, true, target, game, method)),
        step_desc(Detection::Done, Detection::Done, CheckView::Always),
        linear_desc(Detection::Run1, seq![hold(Button::Down, Delay::Tenth)], 500, 500),
        linear_desc(Detection::Run2, seq![hold(Button::Right, Delay::Tenth)], 500, 500),
        linear_desc(Detection::Run3, seq![hold(Button::A, Delay::Tenth)], 500, 500),
        linear_desc(Detection::Run4, seq![hold(Button::A, Delay::Tenth)], 3000, 9200),
    ]
}

/// Checking the sprite of a gift, then the shiny star on its summary.
pub open spec fn gen7_gift_detect(game: Game, method: Method, target: u32) -> Seq<DescView> {
    seq![
        sprite_desc(StickyState::DetectSprite, StickyState::Done, StickyState::StartMashB, seq![ProcessingView::Sprite3DS(game, seq![target])], detect(true, false, 0, false, target, game, method)),
        step_desc(StickyState::StartMashB, StickyState::MashB, CheckView::StartTimer),
        linear_desc(StickyState::MashB, seq![press(Button::B)], 500, 500),
        fork_desc(StickyState::CheckTimer, StickyState::OpenMenu, CheckView::ElapsedOver(18000), StickyState::MashB, CheckView::ElapsedNotOver(18000)),
        linear_desc(StickyState::OpenMenu, seq![press(Button::X)], 2000, 2000),
        linear_desc(StickyState::ToParty, seq![press(Button::A)], 2000, 2000),
        linear_desc(StickyState::Select, seq![press(Button::A)], 2000, 2000),
        linear_desc(StickyState::OpenSummary, seq![press(Button::A)], 3000, 3000),
        linear_desc(StickyState::ToLast, seq![press(Button::Up)], 2000, 2000),
        process_desc(StickyState::DetectStar, StickyState::FoundTarget, StickyState::StopHeartbeat, usum_shiny_star(), false, false, seq![], 0, 0),
        step_desc(StickyState::FoundTarget, StickyState::Done, CheckView::FoundTarget),
        step_desc(StickyState::Done, StickyState::Done, CheckView::Always),
        step_desc(StickyState::StopHeartbeat, StickyState::NextAttempt, CheckView::ClearHeartbeat),
        linear_desc(StickyState::NextAttempt, seq![], 500, 2000),
    ]
}

/// Timing a Honey encounter with Blacephalon, shiny when over 16.3 s.
pub open spec fn usum_random_wait() -> Seq<DescView> {
    seq![
        process_desc(Detection::PrePreEnterEncounter, Detection::WaitPrePreEnter, Detection::PrePreEnterEncounter, ProcessingView::USUMBottomScreenInv(5), false, false, seq![], 0, 0),
        process_desc(Detection::WaitPrePreEnter, Detection::PreEnterEncounter, Detection::WaitPrePreEnter, ProcessingView::USUMBottomScreen(5), false, false, seq![], 0, 0),
        process_desc(Detection::PreEnterEncounter, Detection::EnterEncounter, Detection::PreEnterEncounter, ProcessingView::USUMBottomScreenInv(5), false, false, seq![], 0, 0),
        process_desc(Detection::EnterEncounter, Detection::Detect, Detection::EnterEncounter, ProcessingView::USUMBottomScreen(5), true, false, seq![], 0, 0),
        process_desc(Detection::Detect, Detection::Run1, Detection::Detect, ProcessingView::USUMBottomScreen(60), false, true, seq![], 0, 0),
        with_delay(fork_desc(Detection::Run1, Detection::Toggle, CheckView::LastOver(16300), Detection::Run2, CheckView::LastNotOver(16300)), 10500, 15000),
        step_desc(Detection::Toggle, Detection::Done, CheckView::FoundTarget),
        step_desc(Detection::Done, Detection::Done, CheckView::Always),
        step_desc(Detection::Run2, Detection::Run3, CheckView::IncrEncounter),
        linear_desc(Detection::Run3, seq![], 1000, 1000),
        linear_desc(Detection::Run4, seq![press(Button::Touch(157, 224))], 8000, 9000),
    ]
}

/// Timing a Honey encounter, shiny when over 10.4 s.
pub open spec fn usum_random_detect() -> Seq<DescView> {
    seq![
        process_desc(Detection::PrePreEnterEncounter, Detection::WaitPrePreEnter, Detection::PrePreEnterEncounter, ProcessingView::USUMBottomScreenInv(5), false, false, seq![], 0, 0),
        process_desc(Detection::WaitPrePreEnter, Detection::PreEnterEncounter, Detection::WaitPrePreEnter, ProcessingView::USUMBottomScreen(5), false, false, seq![], 0, 0),
        process_desc(Detection::PreEnterEncounter, Detection::EnterEncounter, Detection::PreEnterEncounter, ProcessingView::USUMBottomScreenInv(5), false, false, seq![], 0, 0),
        process_desc(Detection::EnterEncounter, Detection::Detect, Detection::EnterEncounter, ProcessingView::USUMBottomScreen(5), true, false, seq![], 0, 0),
        process_desc(Detection::Detect, Detection::Run1, Detection::Detect, ProcessingView::USUMBottomScreen(60), false, true, seq![], 0, 0),
        fork_desc(Detection::Run1, Detection::Toggle, CheckView::LastOver(10400), Detection::Run2, CheckView::LastNotOver(10400)),
        step_desc(Detection::Toggle, Detection::Done, CheckView::FoundTarget),
        step_desc(Detection::Done, Detection::Done, CheckView::Always),
        step_desc(Detection::Run2, Detection::Run3, CheckView::IncrEncounter),
        linear_desc(Detection::Run3, seq![], 1000, 1000),
        linear_desc(Detection::Run4, seq![press(Button::Touch(157, 224))], 8000, 9000),
    ]
}

/// The delay over which a generation 4 legendary counts as shiny, in ms.
pub open spec fn gen4_legend_duration(target: u32) -> u64 {
    if target == 442 {
        8500
    } else if target == 486 {
        7750
    } else if target == 487 {
        6600
    } else {
        5000
    }
}

/// The delay over which an Ultra Sun / Ultra Moon static encounter counts as
/// shiny, in ms.
pub open spec fn gen7_legend_timer(species: u32) -> u64 {
    if species == 144 || species == 145 || species == 146 || species == 717 { 16750 }
    else if species == 243 || species == 245 { 13350 }
    else if species == 244 { 16650 }
    else if species == 382 { 16975 }
    else if species == 383 { 15700 }
    else if species == 380 { 10500 }
    else if species == 797 { 20460 }
    else if species == 799 { 21070 }
    else if species == 806 { 16390 }
    else if species == 249 { 13610 }
    else if species == 643 { 13370 }
    else if species == 644 { 14400 }
    else if species == 488 { 10400 }
    else if species == 150 { 13750 }
    else { 100 }
}

/// The species that a Ruby / Sapphire random hunt may meet.
pub open spec fn rs_random_species(target: u32) -> Seq<u32> {
    if target == 327 { seq![327u32, 27u32, 227u32] } else { seq![target] }
}

/// The species that a FireRed / LeafGreen random hunt may meet.
pub open spec fn frlg_random_species(target: u32) -> Seq<u32> {
    if target == 37 || target == 27 {
        seq![16u32, 52u32, 37u32, 27u32]
    } else if target == 10 {
        seq![10u32, 11u32, 13u32, 14u32, 25u32]
    } else {
        seq![16u32, 19u32]
    }
}

/// The delay over which a FireRed / LeafGreen random encounter counts as
/// shiny, in ms.
pub open spec fn frlg_random_threshold(target: u32) -> u64 {
    if target == 37 || target == 27 || target == 10 { 2700 } else { 3250 }
}

/// The fragments that check a generation 3 gift, for the games that have
/// them.
pub open spec fn gen3_gift_detect_plan(game: Game, method: Method, target: u32) -> Option<Seq<Seq<DescView>>> {
    if game == Game::RubySapphire {
        Some(seq![summary_descs(250), summary_rs(game, method, target)])
    } else if game == Game::FireRedLeafGreen {
        Some(seq![summary_descs(500), summary_frlg(game, method, target)])
    } else {
        None
    }
}

/// The fragments that detect an Ultra Sun / Ultra Moon static encounter.
pub open spec fn gen7_legend_lists(species: u32) -> Seq<Seq<DescView>> {
    if species == 806 {
        seq![usum_pre(), usum_legend_wait(gen7_legend_timer(species))]
    } else {
        seq![usum_legend(gen7_legend_timer(species))]
    }
}

/// The fragments that decide a hunt's encounter, when the hunt is supported.
pub open spec fn detection_plan(b: BaseHunt) -> Option<Seq<Seq<DescView>>> {
    let g = b.game;
    let m = b.method;
    let t = b.target;
    if g == Game::FireRedLeafGreen && m == Method::RandomEncounter {
        Some(seq![frlg_random_detect(g, m, t, frlg_random_species(t), frlg_random_threshold(t))])
    } else if g == Game::RubySapphire && m == Method::RandomEncounter {
        Some(seq![rs_random_detect(g, m, t, rs_random_species(t))])
    } else if g == Game::FireRedLeafGreen && m == Method::SoftResetEncounter {
        Some(seq![frlg_softreset_detect(g, m, t)])
    } else if (g == Game::RubySapphire || g == Game::FireRedLeafGreen) && m == Method::SoftResetGift {
        gen3_gift_detect_plan(g, m, t)
    } else if g == Game::HeartGoldSoulSilver && m == Method::SoftResetGift {
        if t == 152 || t == 155 || t == 158 { Some(seq![hgss_starter_descs(g, m, t)]) } else { None }
    } else if g == Game::DiamondPearl && m == Method::SoftResetEncounter {
        if t == 442 || t == 486 || t == 487 {
            Some(seq![gen4_legend_detect(g, m, t, gen4_legend_duration(t))])
        } else {
            None
        }
    } else if g == Game::UltraSunUltraMoon && m == Method::SoftResetEncounter {
        Some(gen7_legend_lists(t))
    } else if g == Game::UltraSunUltraMoon && m == Method::SoftResetGift {
        Some(seq![gen7_gift_detect(g, m, t)])
    } else if g == Game::UltraSunUltraMoon && m == Method::RandomEncounter {
        Some(seq![if t == 806 { usum_random_wait() } else { usum_random_detect() }])
    } else if g == Game::HeartGoldSoulSilver && m == Method::SoftResetEncounter && t == 206 {
        Some(seq![dark_cave_detect(g, m, t)])
    } else if m == Method::Utility {
        Some(Seq::empty())
    } else {
        None
    }
}

fn frlg_detect_state(species: Vec<u32>, d: ShinyDetect) -> (r: StateDescription<Detection>)
    ensures
        r.view_desc() == sprite_desc(Detection::Detect, Detection::Done, Detection::Run1,
            seq![ProcessingView::Sprite(Game::FireRedLeafGreen, species@, false)], d),
{
    let ghost sv = species@;
    let inputs = vec![Processing::Sprite(Game::FireRedLeafGreen, species, false)];
    assert(processings_view(inputs@) =~= seq![ProcessingView::Sprite(Game::FireRedLeafGreen, sv, false)]);
    let checks = vec![(Detection::Done, Check::ShinyFound(d)), (Detection::Run1, Check::ShinyNotFound(d))];
    assert(tagged_checks_view(checks@) =~= seq![(7u64, CheckView::ShinyFound(d)), (8u64, CheckView::ShinyNotFound(d))]);
    StateDescription::new(Detection::Detect, inputs, vec![], 0..0, checks)
}

/// Adds the states that decide whether an encounter is shiny.
pub struct DetectionResolver {}

impl DetectionResolver {
    /// Adds the detection states of the builder's hunt; `None` when the hunt
    /// is not supported. A utility hunt gets none and is returned as it is.
    pub fn add_states(builder: HuntFSMBuilder) -> (r: Option<HuntFSMBuilder>)
        requires
            builder.wf(),
        ensures
            resolved(r, builder, detection_plan(builder.base_view())),
    {
        let g = *builder.game();
        let m = *builder.method();
        let t: u32 = builder.target();
        if g == Game::FireRedLeafGreen && m == Method::RandomEncounter {
            Some(Self::frlg_random(builder))
        } else if g == Game::RubySapphire && m == Method::RandomEncounter {
            Some(Self::rs_random(builder))
        } else if g == Game::FireRedLeafGreen && m == Method::SoftResetEncounter {
            Some(Self::frlg_softreset(builder))
        } else if (g == Game::RubySapphire || g == Game::FireRedLeafGreen) && m == Method::SoftResetGift {
            Self::gen3_softreset_gift(builder)
        } else if g == Game::HeartGoldSoulSilver && m == Method::SoftResetGift {
            if t == 152 || t == 155 || t == 158 { Some(Self::hgss_starter(builder)) } else { None }
        } else if g == Game::DiamondPearl && m == Method::SoftResetEncounter {
            if t == 442 || t == 486 || t == 487 { Some(Self::gen4_legend(builder)) } else { None }
        } else if g == Game::UltraSunUltraMoon && m == Method::SoftResetEncounter {
            Some(Self::gen7_legend(builder))
        } else if g == Game::UltraSunUltraMoon && m == Method::SoftResetGift {
            Some(Self::gen7_gift(builder))
        } else if g == Game::UltraSunUltraMoon && m == Method::RandomEncounter {
            Some(Self::gen7_random_encounter(builder))
        } else if g == Game::HeartGoldSoulSilver && m == Method::SoftResetEncounter && t == 206 {
            Some(Self::hgss_darkcave(builder))
        } else if m == Method::Utility {
            assert(builder.fragments_view() =~= builder.fragments_view() + fragments_of(Seq::empty()));
            Some(builder)
        } else {
            None
        }
    }

    /// Adds the summary check of a generation 3 gift; `None` when the game
    /// is neither Ruby / Sapphire nor FireRed / LeafGreen.
    pub fn gen3_softreset_gift(builder: HuntFSMBuilder) -> (r: Option<HuntFSMBuilder>)
        requires
            builder.wf(),
        ensures
            resolved(r, builder, gen3_gift_detect_plan(builder.base_view().game, builder.base_view().method,
                builder.base_view().target)),
    {
        let ghost b0 = builder;
        let mut builder = builder;
        let target: u32 = builder.target();
        let game = *builder.game();
        let method = *builder.method();
        let b: u64 = if game == Game::RubySapphire { 250 } else { 500 };
            let states = vec![
                StateDescription::linear_state(CheckSummary::Start, one(Button::Start), b * 2..b * 2),
                StateDescription::linear_state(CheckSummary::Down, one(Button::Down), b..b),
                StateDescription::linear_state(CheckSummary::ToPokemon, one(Button::A), b * 4..b * 4),
                StateDescription::linear_state(CheckSummary::Up1, one(Button::Up), b..b),
                StateDescription::linear_state(CheckSummary::Up2, one(Button::Up), b..b),
                StateDescription::linear_state(CheckSummary::Select, one(Button::A), b * 2..b * 2),
                StateDescription::linear_state(CheckSummary::ToSummary, one(Button::A), b * 4..b * 4),
            ];
            proof {
                assert(states@.map_values(|d: StateDescription<CheckSummary>| d.view_desc()) =~= summary_descs(b));
                reveal_with_fuel(tag_in, 8);
                reveal_with_fuel(tags_distinct_from, 8);
                reveal_with_fuel(targets_in, 3);
                reveal_with_fuel(checks_in_from, 8);
                assert(fragment_ok_rec(summary_descs(b)));
                lemma_fragment_ok(summary_descs(b));
            }
            builder.add_states(states);
        if game == Game::RubySapphire {
            let states = vec![
                StateDescription::simple_sprite_state_flip(Branch3::new(CheckSummary::Detect, CheckSummary::Done, CheckSummary::NextAttempt), &game, &method, target, target, true),
                StateDescription::deadend_state(CheckSummary::Done),
                StateDescription::linear_state(CheckSummary::NextAttempt, vec![], 500..5000),
            ];
            proof {
                assert(states@.map_values(|d: StateDescription<CheckSummary>| d.view_desc()) =~= summary_rs(game, method, target));
                reveal_with_fuel(tag_in, 4);
                reveal_with_fuel(tags_distinct_from, 4);
                reveal_with_fuel(targets_in, 3);
                reveal_with_fuel(checks_in_from, 4);
                assert(fragment_ok_rec(summary_rs(game, method, target)));
                lemma_fragment_ok(summary_rs(game, method, target));
            }
            builder.add_states(states);
        } else if game == Game::FireRedLeafGreen {
            let states = vec![
                StateDescription::simple_sprite_state_flip_w_star(Branch3::new(CheckSummary::Detect, CheckSummary::Done, CheckSummary::NextAttempt), &game, &method, target, target, true),
                StateDescription::deadend_state(CheckSummary::Done),
                StateDescription::linear_state(CheckSummary::NextAttempt, vec![], 500..5000),
            ];
            proof {
                assert(states@.map_values(|d: StateDescription<CheckSummary>| d.view_desc()) =~= summary_frlg(game, method, target));
                reveal_with_fuel(tag_in, 4);
                reveal_with_fuel(tags_distinct_from, 4);
                reveal_with_fuel(targets_in, 3);
                reveal_with_fuel(checks_in_from, 4);
                assert(fragment_ok_rec(summary_frlg(game, method, target)));
                lemma_fragment_ok(summary_frlg(game, method, target));
            }
            builder.add_states(states);
        } else {
            return None;
        }
        assert(builder.fragments_view() =~= b0.fragments_view()
            + fragments_of(gen3_gift_detect_plan(game, method, target)->0));
        Some(builder)
    }

    /// Adds the Dark Cave detection.
    pub fn hgss_darkcave(builder: HuntFSMBuilder) -> (r: HuntFSMBuilder)
        requires
            builder.wf(),
        ensures
            extended(r, builder, seq![dark_cave_detect(builder.base_view().game, builder.base_view().method,
                builder.base_view().target)]),
    {
        let ghost b0 = builder;
        let mut builder = builder;
        let target: u32 = builder.target();
        let game = *builder.game();
        let method = *builder.method();
            let states = vec![
                StateDescription::simple_process_state_no_output_start_timer(Branch2::new(Detection::EnterEncounter, Detection::WaitEncounterReady), Processing::DP_IN_ENCOUNTER()),
                StateDescription::simple_process_state_no_output_end_timer(Branch2::new(Detection::WaitEncounterReady, Detection::Detect), Processing::HGSS_ENCOUNTER_READY()),
                StateDescription::sprite_state_delay_targets(Branch3::new(Detection::Detect, Detection::Done, Detection::Run1), &game, &method, vec![206u32, 74u32], target, 6800),
                StateDescription::deadend_state(Detection::Done),
                StateDescription::linear_state(Detection::Run1, one(Button::Down), 1000..1000),
                StateDescription::linear_state(Detection::Run2, one(Button::Down), 1000..1000),
                StateDescription::linear_state(Detection::Run3, one(Button::Right), 1000..1000),
                StateDescription::linear_state(Detection::Run4, one(Button::Right), 1000..1000),
                StateDescription::linear_state(Detection::Run5, one(Button::Left), 1000..1000),
                StateDescription::linear_state(Detection::Run6, one(Button::A), 10000..10000),
            ];
            proof {
                assert(states@.map_values(|d: StateDescription<Detection>| d.view_desc()) =~= dark_cave_detect(game, method, target));
                reveal_with_fuel(tag_in, 11);
                reveal_with_fuel(tags_distinct_from, 11);
                reveal_with_fuel(targets_in, 3);
                reveal_with_fuel(checks_in_from, 11);
                assert(fragment_ok_rec(dark_cave_detect(game, method, target)));
                lemma_fragment_ok(dark_cave_detect(game, method, target));
            }
            builder.add_states(states);
        assert(builder.fragments_view() =~= b0.fragments_view() + fragments_of(seq![dark_cave_detect(game, method, target)]));
        builder
    }

    /// Adds the check of the three starters.
    pub fn hgss_starter(builder: HuntFSMBuilder) -> (r: HuntFSMBuilder)
        requires
            builder.wf(),
        ensures
            extended(r, builder, seq![hgss_starter_descs(builder.base_view().game, builder.base_view().method,
                builder.base_view().target)]),
    {
        let ghost b0 = builder;
        let mut builder = builder;
        let target: u32 = builder.target();
        let game = *builder.game();
        let method = *builder.method();
            let states = vec![
                StateDescription::linear_state(HGSSStarter::Left1, one(Button::Left), 1000..1500),
                StateDescription::simple_sprite_state(Branch3::new(HGSSStarter::Detect155, HGSSStarter::Done, HGSSStarter::Left2), &game, &method, 155, target),
                StateDescription::linear_state(HGSSStarter::Left2, one(Button::Left), 1000..1500),
                StateDescription::simple_sprite_state(Branch3::new(HGSSStarter::Detect158, HGSSStarter::Done, HGSSStarter::Left3), &game, &method, 158, target),
                StateDescription::linear_state(HGSSStarter::Left3, one(Button::Left), 1000..1500),
                StateDescription::simple_sprite_state(Branch3::new(HGSSStarter::Detect152, HGSSStarter::Done, HGSSStarter::NextAttempt), &game, &method, 152, target),
                StateDescription::deadend_state(HGSSStarter::Done),
                StateDescription::linear_state(HGSSStarter::NextAttempt, vec![], 0..2000),
            ];
            proof {
                assert(states@.map_values(|d: StateDescription<HGSSStarter>| d.view_desc()) =~= hgss_starter_descs(game, method, target));
                reveal_with_fuel(tag_in, 9);
                reveal_with_fuel(tags_distinct_from, 9);
                reveal_with_fuel(targets_in, 3);
                reveal_with_fuel(checks_in_from, 9);
                assert(fragment_ok_rec(hgss_starter_descs(game, method, target)));
                lemma_fragment_ok(hgss_starter_descs(game, method, target));
            }
            builder.add_states(states);
        assert(builder.fragments_view() =~= b0.fragments_view() + fragments_of(seq![hgss_starter_descs(game, method, target)]));
        builder
    }

    /// Adds the detection of a generation 4 legendary.
    pub fn gen4_legend(builder: HuntFSMBuilder) -> (r: HuntFSMBuilder)
        requires
            builder.wf(),
        ensures
            extended(r, builder, seq![gen4_legend_detect(builder.base_view().game, builder.base_view().method,
                builder.base_view().target, gen4_legend_duration(builder.base_view().target))]),
    {
        let ghost b0 = builder;
        let mut builder = builder;
        let target: u32 = builder.target();
        let game = *builder.game();
        let method = *builder.method();
        let duration: u64 = if target == 442 {
            8500
        } else if target == 486 {
            7750
        } else if target == 487 {
            6600
        } else {
            5000
        };
            let states = vec![
                StateDescription::simple_process_state_no_output_start_timer(Branch2::new(Detection::EnterEncounter, Detection::WaitEncounterReady), Processing::DP_IN_ENCOUNTER()),
                StateDescription::simple_process_state_no_output_end_timer(Branch2::new(Detection::WaitEncounterReady, Detection::Detect), Processing::DP_ENCOUNTER_READY()),
                StateDescription::sprite_state_delay(Branch3::new(Detection::Detect, Detection::Done, Detection::Run1), &game, &method, target, target, duration),
                StateDescription::deadend_state(Detection::Done),
                StateDescription::linear_state(Detection::Run1, vec![], 1000..3000),
            ];
            proof {
                assert(states@.map_values(|d: StateDescription<Detection>| d.view_desc()) =~= gen4_legend_detect(game, method, target, duration));
                reveal_with_fuel(tag_in, 6);
                reveal_with_fuel(tags_distinct_from, 6);
                reveal_with_fuel(targets_in, 3);
                reveal_with_fuel(checks_in_from, 6);
                assert(fragment_ok_rec(gen4_legend_detect(game, method, target, duration)));
                lemma_fragment_ok(gen4_legend_detect(game, method, target, duration));
            }
            builder.add_states(states);
        assert(builder.fragments_view() =~= b0.fragments_view()
            + fragments_of(seq![gen4_legend_detect(game, method, target, duration)]));
        builder
    }

    /// Adds the detection of an Ultra Sun / Ultra Moon static encounter.
    pub fn gen7_legend(builder: HuntFSMBuilder) -> (r: HuntFSMBuilder)
        requires
            builder.wf(),
        ensures
            extended(r, builder, gen7_legend_lists(builder.base_view().target)),
    {
        let ghost b0 = builder;
        let mut builder = builder;
        let species: u32 = builder.target();
        let timer: u64 = if species == 144 || species == 145 || species == 146 || species == 717 { 16750 }
            else if species == 243 || species == 245 { 13350 }
            else if species == 244 { 16650 }
            else if species == 382 { 16975 }
            else if species == 383 { 15700 }
            else if species == 380 { 10500 }
            else if species == 797 { 20460 }
            else if species == 799 { 21070 }
            else if species == 806 { 16390 }
            else if species == 249 { 13610 }
            else if species == 643 { 13370 }
            else if species == 644 { 14400 }
            else if species == 488 { 10400 }
            else if species == 150 { 13750 }
            else { 100 };
        if species == 806 {
            let states = vec![
                StateDescription::simple_process_state_no_output(Branch2::new(Detection::PrePreEnterEncounter, Detection::WaitPrePreEnter), Processing::USUMBottomScreenInv(5)),
                StateDescription::simple_process_state_no_output(Branch2::new(Detection::WaitPrePreEnter, Detection::PreEnterEncounter), Processing::USUMBottomScreen(5)),
                StateDescription::linear_state_no_delay(Detection::PreEnterEncounter, vec![]),
            ];
            proof {
                assert(states@.map_values(|d: StateDescription<Detection>| d.view_desc()) =~= usum_pre());
                reveal_with_fuel(tag_in, 4);
                reveal_with_fuel(tags_distinct_from, 4);
                reveal_with_fuel(targets_in, 3);
                reveal_with_fuel(checks_in_from, 4);
                assert(fragment_ok_rec(usum_pre()));
                lemma_fragment_ok(usum_pre());
            }
            builder.add_states(states);
            let states = vec![
                StateDescription::simple_process_state_no_output(Branch2::new(Detection::PreEnterEncounter, Detection::EnterEncounter), Processing::USUMBottomScreenInv(5)),
                StateDescription::simple_process_state_no_output_start_timer(Branch2::new(Detection::EnterEncounter, Detection::Detect), Processing::USUMBottomScreen(5)),
                StateDescription::simple_process_state_no_output_end_timer(Branch2::new(Detection::Detect, Detection::Run1), Processing::USUMBottomScreen(60)),
                StateDescription::branch_last_delay_state_plus_range(Branch3::new(Detection::Run1, Detection::Toggle, Detection::Run2), timer, 10500..15000),
                StateDescription::found_target_state(Detection::Toggle, Detection::Done),
                StateDescription::deadend_state(Detection::Done),
                StateDescription::incr_encounter_state(Detection::Run2, Detection::Run3),
                StateDescription::clear_atomic_state(Detection::Run3, Detection::Run4),
                StateDescription::linear_state(Detection::Run4, vec![], 0..500),
            ];
            proof {
                assert(states@.map_values(|d: StateDescription<Detection>| d.view_desc()) =~= usum_legend_wait(timer));
                reveal_with_fuel(tag_in, 10);
                reveal_with_fuel(tags_distinct_from, 10);
                reveal_with_fuel(targets_in, 3);
                reveal_with_fuel(checks_in_from, 10);
                assert(fragment_ok_rec(usum_legend_wait(timer)));
                lemma_fragment_ok(usum_legend_wait(timer));
            }
            builder.add_states(states);
        } else {
            let states = vec![
                StateDescription::simple_process_state_no_output(Branch2::new(Detection::PreEnterEncounter, Detection::EnterEncounter), Processing::USUMBottomScreenInv(5)),
                StateDescription::simple_process_state_no_output_start_timer(Branch2::new(Detection::EnterEncounter, Detection::Detect), Processing::USUMBottomScreen(5)),
                StateDescription::simple_process_state_no_output_end_timer(Branch2::new(Detection::Detect, Detection::Run1), Processing::USUMBottomScreen(60)),
                StateDescription::branch_last_delay_state(Branch3::new(Detection::Run1, Detection::Toggle, Detection::Run2), timer),
                StateDescription::found_target_state(Detection::Toggle, Detection::Done),
                StateDescription::deadend_state(Detection::Done),
                StateDescription::incr_encounter_state(Detection::Run2, Detection::Run3),
                StateDescription::clear_atomic_state(Detection::Run3, Detection::Run4),
                StateDescription::linear_state(Detection::Run4, vec![], 0..500),
            ];
            proof {
                assert(states@.map_values(|d: StateDescription<Detection>| d.view_desc()) =~= usum_legend(timer));
                reveal_with_fuel(tag_in, 10);
                reveal_with_fuel(tags_distinct_from, 10);
                reveal_with_fuel(targets_in, 3);
                reveal_with_fuel(checks_in_from, 10);
                assert(fragment_ok_rec(usum_legend(timer)));
                lemma_fragment_ok(usum_legend(timer));
            }
            builder.add_states(states);
        }
        assert(builder.fragments_view() =~= b0.fragments_view() + fragments_of(gen7_legend_lists(species)));
        builder
    }

    /// Adds the detection of a FireRed / LeafGreen static encounter.
    pub fn frlg_softreset(builder: HuntFSMBuilder) -> (r: HuntFSMBuilder)
        requires
            builder.wf(),
        ensures
            extended(r, builder, seq![frlg_softreset_detect(builder.base_view().game, builder.base_view().method,
                builder.base_view().target)]),
    {
        let ghost b0 = builder;
        let mut builder = builder;
        let target: u32 = builder.target();
        let game = *builder.game();
        let method = *builder.method();
            let states = vec![
                StateDescription::simple_process_state_no_output_start_timer(Branch2::new(Detection::EnterEncounter, Detection::WaitEncounterReady), Processing::FRLG_IN_ENCOUNTER()),
                StateDescription::simple_process_state_no_output_end_timer(Branch2::new(Detection::WaitEncounterReady, Detection::PressA), Processing::FRLG_ENCOUNTER_READY()),
                StateDescription::linear_state(Detection::PressA, one_held(Button::A, Delay::Tenth), 3000..3000),
                StateDescription::sprite_state_delay(Branch3::new(Detection::Detect, Detection::Done, Detection::Run1), &game, &method, target, target, 2385),
                StateDescription::deadend_state(Detection::Done),
                StateDescription::linear_state(Detection::Run1, vec![], 1000..3000),
            ];
            proof {
                assert(states@.map_values(|d: StateDescription<Detection>| d.view_desc()) =~= frlg_softreset_detect(game, method, target));
                reveal_with_fuel(tag_in, 7);
                reveal_with_fuel(tags_distinct_from, 7);
                reveal_with_fuel(targets_in, 3);
                reveal_with_fuel(checks_in_from, 7);
                assert(fragment_ok_rec(frlg_softreset_detect(game, method, target)));
                lemma_fragment_ok(frlg_softreset_detect(game, method, target));
            }
            builder.add_states(states);
        assert(builder.fragments_view() =~= b0.fragments_view() + fragments_of(seq![frlg_softreset_detect(game, method, target)]));
        builder
    }

    /// Adds the detection of a Ruby / Sapphire random encounter.
    pub fn rs_random(builder: HuntFSMBuilder) -> (r: HuntFSMBuilder)
        requires
            builder.wf(),
        ensures
            extended(r, builder, seq![rs_random_detect(builder.base_view().game, builder.base_view().method,
                builder.base_view().target, rs_random_species(builder.base_view().target))]),
    {
        let ghost b0 = builder;
        let mut builder = builder;
        let target: u32 = builder.target();
        let game = *builder.game();
        let method = *builder.method();
        let targets: Vec<u32> = if target == 327 { vec![327, 27, 227] } else { vec![target] };
        assert(targets@ =~= rs_random_species(target));
            let states = vec![
                StateDescription::toggle_state(Detection::Toggle, Detection::EnterEncounter),
                StateDescription::simple_process_state_no_output_start_timer(Branch2::new(Detection::EnterEncounter, Detection::WaitEncounterReady), Processing::FRLG_IN_ENCOUNTER()),
                StateDescription::simple_process_state_no_output_end_timer(Branch2::new(Detection::WaitEncounterReady, Detection::PressA), Processing::FRLG_ENCOUNTER_READY()),
                StateDescription::linear_state(Detection::PressA, one_held(Button::A, Delay::Tenth), 3000..3000),
                StateDescription::sprite_state_delay_targets(Branch3::new(Detection::Detect, Detection::Done, Detection::Run1), &game, &method, targets, target, 2381),
                StateDescription::deadend_state(Detection::Done),
                StateDescription::linear_state(Detection::Run1, one_held(Button::Down, Delay::Tenth), 500..500),
                StateDescription::linear_state(Detection::Run2, one_held(Button::Right, Delay::Tenth), 500..500),
                StateDescription::linear_state(Detection::Run3, one_held(Button::A, Delay::Tenth), 500..500),
                StateDescription::linear_state(Detection::Run4, one_held(Button::A, Delay::Tenth), 3000..9200),
            ];
            proof {
                assert(states@.map_values(|d: StateDescription<Detection>| d.view_desc()) =~= rs_random_detect(game, method, target, rs_random_species(target)));
                reveal_with_fuel(tag_in, 11);
                reveal_with_fuel(tags_distinct_from, 11);
                reveal_with_fuel(targets_in, 3);
                reveal_with_fuel(checks_in_from, 11);
                assert(fragment_ok_rec(rs_random_detect(game, method, target, rs_random_species(target))));
                lemma_fragment_ok(rs_random_detect(game, method, target, rs_random_species(target)));
            }
            builder.add_states(states);
        assert(builder.fragments_view() =~= b0.fragments_view()
            + fragments_of(seq![rs_random_detect(game, method, target, rs_random_species(target))]));
        builder
    }

    /// Adds the detection of a FireRed / LeafGreen random encounter.
    pub fn frlg_random(builder: HuntFSMBuilder) -> (r: HuntFSMBuilder)
        requires
            builder.wf(),
        ensures
            extended(r, builder, seq![frlg_random_detect(builder.base_view().game, builder.base_view().method,
                builder.base_view().target, frlg_random_species(builder.base_view().target),
                frlg_random_threshold(builder.base_view().target))]),
    {
        let ghost b0 = builder;
        let mut builder = builder;
        let target: u32 = builder.target();
        let game = *builder.game();
        let method = *builder.method();
        let sprites: Vec<u32> = if target == 37 || target == 27 {
            vec![16, 52, 37, 27]
        } else if target == 10 {
            vec![10, 11, 13, 14, 25]
        } else {
            vec![16, 19]
        };
        let threshold: u64 = if target == 37 || target == 27 || target == 10 { 2700 } else { 3250 };
        assert(sprites@ =~= frlg_random_species(target));
            let states = vec![
                StateDescription::toggle_state(Detection::Toggle, Detection::EnterEncounter),
                StateDescription::simple_process_state_no_output_start_timer(Branch2::new(Detection::EnterEncounter, Detection::WaitEncounterReady), Processing::FRLG_IN_ENCOUNTER()),
                StateDescription::simple_process_state_no_output_end_timer(Branch2::new(Detection::WaitEncounterReady, Detection::PressA), Processing::FRLG_ENCOUNTER_READY()),
                StateDescription::linear_state(Detection::PressA, one_held(Button::A, Delay::Tenth), 3000..3000),
                frlg_detect_state(sprites, ShinyDetect { three_ds: false, with_star: false, threshold, uses_threshold: true, target, game, method }),
                StateDescription::deadend_state(Detection::Done),
                StateDescription::linear_state(Detection::Run1, one_held(Button::Down, Delay::Tenth), 500..500),
                StateDescription::linear_state(Detection::Run2, one_held(Button::Right, Delay::Tenth), 500..500),
                StateDescription::linear_state(Detection::Run3, one_held(Button::A, Delay::Tenth), 500..500),
                StateDescription::linear_state(Detection::Run4, one_held(Button::A, Delay::Tenth), 3000..9200),
            ];
            proof {
                assert(states@.map_values(|d: StateDescription<Detection>| d.view_desc()) =~= frlg_random_detect(game, method, target, frlg_random_species(target), threshold));
                reveal_with_fuel(tag_in, 11);
                reveal_with_fuel(tags_distinct_from, 11);
                reveal_with_fuel(targets_in, 3);
                reveal_with_fuel(checks_in_from, 11);
                assert(fragment_ok_rec(frlg_random_detect(game, method, target, frlg_random_species(target), threshold)));
                lemma_fragment_ok(frlg_random_detect(game, method, target, frlg_random_species(target), threshold));
            }
            builder.add_states(states);
        assert(builder.fragments_view() =~= b0.fragments_view()
            + fragments_of(seq![frlg_random_detect(game, method, target, frlg_random_species(target), threshold)]));
        builder
    }

    /// Adds the check of an Ultra Sun / Ultra Moon gift.
    pub fn gen7_gift(builder: HuntFSMBuilder) -> (r: HuntFSMBuilder)
        requires
            builder.wf(),
        ensures
            extended(r, builder, seq![gen7_gift_detect(builder.base_view().game, builder.base_view().method,
                builder.base_view().target)]),
    {
        let ghost b0 = builder;
        let mut builder = builder;
        let target: u32 = builder.target();
        let game = *builder.game();
        let method = *builder.method();
            let states = vec![
                StateDescription::simple_sprite_state_3ds(Branch3::new(StickyState::DetectSprite, StickyState::Done, StickyState::StartMashB), &game, &method, target, target),
                StateDescription::start_timer_state(StickyState::StartMashB, StickyState::MashB),
                StateDescription::linear_state(StickyState::MashB, one(Button::B), 500..500),
                StateDescription::branch_delay_state(Branch3::new(StickyState::CheckTimer, StickyState::OpenMenu, StickyState::MashB), 18000),
                StateDescription::linear_state(StickyState::OpenMenu, one(Button::X), 2000..2000),
                StateDescription::linear_state(StickyState::ToParty, one(Button::A), 2000..2000),
                StateDescription::linear_state(StickyState::Select, one(Button::A), 2000..2000),
                StateDescription::linear_state(StickyState::OpenSummary, one(Button::A), 3000..3000),
                StateDescription::linear_state(StickyState::ToLast, one(Button::Up), 2000..2000),
                StateDescription::simple_process_state_no_output3(Branch3::new(StickyState::DetectStar, StickyState::FoundTarget, StickyState::StopHeartbeat), Processing::USUM_SHINY_STAR()),
                StateDescription::found_target_state(StickyState::FoundTarget, StickyState::Done),
                StateDescription::deadend_state(StickyState::Done),
                StateDescription::clear_atomic_state(StickyState::StopHeartbeat, StickyState::NextAttempt),
                StateDescription::linear_state(StickyState::NextAttempt, vec![], 500..2000),
            ];
            proof {
                assert(states@.map_values(|d: StateDescription<StickyState>| d.view_desc()) =~= gen7_gift_detect(game, method, target));
                reveal_with_fuel(tag_in, 15);
                reveal_with_fuel(tags_distinct_from, 15);
                reveal_with_fuel(targets_in, 3);
                reveal_with_fuel(checks_in_from, 15);
                assert(fragment_ok_rec(gen7_gift_detect(game, method, target)));
                lemma_fragment_ok(gen7_gift_detect(game, method, target));
            }
            builder.add_states(states);
        assert(builder.fragments_view() =~= b0.fragments_view() + fragments_of(seq![gen7_gift_detect(game, method, target)]));
        builder
    }

    /// Adds the detection of an Ultra Sun / Ultra Moon Honey encounter.
    pub fn gen7_random_encounter(builder: HuntFSMBuilder) -> (r: HuntFSMBuilder)
        requires
            builder.wf(),
        ensures
            extended(r, builder, seq![if builder.base_view().target == 806 { usum_random_wait() } else {
                usum_random_detect() }]),
    {
        let ghost b0 = builder;
        let mut builder = builder;
        if builder.target() == 806 {
            let states = vec![
                StateDescription::simple_process_state_no_output(Branch2::new(Detection::PrePreEnterEncounter, Detection::WaitPrePreEnter), Processing::USUMBottomScreenInv(5)),
                StateDescription::simple_process_state_no_output(Branch2::new(Detection::WaitPrePreEnter, Detection::PreEnterEncounter), Processing::USUMBottomScreen(5)),
                StateDescription::simple_process_state_no_output(Branch2::new(Detection::PreEnterEncounter, Detection::EnterEncounter), Processing::USUMBottomScreenInv(5)),
                StateDescription::simple_process_state_no_output_start_timer(Branch2::new(Detection::EnterEncounter, Detection::Detect), Processing::USUMBottomScreen(5)),
                StateDescription::simple_process_state_no_output_end_timer(Branch2::new(Detection::Detect, Detection::Run1), Processing::USUMBottomScreen(60)),
                StateDescription::branch_last_delay_state_plus_range(Branch3::new(Detection::Run1, Detection::Toggle, Detection::Run2), 16300, 10500..15000),
                StateDescription::found_target_state(Detection::Toggle, Detection::Done),
                StateDescription::deadend_state(Detection::Done),
                StateDescription::incr_encounter_state(Detection::Run2, Detection::Run3),
                StateDescription::linear_state(Detection::Run3, vec![], 1000..1000),
                StateDescription::linear_state(Detection::Run4, one(Button::Touch(157, 224)), 8000..9000),
            ];
            proof {
                assert(states@.map_values(|d: StateDescription<Detection>| d.view_desc()) =~= usum_random_wait());
                reveal_with_fuel(tag_in, 12);
                reveal_with_fuel(tags_distinct_from, 12);
                reveal_with_fuel(targets_in, 3);
                reveal_with_fuel(checks_in_from, 12);
                assert(fragment_ok_rec(usum_random_wait()));
                lemma_fragment_ok(usum_random_wait());
            }
            builder.add_states(states);
        } else {
            let states = vec![
                StateDescription::simple_process_state_no_output(Branch2::new(Detection::PrePreEnterEncounter, Detection::WaitPrePreEnter), Processing::USUMBottomScreenInv(5)),
                StateDescription::simple_process_state_no_output(Branch2::new(Detection::WaitPrePreEnter, Detection::PreEnterEncounter), Processing::USUMBottomScreen(5)),
                StateDescription::simple_process_state_no_output(Branch2::new(Detection::PreEnterEncounter, Detection::EnterEncounter), Processing::USUMBottomScreenInv(5)),
                StateDescription::simple_process_state_no_output_start_timer(Branch2::new(Detection::EnterEncounter, Detection::Detect), Processing::USUMBottomScreen(5)),
                StateDescription::simple_process_state_no_output_end_timer(Branch2::new(Detection::Detect, Detection::Run1), Processing::USUMBottomScreen(60)),
                StateDescription::branch_last_delay_state(Branch3::new(Detection::Run1, Detection::Toggle, Detection::Run2), 10400),
                StateDescription::found_target_state(Detection::Toggle, Detection::Done),
                StateDescription::deadend_state(Detection::Done),
                StateDescription::incr_encounter_state(Detection::Run2, Detection::Run3),
                StateDescription::linear_state(Detection::Run3, vec![], 1000..1000),
                StateDescription::linear_state(Detection::Run4, one(Button::Touch(157, 224)), 8000..9000),
            ];
            proof {
                assert(states@.map_values(|d: StateDescription<Detection>| d.view_desc()) =~= usum_random_detect());
                reveal_with_fuel(tag_in, 12);
                reveal_with_fuel(tags_distinct_from, 12);
                reveal_with_fuel(targets_in, 3);
                reveal_with_fuel(checks_in_from, 12);
                assert(fragment_ok_rec(usum_random_detect()));
                lemma_fragment_ok(usum_random_detect());
            }
            builder.add_states(states);
        }
        assert(builder.fragments_view() =~= b0.fragments_view() + fragments_of(seq![if b0.base_view().target == 806 {
            usum_random_wait() } else { usum_random_detect() }]));
        builder
    }
}

} // verus!
