//! The ways of getting into an encounter: soft resets, walking in grass,
//! the gift sequences, and the utility routines, each a fragment of a hunt.
use vstd::prelude::*;
use crate::app::states::{Game, Method};
use crate::control::{Button, Delay};
use crate::hunt::checks::CheckView;
use crate::hunt::state_machine::HuntStateOutput;
use crate::hunt::state_machine_build::{BaseHunt, 
    StateTag, StateDescription, Branch2, Branch3, HuntFSMBuilder, DescView, fragment_ok_rec, fragments_of,
    lemma_fragment_ok, tag_in, tags_distinct_from, targets_in, checks_in_from, linear_desc, step_desc, wait_desc,
    fork_desc, process_desc, extended, resolved,
};
use crate::vision::{Processing, ProcessingView};
use crate::vision::{hgss_black_screen, frlg_start_encounter, dp_start_encounter, dp_start_encounter_white};
use crate::vision::{rs_fishing_active, rs_fishing_bite, rs_fishing_on_hook, rs_fishing_no_nibble};

verus! {

/// The states of walking back and forth until an encounter starts.
#[derive(Clone, Copy, Debug, PartialEq, Eq, Structural)]
pub enum TryGetEncounter {
    Init,
    Up,
    Down,
    Left,
    Right,
    Entering,
}

impl StateTag for TryGetEncounter {
    open spec fn spec_tag_id(&self) -> u64 {
        match self {
            TryGetEncounter::Init => 0,
            TryGetEncounter::Up => 1,
            TryGetEncounter::Down => 2,
            TryGetEncounter::Left => 3,
            TryGetEncounter::Right => 4,
            TryGetEncounter::Entering => 5,
        }
    }

    open spec fn spec_tag_name(&self) -> Seq<char> {
        match self {
            TryGetEncounter::Init => "Init"@,
            TryGetEncounter::Up => "Up"@,
            TryGetEncounter::Down => "Down"@,
            TryGetEncounter::Left => "Left"@,
            TryGetEncounter::Right => "Right"@,
            TryGetEncounter::Entering => "Entering"@,
        }
    }

    fn tag_id(&self) -> (r: u64) {
        match self {
            TryGetEncounter::Init => 0,
            TryGetEncounter::Up => 1,
            TryGetEncounter::Down => 2,
            TryGetEncounter::Left => 3,
            TryGetEncounter::Right => 4,
            TryGetEncounter::Entering => 5,
        }
    }

    fn tag_name(&self) -> (r: String) {
        match self {
            TryGetEncounter::Init => String::from_str("Init"),
            TryGetEncounter::Up => String::from_str("Up"),
            TryGetEncounter::Down => String::from_str("Down"),
            TryGetEncounter::Left => String::from_str("Left"),
            TryGetEncounter::Right => String::from_str("Right"),
            TryGetEncounter::Entering => String::from_str("Entering"),
        }
    }
}
/// The states of a soft reset through the title screens.
#[derive(Clone, Copy, Debug, PartialEq, Eq, Structural)]
pub enum SoftResetProcess {
    SoftReset,
    Title1,
    Title2,
    Title3,
    Title4,
    SkipMemory,
    GetGift,
}

impl StateTag for SoftResetProcess {
    open spec fn spec_tag_id(&self) -> u64 {
        match self {
            SoftResetProcess::SoftReset => 0,
            SoftResetProcess::Title1 => 1,
            SoftResetProcess::Title2 => 2,
            SoftResetProcess::Title3 => 3,
            SoftResetProcess::Title4 => 4,
            SoftResetProcess::SkipMemory => 5,
            SoftResetProcess::GetGift => 6,
        }
    }

    open spec fn spec_tag_name(&self) -> Seq<char> {
        match self {
            SoftResetProcess::SoftReset => "SoftReset"@,
            SoftResetProcess::Title1 => "Title1"@,
            SoftResetProcess::Title2 => "Title2"@,
            SoftResetProcess::Title3 => "Title3"@,
            SoftResetProcess::Title4 => "Title4"@,
            SoftResetProcess::SkipMemory => "SkipMemory"@,
            SoftResetProcess::GetGift => "GetGift"@,
        }
    }

    fn tag_id(&self) -> (r: u64) {
        match self {
            SoftResetProcess::SoftReset => 0,
            SoftResetProcess::Title1 => 1,
            SoftResetProcess::Title2 => 2,
            SoftResetProcess::Title3 => 3,
            SoftResetProcess::Title4 => 4,
            SoftResetProcess::SkipMemory => 5,
            SoftResetProcess::GetGift => 6,
        }
    }

    fn tag_name(&self) -> (r: String) {
        match self {
            SoftResetProcess::SoftReset => String::from_str("SoftReset"),
            SoftResetProcess::Title1 => String::from_str("Title1"),
            SoftResetProcess::Title2 => String::from_str("Title2"),
            SoftResetProcess::Title3 => String::from_str("Title3"),
            SoftResetProcess::Title4 => String::from_str("Title4"),
            SoftResetProcess::SkipMemory => String::from_str("SkipMemory"),
            SoftResetProcess::GetGift => String::from_str("GetGift"),
        }
    }
}
/// The states of starting a static encounter after a soft reset.
#[derive(Clone, Copy, Debug, PartialEq, Eq, Structural)]
pub enum StartSoftResetEncounter {
    SkipMemory,
    Delay,
    Press1,
    Press2,
    Press3,
    Press4,
    Press5,
    Press6,
    Press7,
    IsEntering,
    Entering,
}

impl StateTag for StartSoftResetEncounter {
    open spec fn spec_tag_id(&self) -> u64 {
        match self {
            StartSoftResetEncounter::SkipMemory => 0,
            StartSoftResetEncounter::Delay => 1,
            StartSoftResetEncounter::Press1 => 2,
            StartSoftResetEncounter::Press2 => 3,
            StartSoftResetEncounter::Press3 => 4,
            StartSoftResetEncounter::Press4 => 5,
            StartSoftResetEncounter::Press5 => 6,
            StartSoftResetEncounter::Press6 => 7,
            StartSoftResetEncounter::Press7 => 8,
            StartSoftResetEncounter::IsEntering => 9,
            StartSoftResetEncounter::Entering => 10,
        }
    }

    open spec fn spec_tag_name(&self) -> Seq<char> {
        match self {
            StartSoftResetEncounter::SkipMemory => "SkipMemory"@,
            StartSoftResetEncounter::Delay => "Delay"@,
            StartSoftResetEncounter::Press1 => "Press1"@,
            StartSoftResetEncounter::Press2 => "Press2"@,
            StartSoftResetEncounter::Press3 => "Press3"@,
            StartSoftResetEncounter::Press4 => "Press4"@,
            StartSoftResetEncounter::Press5 => "Press5"@,
            StartSoftResetEncounter::Press6 => "Press6"@,
            StartSoftResetEncounter::Press7 => "Press7"@,
            StartSoftResetEncounter::IsEntering => "IsEntering"@,
            StartSoftResetEncounter::Entering => "Entering"@,
        }
    }

    fn tag_id(&self) -> (r: u64) {
        match self {
            StartSoftResetEncounter::SkipMemory => 0,
            StartSoftResetEncounter::Delay => 1,
            StartSoftResetEncounter::Press1 => 2,
            StartSoftResetEncounter::Press2 => 3,
            StartSoftResetEncounter::Press3 => 4,
            StartSoftResetEncounter::Press4 => 5,
            StartSoftResetEncounter::Press5 => 6,
            StartSoftResetEncounter::Press6 => 7,
            StartSoftResetEncounter::Press7 => 8,
            StartSoftResetEncounter::IsEntering => 9,
            StartSoftResetEncounter::Entering => 10,
        }
    }

    fn tag_name(&self) -> (r: String) {
        match self {
            StartSoftResetEncounter::SkipMemory => String::from_str("SkipMemory"),
            StartSoftResetEncounter::Delay => String::from_str("Delay"),
            StartSoftResetEncounter::Press1 => String::from_str("Press1"),
            StartSoftResetEncounter::Press2 => String::from_str("Press2"),
            StartSoftResetEncounter::Press3 => String::from_str("Press3"),
            StartSoftResetEncounter::Press4 => String::from_str("Press4"),
            StartSoftResetEncounter::Press5 => String::from_str("Press5"),
            StartSoftResetEncounter::Press6 => String::from_str("Press6"),
            StartSoftResetEncounter::Press7 => String::from_str("Press7"),
            StartSoftResetEncounter::IsEntering => String::from_str("IsEntering"),
            StartSoftResetEncounter::Entering => String::from_str("Entering"),
        }
    }
}
/// The states of a soft reset on Ultra Sun / Ultra Moon.
#[derive(Clone, Copy, Debug, PartialEq, Eq, Structural)]
pub enum USUM {
    SoftReset1,
    SoftReset2,
    Clear1,
    Clear2,
    Clear3,
    AllowHeartbeat,
    WaitHeartbeat,
    Title1,
    Title2,
    Title3,
    Title4,
    Circle1,
    Circle2,
    Circle3,
    Circle4,
}

impl StateTag for USUM {
    open spec fn spec_tag_id(&self) -> u64 {
        match self {
            USUM::SoftReset1 => 0,
            USUM::SoftReset2 => 1,
            USUM::Clear1 => 2,
            USUM::Clear2 => 3,
            USUM::Clear3 => 4,
            USUM::AllowHeartbeat => 5,
            USUM::WaitHeartbeat => 6,
            USUM::Title1 => 7,
            USUM::Title2 => 8,
            USUM::Title3 => 9,
            USUM::Title4 => 10,
            USUM::Circle1 => 11,
            USUM::Circle2 => 12,
            USUM::Circle3 => 13,
            USUM::Circle4 => 14,
        }
    }

    open spec fn spec_tag_name(&self) -> Seq<char> {
        match self {
            USUM::SoftReset1 => "SoftReset1"@,
            USUM::SoftReset2 => "SoftReset2"@,
            USUM::Clear1 => "Clear1"@,
            USUM::Clear2 => "Clear2"@,
            USUM::Clear3 => "Clear3"@,
            USUM::AllowHeartbeat => "AllowHeartbeat"@,
            USUM::WaitHeartbeat => "WaitHeartbeat"@,
            USUM::Title1 => "Title1"@,
            USUM::Title2 => "Title2"@,
            USUM::Title3 => "Title3"@,
            USUM::Title4 => "Title4"@,
            USUM::Circle1 => "Circle1"@,
            USUM::Circle2 => "Circle2"@,
            USUM::Circle3 => "Circle3"@,
            USUM::Circle4 => "Circle4"@,
        }
    }

    fn tag_id(&self) -> (r: u64) {
        match self {
            USUM::SoftReset1 => 0,
            USUM::SoftReset2 => 1,
            USUM::Clear1 => 2,
            USUM::Clear2 => 3,
            USUM::Clear3 => 4,
            USUM::AllowHeartbeat => 5,
            USUM::WaitHeartbeat => 6,
            USUM::Title1 => 7,
            USUM::Title2 => 8,
            USUM::Title3 => 9,
            USUM::Title4 => 10,
            USUM::Circle1 => 11,
            USUM::Circle2 => 12,
            USUM::Circle3 => 13,
            USUM::Circle4 => 14,
        }
    }

    fn tag_name(&self) -> (r: String) {
        match self {
            USUM::SoftReset1 => String::from_str("SoftReset1"),
            USUM::SoftReset2 => String::from_str("SoftReset2"),
            USUM::Clear1 => String::from_str("Clear1"),
            USUM::Clear2 => String::from_str("Clear2"),
            USUM::Clear3 => String::from_str("Clear3"),
            USUM::AllowHeartbeat => String::from_str("AllowHeartbeat"),
            USUM::WaitHeartbeat => String::from_str("WaitHeartbeat"),
            USUM::Title1 => String::from_str("Title1"),
            USUM::Title2 => String::from_str("Title2"),
            USUM::Title3 => String::from_str("Title3"),
            USUM::Title4 => String::from_str("Title4"),
            USUM::Circle1 => String::from_str("Circle1"),
            USUM::Circle2 => String::from_str("Circle2"),
            USUM::Circle3 => String::from_str("Circle3"),
            USUM::Circle4 => String::from_str("Circle4"),
        }
    }
}
/// The states of the Honey routine on Ultra Sun / Ultra Moon.
#[derive(Clone, Copy, Debug, PartialEq, Eq, Structural)]
pub enum USUMRandom {
    CheckCounter,
    StopHeartbeat,
    SetCounter,
    Wait,
    SoftReset,
    Clear1,
    Clear2,
    Clear3,
    AllowHeartbeat,
    WaitHeartbeat,
    Title1,
    Title2,
    Title3,
    Title4,
    XToMenu,
    Down,
    AToBag,
    Left1,
    Left2,
    Left3,
    Jump,
    AToHoney,
    AToUse,
    XToMenu2,
    AToBag2,
    DecrCounter,
}

impl StateTag for USUMRandom {
    open spec fn spec_tag_id(&self) -> u64 {
        match self {
            USUMRandom::CheckCounter => 0,
            USUMRandom::StopHeartbeat => 1,
            USUMRandom::SetCounter => 2,
            USUMRandom::Wait => 3,
            USUMRandom::SoftReset => 4,
            USUMRandom::Clear1 => 5,
            USUMRandom::Clear2 => 6,
            USUMRandom::Clear3 => 7,
            USUMRandom::AllowHeartbeat => 8,
            USUMRandom::WaitHeartbeat => 9,
            USUMRandom::Title1 => 10,
            USUMRandom::Title2 => 11,
            USUMRandom::Title3 => 12,
            USUMRandom::Title4 => 13,
            USUMRandom::XToMenu => 14,
            USUMRandom::Down => 15,
            USUMRandom::AToBag => 16,
            USUMRandom::Left1 => 17,
            USUMRandom::Left2 => 18,
            USUMRandom::Left3 => 19,
            USUMRandom::Jump => 20,
            USUMRandom::AToHoney => 21,
            USUMRandom::AToUse => 22,
            USUMRandom::XToMenu2 => 23,
            USUMRandom::AToBag2 => 24,
            USUMRandom::DecrCounter => 25,
        }
    }

    open spec fn spec_tag_name(&self) -> Seq<char> {
        match self {
            USUMRandom::CheckCounter => "CheckCounter"@,
            USUMRandom::StopHeartbeat => "StopHeartbeat"@,
            USUMRandom::SetCounter => "SetCounter"@,
            USUMRandom::Wait => "Wait"@,
            USUMRandom::SoftReset => "SoftReset"@,
            USUMRandom::Clear1 => "Clear1"@,
            USUMRandom::Clear2 => "Clear2"@,
            USUMRandom::Clear3 => "Clear3"@,
            USUMRandom::AllowHeartbeat => "AllowHeartbeat"@,
            USUMRandom::WaitHeartbeat => "WaitHeartbeat"@,
            USUMRandom::Title1 => "Title1"@,
            USUMRandom::Title2 => "Title2"@,
            USUMRandom::Title3 => "Title3"@,
            USUMRandom::Title4 => "Title4"@,
            USUMRandom::XToMenu => "XToMenu"@,
            USUMRandom::Down => "Down"@,
            USUMRandom::AToBag => "AToBag"@,
            USUMRandom::Left1 => "Left1"@,
            USUMRandom::Left2 => "Left2"@,
            USUMRandom::Left3 => "Left3"@,
            USUMRandom::Jump => "Jump"@,
            USUMRandom::AToHoney => "AToHoney"@,
            USUMRandom::AToUse => "AToUse"@,
            USUMRandom::XToMenu2 => "XToMenu2"@,
            USUMRandom::AToBag2 => "AToBag2"@,
            USUMRandom::DecrCounter => "DecrCounter"@,
        }
    }

    fn tag_id(&self) -> (r: u64) {
        match self {
            USUMRandom::CheckCounter => 0,
            USUMRandom::StopHeartbeat => 1,
            USUMRandom::SetCounter => 2,
            USUMRandom::Wait => 3,
            USUMRandom::SoftReset => 4,
            USUMRandom::Clear1 => 5,
            USUMRandom::Clear2 => 6,
            USUMRandom::Clear3 => 7,
            USUMRandom::AllowHeartbeat => 8,
            USUMRandom::WaitHeartbeat => 9,
            USUMRandom::Title1 => 10,
            USUMRandom::Title2 => 11,
            USUMRandom::Title3 => 12,
            USUMRandom::Title4 => 13,
            USUMRandom::XToMenu => 14,
            USUMRandom::Down => 15,
            USUMRandom::AToBag => 16,
            USUMRandom::Left1 => 17,
            USUMRandom::Left2 => 18,
            USUMRandom::Left3 => 19,
            USUMRandom::Jump => 20,
            USUMRandom::AToHoney => 21,
            USUMRandom::AToUse => 22,
            USUMRandom::XToMenu2 => 23,
            USUMRandom::AToBag2 => 24,
            USUMRandom::DecrCounter => 25,
        }
    }

    fn tag_name(&self) -> (r: String) {
        match self {
            USUMRandom::CheckCounter => String::from_str("CheckCounter"),
            USUMRandom::StopHeartbeat => String::from_str("StopHeartbeat"),
            USUMRandom::SetCounter => String::from_str("SetCounter"),
            USUMRandom::Wait => String::from_str("Wait"),
            USUMRandom::SoftReset => String::from_str("SoftReset"),
            USUMRandom::Clear1 => String::from_str("Clear1"),
            USUMRandom::Clear2 => String::from_str("Clear2"),
            USUMRandom::Clear3 => String::from_str("Clear3"),
            USUMRandom::AllowHeartbeat => String::from_str("AllowHeartbeat"),
            USUMRandom::WaitHeartbeat => String::from_str("WaitHeartbeat"),
            USUMRandom::Title1 => String::from_str("Title1"),
            USUMRandom::Title2 => String::from_str("Title2"),
            USUMRandom::Title3 => String::from_str("Title3"),
            USUMRandom::Title4 => String::from_str("Title4"),
            USUMRandom::XToMenu => String::from_str("XToMenu"),
            USUMRandom::Down => String::from_str("Down"),
            USUMRandom::AToBag => String::from_str("AToBag"),
            USUMRandom::Left1 => String::from_str("Left1"),
            USUMRandom::Left2 => String::from_str("Left2"),
            USUMRandom::Left3 => String::from_str("Left3"),
            USUMRandom::Jump => String::from_str("Jump"),
            USUMRandom::AToHoney => String::from_str("AToHoney"),
            USUMRandom::AToUse => String::from_str("AToUse"),
            USUMRandom::XToMenu2 => String::from_str("XToMenu2"),
            USUMRandom::AToBag2 => String::from_str("AToBag2"),
            USUMRandom::DecrCounter => String::from_str("DecrCounter"),
        }
    }
}
/// The states of the Dark Cave rock-smash routine.
#[derive(Clone, Copy, Debug, PartialEq, Eq, Structural)]
pub enum DarkCave {
    Start,
    CheckToggle,
    First,
    Second,
    SoftReset,
    Title1,
    Title2,
    Title3,
    Title4,
    SetToggle,
    SetToggle2,
    Down1,
    Down2,
    Right,
    Smash,
    Smash2,
    Smash3,
    B1,
    B2,
    StartTimer,
    CheckEncounter,
    BranchEncounter,
    Entering,
}

impl StateTag for DarkCave {
    open spec fn spec_tag_id(&self) -> u64 {
        match self {
            DarkCave::Start => 0,
            DarkCave::CheckToggle => 1,
            DarkCave::First => 2,
            DarkCave::Second => 3,
            DarkCave::SoftReset => 4,
            DarkCave::Title1 => 5,
            DarkCave::Title2 => 6,
            DarkCave::Title3 => 7,
            DarkCave::Title4 => 8,
            DarkCave::SetToggle => 9,
            DarkCave::SetToggle2 => 10,
            DarkCave::Down1 => 11,
            DarkCave::Down2 => 12,
            DarkCave::Right => 13,
            DarkCave::Smash => 14,
            DarkCave::Smash2 => 15,
            DarkCave::Smash3 => 16,
            DarkCave::B1 => 17,
            DarkCave::B2 => 18,
            DarkCave::StartTimer => 19,
            DarkCave::CheckEncounter => 20,
            DarkCave::BranchEncounter => 21,
            DarkCave::Entering => 22,
        }
    }

    open spec fn spec_tag_name(&self) -> Seq<char> {
        match self {
            DarkCave::Start => "Start"@,
            DarkCave::CheckToggle => "CheckToggle"@,
            DarkCave::First => "First"@,
            DarkCave::Second => "Second"@,
            DarkCave::SoftReset => "SoftReset"@,
            DarkCave::Title1 => "Title1"@,
            DarkCave::Title2 => "Title2"@,
            DarkCave::Title3 => "Title3"@,
            DarkCave::Title4 => "Title4"@,
            DarkCave::SetToggle => "SetToggle"@,
            DarkCave::SetToggle2 => "SetToggle2"@,
            DarkCave::Down1 => "Down1"@,
            DarkCave::Down2 => "Down2"@,
            DarkCave::Right => "Right"@,
            DarkCave::Smash => "Smash"@,
            DarkCave::Smash2 => "Smash2"@,
            DarkCave::Smash3 => "Smash3"@,
            DarkCave::B1 => "B1"@,
            DarkCave::B2 => "B2"@,
            DarkCave::StartTimer => "StartTimer"@,
            DarkCave::CheckEncounter => "CheckEncounter"@,
            DarkCave::BranchEncounter => "BranchEncounter"@,
            DarkCave::Entering => "Entering"@,
        }
    }

    fn tag_id(&self) -> (r: u64) {
        match self {
            DarkCave::Start => 0,
            DarkCave::CheckToggle => 1,
            DarkCave::First => 2,
            DarkCave::Second => 3,
            DarkCave::SoftReset => 4,
            DarkCave::Title1 => 5,
            DarkCave::Title2 => 6,
            DarkCave::Title3 => 7,
            DarkCave::Title4 => 8,
            DarkCave::SetToggle => 9,
            DarkCave::SetToggle2 => 10,
            DarkCave::Down1 => 11,
            DarkCave::Down2 => 12,
            DarkCave::Right => 13,
            DarkCave::Smash => 14,
            DarkCave::Smash2 => 15,
            DarkCave::Smash3 => 16,
            DarkCave::B1 => 17,
            DarkCave::B2 => 18,
            DarkCave::StartTimer => 19,
            DarkCave::CheckEncounter => 20,
            DarkCave::BranchEncounter => 21,
            DarkCave::Entering => 22,
        }
    }

    fn tag_name(&self) -> (r: String) {
        match self {
            DarkCave::Start => String::from_str("Start"),
            DarkCave::CheckToggle => String::from_str("CheckToggle"),
            DarkCave::First => String::from_str("First"),
            DarkCave::Second => String::from_str("Second"),
            DarkCave::SoftReset => String::from_str("SoftReset"),
            DarkCave::Title1 => String::from_str("Title1"),
            DarkCave::Title2 => String::from_str("Title2"),
            DarkCave::Title3 => String::from_str("Title3"),
            DarkCave::Title4 => String::from_str("Title4"),
            DarkCave::SetToggle => String::from_str("SetToggle"),
            DarkCave::SetToggle2 => String::from_str("SetToggle2"),
            DarkCave::Down1 => String::from_str("Down1"),
            DarkCave::Down2 => String::from_str("Down2"),
            DarkCave::Right => String::from_str("Right"),
            DarkCave::Smash => String::from_str("Smash"),
            DarkCave::Smash2 => String::from_str("Smash2"),
            DarkCave::Smash3 => String::from_str("Smash3"),
            DarkCave::B1 => String::from_str("B1"),
            DarkCave::B2 => String::from_str("B2"),
            DarkCave::StartTimer => String::from_str("StartTimer"),
            DarkCave::CheckEncounter => String::from_str("CheckEncounter"),
            DarkCave::BranchEncounter => String::from_str("BranchEncounter"),
            DarkCave::Entering => String::from_str("Entering"),
        }
    }
}
/// A single waiting state.
#[derive(Clone, Copy, Debug, PartialEq, Eq, Structural)]
pub enum DelayState {
    Delay,
}

impl StateTag for DelayState {
    open spec fn spec_tag_id(&self) -> u64 {
        match self {
            DelayState::Delay => 0,
        }
    }

    open spec fn spec_tag_name(&self) -> Seq<char> {
        match self {
            DelayState::Delay => "Delay"@,
        }
    }

    fn tag_id(&self) -> (r: u64) {
        match self {
            DelayState::Delay => 0,
        }
    }

    fn tag_name(&self) -> (r: String) {
        match self {
            DelayState::Delay => String::from_str("Delay"),
        }
    }
}
/// The states of the gift-collecting loops.
#[derive(Clone, Copy, Debug, PartialEq, Eq, Structural)]
pub enum LoopState {
    ResetCounter,
    PressA,
    PressARetry,
    DecrCounter,
    CheckCounter,
    CheckToggle,
    Wait,
    PressB,
    Toggle,
    ToggleBack,
    PressA2,
    Done,
}

impl StateTag for LoopState {
    open spec fn spec_tag_id(&self) -> u64 {
        match self {
            LoopState::ResetCounter => 0,
            LoopState::PressA => 1,
            LoopState::PressARetry => 2,
            LoopState::DecrCounter => 3,
            LoopState::CheckCounter => 4,
            LoopState::CheckToggle => 5,
            LoopState::Wait => 6,
            LoopState::PressB => 7,
            LoopState::Toggle => 8,
            LoopState::ToggleBack => 9,
            LoopState::PressA2 => 10,
            LoopState::Done => 11,
        }
    }

    open spec fn spec_tag_name(&self) -> Seq<char> {
        match self {
            LoopState::ResetCounter => "ResetCounter"@,
            LoopState::PressA => "PressA"@,
            LoopState::PressARetry => "PressARetry"@,
            LoopState::DecrCounter => "DecrCounter"@,
            LoopState::CheckCounter => "CheckCounter"@,
            LoopState::CheckToggle => "CheckToggle"@,
            LoopState::Wait => "Wait"@,
            LoopState::PressB => "PressB"@,
            LoopState::Toggle => "Toggle"@,
            LoopState::ToggleBack => "ToggleBack"@,
            LoopState::PressA2 => "PressA2"@,
            LoopState::Done => "Done"@,
        }
    }

    fn tag_id(&self) -> (r: u64) {
        match self {
            LoopState::ResetCounter => 0,
            LoopState::PressA => 1,
            LoopState::PressARetry => 2,
            LoopState::DecrCounter => 3,
            LoopState::CheckCounter => 4,
            LoopState::CheckToggle => 5,
            LoopState::Wait => 6,
            LoopState::PressB => 7,
            LoopState::Toggle => 8,
            LoopState::ToggleBack => 9,
            LoopState::PressA2 => 10,
            LoopState::Done => 11,
        }
    }

    fn tag_name(&self) -> (r: String) {
        match self {
            LoopState::ResetCounter => String::from_str("ResetCounter"),
            LoopState::PressA => String::from_str("PressA"),
            LoopState::PressARetry => String::from_str("PressARetry"),
            LoopState::DecrCounter => String::from_str("DecrCounter"),
            LoopState::CheckCounter => String::from_str("CheckCounter"),
            LoopState::CheckToggle => String::from_str("CheckToggle"),
            LoopState::Wait => String::from_str("Wait"),
            LoopState::PressB => String::from_str("PressB"),
            LoopState::Toggle => String::from_str("Toggle"),
            LoopState::ToggleBack => String::from_str("ToggleBack"),
            LoopState::PressA2 => String::from_str("PressA2"),
            LoopState::Done => String::from_str("Done"),
        }
    }
}
/// The states of fishing until a Pokemon is hooked.
#[derive(Clone, Copy, Debug, PartialEq, Eq, Structural)]
pub enum FishingStates {
    TryFish,
    WaitFishActive,
    ShouldPressA,
    Delay,
    PressA,
    CheckOnHook,
    CheckNoNibble,
    NoNibble,
    ToStart,
    StartEncounter,
    WaitEncounterReady,
    ToDetect,
}

impl StateTag for FishingStates {
    open spec fn spec_tag_id(&self) -> u64 {
        match self {
            FishingStates::TryFish => 0,
            FishingStates::WaitFishActive => 1,
            FishingStates::ShouldPressA => 2,
            FishingStates::Delay => 3,
            FishingStates::PressA => 4,
            FishingStates::CheckOnHook => 5,
            FishingStates::CheckNoNibble => 6,
            FishingStates::NoNibble => 7,
            FishingStates::ToStart => 8,
            FishingStates::StartEncounter => 9,
            FishingStates::WaitEncounterReady => 10,
            FishingStates::ToDetect => 11,
        }
    }

    open spec fn spec_tag_name(&self) -> Seq<char> {
        match self {
            FishingStates::TryFish => "TryFish"@,
            FishingStates::WaitFishActive => "WaitFishActive"@,
            FishingStates::ShouldPressA => "ShouldPressA"@,
            FishingStates::Delay => "Delay"@,
            FishingStates::PressA => "PressA"@,
            FishingStates::CheckOnHook => "CheckOnHook"@,
            FishingStates::CheckNoNibble => "CheckNoNibble"@,
            FishingStates::NoNibble => "NoNibble"@,
            FishingStates::ToStart => "ToStart"@,
            FishingStates::StartEncounter => "StartEncounter"@,
            FishingStates::WaitEncounterReady => "WaitEncounterReady"@,
            FishingStates::ToDetect => "ToDetect"@,
        }
    }

    fn tag_id(&self) -> (r: u64) {
        match self {
            FishingStates::TryFish => 0,
            FishingStates::WaitFishActive => 1,
            FishingStates::ShouldPressA => 2,
            FishingStates::Delay => 3,
            FishingStates::PressA => 4,
            FishingStates::CheckOnHook => 5,
            FishingStates::CheckNoNibble => 6,
            FishingStates::NoNibble => 7,
            FishingStates::ToStart => 8,
            FishingStates::StartEncounter => 9,
            FishingStates::WaitEncounterReady => 10,
            FishingStates::ToDetect => 11,
        }
    }

    fn tag_name(&self) -> (r: String) {
        match self {
            FishingStates::TryFish => String::from_str("TryFish"),
            FishingStates::WaitFishActive => String::from_str("WaitFishActive"),
            FishingStates::ShouldPressA => String::from_str("ShouldPressA"),
            FishingStates::Delay => String::from_str("Delay"),
            FishingStates::PressA => String::from_str("PressA"),
            FishingStates::CheckOnHook => String::from_str("CheckOnHook"),
            FishingStates::CheckNoNibble => String::from_str("CheckNoNibble"),
            FishingStates::NoNibble => String::from_str("NoNibble"),
            FishingStates::ToStart => String::from_str("ToStart"),
            FishingStates::StartEncounter => String::from_str("StartEncounter"),
            FishingStates::WaitEncounterReady => String::from_str("WaitEncounterReady"),
            FishingStates::ToDetect => String::from_str("ToDetect"),
        }
    }
}
/// The states of the utility routines.
#[derive(Clone, Copy, Debug, PartialEq, Eq, Structural)]
pub enum UtilityState {
    Init,
    StartTimer,
    UpdateTimer,
    CheckTimer,
    Up,
    Down,
    Left,
    Right,
    Entering,
    DownTo,
    Wait,
    UpToBattle,
    AToBattle,
    Down1,
    Down2,
    AForHappy,
    AForBall,
    Wait2,
    AToBattle2,
    RightToPay,
    AForPay,
    Wait3,
    IncrCounter,
    CheckCounter,
    Notify,
    Done,
}

impl StateTag for UtilityState {
    open spec fn spec_tag_id(&self) -> u64 {
        match self {
            UtilityState::Init => 0,
            UtilityState::StartTimer => 1,
            UtilityState::UpdateTimer => 2,
            UtilityState::CheckTimer => 3,
            UtilityState::Up => 4,
            UtilityState::Down => 5,
            UtilityState::Left => 6,
            UtilityState::Right => 7,
            UtilityState::Entering => 8,
            UtilityState::DownTo => 9,
            UtilityState::Wait => 10,
            UtilityState::UpToBattle => 11,
            UtilityState::AToBattle => 12,
            UtilityState::Down1 => 13,
            UtilityState::Down2 => 14,
            UtilityState::AForHappy => 15,
            UtilityState::AForBall => 16,
            UtilityState::Wait2 => 17,
            UtilityState::AToBattle2 => 18,
            UtilityState::RightToPay => 19,
            UtilityState::AForPay => 20,
            UtilityState::Wait3 => 21,
            UtilityState::IncrCounter => 22,
            UtilityState::CheckCounter => 23,
            UtilityState::Notify => 24,
            UtilityState::Done => 25,
        }
    }

    open spec fn spec_tag_name(&self) -> Seq<char> {
        match self {
            UtilityState::Init => "Init"@,
            UtilityState::StartTimer => "StartTimer"@,
            UtilityState::UpdateTimer => "UpdateTimer"@,
            UtilityState::CheckTimer => "CheckTimer"@,
            UtilityState::Up => "Up"@,
            UtilityState::Down => "Down"@,
            UtilityState::Left => "Left"@,
            UtilityState::Right => "Right"@,
            UtilityState::Entering => "Entering"@,
            UtilityState::DownTo => "DownTo"@,
            UtilityState::Wait => "Wait"@,
            UtilityState::UpToBattle => "UpToBattle"@,
            UtilityState::AToBattle => "AToBattle"@,
            UtilityState::Down1 => "Down1"@,
            UtilityState::Down2 => "Down2"@,
            UtilityState::AForHappy => "AForHappy"@,
            UtilityState::AForBall => "AForBall"@,
            UtilityState::Wait2 => "Wait2"@,
            UtilityState::AToBattle2 => "AToBattle2"@,
            UtilityState::RightToPay => "RightToPay"@,
            UtilityState::AForPay => "AForPay"@,
            UtilityState::Wait3 => "Wait3"@,
            UtilityState::IncrCounter => "IncrCounter"@,
            UtilityState::CheckCounter => "CheckCounter"@,
            UtilityState::Notify => "Notify"@,
            UtilityState::Done => "Done"@,
        }
    }

    fn tag_id(&self) -> (r: u64) {
        match self {
            UtilityState::Init => 0,
            UtilityState::StartTimer => 1,
            UtilityState::UpdateTimer => 2,
            UtilityState::CheckTimer => 3,
            UtilityState::Up => 4,
            UtilityState::Down => 5,
            UtilityState::Left => 6,
            UtilityState::Right => 7,
            UtilityState::Entering => 8,
            UtilityState::DownTo => 9,
            UtilityState::Wait => 10,
            UtilityState::UpToBattle => 11,
            UtilityState::AToBattle => 12,
            UtilityState::Down1 => 13,
            UtilityState::Down2 => 14,
            UtilityState::AForHappy => 15,
            UtilityState::AForBall => 16,
            UtilityState::Wait2 => 17,
            UtilityState::AToBattle2 => 18,
            UtilityState::RightToPay => 19,
            UtilityState::AForPay => 20,
            UtilityState::Wait3 => 21,
            UtilityState::IncrCounter => 22,
            UtilityState::CheckCounter => 23,
            UtilityState::Notify => 24,
            UtilityState::Done => 25,
        }
    }

    fn tag_name(&self) -> (r: String) {
        match self {
            UtilityState::Init => String::from_str("Init"),
            UtilityState::StartTimer => String::from_str("StartTimer"),
            UtilityState::UpdateTimer => String::from_str("UpdateTimer"),
            UtilityState::CheckTimer => String::from_str("CheckTimer"),
            UtilityState::Up => String::from_str("Up"),
            UtilityState::Down => String::from_str("Down"),
            UtilityState::Left => String::from_str("Left"),
            UtilityState::Right => String::from_str("Right"),
            UtilityState::Entering => String::from_str("Entering"),
            UtilityState::DownTo => String::from_str("DownTo"),
            UtilityState::Wait => String::from_str("Wait"),
            UtilityState::UpToBattle => String::from_str("UpToBattle"),
            UtilityState::AToBattle => String::from_str("AToBattle"),
            UtilityState::Down1 => String::from_str("Down1"),
            UtilityState::Down2 => String::from_str("Down2"),
            UtilityState::AForHappy => String::from_str("AForHappy"),
            UtilityState::AForBall => String::from_str("AForBall"),
            UtilityState::Wait2 => String::from_str("Wait2"),
            UtilityState::AToBattle2 => String::from_str("AToBattle2"),
            UtilityState::RightToPay => String::from_str("RightToPay"),
            UtilityState::AForPay => String::from_str("AForPay"),
            UtilityState::Wait3 => String::from_str("Wait3"),
            UtilityState::IncrCounter => String::from_str("IncrCounter"),
            UtilityState::CheckCounter => String::from_str("CheckCounter"),
            UtilityState::Notify => String::from_str("Notify"),
            UtilityState::Done => String::from_str("Done"),
        }
    }
}

/// A press of `button` for a tenth of a second.
pub open spec fn press(button: Button) -> HuntStateOutput {
    HuntStateOutput { button, delay: Delay::Tenth }
}

/// A press of `button` for `delay`.
pub open spec fn hold(button: Button, delay: Delay) -> HuntStateOutput {
    HuntStateOutput { button, delay }
}

/// The soft-reset chord L+R+Start+Select, each held for `delay`.
pub open spec fn reset_lr(delay: Delay) -> Seq<HuntStateOutput> {
    seq![hold(Button::L, delay), hold(Button::R, delay), hold(Button::Start, delay), hold(Button::Select, delay)]
}

/// The soft-reset chord A+B+Start+Select, each held for `delay`.
pub open spec fn reset_ab(delay: Delay) -> Seq<HuntStateOutput> {
    seq![hold(Button::A, delay), hold(Button::B, delay), hold(Button::Start, delay), hold(Button::Select, delay)]
}

pub(crate) fn reset_lr_buttons(delay: Delay) -> (r: Vec<HuntStateOutput>)
    ensures
        r@ == reset_lr(delay),
{
    let r = vec![
        HuntStateOutput::new(Button::L, delay),
        HuntStateOutput::new(Button::R, delay),
        HuntStateOutput::new(Button::Start, delay),
        HuntStateOutput::new(Button::Select, delay),
    ];
    assert(r@ =~= reset_lr(delay));
    r
}

pub(crate) fn reset_ab_buttons(delay: Delay) -> (r: Vec<HuntStateOutput>)
    ensures
        r@ == reset_ab(delay),
{
    let r = vec![
        HuntStateOutput::new(Button::A, delay),
        HuntStateOutput::new(Button::B, delay),
        HuntStateOutput::new(Button::Start, delay),
        HuntStateOutput::new(Button::Select, delay),
    ];
    assert(r@ =~= reset_ab(delay));
    r
}

pub(crate) fn one(button: Button) -> (r: Vec<HuntStateOutput>)
    ensures
        r@ == seq![press(button)],
{
    let r = vec![HuntStateOutput::button(button)];
    assert(r@ =~= seq![press(button)]);
    r
}

pub(crate) fn one_held(button: Button, delay: Delay) -> (r: Vec<HuntStateOutput>)
    ensures
        r@ == seq![hold(button, delay)],
{
    let r = vec![HuntStateOutput::new(button, delay)];
    assert(r@ =~= seq![hold(button, delay)]);
    r
}

/// The Dark Cave fragment: alternate two paths, smash the rock, and wait for the screen to go black.
pub open spec fn dark_cave_descs() -> Seq<DescView> {
    seq![
        linear_desc(DarkCave::Start, seq![], 0, 0),
        fork_desc(DarkCave::CheckToggle, DarkCave::Second, CheckView::ToggleSet, DarkCave::First, CheckView::ToggleClear),
        linear_desc(DarkCave::First, seq![], 0, 0),
        linear_desc(DarkCave::SoftReset, reset_lr(Delay::Tenth), 7500, 8000),
        linear_desc(DarkCave::Title1, seq![press(Button::A)], 4000, 4250),
        linear_desc(DarkCave::Title2, seq![press(Button::A)], 4500, 4750),
        linear_desc(DarkCave::Title3, seq![press(Button::A)], 3500, 3750),
        linear_desc(DarkCave::Title4, seq![press(Button::A)], 3000, 3250),
        step_desc(DarkCave::SetToggle, DarkCave::Smash, CheckView::Toggle),
        linear_desc(DarkCave::Second, seq![], 0, 0),
        linear_desc(DarkCave::B1, seq![hold(Button::B, Delay::Tenth)], 2500, 2500),
        linear_desc(DarkCave::B2, seq![hold(Button::B, Delay::Tenth)], 2500, 2500),
        linear_desc(DarkCave::Down1, seq![hold(Button::Down, Delay::Tenth)], 250, 250),
        linear_desc(DarkCave::Down2, seq![hold(Button::Down, Delay::Tenth)], 250, 250),
        linear_desc(DarkCave::Right, seq![hold(Button::Right, Delay::Tenth)], 250, 250),
        step_desc(DarkCave::SetToggle2, DarkCave::Smash, CheckView::Toggle),
        linear_desc(DarkCave::Smash, seq![hold(Button::A, Delay::Tenth)], 2000, 2000),
        linear_desc(DarkCave::Smash2, seq![hold(Button::A, Delay::Tenth)], 2000, 2000),
        linear_desc(DarkCave::Smash3, seq![hold(Button::A, Delay::Tenth)], 2000, 2000),
        step_desc(DarkCave::StartTimer, DarkCave::CheckEncounter, CheckView::StartTimer),
        process_desc(DarkCave::CheckEncounter, DarkCave::Entering, DarkCave::BranchEncounter, hgss_black_screen(), false, false, seq![], 0, 0),
        fork_desc(DarkCave::BranchEncounter, DarkCave::Start, CheckView::ElapsedOver(8000), DarkCave::CheckEncounter, CheckView::ElapsedNotOver(8000)),
        linear_desc(DarkCave::Entering, seq![], 0, 0),
    ]
}

/// The soft reset before a gift on FireRed / LeafGreen.
pub open spec fn gift_reset_frlg() -> Seq<DescView> {
    seq![
        linear_desc(SoftResetProcess::SoftReset, reset_ab(Delay::Tenth), 3750, 3750),
        linear_desc(SoftResetProcess::Title1, seq![press(Button::A)], 5000, 5000),
        linear_desc(SoftResetProcess::Title2, seq![press(Button::A)], 3750, 3750),
        linear_desc(SoftResetProcess::Title3, seq![press(Button::A)], 2500, 2500),
        linear_desc(SoftResetProcess::SkipMemory, seq![press(Button::B)], 3000, 3500),
    ]
}

/// The soft reset before a gift on Ruby / Sapphire.
pub open spec fn gift_reset_rs() -> Seq<DescView> {
    seq![
        linear_desc(SoftResetProcess::SoftReset, reset_ab(Delay::Tenth), 3750, 3750),
        linear_desc(SoftResetProcess::Title1, seq![press(Button::A)], 5000, 5000),
        linear_desc(SoftResetProcess::Title2, seq![press(Button::A)], 3750, 3750),
        linear_desc(SoftResetProcess::Title3, seq![press(Button::A)], 2500, 2500),
        linear_desc(SoftResetProcess::Title4, seq![press(Button::A)], 2000, 2500),
    ]
}

/// A random wait of 5 to 15 s.
pub open spec fn gift_delay() -> Seq<DescView> {
    seq![
        linear_desc(DelayState::Delay, seq![], 5000, 15000),
    ]
}

/// Taking Beldum or a revived fossil.
pub open spec fn gift_fossil() -> Seq<DescView> {
    seq![
        linear_desc(StartSoftResetEncounter::Press1, seq![press(Button::A)], 1000, 5500),
        linear_desc(StartSoftResetEncounter::Press2, seq![press(Button::A)], 750, 1250),
        linear_desc(StartSoftResetEncounter::Press3, seq![press(Button::A)], 1000, 1500),
        linear_desc(StartSoftResetEncounter::Press4, seq![press(Button::A)], 5000, 5000),
        linear_desc(StartSoftResetEncounter::Press5, seq![press(Button::B)], 1000, 1000),
    ]
}

/// Taking Lapras: seven presses of A, then once more after B.
pub open spec fn gift_lapras() -> Seq<DescView> {
    seq![
        step_desc(LoopState::ResetCounter, LoopState::PressA, CheckView::SetCounter(7)),
        linear_desc(LoopState::PressA, seq![press(Button::A)], 2000, 2500),
        step_desc(LoopState::DecrCounter, LoopState::CheckCounter, CheckView::DecrCounter),
        fork_desc(LoopState::CheckCounter, LoopState::Wait, CheckView::CounterEq(0), LoopState::PressA, CheckView::CounterNe(0)),
        linear_desc(LoopState::Wait, seq![], 2000, 2500),
        fork_desc(LoopState::CheckToggle, LoopState::ToggleBack, CheckView::ToggleSet, LoopState::PressB, CheckView::ToggleClear),
        linear_desc(LoopState::PressB, seq![press(Button::B)], 1000, 1500),
        step_desc(LoopState::Toggle, LoopState::ResetCounter, CheckView::Toggle),
        step_desc(LoopState::ToggleBack, LoopState::Done, CheckView::Toggle),
        linear_desc(LoopState::Done, seq![], 0, 0),
    ]
}

/// Taking Eevee.
pub open spec fn gift_eevee() -> Seq<DescView> {
    seq![
        linear_desc(LoopState::PressA, seq![press(Button::A)], 2000, 2500),
        linear_desc(LoopState::PressB, seq![press(Button::B)], 2000, 2500),
    ]
}

/// Taking Hitmonlee or Hitmonchan.
pub open spec fn gift_hitmon() -> Seq<DescView> {
    seq![
        linear_desc(LoopState::PressA, seq![press(Button::A)], 2000, 2500),
        linear_desc(LoopState::PressA2, seq![press(Button::A)], 2500, 3000),
        linear_desc(LoopState::PressB, seq![press(Button::B)], 2000, 2500),
    ]
}

/// The soft reset before a static encounter on FireRed / LeafGreen.
pub open spec fn static_reset_frlg() -> Seq<DescView> {
    seq![
        linear_desc(SoftResetProcess::SoftReset, reset_ab(Delay::Tenth), 3750, 4250),
        linear_desc(SoftResetProcess::Title1, seq![press(Button::A)], 5000, 5500),
        linear_desc(SoftResetProcess::Title2, seq![press(Button::A)], 3750, 4250),
        linear_desc(SoftResetProcess::Title3, seq![press(Button::A)], 2500, 3000),
        linear_desc(SoftResetProcess::SkipMemory, seq![press(Button::B)], 3000, 3500),
    ]
}

/// Playing the Poke Flute to Snorlax.
pub open spec fn static_snorlax() -> Seq<DescView> {
    seq![
        linear_desc(StartSoftResetEncounter::Press1, seq![press(Button::A)], 1000, 1500),
        linear_desc(StartSoftResetEncounter::Press2, seq![press(Button::A)], 9000, 9250),
        linear_desc(StartSoftResetEncounter::Press3, seq![press(Button::A)], 1000, 1500),
        linear_desc(StartSoftResetEncounter::Press4, seq![press(Button::A)], 0, 0),
        process_desc(StartSoftResetEncounter::IsEntering, StartSoftResetEncounter::Entering, StartSoftResetEncounter::IsEntering, frlg_start_encounter(), false, false, seq![], 0, 0),
        linear_desc(StartSoftResetEncounter::Entering, seq![], 0, 0),
    ]
}

/// Speaking to a legendary bird or Mewtwo, waiting `hold_ms` ms after the first press.
pub open spec fn static_legend(hold_ms: u64) -> Seq<DescView> {
    seq![
        linear_desc(StartSoftResetEncounter::Delay, seq![], 2500, 15000),
        linear_desc(StartSoftResetEncounter::Press1, seq![press(Button::A)], hold_ms, hold_ms),
        linear_desc(StartSoftResetEncounter::Press2, seq![press(Button::A)], 0, 0),
        process_desc(StartSoftResetEncounter::IsEntering, StartSoftResetEncounter::Entering, StartSoftResetEncounter::IsEntering, frlg_start_encounter(), false, false, seq![], 0, 0),
        linear_desc(StartSoftResetEncounter::Entering, seq![], 0, 0),
    ]
}

/// The Lostelle Hypno encounter.
pub open spec fn static_hypno() -> Seq<DescView> {
    seq![
        linear_desc(StartSoftResetEncounter::Delay, seq![], 5000, 25000),
        linear_desc(StartSoftResetEncounter::Press1, seq![press(Button::A)], 1000, 1500),
        linear_desc(StartSoftResetEncounter::Press2, seq![press(Button::A)], 1000, 1500),
        linear_desc(StartSoftResetEncounter::Press3, seq![press(Button::A)], 1000, 1500),
        linear_desc(StartSoftResetEncounter::Press4, seq![press(Button::A)], 1000, 1500),
        linear_desc(StartSoftResetEncounter::Press5, seq![press(Button::A)], 2000, 2500),
        linear_desc(StartSoftResetEncounter::Press6, seq![press(Button::A)], 1000, 1500),
        linear_desc(StartSoftResetEncounter::Press7, seq![press(Button::A)], 0, 0),
        process_desc(StartSoftResetEncounter::IsEntering, StartSoftResetEncounter::Entering, StartSoftResetEncounter::IsEntering, frlg_start_encounter(), false, false, seq![], 0, 0),
        linear_desc(StartSoftResetEncounter::Entering, seq![], 0, 0),
    ]
}

/// The soft reset on Diamond / Pearl and HeartGold / SoulSilver.
pub open spec fn reset_gen4() -> Seq<DescView> {
    seq![
        linear_desc(SoftResetProcess::SoftReset, reset_lr(Delay::Half), 7500, 8000),
        linear_desc(SoftResetProcess::Title1, seq![press(Button::A)], 4000, 4250),
        linear_desc(SoftResetProcess::Title2, seq![press(Button::A)], 2500, 2750),
        linear_desc(SoftResetProcess::Title3, seq![press(Button::A)], 3500, 3750),
        linear_desc(SoftResetProcess::Title4, seq![press(Button::A)], 3000, 3250),
    ]
}

/// Taking a starter.
pub open spec fn gen4_starter() -> Seq<DescView> {
    seq![
        linear_desc(SoftResetProcess::GetGift, seq![press(Button::A)], 3500, 4500),
    ]
}

/// Mashing A at Spiritomb until the encounter starts.
pub open spec fn gen4_spiritomb() -> Seq<DescView> {
    seq![
        linear_desc(StartSoftResetEncounter::SkipMemory, seq![press(Button::Start)], 1500, 2000),
        linear_desc(StartSoftResetEncounter::Delay, seq![press(Button::B)], 1500, 2000),
        process_desc(StartSoftResetEncounter::Press1, StartSoftResetEncounter::IsEntering, StartSoftResetEncounter::Press2, dp_start_encounter(), false, false, seq![press(Button::A)], 100, 100),
        process_desc(StartSoftResetEncounter::Press2, StartSoftResetEncounter::IsEntering, StartSoftResetEncounter::Press1, dp_start_encounter(), false, false, seq![press(Button::A)], 100, 100),
        process_desc(StartSoftResetEncounter::IsEntering, StartSoftResetEncounter::Entering, StartSoftResetEncounter::IsEntering, dp_start_encounter(), false, false, seq![], 0, 0),
        linear_desc(StartSoftResetEncounter::Entering, seq![], 0, 0),
    ]
}

/// Mashing A at a legendary until the screen turns white.
pub open spec fn gen4_legend() -> Seq<DescView> {
    seq![
        linear_desc(StartSoftResetEncounter::SkipMemory, seq![press(Button::Start)], 500, 1000),
        linear_desc(StartSoftResetEncounter::Delay, seq![press(Button::B)], 500, 1000),
        process_desc(StartSoftResetEncounter::Press1, StartSoftResetEncounter::IsEntering, StartSoftResetEncounter::Press2, dp_start_encounter_white(), false, false, seq![press(Button::A)], 100, 100),
        process_desc(StartSoftResetEncounter::Press2, StartSoftResetEncounter::IsEntering, StartSoftResetEncounter::Press1, dp_start_encounter_white(), false, false, seq![press(Button::A)], 100, 100),
        process_desc(StartSoftResetEncounter::IsEntering, StartSoftResetEncounter::Entering, StartSoftResetEncounter::IsEntering, dp_start_encounter(), false, false, seq![], 0, 0),
        linear_desc(StartSoftResetEncounter::Entering, seq![], 0, 0),
    ]
}

/// Walking up and down, or left and right, until an encounter starts.
pub open spec fn walk_descs() -> Seq<DescView> {
    seq![
        fork_desc(TryGetEncounter::Init, TryGetEncounter::Up, CheckView::ToggleSet, TryGetEncounter::Left, CheckView::ToggleClear),
        process_desc(TryGetEncounter::Up, TryGetEncounter::Entering, TryGetEncounter::Down, frlg_start_encounter(), false, false, seq![hold(Button::Up, Delay::Tenth)], 75, 75),
        process_desc(TryGetEncounter::Down, TryGetEncounter::Entering, TryGetEncounter::Up, frlg_start_encounter(), false, false, seq![hold(Button::Down, Delay::Tenth)], 75, 75),
        process_desc(TryGetEncounter::Left, TryGetEncounter::Entering, TryGetEncounter::Right, frlg_start_encounter(), false, false, seq![hold(Button::Left, Delay::Tenth)], 75, 75),
        process_desc(TryGetEncounter::Right, TryGetEncounter::Entering, TryGetEncounter::Left, frlg_start_encounter(), false, false, seq![hold(Button::Right, Delay::Tenth)], 75, 75),
        linear_desc(TryGetEncounter::Entering, seq![], 0, 0),
    ]
}

/// Fishing with the registered rod until a Pokemon is hooked and the encounter starts.
pub open spec fn fishing_descs() -> Seq<DescView> {
    seq![
        linear_desc(FishingStates::TryFish, seq![press(Button::Select)], 100, 100),
        process_desc(FishingStates::WaitFishActive, FishingStates::ShouldPressA, FishingStates::WaitFishActive, rs_fishing_active(), false, false, seq![], 0, 0),
        process_desc(FishingStates::ShouldPressA, FishingStates::PressA, FishingStates::Delay, rs_fishing_bite(), false, false, seq![], 0, 0),
        linear_desc(FishingStates::PressA, seq![press(Button::A)], 500, 500),
        linear_desc(FishingStates::Delay, seq![], 50, 50),
        process_desc(FishingStates::CheckOnHook, FishingStates::StartEncounter, FishingStates::CheckNoNibble, rs_fishing_on_hook(), false, false, seq![], 0, 0),
        linear_desc(FishingStates::NoNibble, seq![press(Button::A)], 2500, 3500),
        wait_desc(FishingStates::ToStart, FishingStates::TryFish, 50, 50),
        process_desc(FishingStates::CheckNoNibble, FishingStates::NoNibble, FishingStates::ShouldPressA, rs_fishing_no_nibble(), false, false, seq![], 0, 0),
        linear_desc(FishingStates::StartEncounter, seq![press(Button::A)], 100, 100),
        process_desc(FishingStates::WaitEncounterReady, FishingStates::ToDetect, FishingStates::WaitEncounterReady, frlg_start_encounter(), false, false, seq![], 0, 0),
        linear_desc(FishingStates::ToDetect, seq![], 50, 50),
    ]
}

/// The soft reset on Ultra Sun / Ultra Moon.
pub open spec fn usum_reset() -> Seq<DescView> {
    seq![
        linear_desc(USUM::SoftReset1, reset_lr(Delay::Half), 50, 50),
        linear_desc(USUM::SoftReset2, reset_lr(Delay::Half), 11000, 12000),
        step_desc(USUM::AllowHeartbeat, USUM::Title1, CheckView::SetHeartbeat),
        linear_desc(USUM::Title1, seq![press(Button::A)], 2000, 2250),
        linear_desc(USUM::Title2, seq![press(Button::A)], 2500, 2750),
        linear_desc(USUM::Title3, seq![press(Button::A)], 2000, 2250),
        linear_desc(USUM::Title4, seq![press(Button::A)], 2500, 2750),
    ]
}

/// Walking into a static encounter with the circle pad.
pub open spec fn usum_walk() -> Seq<DescView> {
    seq![
        linear_desc(USUM::Circle1, seq![hold(Button::Circle(128, 250), Delay::Half)], 250, 250),
        linear_desc(USUM::Circle2, seq![hold(Button::Circle(128, 250), Delay::Half)], 250, 250),
        linear_desc(USUM::Circle3, seq![hold(Button::Circle(128, 250), Delay::Half)], 250, 250),
        linear_desc(USUM::Circle4, seq![hold(Button::Circle(128, 250), Delay::Half)], 4000, 4000),
    ]
}

/// Pressing A at a static encounter.
pub open spec fn usum_press() -> Seq<DescView> {
    seq![
        linear_desc(USUM::Circle1, seq![hold(Button::A, Delay::Half)], 250, 250),
        linear_desc(USUM::Circle2, seq![hold(Button::A, Delay::Half)], 250, 250),
    ]
}

/// Using Honey from the bag.
pub open spec fn usum_honey() -> Seq<DescView> {
    seq![
        linear_desc(USUMRandom::Wait, seq![], 5000, 12500),
        linear_desc(USUMRandom::XToMenu, seq![press(Button::X)], 1000, 1500),
        linear_desc(USUMRandom::Down, seq![press(Button::Down)], 500, 1000),
        linear_desc(USUMRandom::AToBag, seq![press(Button::A)], 1500, 2000),
        linear_desc(USUMRandom::Left1, seq![press(Button::Left)], 500, 1000),
        linear_desc(USUMRandom::Left2, seq![press(Button::Left)], 500, 1000),
        linear_desc(USUMRandom::Left3, seq![press(Button::Left)], 500, 1000),
        linear_desc(USUMRandom::AToHoney, seq![press(Button::A)], 500, 1000),
        linear_desc(USUMRandom::AToUse, seq![press(Button::A)], 500, 500),
    ]
}

/// The soft reset before a gift on Ultra Sun / Ultra Moon.
pub open spec fn usum_gift_reset() -> Seq<DescView> {
    seq![
        linear_desc(USUM::SoftReset1, reset_lr(Delay::Half), 50, 50),
        linear_desc(USUM::Clear1, seq![press(Button::Up)], 1000, 2000),
        linear_desc(USUM::Clear2, seq![press(Button::Up)], 1000, 2000),
        linear_desc(USUM::Clear3, seq![press(Button::Up)], 9000, 8000),
        step_desc(USUM::AllowHeartbeat, USUM::WaitHeartbeat, CheckView::SetHeartbeat),
        linear_desc(USUM::WaitHeartbeat, seq![], 2500, 2500),
        linear_desc(USUM::Title1, seq![press(Button::A)], 50, 50),
        linear_desc(USUM::Title2, seq![press(Button::A)], 2000, 2250),
        linear_desc(USUM::Title3, seq![press(Button::A)], 50, 50),
        linear_desc(USUM::Title4, seq![press(Button::A)], 2500, 12750),
    ]
}

/// Taking Poipole.
pub open spec fn usum_poipole() -> Seq<DescView> {
    seq![
        step_desc(LoopState::ResetCounter, LoopState::PressA, CheckView::SetCounter(5)),
        linear_desc(LoopState::PressA, seq![press(Button::A)], 50, 50),
        linear_desc(LoopState::PressARetry, seq![press(Button::A)], 2500, 2500),
        step_desc(LoopState::DecrCounter, LoopState::CheckCounter, CheckView::DecrCounter),
        fork_desc(LoopState::CheckCounter, LoopState::Wait, CheckView::CounterEq(0), LoopState::PressA, CheckView::CounterNe(0)),
        linear_desc(LoopState::Wait, seq![], 5000, 5000),
        linear_desc(LoopState::PressA2, seq![press(Button::A)], 3000, 3000),
        linear_desc(LoopState::Done, seq![], 0, 0),
    ]
}

/// Using Honey 64 times between soft resets.
pub open spec fn usum_random() -> Seq<DescView> {
    seq![
        fork_desc(USUMRandom::CheckCounter, USUMRandom::StopHeartbeat, CheckView::CounterEq(0), USUMRandom::XToMenu2, CheckView::CounterNe(0)),
        step_desc(USUMRandom::StopHeartbeat, USUMRandom::SetCounter, CheckView::ClearHeartbeat),
        step_desc(USUMRandom::SetCounter, USUMRandom::Wait, CheckView::SetCounter(64)),
        linear_desc(USUMRandom::Wait, seq![], 500, 1500),
        linear_desc(USUMRandom::SoftReset, reset_lr(Delay::Half), 50, 50),
        linear_desc(USUMRandom::Clear1, seq![press(Button::Up)], 1000, 2000),
        linear_desc(USUMRandom::Clear2, seq![press(Button::Up)], 1000, 2000),
        linear_desc(USUMRandom::Clear3, seq![press(Button::Up)], 9000, 8000),
        step_desc(USUMRandom::AllowHeartbeat, USUMRandom::WaitHeartbeat, CheckView::SetHeartbeat),
        linear_desc(USUMRandom::WaitHeartbeat, seq![], 2500, 2500),
        linear_desc(USUMRandom::Title1, seq![press(Button::A)], 50, 50),
        linear_desc(USUMRandom::Title2, seq![press(Button::A)], 2000, 2250),
        linear_desc(USUMRandom::Title3, seq![press(Button::A)], 50, 50),
        linear_desc(USUMRandom::Title4, seq![press(Button::A)], 5500, 12750),
        linear_desc(USUMRandom::XToMenu, seq![press(Button::X)], 1000, 1500),
        linear_desc(USUMRandom::Down, seq![press(Button::Down)], 500, 1000),
        linear_desc(USUMRandom::AToBag, seq![press(Button::A)], 1500, 2000),
        linear_desc(USUMRandom::Left1, seq![press(Button::Left)], 500, 1000),
        linear_desc(USUMRandom::Left2, seq![press(Button::Left)], 500, 1000),
        linear_desc(USUMRandom::Left3, seq![press(Button::Left)], 500, 1000),
        wait_desc(USUMRandom::Jump, USUMRandom::AToHoney, 50, 50),
        linear_desc(USUMRandom::XToMenu2, seq![press(Button::X)], 1000, 1500),
        linear_desc(USUMRandom::AToBag2, seq![press(Button::A)], 1500, 2000),
        linear_desc(USUMRandom::AToHoney, seq![press(Button::A)], 500, 1000),
        step_desc(USUMRandom::DecrCounter, USUMRandom::AToUse, CheckView::DecrCounter),
        linear_desc(USUMRandom::AToUse, seq![press(Button::A)], 500, 500),
    ]
}

/// Earning money with Happy Hour and Pay Day, twenty times.
pub open spec fn utility_money() -> Seq<DescView> {
    seq![
        linear_desc(UtilityState::Left, seq![press(Button::Left)], 750, 750),
        step_desc(UtilityState::StartTimer, UtilityState::Up, CheckView::StartTimer),
        linear_desc(UtilityState::Up, seq![press(Button::Up)], 750, 750),
        linear_desc(UtilityState::Down, seq![press(Button::Down)], 750, 750),
        step_desc(UtilityState::UpdateTimer, UtilityState::CheckTimer, CheckView::UpdateTimer),
        fork_desc(UtilityState::CheckTimer, UtilityState::Wait, CheckView::LastOver(8000), UtilityState::Up, CheckView::LastNotOver(8000)),
        linear_desc(UtilityState::Wait, seq![], 10000, 10000),
        linear_desc(UtilityState::UpToBattle, seq![press(Button::Up)], 1000, 1000),
        linear_desc(UtilityState::AToBattle, seq![press(Button::A)], 1000, 1000),
        linear_desc(UtilityState::AForHappy, seq![press(Button::A)], 1000, 1000),
        linear_desc(UtilityState::Wait2, seq![], 15000, 15000),
        linear_desc(UtilityState::AToBattle2, seq![press(Button::A)], 1000, 1000),
        linear_desc(UtilityState::RightToPay, seq![press(Button::Right)], 1000, 1000),
        linear_desc(UtilityState::AForPay, seq![press(Button::A)], 1000, 1000),
        linear_desc(UtilityState::Wait3, seq![press(Button::A)], 15000, 15000),
        step_desc(UtilityState::IncrCounter, UtilityState::CheckCounter, CheckView::IncrCounter),
        fork_desc(UtilityState::CheckCounter, UtilityState::Notify, CheckView::CounterEq(20), UtilityState::Left, CheckView::CounterNe(20)),
        step_desc(UtilityState::Notify, UtilityState::Done, CheckView::FoundTarget),
        step_desc(UtilityState::Done, UtilityState::Done, CheckView::Always),
    ]
}

/// Catching an encounter that is sure to be caught.
pub open spec fn utility_catch() -> Seq<DescView> {
    seq![
        linear_desc(UtilityState::Left, seq![press(Button::Left)], 750, 750),
        process_desc(UtilityState::Up, UtilityState::Entering, UtilityState::Down, ProcessingView::USUMBottomScreenInv(5), false, false, seq![press(Button::Up)], 750, 750),
        process_desc(UtilityState::Down, UtilityState::Entering, UtilityState::Up, ProcessingView::USUMBottomScreenInv(5), false, false, seq![press(Button::Down)], 750, 750),
        process_desc(UtilityState::Entering, UtilityState::Wait, UtilityState::Entering, ProcessingView::USUMBottomScreen(5), false, false, seq![], 0, 0),
        linear_desc(UtilityState::Wait, seq![], 1000, 1000),
        linear_desc(UtilityState::UpToBattle, seq![press(Button::Down)], 1000, 1000),
        linear_desc(UtilityState::AToBattle, seq![press(Button::A)], 1000, 1000),
        linear_desc(UtilityState::Down1, seq![press(Button::Down)], 1000, 1000),
        linear_desc(UtilityState::Down2, seq![press(Button::Down)], 1000, 1000),
        linear_desc(UtilityState::AForHappy, seq![press(Button::A)], 1000, 1000),
        linear_desc(UtilityState::AForBall, seq![press(Button::A)], 1000, 1000),
        linear_desc(UtilityState::Wait2, seq![], 22000, 22000),
        linear_desc(UtilityState::AToBattle2, seq![press(Button::B)], 3000, 3000),
        linear_desc(UtilityState::RightToPay, seq![press(Button::B)], 3000, 3000),
        step_desc(UtilityState::AForPay, UtilityState::Wait3, CheckView::IncrEncounter),
        linear_desc(UtilityState::Wait3, seq![press(Button::A)], 1000, 1000),
    ]
}

/// The fragments added for a gift on generation 3, when there is a sequence
/// for the species.
pub open spec fn gen3_softreset_gift_plan(game: Game, target: u32) -> Option<Seq<Seq<DescView>>> {
    let head = if game == Game::FireRedLeafGreen {
        seq![gift_reset_frlg(), gift_delay()]
    } else {
        seq![gift_reset_rs()]
    };
    if target == 374 || target == 138 || target == 140 || target == 142 {
        Some(head.push(gift_fossil()))
    } else if target == 131 {
        Some(head.push(gift_lapras()))
    } else if target == 133 {
        Some(head.push(gift_eevee()))
    } else if target == 106 || target == 107 {
        Some(head.push(gift_hitmon()))
    } else {
        None
    }
}

/// The fragments added for a static encounter on FireRed / LeafGreen, when
/// there is a sequence for the species.
pub open spec fn gen3_softreset_plan(target: u32) -> Option<Seq<Seq<DescView>>> {
    if target == 143 {
        Some(seq![static_reset_frlg(), static_snorlax()])
    } else if (144 <= target && target <= 146) || target == 150 {
        Some(seq![static_reset_frlg(), static_legend(if target == 150 { 2000 } else { 1500 })])
    } else if target == 97 {
        Some(seq![static_reset_frlg(), static_hypno()])
    } else {
        None
    }
}

/// The fragments added for a soft reset on generation 4, when there is a
/// sequence for the species.
pub open spec fn gen4_softreset_plan(target: u32) -> Option<Seq<Seq<DescView>>> {
    if target == 152 || target == 155 || target == 158 {
        Some(seq![reset_gen4(), gen4_starter()])
    } else if target == 442 {
        Some(seq![reset_gen4(), gen4_spiritomb()])
    } else if target == 486 || target == 487 {
        Some(seq![reset_gen4(), gen4_legend()])
    } else {
        None
    }
}

/// The fragments added for a static encounter on Ultra Sun / Ultra Moon.
pub open spec fn gen7_softreset_plan(target: u32) -> Option<Seq<Seq<DescView>>> {
    if target == 797 || target == 799 {
        Some(seq![usum_reset(), usum_press()])
    } else if target == 806 {
        Some(seq![usum_reset(), usum_honey()])
    } else {
        Some(seq![usum_reset(), usum_walk()])
    }
}

/// The fragments added for a gift on Ultra Sun / Ultra Moon, when there is a
/// sequence for the species.
pub open spec fn gen7_softreset_gift_plan(target: u32) -> Option<Seq<Seq<DescView>>> {
    if target == 803 { Some(seq![usum_gift_reset(), usum_poipole()]) } else { None }
}

/// The fragments added for a utility routine, when there is one with that
/// number.
pub open spec fn utility_plan(target: u32) -> Option<Seq<Seq<DescView>>> {
    if target == 1 {
        Some(seq![utility_money()])
    } else if target == 2 {
        Some(seq![utility_catch()])
    } else {
        None
    }
}

/// The fragment of a random encounter on Ruby / Sapphire: Wailmer (320) is
/// fished for, the others are met by walking.
pub open spec fn rs_random_plan(target: u32) -> Seq<Seq<DescView>> {
    if target == 320 { seq![fishing_descs()] } else { seq![walk_descs()] }
}

/// The fragments that get a hunt into its encounter, when the hunt is
/// supported.
pub open spec fn encounter_plan(b: BaseHunt) -> Option<Seq<Seq<DescView>>> {
    let g = b.game;
    let m = b.method;
    let t = b.target;
    if g == Game::FireRedLeafGreen && m == Method::RandomEncounter {
        Some(seq![walk_descs()])
    } else if g == Game::RubySapphire && m == Method::RandomEncounter {
        Some(rs_random_plan(t))
    } else if g == Game::FireRedLeafGreen && m == Method::SoftResetEncounter {
        gen3_softreset_plan(t)
    } else if (g == Game::RubySapphire || g == Game::FireRedLeafGreen) && m == Method::SoftResetGift {
        gen3_softreset_gift_plan(g, t)
    } else if (g == Game::HeartGoldSoulSilver && m == Method::SoftResetGift) || (g == Game::DiamondPearl
        && m == Method::SoftResetEncounter) {
        gen4_softreset_plan(t)
    } else if g == Game::UltraSunUltraMoon && m == Method::SoftResetEncounter {
        gen7_softreset_plan(t)
    } else if g == Game::UltraSunUltraMoon && m == Method::SoftResetGift {
        gen7_softreset_gift_plan(t)
    } else if g == Game::UltraSunUltraMoon && m == Method::RandomEncounter {
        Some(seq![usum_random()])
    } else if g == Game::HeartGoldSoulSilver && m == Method::SoftResetEncounter && t == 206 {
        Some(seq![dark_cave_descs()])
    } else if m == Method::Utility {
        utility_plan(t)
    } else {
        None
    }
}

/// Adds the states that get a hunt into its encounter.
pub struct EncounterTypeResolver {}

impl EncounterTypeResolver {
    /// Adds the encounter states of the builder's hunt; `None` when the hunt
    /// is not supported.
    pub fn add_states(builder: HuntFSMBuilder) -> (r: Option<HuntFSMBuilder>)
        requires
            builder.wf(),
        ensures
            resolved(r, builder, encounter_plan(builder.base_view())),
    {
        let g = *builder.game();
        let m = *builder.method();
        if g == Game::FireRedLeafGreen && m == Method::RandomEncounter {
            Some(Self::frlg_random(builder))
        } else if g == Game::RubySapphire && m == Method::RandomEncounter {
            Some(Self::rs_random(builder))
        } else if g == Game::FireRedLeafGreen && m == Method::SoftResetEncounter {
            Self::gen3_softreset(builder)
        } else if (g == Game::RubySapphire || g == Game::FireRedLeafGreen) && m == Method::SoftResetGift {
            Self::gen3_softreset_gift(builder)
        } else if (g == Game::HeartGoldSoulSilver && m == Method::SoftResetGift) || (g == Game::DiamondPearl
            && m == Method::SoftResetEncounter) {
            Self::gen4_softreset(builder)
        } else if g == Game::UltraSunUltraMoon && m == Method::SoftResetEncounter {
            Self::gen7_softreset(builder)
        } else if g == Game::UltraSunUltraMoon && m == Method::SoftResetGift {
            Self::gen7_softreset_gift(builder)
        } else if g == Game::UltraSunUltraMoon && m == Method::RandomEncounter {
            Self::gen7_random_encounter(builder)
        } else if g == Game::HeartGoldSoulSilver && m == Method::SoftResetEncounter && builder.target() == 206 {
            Some(Self::hgss_darkcave(builder))
        } else if m == Method::Utility {
            Self::utility(builder)
        } else {
            None
        }
    }

    /// Adds the Dark Cave fragment.
    pub fn hgss_darkcave(builder: HuntFSMBuilder) -> (r: HuntFSMBuilder)
        requires
            builder.wf(),
        ensures
            extended(r, builder, seq![dark_cave_descs()]),
    {
        let ghost b0 = builder;
        let mut builder = builder;
            let states = vec![
                StateDescription::linear_state_no_delay(DarkCave::Start, vec![]),
                StateDescription::choose_toggle_state(DarkCave::CheckToggle, DarkCave::Second, DarkCave::First),
                StateDescription::linear_state_no_delay(DarkCave::First, vec![]),
                StateDescription::linear_state(DarkCave::SoftReset, reset_lr_buttons(Delay::Tenth), 7500..8000),
                StateDescription::linear_state(DarkCave::Title1, one(Button::A), 4000..4250),
                StateDescription::linear_state(DarkCave::Title2, one(Button::A), 4500..4750),
                StateDescription::linear_state(DarkCave::Title3, one(Button::A), 3500..3750),
                StateDescription::linear_state(DarkCave::Title4, one(Button::A), 3000..3250),
                StateDescription::toggle_state(DarkCave::SetToggle, DarkCave::Smash),
                StateDescription::linear_state_no_delay(DarkCave::Second, vec![]),
                StateDescription::linear_state(DarkCave::B1, one_held(Button::B, Delay::Tenth), 2500..2500),
                StateDescription::linear_state(DarkCave::B2, one_held(Button::B, Delay::Tenth), 2500..2500),
                StateDescription::linear_state(DarkCave::Down1, one_held(Button::Down, Delay::Tenth), 250..250),
                StateDescription::linear_state(DarkCave::Down2, one_held(Button::Down, Delay::Tenth), 250..250),
                StateDescription::linear_state(DarkCave::Right, one_held(Button::Right, Delay::Tenth), 250..250),
                StateDescription::toggle_state(DarkCave::SetToggle2, DarkCave::Smash),
                StateDescription::linear_state(DarkCave::Smash, one_held(Button::A, Delay::Tenth), 2000..2000),
                StateDescription::linear_state(DarkCave::Smash2, one_held(Button::A, Delay::Tenth), 2000..2000),
                StateDescription::linear_state(DarkCave::Smash3, one_held(Button::A, Delay::Tenth), 2000..2000),
                StateDescription::start_timer_state(DarkCave::StartTimer, DarkCave::CheckEncounter),
                StateDescription::simple_process_state_no_output3(Branch3::new(DarkCave::CheckEncounter, DarkCave::Entering, DarkCave::BranchEncounter), Processing::HGSS_BLACK_SCREEN()),
                StateDescription::branch_delay_state(Branch3::new(DarkCave::BranchEncounter, DarkCave::Start, DarkCave::CheckEncounter), 8000),
                StateDescription::linear_state_no_delay(DarkCave::Entering, vec![]),
            ];
            proof {
                assert(states@.map_values(|d: StateDescription<DarkCave>| d.view_desc()) =~= dark_cave_descs());
                reveal_with_fuel(tag_in, 24);
                reveal_with_fuel(tags_distinct_from, 24);
                reveal_with_fuel(targets_in, 3);
                reveal_with_fuel(checks_in_from, 24);
                assert(fragment_ok_rec(dark_cave_descs()));
                lemma_fragment_ok(dark_cave_descs());
            }
            builder.add_states(states);
        assert(builder.fragments_view() =~= b0.fragments_view() + fragments_of(seq![dark_cave_descs()]));
        builder
    }

    /// Adds the soft reset and the gift sequence of a generation 3 gift;
    /// `None` when there is no sequence for the species.
    pub fn gen3_softreset_gift(builder: HuntFSMBuilder) -> (r: Option<HuntFSMBuilder>)
        requires
            builder.wf(),
        ensures
            resolved(r, builder, gen3_softreset_gift_plan(builder.base_view().game, builder.base_view().target)),
    {
        let ghost b0 = builder;
        let mut builder = builder;
        let frlg = *builder.game() == Game::FireRedLeafGreen;
        if frlg {
            let states = vec![
                StateDescription::linear_state(SoftResetProcess::SoftReset, reset_ab_buttons(Delay::Tenth), 3750..3750),
                StateDescription::linear_state(SoftResetProcess::Title1, one(Button::A), 5000..5000),
                StateDescription::linear_state(SoftResetProcess::Title2, one(Button::A), 3750..3750),
                StateDescription::linear_state(SoftResetProcess::Title3, one(Button::A), 2500..2500),
                StateDescription::linear_state(SoftResetProcess::SkipMemory, one(Button::B), 3000..3500),
            ];
            proof {
                assert(states@.map_values(|d: StateDescription<SoftResetProcess>| d.view_desc()) =~= gift_reset_frlg());
                reveal_with_fuel(tag_in, 6);
                reveal_with_fuel(tags_distinct_from, 6);
                reveal_with_fuel(targets_in, 3);
                reveal_with_fuel(checks_in_from, 6);
                assert(fragment_ok_rec(gift_reset_frlg()));
                lemma_fragment_ok(gift_reset_frlg());
            }
            builder.add_states(states);
            let states = vec![
                StateDescription::linear_state(DelayState::Delay, vec![], 5000..15000),
            ];
            proof {
                assert(states@.map_values(|d: StateDescription<DelayState>| d.view_desc()) =~= gift_delay());
                reveal_with_fuel(tag_in, 2);
                reveal_with_fuel(tags_distinct_from, 2);
                reveal_with_fuel(targets_in, 3);
                reveal_with_fuel(checks_in_from, 2);
                assert(fragment_ok_rec(gift_delay()));
                lemma_fragment_ok(gift_delay());
            }
            builder.add_states(states);
        } else {
            let states = vec![
                StateDescription::linear_state(SoftResetProcess::SoftReset, reset_ab_buttons(Delay::Tenth), 3750..3750),
                StateDescription::linear_state(SoftResetProcess::Title1, one(Button::A), 5000..5000),
                StateDescription::linear_state(SoftResetProcess::Title2, one(Button::A), 3750..3750),
                StateDescription::linear_state(SoftResetProcess::Title3, one(Button::A), 2500..2500),
                StateDescription::linear_state(SoftResetProcess::Title4, one(Button::A), 2000..2500),
            ];
            proof {
                assert(states@.map_values(|d: StateDescription<SoftResetProcess>| d.view_desc()) =~= gift_reset_rs());
                reveal_with_fuel(tag_in, 6);
                reveal_with_fuel(tags_distinct_from, 6);
                reveal_with_fuel(targets_in, 3);
                reveal_with_fuel(checks_in_from, 6);
                assert(fragment_ok_rec(gift_reset_rs()));
                lemma_fragment_ok(gift_reset_rs());
            }
            builder.add_states(states);
        }
        let ghost head = builder.fragments_view();
        let target: u32 = builder.target();
        if target == 374 || target == 138 || target == 140 || target == 142 {
            let states = vec![
                StateDescription::linear_state(StartSoftResetEncounter::Press1, one(Button::A), 1000..5500),
                StateDescription::linear_state(StartSoftResetEncounter::Press2, one(Button::A), 750..1250),
                StateDescription::linear_state(StartSoftResetEncounter::Press3, one(Button::A), 1000..1500),
                StateDescription::linear_state(StartSoftResetEncounter::Press4, one(Button::A), 5000..5000),
                StateDescription::linear_state(StartSoftResetEncounter::Press5, one(Button::B), 1000..1000),
            ];
            proof {
                assert(states@.map_values(|d: StateDescription<StartSoftResetEncounter>| d.view_desc()) =~= gift_fossil());
                reveal_with_fuel(tag_in, 6);
                reveal_with_fuel(tags_distinct_from, 6);
                reveal_with_fuel(targets_in, 3);
                reveal_with_fuel(checks_in_from, 6);
                assert(fragment_ok_rec(gift_fossil()));
                lemma_fragment_ok(gift_fossil());
            }
            builder.add_states(states);
        } else if target == 131 {
            let states = vec![
                StateDescription::set_counter_state(LoopState::ResetCounter, LoopState::PressA, 7),
                StateDescription::linear_state(LoopState::PressA, one(Button::A), 2000..2500),
                StateDescription::decr_counter_state(LoopState::DecrCounter, LoopState::CheckCounter),
                StateDescription::choose_counter_state(LoopState::CheckCounter, LoopState::Wait, LoopState::PressA),
                StateDescription::linear_state(LoopState::Wait, vec![], 2000..2500),
                StateDescription::choose_toggle_state(LoopState::CheckToggle, LoopState::ToggleBack, LoopState::PressB),
                StateDescription::linear_state(LoopState::PressB, one(Button::B), 1000..1500),
                StateDescription::toggle_state(LoopState::Toggle, LoopState::ResetCounter),
                StateDescription::toggle_state(LoopState::ToggleBack, LoopState::Done),
                StateDescription::linear_state_no_delay(LoopState::Done, vec![]),
            ];
            proof {
                assert(states@.map_values(|d: StateDescription<LoopState>| d.view_desc()) =~= gift_lapras());
                reveal_with_fuel(tag_in, 11);
                reveal_with_fuel(tags_distinct_from, 11);
                reveal_with_fuel(targets_in, 3);
                reveal_with_fuel(checks_in_from, 11);
                assert(fragment_ok_rec(gift_lapras()));
                lemma_fragment_ok(gift_lapras());
            }
            builder.add_states(states);
        } else if target == 133 {
            let states = vec![
                StateDescription::linear_state(LoopState::PressA, one(Button::A), 2000..2500),
                StateDescription::linear_state(LoopState::PressB, one(Button::B), 2000..2500),
            ];
            proof {
                assert(states@.map_values(|d: StateDescription<LoopState>| d.view_desc()) =~= gift_eevee());
                reveal_with_fuel(tag_in, 3);
                reveal_with_fuel(tags_distinct_from, 3);
                reveal_with_fuel(targets_in, 3);
                reveal_with_fuel(checks_in_from, 3);
                assert(fragment_ok_rec(gift_eevee()));
                lemma_fragment_ok(gift_eevee());
            }
            builder.add_states(states);
        } else if target == 106 || target == 107 {
            let states = vec![
                StateDescription::linear_state(LoopState::PressA, one(Button::A), 2000..2500),
                StateDescription::linear_state(LoopState::PressA2, one(Button::A), 2500..3000),
                StateDescription::linear_state(LoopState::PressB, one(Button::B), 2000..2500),
            ];
            proof {
                assert(states@.map_values(|d: StateDescription<LoopState>| d.view_desc()) =~= gift_hitmon());
                reveal_with_fuel(tag_in, 4);
                reveal_with_fuel(tags_distinct_from, 4);
                reveal_with_fuel(targets_in, 3);
                reveal_with_fuel(checks_in_from, 4);
                assert(fragment_ok_rec(gift_hitmon()));
                lemma_fragment_ok(gift_hitmon());
            }
            builder.add_states(states);
        } else {
            return None;
        }
        assert(builder.fragments_view() =~= b0.fragments_view()
            + fragments_of(gen3_softreset_gift_plan(b0.base_view().game, target)->0));
        Some(builder)
    }

    /// Adds the soft reset and the sequence that starts a static encounter
    /// on FireRed / LeafGreen; `None` when there is no sequence for the
    /// species.
    pub fn gen3_softreset(builder: HuntFSMBuilder) -> (r: Option<HuntFSMBuilder>)
        requires
            builder.wf(),
        ensures
            resolved(r, builder, gen3_softreset_plan(builder.base_view().target)),
    {
        let ghost b0 = builder;
        let mut builder = builder;
            let states = vec![
                StateDescription::linear_state(SoftResetProcess::SoftReset, reset_ab_buttons(Delay::Tenth), 3750..4250),
                StateDescription::linear_state(SoftResetProcess::Title1, one(Button::A), 5000..5500),
                StateDescription::linear_state(SoftResetProcess::Title2, one(Button::A), 3750..4250),
                StateDescription::linear_state(SoftResetProcess::Title3, one(Button::A), 2500..3000),
                StateDescription::linear_state(SoftResetProcess::SkipMemory, one(Button::B), 3000..3500),
            ];
            proof {
                assert(states@.map_values(|d: StateDescription<SoftResetProcess>| d.view_desc()) =~= static_reset_frlg());
                reveal_with_fuel(tag_in, 6);
                reveal_with_fuel(tags_distinct_from, 6);
                reveal_with_fuel(targets_in, 3);
                reveal_with_fuel(checks_in_from, 6);
                assert(fragment_ok_rec(static_reset_frlg()));
                lemma_fragment_ok(static_reset_frlg());
            }
            builder.add_states(states);
        let species: u32 = builder.target();
        if species == 143 {
            let states = vec![
                StateDescription::linear_state(StartSoftResetEncounter::Press1, one(Button::A), 1000..1500),
                StateDescription::linear_state(StartSoftResetEncounter::Press2, one(Button::A), 9000..9250),
                StateDescription::linear_state(StartSoftResetEncounter::Press3, one(Button::A), 1000..1500),
                StateDescription::linear_state(StartSoftResetEncounter::Press4, one(Button::A), 0..0),
                StateDescription::simple_process_state_no_output(Branch2::new(StartSoftResetEncounter::IsEntering, StartSoftResetEncounter::Entering), Processing::FRLG_START_ENCOUNTER()),
                StateDescription::linear_state_no_delay(StartSoftResetEncounter::Entering, vec![]),
            ];
            proof {
                assert(states@.map_values(|d: StateDescription<StartSoftResetEncounter>| d.view_desc()) =~= static_snorlax());
                reveal_with_fuel(tag_in, 7);
                reveal_with_fuel(tags_distinct_from, 7);
                reveal_with_fuel(targets_in, 3);
                reveal_with_fuel(checks_in_from, 7);
                assert(fragment_ok_rec(static_snorlax()));
                lemma_fragment_ok(static_snorlax());
            }
            builder.add_states(states);
        } else if species >= 144 && species <= 146 || species == 150 {
            let hold_ms: u64 = if species == 150 { 2000 } else { 1500 };
            let states = vec![
                StateDescription::linear_state(StartSoftResetEncounter::Delay, vec![], 2500..15000),
                StateDescription::linear_state(StartSoftResetEncounter::Press1, one(Button::A), hold_ms..hold_ms),
                StateDescription::linear_state(StartSoftResetEncounter::Press2, one(Button::A), 0..0),
                StateDescription::simple_process_state_no_output(Branch2::new(StartSoftResetEncounter::IsEntering, StartSoftResetEncounter::Entering), Processing::FRLG_START_ENCOUNTER()),
                StateDescription::linear_state_no_delay(StartSoftResetEncounter::Entering, vec![]),
            ];
            proof {
                assert(states@.map_values(|d: StateDescription<StartSoftResetEncounter>| d.view_desc()) =~= static_legend(hold_ms));
                reveal_with_fuel(tag_in, 6);
                reveal_with_fuel(tags_distinct_from, 6);
                reveal_with_fuel(targets_in, 3);
                reveal_with_fuel(checks_in_from, 6);
                assert(fragment_ok_rec(static_legend(hold_ms)));
                lemma_fragment_ok(static_legend(hold_ms));
            }
            builder.add_states(states);
        } else if species == 97 {
            let states = vec![
                StateDescription::linear_state(StartSoftResetEncounter::Delay, vec![], 5000..25000),
                StateDescription::linear_state(StartSoftResetEncounter::Press1, one(Button::A), 1000..1500),
                StateDescription::linear_state(StartSoftResetEncounter::Press2, one(Button::A), 1000..1500),
                StateDescription::linear_state(StartSoftResetEncounter::Press3, one(Button::A), 1000..1500),
                StateDescription::linear_state(StartSoftResetEncounter::Press4, one(Button::A), 1000..1500),
                StateDescription::linear_state(StartSoftResetEncounter::Press5, one(Button::A), 2000..2500),
                StateDescription::linear_state(StartSoftResetEncounter::Press6, one(Button::A), 1000..1500),
                StateDescription::linear_state(StartSoftResetEncounter::Press7, one(Button::A), 0..0),
                StateDescription::simple_process_state_no_output(Branch2::new(StartSoftResetEncounter::IsEntering, StartSoftResetEncounter::Entering), Processing::FRLG_START_ENCOUNTER()),
                StateDescription::linear_state_no_delay(StartSoftResetEncounter::Entering, vec![]),
            ];
            proof {
                assert(states@.map_values(|d: StateDescription<StartSoftResetEncounter>| d.view_desc()) =~= static_hypno());
                reveal_with_fuel(tag_in, 11);
                reveal_with_fuel(tags_distinct_from, 11);
                reveal_with_fuel(targets_in, 3);
                reveal_with_fuel(checks_in_from, 11);
                assert(fragment_ok_rec(static_hypno()));
                lemma_fragment_ok(static_hypno());
            }
            builder.add_states(states);
        } else {
            return None;
        }
        assert(builder.fragments_view() =~= b0.fragments_view() + fragments_of(gen3_softreset_plan(species)->0));
        Some(builder)
    }

    /// Adds the soft reset and the gift or encounter sequence on generation
    /// 4; `None` when there is no sequence for the species.
    pub fn gen4_softreset(builder: HuntFSMBuilder) -> (r: Option<HuntFSMBuilder>)
        requires
            builder.wf(),
        ensures
            resolved(r, builder, gen4_softreset_plan(builder.base_view().target)),
    {
        let ghost b0 = builder;
        let mut builder = builder;
            let states = vec![
                StateDescription::linear_state(SoftResetProcess::SoftReset, reset_lr_buttons(Delay::Half), 7500..8000),
                StateDescription::linear_state(SoftResetProcess::Title1, one(Button::A), 4000..4250),
                StateDescription::linear_state(SoftResetProcess::Title2, one(Button::A), 2500..2750),
                StateDescription::linear_state(SoftResetProcess::Title3, one(Button::A), 3500..3750),
                StateDescription::linear_state(SoftResetProcess::Title4, one(Button::A), 3000..3250),
            ];
            proof {
                assert(states@.map_values(|d: StateDescription<SoftResetProcess>| d.view_desc()) =~= reset_gen4());
                reveal_with_fuel(tag_in, 6);
                reveal_with_fuel(tags_distinct_from, 6);
                reveal_with_fuel(targets_in, 3);
                reveal_with_fuel(checks_in_from, 6);
                assert(fragment_ok_rec(reset_gen4()));
                lemma_fragment_ok(reset_gen4());
            }
            builder.add_states(states);
        let target: u32 = builder.target();
        if target == 152 || target == 155 || target == 158 {
            let states = vec![
                StateDescription::linear_state(SoftResetProcess::GetGift, one(Button::A), 3500..4500),
            ];
            proof {
                assert(states@.map_values(|d: StateDescription<SoftResetProcess>| d.view_desc()) =~= gen4_starter());
                reveal_with_fuel(tag_in, 2);
                reveal_with_fuel(tags_distinct_from, 2);
                reveal_with_fuel(targets_in, 3);
                reveal_with_fuel(checks_in_from, 2);
                assert(fragment_ok_rec(gen4_starter()));
                lemma_fragment_ok(gen4_starter());
            }
            builder.add_states(states);
        } else if target == 442 {
            let states = vec![
                StateDescription::linear_state(StartSoftResetEncounter::SkipMemory, one(Button::Start), 1500..2000),
                StateDescription::linear_state(StartSoftResetEncounter::Delay, one(Button::B), 1500..2000),
                StateDescription::simple_process_state(Branch3::new(StartSoftResetEncounter::Press1, StartSoftResetEncounter::IsEntering, StartSoftResetEncounter::Press2), Processing::DP_START_ENCOUNTER(), HuntStateOutput::button(Button::A), 100..100),
                StateDescription::simple_process_state(Branch3::new(StartSoftResetEncounter::Press2, StartSoftResetEncounter::IsEntering, StartSoftResetEncounter::Press1), Processing::DP_START_ENCOUNTER(), HuntStateOutput::button(Button::A), 100..100),
                StateDescription::simple_process_state_no_output(Branch2::new(StartSoftResetEncounter::IsEntering, StartSoftResetEncounter::Entering), Processing::DP_START_ENCOUNTER()),
                StateDescription::linear_state_no_delay(StartSoftResetEncounter::Entering, vec![]),
            ];
            proof {
                assert(states@.map_values(|d: StateDescription<StartSoftResetEncounter>| d.view_desc()) =~= gen4_spiritomb());
                reveal_with_fuel(tag_in, 7);
                reveal_with_fuel(tags_distinct_from, 7);
                reveal_with_fuel(targets_in, 3);
                reveal_with_fuel(checks_in_from, 7);
                assert(fragment_ok_rec(gen4_spiritomb()));
                lemma_fragment_ok(gen4_spiritomb());
            }
            builder.add_states(states);
        } else if target == 486 || target == 487 {
            let states = vec![
                StateDescription::linear_state(StartSoftResetEncounter::SkipMemory, one(Button::Start), 500..1000),
                StateDescription::linear_state(StartSoftResetEncounter::Delay, one(Button::B), 500..1000),
                StateDescription::simple_process_state(Branch3::new(StartSoftResetEncounter::Press1, StartSoftResetEncounter::IsEntering, StartSoftResetEncounter::Press2), Processing::DP_START_ENCOUNTER_WHITE(), HuntStateOutput::button(Button::A), 100..100),
                StateDescription::simple_process_state(Branch3::new(StartSoftResetEncounter::Press2, StartSoftResetEncounter::IsEntering, StartSoftResetEncounter::Press1), Processing::DP_START_ENCOUNTER_WHITE(), HuntStateOutput::button(Button::A), 100..100),
                StateDescription::simple_process_state_no_output(Branch2::new(StartSoftResetEncounter::IsEntering, StartSoftResetEncounter::Entering), Processing::DP_START_ENCOUNTER()),
                StateDescription::linear_state_no_delay(StartSoftResetEncounter::Entering, vec![]),
            ];
            proof {
                assert(states@.map_values(|d: StateDescription<StartSoftResetEncounter>| d.view_desc()) =~= gen4_legend());
                reveal_with_fuel(tag_in, 7);
                reveal_with_fuel(tags_distinct_from, 7);
                reveal_with_fuel(targets_in, 3);
                reveal_with_fuel(checks_in_from, 7);
                assert(fragment_ok_rec(gen4_legend()));
                lemma_fragment_ok(gen4_legend());
            }
            builder.add_states(states);
        } else {
            return None;
        }
        assert(builder.fragments_view() =~= b0.fragments_view() + fragments_of(gen4_softreset_plan(target)->0));
        Some(builder)
    }

    /// Adds the walk that looks for a random encounter on FireRed /
    /// LeafGreen.
    pub fn frlg_random(builder: HuntFSMBuilder) -> (r: HuntFSMBuilder)
        requires
            builder.wf(),
        ensures
            extended(r, builder, seq![walk_descs()]),
    {
        let ghost b0 = builder;
        let mut builder = builder;
            let states = vec![
                StateDescription::choose_toggle_state(TryGetEncounter::Init, TryGetEncounter::Up, TryGetEncounter::Left),
                StateDescription::simple_process_state(Branch3::new(TryGetEncounter::Up, TryGetEncounter::Entering, TryGetEncounter::Down), Processing::FRLG_START_ENCOUNTER(), HuntStateOutput::new(Button::Up, Delay::Tenth), 75..75),
                StateDescription::simple_process_state(Branch3::new(TryGetEncounter::Down, TryGetEncounter::Entering, TryGetEncounter::Up), Processing::FRLG_START_ENCOUNTER(), HuntStateOutput::new(Button::Down, Delay::Tenth), 75..75),
                StateDescription::simple_process_state(Branch3::new(TryGetEncounter::Left, TryGetEncounter::Entering, TryGetEncounter::Right), Processing::FRLG_START_ENCOUNTER(), HuntStateOutput::new(Button::Left, Delay::Tenth), 75..75),
                StateDescription::simple_process_state(Branch3::new(TryGetEncounter::Right, TryGetEncounter::Entering, TryGetEncounter::Left), Processing::FRLG_START_ENCOUNTER(), HuntStateOutput::new(Button::Right, Delay::Tenth), 75..75),
                StateDescription::linear_state_no_delay(TryGetEncounter::Entering, vec![]),
            ];
            proof {
                assert(states@.map_values(|d: StateDescription<TryGetEncounter>| d.view_desc()) =~= walk_descs());
                reveal_with_fuel(tag_in, 7);
                reveal_with_fuel(tags_distinct_from, 7);
                reveal_with_fuel(targets_in, 3);
                reveal_with_fuel(checks_in_from, 7);
                assert(fragment_ok_rec(walk_descs()));
                lemma_fragment_ok(walk_descs());
            }
            builder.add_states(states);
        assert(builder.fragments_view() =~= b0.fragments_view() + fragments_of(seq![walk_descs()]));
        builder
    }

    /// Adds the fishing that looks for a Pokemon on Ruby / Sapphire.
    pub fn rs_fishing(builder: HuntFSMBuilder) -> (r: HuntFSMBuilder)
        requires
            builder.wf(),
        ensures
            extended(r, builder, seq![fishing_descs()]),
    {
        let ghost b0 = builder;
        let mut builder = builder;
            let states = vec![
                StateDescription::linear_state(FishingStates::TryFish, one(Button::Select), 100..100),
                StateDescription::simple_process_state_no_output(Branch2::new(FishingStates::WaitFishActive, FishingStates::ShouldPressA), Processing::RS_FISHING_ACTIVE()),
                StateDescription::simple_process_state_no_output3(Branch3::new(FishingStates::ShouldPressA, FishingStates::PressA, FishingStates::Delay), Processing::RS_FISHING_BITE()),
                StateDescription::linear_state(FishingStates::PressA, one(Button::A), 500..500),
                StateDescription::linear_state(FishingStates::Delay, vec![], 50..50),
                StateDescription::simple_process_state_no_output3(Branch3::new(FishingStates::CheckOnHook, FishingStates::StartEncounter, FishingStates::CheckNoNibble), Processing::RS_FISHING_ON_HOOK()),
                StateDescription::linear_state(FishingStates::NoNibble, one(Button::A), 2500..3500),
                StateDescription::branch_state(FishingStates::ToStart, FishingStates::TryFish, 50..50),
                StateDescription::simple_process_state_no_output3(Branch3::new(FishingStates::CheckNoNibble, FishingStates::NoNibble, FishingStates::ShouldPressA), Processing::RS_FISHING_NO_NIBBLE()),
                StateDescription::linear_state(FishingStates::StartEncounter, one(Button::A), 100..100),
                StateDescription::simple_process_state_no_output(Branch2::new(FishingStates::WaitEncounterReady, FishingStates::ToDetect), Processing::FRLG_START_ENCOUNTER()),
                StateDescription::linear_state(FishingStates::ToDetect, vec![], 50..50),
            ];
            proof {
                assert(states@.map_values(|d: StateDescription<FishingStates>| d.view_desc()) =~= fishing_descs());
                reveal_with_fuel(tag_in, 13);
                reveal_with_fuel(tags_distinct_from, 13);
                reveal_with_fuel(targets_in, 3);
                reveal_with_fuel(checks_in_from, 13);
                assert(fragment_ok_rec(fishing_descs()));
                lemma_fragment_ok(fishing_descs());
            }
            builder.add_states(states);
        assert(builder.fragments_view() =~= b0.fragments_view() + fragments_of(seq![fishing_descs()]));
        builder
    }

    /// Adds the walk that looks for a random encounter on Ruby / Sapphire;
    /// the Wailmer hunt (target 320) fishes instead.
    pub fn rs_random(builder: HuntFSMBuilder) -> (r: HuntFSMBuilder)
        requires
            builder.wf(),
        ensures
            extended(r, builder, rs_random_plan(builder.base_view().target)),
    {
        if builder.target() == 320 {
            return Self::rs_fishing(builder);
        }
        let ghost b0 = builder;
        let mut builder = builder;
            let states = vec![
                StateDescription::choose_toggle_state(TryGetEncounter::Init, TryGetEncounter::Up, TryGetEncounter::Left),
                StateDescription::simple_process_state(Branch3::new(TryGetEncounter::Up, TryGetEncounter::Entering, TryGetEncounter::Down), Processing::FRLG_START_ENCOUNTER(), HuntStateOutput::new(Button::Up, Delay::Tenth), 75..75),
                StateDescription::simple_process_state(Branch3::new(TryGetEncounter::Down, TryGetEncounter::Entering, TryGetEncounter::Up), Processing::FRLG_START_ENCOUNTER(), HuntStateOutput::new(Button::Down, Delay::Tenth), 75..75),
                StateDescription::simple_process_state(Branch3::new(TryGetEncounter::Left, TryGetEncounter::Entering, TryGetEncounter::Right), Processing::FRLG_START_ENCOUNTER(), HuntStateOutput::new(Button::Left, Delay::Tenth), 75..75),
                StateDescription::simple_process_state(Branch3::new(TryGetEncounter::Right, TryGetEncounter::Entering, TryGetEncounter::Left), Processing::FRLG_START_ENCOUNTER(), HuntStateOutput::new(Button::Right, Delay::Tenth), 75..75),
                StateDescription::linear_state_no_delay(TryGetEncounter::Entering, vec![]),
            ];
            proof {
                assert(states@.map_values(|d: StateDescription<TryGetEncounter>| d.view_desc()) =~= walk_descs());
                reveal_with_fuel(tag_in, 7);
                reveal_with_fuel(tags_distinct_from, 7);
                reveal_with_fuel(targets_in, 3);
                reveal_with_fuel(checks_in_from, 7);
                assert(fragment_ok_rec(walk_descs()));
                lemma_fragment_ok(walk_descs());
            }
            builder.add_states(states);
        assert(builder.fragments_view() =~= b0.fragments_view() + fragments_of(seq![walk_descs()]));
        builder
    }

    /// Adds the soft reset and the approach of a static encounter on Ultra
    /// Sun / Ultra Moon.
    pub fn gen7_softreset(builder: HuntFSMBuilder) -> (r: Option<HuntFSMBuilder>)
        requires
            builder.wf(),
        ensures
            resolved(r, builder, gen7_softreset_plan(builder.base_view().target)),
    {
        let ghost b0 = builder;
        let mut builder = builder;
        let target: u32 = builder.target();
            let states = vec![
                StateDescription::linear_state(USUM::SoftReset1, reset_lr_buttons(Delay::Half), 50..50),
                StateDescription::linear_state(USUM::SoftReset2, reset_lr_buttons(Delay::Half), 11000..12000),
                StateDescription::set_atomic_state(USUM::AllowHeartbeat, USUM::Title1),
                StateDescription::linear_state(USUM::Title1, one(Button::A), 2000..2250),
                StateDescription::linear_state(USUM::Title2, one(Button::A), 2500..2750),
                StateDescription::linear_state(USUM::Title3, one(Button::A), 2000..2250),
                StateDescription::linear_state(USUM::Title4, one(Button::A), 2500..2750),
            ];
            proof {
                assert(states@.map_values(|d: StateDescription<USUM>| d.view_desc()) =~= usum_reset());
                reveal_with_fuel(tag_in, 8);
                reveal_with_fuel(tags_distinct_from, 8);
                reveal_with_fuel(targets_in, 3);
                reveal_with_fuel(checks_in_from, 8);
                assert(fragment_ok_rec(usum_reset()));
                lemma_fragment_ok(usum_reset());
            }
            builder.add_states(states);
        if target == 797 || target == 799 {
            let states = vec![
                StateDescription::linear_state(USUM::Circle1, one_held(Button::A, Delay::Half), 250..250),
                StateDescription::linear_state(USUM::Circle2, one_held(Button::A, Delay::Half), 250..250),
            ];
            proof {
                assert(states@.map_values(|d: StateDescription<USUM>| d.view_desc()) =~= usum_press());
                reveal_with_fuel(tag_in, 3);
                reveal_with_fuel(tags_distinct_from, 3);
                reveal_with_fuel(targets_in, 3);
                reveal_with_fuel(checks_in_from, 3);
                assert(fragment_ok_rec(usum_press()));
                lemma_fragment_ok(usum_press());
            }
            builder.add_states(states);
        } else if target == 806 {
            let states = vec![
                StateDescription::linear_state(USUMRandom::Wait, vec![], 5000..12500),
                StateDescription::linear_state(USUMRandom::XToMenu, one(Button::X), 1000..1500),
                StateDescription::linear_state(USUMRandom::Down, one(Button::Down), 500..1000),
                StateDescription::linear_state(USUMRandom::AToBag, one(Button::A), 1500..2000),
                StateDescription::linear_state(USUMRandom::Left1, one(Button::Left), 500..1000),
                StateDescription::linear_state(USUMRandom::Left2, one(Button::Left), 500..1000),
                StateDescription::linear_state(USUMRandom::Left3, one(Button::Left), 500..1000),
                StateDescription::linear_state(USUMRandom::AToHoney, one(Button::A), 500..1000),
                StateDescription::linear_state(USUMRandom::AToUse, one(Button::A), 500..500),
            ];
            proof {
                assert(states@.map_values(|d: StateDescription<USUMRandom>| d.view_desc()) =~= usum_honey());
                reveal_with_fuel(tag_in, 10);
                reveal_with_fuel(tags_distinct_from, 10);
                reveal_with_fuel(targets_in, 3);
                reveal_with_fuel(checks_in_from, 10);
                assert(fragment_ok_rec(usum_honey()));
                lemma_fragment_ok(usum_honey());
            }
            builder.add_states(states);
        } else {
            let states = vec![
                StateDescription::linear_state(USUM::Circle1, one_held(Button::Circle(128, 250), Delay::Half), 250..250),
                StateDescription::linear_state(USUM::Circle2, one_held(Button::Circle(128, 250), Delay::Half), 250..250),
                StateDescription::linear_state(USUM::Circle3, one_held(Button::Circle(128, 250), Delay::Half), 250..250),
                StateDescription::linear_state(USUM::Circle4, one_held(Button::Circle(128, 250), Delay::Half), 4000..4000),
            ];
            proof {
                assert(states@.map_values(|d: StateDescription<USUM>| d.view_desc()) =~= usum_walk());
                reveal_with_fuel(tag_in, 5);
                reveal_with_fuel(tags_distinct_from, 5);
                reveal_with_fuel(targets_in, 3);
                reveal_with_fuel(checks_in_from, 5);
                assert(fragment_ok_rec(usum_walk()));
                lemma_fragment_ok(usum_walk());
            }
            builder.add_states(states);
        }
        assert(builder.fragments_view() =~= b0.fragments_view() + fragments_of(gen7_softreset_plan(target)->0));
        Some(builder)
    }

    /// Adds the soft reset and the gift sequence on Ultra Sun / Ultra Moon;
    /// `None` when there is no sequence for the species.
    pub fn gen7_softreset_gift(builder: HuntFSMBuilder) -> (r: Option<HuntFSMBuilder>)
        requires
            builder.wf(),
        ensures
            resolved(r, builder, gen7_softreset_gift_plan(builder.base_view().target)),
    {
        let ghost b0 = builder;
        let mut builder = builder;
            let states = vec![
                StateDescription::linear_state(USUM::SoftReset1, reset_lr_buttons(Delay::Half), 50..50),
                StateDescription::linear_state(USUM::Clear1, one(Button::Up), 1000..2000),
                StateDescription::linear_state(USUM::Clear2, one(Button::Up), 1000..2000),
                StateDescription::linear_state(USUM::Clear3, one(Button::Up), 9000..8000),
                StateDescription::set_atomic_state(USUM::AllowHeartbeat, USUM::WaitHeartbeat),
                StateDescription::linear_state(USUM::WaitHeartbeat, vec![], 2500..2500),
                StateDescription::linear_state(USUM::Title1, one(Button::A), 50..50),
                StateDescription::linear_state(USUM::Title2, one(Button::A), 2000..2250),
                StateDescription::linear_state(USUM::Title3, one(Button::A), 50..50),
                StateDescription::linear_state(USUM::Title4, one(Button::A), 2500..12750),
            ];
            proof {
                assert(states@.map_values(|d: StateDescription<USUM>| d.view_desc()) =~= usum_gift_reset());
                reveal_with_fuel(tag_in, 11);
                reveal_with_fuel(tags_distinct_from, 11);
                reveal_with_fuel(targets_in, 3);
                reveal_with_fuel(checks_in_from, 11);
                assert(fragment_ok_rec(usum_gift_reset()));
                lemma_fragment_ok(usum_gift_reset());
            }
            builder.add_states(states);
        if builder.target() == 803 {
            let states = vec![
                StateDescription::set_counter_state(LoopState::ResetCounter, LoopState::PressA, 5),
                StateDescription::linear_state(LoopState::PressA, one(Button::A), 50..50),
                StateDescription::linear_state(LoopState::PressARetry, one(Button::A), 2500..2500),
                StateDescription::decr_counter_state(LoopState::DecrCounter, LoopState::CheckCounter),
                StateDescription::choose_counter_state(LoopState::CheckCounter, LoopState::Wait, LoopState::PressA),
                StateDescription::linear_state(LoopState::Wait, vec![], 5000..5000),
                StateDescription::linear_state(LoopState::PressA2, one(Button::A), 3000..3000),
                StateDescription::linear_state_no_delay(LoopState::Done, vec![]),
            ];
            proof {
                assert(states@.map_values(|d: StateDescription<LoopState>| d.view_desc()) =~= usum_poipole());
                reveal_with_fuel(tag_in, 9);
                reveal_with_fuel(tags_distinct_from, 9);
                reveal_with_fuel(targets_in, 3);
                reveal_with_fuel(checks_in_from, 9);
                assert(fragment_ok_rec(usum_poipole()));
                lemma_fragment_ok(usum_poipole());
            }
            builder.add_states(states);
        } else {
            return None;
        }
        assert(builder.fragments_view() =~= b0.fragments_view() + fragments_of(seq![usum_gift_reset(), usum_poipole()]));
        Some(builder)
    }

    /// Adds the Honey routine with soft resets on Ultra Sun / Ultra Moon.
    pub fn gen7_random_encounter(builder: HuntFSMBuilder) -> (r: Option<HuntFSMBuilder>)
        requires
            builder.wf(),
        ensures
            resolved(r, builder, Some(seq![usum_random()])),
    {
        let ghost b0 = builder;
        let mut builder = builder;
            let states = vec![
                StateDescription::choose_counter_state(USUMRandom::CheckCounter, USUMRandom::StopHeartbeat, USUMRandom::XToMenu2),
                StateDescription::clear_atomic_state(USUMRandom::StopHeartbeat, USUMRandom::SetCounter),
                StateDescription::set_counter_state(USUMRandom::SetCounter, USUMRandom::Wait, 64),
                StateDescription::linear_state(USUMRandom::Wait, vec![], 500..1500),
                StateDescription::linear_state(USUMRandom::SoftReset, reset_lr_buttons(Delay::Half), 50..50),
                StateDescription::linear_state(USUMRandom::Clear1, one(Button::Up), 1000..2000),
                StateDescription::linear_state(USUMRandom::Clear2, one(Button::Up), 1000..2000),
                StateDescription::linear_state(USUMRandom::Clear3, one(Button::Up), 9000..8000),
                StateDescription::set_atomic_state(USUMRandom::AllowHeartbeat, USUMRandom::WaitHeartbeat),
                StateDescription::linear_state(USUMRandom::WaitHeartbeat, vec![], 2500..2500),
                StateDescription::linear_state(USUMRandom::Title1, one(Button::A), 50..50),
                StateDescription::linear_state(USUMRandom::Title2, one(Button::A), 2000..2250),
                StateDescription::linear_state(USUMRandom::Title3, one(Button::A), 50..50),
                StateDescription::linear_state(USUMRandom::Title4, one(Button::A), 5500..12750),
                StateDescription::linear_state(USUMRandom::XToMenu, one(Button::X), 1000..1500),
                StateDescription::linear_state(USUMRandom::Down, one(Button::Down), 500..1000),
                StateDescription::linear_state(USUMRandom::AToBag, one(Button::A), 1500..2000),
                StateDescription::linear_state(USUMRandom::Left1, one(Button::Left), 500..1000),
                StateDescription::linear_state(USUMRandom::Left2, one(Button::Left), 500..1000),
                StateDescription::linear_state(USUMRandom::Left3, one(Button::Left), 500..1000),
                StateDescription::branch_state(USUMRandom::Jump, USUMRandom::AToHoney, 50..50),
                StateDescription::linear_state(USUMRandom::XToMenu2, one(Button::X), 1000..1500),
                StateDescription::linear_state(USUMRandom::AToBag2, one(Button::A), 1500..2000),
                StateDescription::linear_state(USUMRandom::AToHoney, one(Button::A), 500..1000),
                StateDescription::decr_counter_state(USUMRandom::DecrCounter, USUMRandom::AToUse),
                StateDescription::linear_state(USUMRandom::AToUse, one(Button::A), 500..500),
            ];
            proof {
                assert(states@.map_values(|d: StateDescription<USUMRandom>| d.view_desc()) =~= usum_random());
                reveal_with_fuel(tag_in, 27);
                reveal_with_fuel(tags_distinct_from, 27);
                reveal_with_fuel(targets_in, 3);
                reveal_with_fuel(checks_in_from, 27);
                assert(fragment_ok_rec(usum_random()));
                lemma_fragment_ok(usum_random());
            }
            builder.add_states(states);
        assert(builder.fragments_view() =~= b0.fragments_view() + fragments_of(seq![usum_random()]));
        Some(builder)
    }

    /// Adds a utility routine, chosen by the target number; `None` when
    /// there is none with that number.
    pub fn utility(builder: HuntFSMBuilder) -> (r: Option<HuntFSMBuilder>)
        requires
            builder.wf(),
        ensures
            resolved(r, builder, utility_plan(builder.base_view().target)),
    {
        let ghost b0 = builder;
        let mut builder = builder;
        let target: u32 = builder.target();
        if target == 1 {
            let states = vec![
                StateDescription::linear_state(UtilityState::Left, one(Button::Left), 750..750),
                StateDescription::start_timer_state(UtilityState::StartTimer, UtilityState::Up),
                StateDescription::linear_state(UtilityState::Up, one(Button::Up), 750..750),
                StateDescription::linear_state(UtilityState::Down, one(Button::Down), 750..750),
                StateDescription::update_timer_state(UtilityState::UpdateTimer, UtilityState::CheckTimer),
                StateDescription::branch_last_delay_state(Branch3::new(UtilityState::CheckTimer, UtilityState::Wait, UtilityState::Up), 8000),
                StateDescription::linear_state(UtilityState::Wait, vec![], 10000..10000),
                StateDescription::linear_state(UtilityState::UpToBattle, one(Button::Up), 1000..1000),
                StateDescription::linear_state(UtilityState::AToBattle, one(Button::A), 1000..1000),
                StateDescription::linear_state(UtilityState::AForHappy, one(Button::A), 1000..1000),
                StateDescription::linear_state(UtilityState::Wait2, vec![], 15000..15000),
                StateDescription::linear_state(UtilityState::AToBattle2, one(Button::A), 1000..1000),
                StateDescription::linear_state(UtilityState::RightToPay, one(Button::Right), 1000..1000),
                StateDescription::linear_state(UtilityState::AForPay, one(Button::A), 1000..1000),
                StateDescription::linear_state(UtilityState::Wait3, one(Button::A), 15000..15000),
                StateDescription::incr_counter_state(UtilityState::IncrCounter, UtilityState::CheckCounter),
                StateDescription::choose_counter_state_val(UtilityState::CheckCounter, UtilityState::Notify, UtilityState::Left, 20),
                StateDescription::found_target_state(UtilityState::Notify, UtilityState::Done),
                StateDescription::deadend_state(UtilityState::Done),
            ];
            proof {
                assert(states@.map_values(|d: StateDescription<UtilityState>| d.view_desc()) =~= utility_money());
                reveal_with_fuel(tag_in, 20);
                reveal_with_fuel(tags_distinct_from, 20);
                reveal_with_fuel(targets_in, 3);
                reveal_with_fuel(checks_in_from, 20);
                assert(fragment_ok_rec(utility_money()));
                lemma_fragment_ok(utility_money());
            }
            builder.add_states(states);
        } else if target == 2 {
            let states = vec![
                StateDescription::linear_state(UtilityState::Left, one(Button::Left), 750..750),
                StateDescription::simple_process_state(Branch3::new(UtilityState::Up, UtilityState::Entering, UtilityState::Down), Processing::USUMBottomScreenInv(5), HuntStateOutput::button(Button::Up), 750..750),
                StateDescription::simple_process_state(Branch3::new(UtilityState::Down, UtilityState::Entering, UtilityState::Up), Processing::USUMBottomScreenInv(5), HuntStateOutput::button(Button::Down), 750..750),
                StateDescription::simple_process_state_no_output(Branch2::new(UtilityState::Entering, UtilityState::Wait), Processing::USUMBottomScreen(5)),
                StateDescription::linear_state(UtilityState::Wait, vec![], 1000..1000),
                StateDescription::linear_state(UtilityState::UpToBattle, one(Button::Down), 1000..1000),
                StateDescription::linear_state(UtilityState::AToBattle, one(Button::A), 1000..1000),
                StateDescription::linear_state(UtilityState::Down1, one(Button::Down), 1000..1000),
                StateDescription::linear_state(UtilityState::Down2, one(Button::Down), 1000..1000),
                StateDescription::linear_state(UtilityState::AForHappy, one(Button::A), 1000..1000),
                StateDescription::linear_state(UtilityState::AForBall, one(Button::A), 1000..1000),
                StateDescription::linear_state(UtilityState::Wait2, vec![], 22000..22000),
                StateDescription::linear_state(UtilityState::AToBattle2, one(Button::B), 3000..3000),
                StateDescription::linear_state(UtilityState::RightToPay, one(Button::B), 3000..3000),
                StateDescription::incr_encounter_state(UtilityState::AForPay, UtilityState::Wait3),
                StateDescription::linear_state(UtilityState::Wait3, one(Button::A), 1000..1000),
            ];
            proof {
                assert(states@.map_values(|d: StateDescription<UtilityState>| d.view_desc()) =~= utility_catch());
                reveal_with_fuel(tag_in, 17);
                reveal_with_fuel(tags_distinct_from, 17);
                reveal_with_fuel(targets_in, 3);
                reveal_with_fuel(checks_in_from, 17);
                assert(fragment_ok_rec(utility_catch()));
                lemma_fragment_ok(utility_catch());
            }
            builder.add_states(states);
        } else {
            return None;
        }
        assert(builder.fragments_view() =~= b0.fragments_view() + fragments_of(utility_plan(target)->0));
        Some(builder)
    }
}

} // verus!
