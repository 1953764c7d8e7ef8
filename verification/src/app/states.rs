//! The states of a hunt as the user sees them, the transitions between them,
//! and the description of each hardware configuration.
use vstd::prelude::*;
use crate::text::{decimal, u64_to_string};

verus! {

/// A request to move the hunt from one state to another.
#[derive(Clone, Copy, Debug, PartialEq, Eq, Structural)]
pub enum Transition {
    StartHunt,
    PauseHunt,
    FoundNonTarget,
    FoundTarget,
    Fail,
    Caught,
    FalseDetect,
}

/// The state of the hunt as a whole.
#[derive(Clone, Copy, Debug, PartialEq, Eq, Structural)]
pub enum HuntState {
    Idle,
    Hunt,
    FoundNonTarget,
    FoundTarget,
}

/// One transition out of a state: what it leads to, whether it carries an
/// argument, and whether only the bot itself may request it.
#[derive(Clone, Copy, Debug, PartialEq, Eq, Structural)]
pub struct StateTransition {
    pub transition: Transition,
    pub next_state: HuntState,
    pub needs_arg: bool,
    pub automatic: bool,
}

/// The games a hunt can be run in.
#[derive(Clone, Copy, Debug, PartialEq, Eq, Structural)]
pub enum Game {
    NoGame,
    RubySapphire,
    Emerald,
    FireRedLeafGreen,
    DiamondPearl,
    Platinum,
    HeartGoldSoulSilver,
    BlackWhite,
    Black2White2,
    UltraSunUltraMoon,
}

/// The ways an encounter is obtained.
#[derive(Clone, Copy, Debug, PartialEq, Eq, Structural)]
pub enum Method {
    RandomEncounter,
    SoftResetEncounter,
    SoftResetGift,
    SafariZone,
    Utility,
}

/// The argument of a transition: which hunt it starts, or which species was
/// found.
#[derive(Debug)]
pub struct TransitionArg {
    pub name: String,
    pub species: u32,
    pub game: Game,
    pub method: Method,
}

/// The abstract value of a [`TransitionArg`].
pub struct TransitionArgView {
    pub name: Seq<char>,
    pub species: u32,
    pub game: Game,
    pub method: Method,
}

impl View for TransitionArg {
    type V = TransitionArgView;

    open spec fn view(&self) -> TransitionArgView {
        TransitionArgView { name: self.name@, species: self.species, game: self.game, method: self.method }
    }
}

impl TransitionArg {
    /// Builds an argument from its parts.
    pub fn new(name: &str, species: u32, game: Game, method: Method) -> (r: Self)
        ensures
            r@ == (TransitionArgView { name: name@, species, game, method }),
    {
        TransitionArg { name: String::from_str(name), species, game, method }
    }

    /// A copy of the argument.
    pub fn duplicate(&self) -> (r: Self)
        ensures
            r@ == self@,
    {
        TransitionArg { name: self.name.clone(), species: self.species, game: self.game, method: self.method }
    }
}

/// A request for a transition, with its argument where it has one.
#[derive(Debug)]
pub struct RequestTransition {
    pub transition: Transition,
    pub arg: Option<TransitionArg>,
}

/// The abstract value of a [`RequestTransition`].
pub struct RequestTransitionView {
    pub transition: Transition,
    pub arg: Option<TransitionArgView>,
}

/// The abstract value of an optional argument.
pub open spec fn opt_arg_view(a: Option<TransitionArg>) -> Option<TransitionArgView> {
    match a {
        Some(x) => Some(x@),
        None => None,
    }
}

impl View for RequestTransition {
    type V = RequestTransitionView;

    open spec fn view(&self) -> RequestTransitionView {
        RequestTransitionView { transition: self.transition, arg: opt_arg_view(self.arg) }
    }
}

impl RequestTransition {
    /// A copy of the request.
    pub fn duplicate(&self) -> (r: Self)
        ensures
            r@ == self@,
    {
        let arg = match &self.arg {
            Some(a) => Some(a.duplicate()),
            None => None,
        };
        RequestTransition { transition: self.transition, arg }
    }
}

/// The transitions out of `s`, in the order in which they are offered.
pub open spec fn transitions_of(s: HuntState) -> Seq<StateTransition> {
    match s {
        HuntState::Idle => seq![
            StateTransition { transition: Transition::StartHunt, next_state: HuntState::Hunt, needs_arg: true, automatic: false },
        ],
        HuntState::Hunt => seq![
            StateTransition { transition: Transition::PauseHunt, next_state: HuntState::Idle, needs_arg: false, automatic: false },
            StateTransition { transition: Transition::FoundNonTarget, next_state: HuntState::FoundNonTarget, needs_arg: true, automatic: true },
            StateTransition { transition: Transition::FoundTarget, next_state: HuntState::FoundTarget, needs_arg: false, automatic: true },
        ],
        HuntState::FoundNonTarget => seq![
            StateTransition { transition: Transition::Caught, next_state: HuntState::Hunt, needs_arg: false, automatic: false },
            StateTransition { transition: Transition::Fail, next_state: HuntState::Hunt, needs_arg: false, automatic: false },
            StateTransition { transition: Transition::FalseDetect, next_state: HuntState::Hunt, needs_arg: false, automatic: false },
        ],
        HuntState::FoundTarget => seq![
            StateTransition { transition: Transition::Caught, next_state: HuntState::Idle, needs_arg: false, automatic: false },
            StateTransition { transition: Transition::Fail, next_state: HuntState::Hunt, needs_arg: false, automatic: false },
            StateTransition { transition: Transition::FalseDetect, next_state: HuntState::Hunt, needs_arg: false, automatic: false },
        ],
    }
}

impl HuntState {
    /// The transitions that may be requested in this state.
    pub fn possible_transitions(&self) -> (r: Vec<StateTransition>)
        ensures
            r@ == transitions_of(*self),
    {
        let r = match self {
            HuntState::Idle => vec![
                StateTransition { transition: Transition::StartHunt, next_state: HuntState::Hunt, needs_arg: true, automatic: false },
            ],
            HuntState::Hunt => vec![
                StateTransition { transition: Transition::PauseHunt, next_state: HuntState::Idle, needs_arg: false, automatic: false },
                StateTransition { transition: Transition::FoundNonTarget, next_state: HuntState::FoundNonTarget, needs_arg: true, automatic: true },
                StateTransition { transition: Transition::FoundTarget, next_state: HuntState::FoundTarget, needs_arg: false, automatic: true },
            ],
            HuntState::FoundNonTarget => vec![
                StateTransition { transition: Transition::Caught, next_state: HuntState::Hunt, needs_arg: false, automatic: false },
                StateTransition { transition: Transition::Fail, next_state: HuntState::Hunt, needs_arg: false, automatic: false },
                StateTransition { transition: Transition::FalseDetect, next_state: HuntState::Hunt, needs_arg: false, automatic: false },
            ],
            HuntState::FoundTarget => vec![
                StateTransition { transition: Transition::Caught, next_state: HuntState::Idle, needs_arg: false, automatic: false },
                StateTransition { transition: Transition::Fail, next_state: HuntState::Hunt, needs_arg: false, automatic: false },
                StateTransition { transition: Transition::FalseDetect, next_state: HuntState::Hunt, needs_arg: false, automatic: false },
            ],
        };
        assert(r@ =~= transitions_of(*self));
        r
    }
}

/// A finished phase of a hunt: a species other than the target was found on
/// the way. `date` is a UTC timestamp in milliseconds.
#[derive(Clone, Copy, Debug, PartialEq, Eq, Structural)]
pub struct Phase {
    pub species: u32,
    pub encounters: u64,
    pub caught: bool,
    pub date: i64,
}

/// The device paths of a capture-and-serial-control setup.
#[derive(Debug)]
pub struct CaptureControlPaths {
    video: String,
    control: String,
}

impl CaptureControlPaths {
    pub closed spec fn video_view(&self) -> Seq<char> {
        self.video@
    }

    pub closed spec fn control_view(&self) -> Seq<char> {
        self.control@
    }

    /// Groups a video device path and a control device path.
    pub fn new(video: String, control: String) -> (r: Self)
        ensures
            r.video_view() == video@,
            r.control_view() == control@,
    {
        Self { video, control }
    }

    /// The video capture device.
    pub fn video(&self) -> (r: &str)
        ensures
            r@ == self.video_view(),
    {
        self.video.as_str()
    }

    /// The control device.
    pub fn control(&self) -> (r: &str)
        ensures
            r@ == self.control_view(),
    {
        self.control.as_str()
    }
}

/// The hardware the bot runs against.
#[derive(Debug)]
pub enum Config {
    /// DS Lite with V4L2 capture and a serial-controlled button board.
    Shaoooh(CaptureControlPaths),
    /// New 2DS XL, reached over the network at the given IPv4 address.
    Bishaan([u8; 4]),
    /// A configuration for testing, with no hardware.
    Ditto,
}

/// The dotted-decimal rendering of an IPv4 address.
pub open spec fn ip_text(ip: Seq<u8>) -> Seq<char> {
    decimal(ip[0] as nat) + seq!['.'] + decimal(ip[1] as nat) + seq!['.']
        + decimal(ip[2] as nat) + seq!['.'] + decimal(ip[3] as nat)
}

/// Renders an IPv4 address as `a.b.c.d`.
pub fn ip_to_string(ip: &[u8; 4]) -> (s: String)
    ensures
        s@ == ip_text(ip@),
{
    proof { reveal_strlit("."); }
    let mut s = u64_to_string(ip[0] as u64);
    s.append(".");
    let p1 = u64_to_string(ip[1] as u64);
    s.append(p1.as_str());
    s.append(".");
    let p2 = u64_to_string(ip[2] as u64);
    s.append(p2.as_str());
    s.append(".");
    let p3 = u64_to_string(ip[3] as u64);
    s.append(p3.as_str());
    assert(s@ =~= ip_text(ip@));
    s
}

impl Config {
    /// The name of the configuration.
    pub fn name(&self) -> (r: String)
        ensures
            r@ == match self {
                Config::Shaoooh(_) => "Shaoooh ショオーッ"@,
                Config::Bishaan(_) => "Bishaan ビシアーン"@,
                Config::Ditto => "Ditto メタモン"@,
            },
    {
        match self {
            Config::Shaoooh(..) => String::from_str("Shaoooh ショオーッ"),
            Config::Bishaan(..) => String::from_str("Bishaan ビシアーン"),
            Config::Ditto => String::from_str("Ditto メタモン"),
        }
    }

    /// The name of the configuration with the hardware it is set up for.
    pub fn info(&self) -> (r: String)
        ensures
            r@ == match self {
                Config::Shaoooh(cfg) => "Shaoooh ショオーッ : Video("@ + cfg.video_view() + ") Control("@
                    + cfg.control_view() + ")"@,
                Config::Bishaan(ip) => "Bishaan ビシアーン : IP("@ + ip_text(ip@) + ")"@,
                Config::Ditto => "Ditto メタモン : Metamon"@,
            },
    {
        match self {
            Config::Shaoooh(cfg) => {
                let mut s = String::from_str("Shaoooh ショオーッ : Video(");
                s.append(cfg.video());
                s.append(") Control(");
                s.append(cfg.control());
                s.append(")");
                s
            },
            Config::Bishaan(ip) => {
                let mut s = String::from_str("Bishaan ビシアーン : IP(");
                let ips = ip_to_string(ip);
                s.append(ips.as_str());
                s.append(")");
                s
            },
            Config::Ditto => String::from_str("Ditto メタモン : Metamon"),
        }
    }

    /// A short description of the hardware.
    pub fn description(&self) -> (r: String)
        ensures
            r@ == match self {
                Config::Shaoooh(_) => "DS-Lite with video mod"@,
                Config::Bishaan(_) => "New 2DS XL"@,
                Config::Ditto => "Test configuration"@,
            },
    {
        match self {
            Config::Shaoooh(_) => String::from_str("DS-Lite with video mod"),
            Config::Bishaan(_) => String::from_str("New 2DS XL"),
            Config::Ditto => String::from_str("Test configuration"),
        }
    }

    /// The emoji that stands for the configuration.
    pub fn emoji(&self) -> (r: String)
        ensures
            r@ == match self {
                Config::Shaoooh(_) => "🐦‍🔥"@,
                Config::Bishaan(_) => "👾"@,
                Config::Ditto => "🍙"@,
            },
    {
        match self {
            Config::Shaoooh(_) => String::from_str("🐦‍🔥"),
            Config::Bishaan(_) => String::from_str("👾"),
            Config::Ditto => String::from_str("🍙"),
        }
    }
}

} // verus!
