//! What the status displays show: the light ring, the small serial screen,
//! and the push notifications.
use vstd::prelude::*;
use crate::app::control::AppState;
use crate::app::error::ShaooohError;
use crate::app::states::{Game, HuntState};
use crate::text::{decimal, u64_to_string};

verus! {

/// The colour of one light: red, green, blue and white levels.
#[derive(Clone, Copy, Debug, PartialEq, Eq, Structural)]
pub struct PixelData {
    pub r: u8,
    pub g: u8,
    pub b: u8,
    pub w: u8,
}

/// The bytes the light driver takes for the lights, four per light in the
/// order white, blue, red, green.
pub open spec fn pixel_bytes_spec(data: Seq<PixelData>) -> Seq<u8>
    decreases data.len(),
{
    if data.len() == 0 {
        Seq::empty()
    } else {
        pixel_bytes_spec(data.drop_last()) + seq![data.last().w, data.last().b, data.last().r, data.last().g]
    }
}

/// The bytes the light driver takes for `data`.
pub fn pixel_bytes(data: &Vec<PixelData>) -> (r: Vec<u8>)
    ensures
        r@ == pixel_bytes_spec(data@),
{
    let mut out: Vec<u8> = Vec::new();
    let mut i: usize = 0;
    while i < data.len()
        invariant
            i <= data.len(),
            out@ == pixel_bytes_spec(data@.subrange(0, i as int)),
        decreases data.len() - i,
    {
        let d = data[i];
        out.push(d.w);
        out.push(d.b);
        out.push(d.r);
        out.push(d.g);
        assert(data@.subrange(0, i + 1).drop_last() =~= data@.subrange(0, i as int));
        i = i + 1;
        assert(out@ =~= pixel_bytes_spec(data@.subrange(0, i as int)));
    }
    assert(data@.subrange(0, data.len() as int) =~= data@);
    out
}

/// The level of light `n` (1 to 6) of the ring when the bright spot is at
/// step `k`: `hi` on it, `mid` and `lo` on the two behind it.
pub open spec fn ring_level(k: int, n: int, hi: u8, mid: u8, lo: u8) -> u8 {
    if (k + 6) % 6 == n - 1 {
        hi
    } else if (k + 5) % 6 == n - 1 {
        mid
    } else if (k + 4) % 6 == n - 1 {
        lo
    } else {
        0
    }
}

/// A light that is off.
pub open spec fn dark() -> PixelData {
    PixelData { r: 0, g: 0, b: 0, w: 0 }
}

/// The lights for a state: all off when idle; a red spot running round the
/// ring with the encounters while hunting; in a found state, the middle lit
/// and a spot running round with the frames, green for the target and blue
/// otherwise.
pub open spec fn lights_frame(state: HuntState, anim: u64, encounters: u64) -> Seq<PixelData> {
    if state == HuntState::Idle {
        Seq::new(7, |i: int| dark())
    } else if state == HuntState::Hunt {
        seq![dark()] + Seq::new(6, |i: int| PixelData { r: ring_level(encounters as int, i + 1, 60, 25, 10), ..dark() })
    } else if state == HuntState::FoundTarget {
        seq![PixelData { g: 50, ..dark() }] + Seq::new(6, |i: int| PixelData { g: ring_level(anim as int, i + 1, 60, 10, 5), ..dark() })
    } else {
        seq![PixelData { b: 50, ..dark() }] + Seq::new(6, |i: int| PixelData { b: ring_level(anim as int, i + 1, 60, 10, 5), ..dark() })
    }
}

fn ring(k: u64, n: u64, hi: u8, mid: u8, lo: u8) -> (r: u8)
    requires
        k + 6 <= u64::MAX,
        1 <= n <= 6,
    ensures
        r == ring_level(k as int, n as int, hi, mid, lo),
{
    if (k + 6) % 6 == n - 1 {
        hi
    } else if (k + 5) % 6 == n - 1 {
        mid
    } else if (k + 4) % 6 == n - 1 {
        lo
    } else {
        0
    }
}

/// The light ring, with the step of its animation.
pub struct LightsDisplay {
    pub anim: u64,
}

impl LightsDisplay {
    /// A ring at the first step of its animation.
    pub fn default() -> (r: Self)
        ensures
            r.anim == 0,
    {
        LightsDisplay { anim: 0 }
    }

    /// The lights to show for the state; the animation moves on one step in
    /// a found state.
    pub fn frame(&mut self, state: HuntState, encounters: u64) -> (r: Vec<PixelData>)
        requires
            state == HuntState::FoundTarget || state == HuntState::FoundNonTarget ==> old(self).anim + 6 <= u64::MAX,
            state == HuntState::Hunt ==> encounters + 6 <= u64::MAX,
        ensures
            r@ == lights_frame(state, old(self).anim, encounters),
            final(self).anim == if state == HuntState::Idle || state == HuntState::Hunt {
                old(self).anim
            } else {
                (old(self).anim + 1) as u64
            },
    {
        let mut data: Vec<PixelData> = Vec::new();
        if state == HuntState::Idle {
            let mut n: u64 = 0;
            while n < 7
                invariant
                    n <= 7,
                    data@ == Seq::new(n as nat, |i: int| dark()),
                decreases 7 - n,
            {
                data.push(PixelData { r: 0, g: 0, b: 0, w: 0 });
                n = n + 1;
                assert(data@ =~= Seq::new(n as nat, |i: int| dark()));
            }
            return data;
        }
        let target = state == HuntState::FoundTarget;
        let hunting = state == HuntState::Hunt;
        let first = if hunting {
            PixelData { r: 0, g: 0, b: 0, w: 0 }
        } else if target {
            PixelData { r: 0, g: 50, b: 0, w: 0 }
        } else {
            PixelData { r: 0, g: 0, b: 50, w: 0 }
        };
        data.push(first);
        let ghost rest = lights_frame(state, self.anim, encounters).drop_first();
        let mut n: u64 = 1;
        while n < 7
            invariant
                1 <= n <= 7,
                !hunting ==> self.anim + 6 <= u64::MAX,
                hunting ==> encounters + 6 <= u64::MAX,
                hunting == (state == HuntState::Hunt),
                target == (state == HuntState::FoundTarget),
                state != HuntState::Idle,
                rest == lights_frame(state, self.anim, encounters).drop_first(),
                data@ == seq![first] + rest.subrange(0, n - 1),
            decreases 7 - n,
        {
            let p = if hunting {
                PixelData { r: ring(encounters, n, 60, 25, 10), g: 0, b: 0, w: 0 }
            } else if target {
                PixelData { r: 0, g: ring(self.anim, n, 60, 10, 5), b: 0, w: 0 }
            } else {
                PixelData { r: 0, g: 0, b: ring(self.anim, n, 60, 10, 5), w: 0 }
            };
            assert(p == rest[n - 1]);
            data.push(p);
            n = n + 1;
            assert(data@ =~= seq![first] + rest.subrange(0, n - 1));
        }
        assert(data@ =~= lights_frame(state, self.anim, encounters));
        if !hunting {
            self.anim = self.anim + 1;
        }
        data
    }
}

/// The small serial screen, with what it shows.
pub struct GfxDisplay {
    pub last_target: u32,
    pub last_encounters: u64,
}

/// The command that shows an encounter count.
pub open spec fn encounters_command(n: u64) -> Seq<char> {
    "E"@ + decimal(n as nat) + "e"@
}

/// The command that shows a target species.
pub open spec fn target_command(t: u32) -> Seq<char> {
    "T"@ + decimal(t as nat) + "e"@
}

/// The commands that bring a screen last showing `last_encounters` and
/// `last_target` up to date: one for each that changed, count first.
pub open spec fn gfx_commands(last_encounters: u64, last_target: u32, encounters: u64, target: Option<u32>) -> Seq<Seq<char>> {
    (if encounters != last_encounters {
        seq![encounters_command(encounters)]
    } else {
        Seq::empty()
    }) + match target {
        Some(t) => if t != last_target { seq![target_command(t)] } else { Seq::empty() },
        None => Seq::empty(),
    }
}

impl GfxDisplay {
    /// A screen showing no count and no target.
    pub fn default() -> (r: Self)
        ensures
            r.last_target == 0,
            r.last_encounters == 0,
    {
        GfxDisplay { last_target: 0, last_encounters: 0 }
    }

    /// The commands that bring the screen up to date with the encounter
    /// count and the target species: one for each that changed, count
    /// first.
    pub fn update(&mut self, encounters: u64, target: Option<u32>) -> (r: Vec<String>)
        ensures
            r@.map_values(|s: String| s@) == gfx_commands(old(self).last_encounters, old(self).last_target, encounters, target),
            final(self).last_encounters == encounters,
            final(self).last_target == match target {
                Some(t) => t,
                None => old(self).last_target,
            },
    {
        proof {
            reveal_strlit("E");
            reveal_strlit("T");
            reveal_strlit("e");
        }
        let mut out: Vec<String> = Vec::new();
        let ghost first: Seq<Seq<char>> = if encounters != self.last_encounters {
            seq![encounters_command(encounters)]
        } else {
            Seq::empty()
        };
        if encounters != self.last_encounters {
            let mut s = String::from_str("E");
            let d = u64_to_string(encounters);
            s.append(d.as_str());
            s.append("e");
            out.push(s);
            self.last_encounters = encounters;
        }
        assert(out@.map_values(|s: String| s@) =~= first);
        match target {
            Some(t) => {
                if t != self.last_target {
                    let mut s = String::from_str("T");
                    let d = u64_to_string(t as u64);
                    s.append(d.as_str());
                    s.append("e");
                    out.push(s);
                    self.last_target = t;
                    assert(out@.map_values(|s: String| s@) =~= first + seq![target_command(t)]);
                } else {
                    assert(out@.map_values(|s: String| s@) =~= first + Seq::<Seq<char>>::empty());
                }
            },
            None => {
                assert(out@.map_values(|s: String| s@) =~= first + Seq::<Seq<char>>::empty());
            },
        }
        out
    }
}

/// Showing the same count and target again sends nothing: after an update
/// the screen is up to date with what it was given.
pub proof fn law_gfx_repeat_is_silent(last_target: u32, encounters: u64, target: Option<u32>)
    ensures
        gfx_commands(
            encounters,
            match target { Some(t) => t, None => last_target },
            encounters,
            target,
        ) == Seq::<Seq<char>>::empty(),
{
    assert(gfx_commands(encounters, match target { Some(t) => t, None => last_target }, encounters, target)
        =~= Seq::<Seq<char>>::empty());
}

/// The name `Debug` gives a hunt state.
pub open spec fn state_name(s: HuntState) -> Seq<char> {
    match s {
        HuntState::Idle => "Idle"@,
        HuntState::Hunt => "Hunt"@,
        HuntState::FoundNonTarget => "FoundNonTarget"@,
        HuntState::FoundTarget => "FoundTarget"@,
    }
}

fn state_str(s: HuntState) -> (r: &'static str)
    ensures
        r@ == state_name(s),
{
    match s {
        HuntState::Idle => "Idle",
        HuntState::Hunt => "Hunt",
        HuntState::FoundNonTarget => "FoundNonTarget",
        HuntState::FoundTarget => "FoundTarget",
    }
}

/// A notification: its title and text, the sprite to attach (game,
/// species, shiny or not), and whether it is worth sending.
pub struct StatusMessage {
    pub title: String,
    pub message: String,
    pub game: Game,
    pub species: u32,
    pub shiny: bool,
    pub send: bool,
}

/// Pushes the state of the hunt to the user's phone.
pub struct Webhook {}

impl Webhook {
    /// The notification for the state of a hunt named `name`: an alert in a
    /// found state, showing the species found, else a status, showing the
    /// target; sent in a found state and every 64 encounters. `None` when
    /// no hunt was ever started.
    pub fn status(state: &AppState, name: &str) -> (r: Option<StatusMessage>)
        ensures
            match state@.arg {
                None => r is None,
                Some(arg) => r matches Some(m) && {
                    let interesting = state.state != HuntState::Idle && state.state != HuntState::Hunt;
                    &&& m.title@ == name@ + if interesting { " Alert"@ } else { " Status"@ }
                    &&& m.message@ == "State = "@ + state_name(state.state) + ", No. encounters = "@
                        + decimal(state.encounters as nat)
                    &&& m.game == arg.game
                    &&& m.species == if state.state == HuntState::FoundNonTarget { state.last_phase } else { arg.species }
                    &&& m.shiny == interesting
                    &&& m.send == (interesting || (state.encounters % 64 == 0 && state.encounters != 0))
                },
            },
    {
        match &state.arg {
            None => None,
            Some(arg) => {
                let interesting = state.state != HuntState::Idle && state.state != HuntState::Hunt;
                let species = if state.state == HuntState::FoundNonTarget { state.last_phase } else { arg.species };
                let mut title = String::from_str(name);
                title.append(if interesting { " Alert" } else { " Status" });
                let mut message = String::from_str("State = ");
                message.append(state_str(state.state));
                message.append(", No. encounters = ");
                let n = u64_to_string(state.encounters);
                message.append(n.as_str());
                let send = interesting || (state.encounters % 64 == 0 && state.encounters != 0);
                Some(StatusMessage { title, message, game: arg.game, species, shiny: interesting, send })
            },
        }
    }

    /// The title and text of the notification of an error in the hunt
    /// named `name`.
    pub fn error(err: &ShaooohError, name: &str) -> (r: (String, String))
        ensures
            r.0@ == name@ + " Error"@,
            r.1@ == "ERROR = "@ + match err {
                ShaooohError::CommunicationError => "Communication Error"@,
                ShaooohError::UnexpectedEndOfLoop => "Unexpected End of Loop"@,
                ShaooohError::ProcessingError => "Processing Error"@,
            },
    {
        let mut title = String::from_str(name);
        title.append(" Error");
        let mut message = String::from_str("ERROR = ");
        let m = err.message();
        message.append(m.as_str());
        (title, message)
    }
}

} // verus!
