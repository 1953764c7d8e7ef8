//! Buttons, press lengths, and the interface through which presses reach a
//! console.
use vstd::prelude::*;

pub mod bishaan;
pub mod gyaaas;

verus! {

/// A button or input of the consoles. `Circle` is a circle-pad position and
/// `Touch` a touch-screen position.
#[derive(Clone, Copy, Debug, PartialEq, Eq, Structural)]
pub enum Button {
    A,
    B,
    X,
    Y,
    Start,
    Select,
    L,
    R,
    Left,
    Right,
    Up,
    Down,
    Home,
    ZL,
    ZR,
    Circle(u16, u16),
    Touch(u16, u16),
}

/// How long a press is held.
#[derive(Clone, Copy, Debug, PartialEq, Eq, Structural)]
pub enum Delay {
    Twentieth,
    Tenth,
    Half,
    Sec,
}

/// A press as made on a console: the buttons pressed together, and how long
/// they are held (`None`: the control's own default length).
pub struct PressRecord {
    pub buttons: Seq<Button>,
    pub delay: Option<Delay>,
}

/// Something that can press buttons on a console.
pub trait BotControl {
    /// Whether the control keeps account of its presses in `pressed`. One
    /// that does not (the default) promises nothing of `pressed`.
    open spec fn keeps_account(&self) -> bool {
        false
    }

    /// The presses made through this control so far, oldest first, where
    /// the control keeps account of them.
    open spec fn pressed(&self) -> Seq<PressRecord> {
        Seq::empty()
    }

    /// Presses one button for the default length.
    fn press(&mut self, button: &Button)
        ensures
            final(self).keeps_account() == old(self).keeps_account(),
            old(self).keeps_account() ==> final(self).pressed() == old(self).pressed().push(PressRecord { buttons: seq![*button], delay: None }),
    ;

    /// Presses several buttons together for `delay`.
    fn presses_delay(&mut self, buttons: &[Button], delay: &Delay)
        ensures
            final(self).keeps_account() == old(self).keeps_account(),
            old(self).keeps_account() ==> final(self).pressed() == old(self).pressed().push(PressRecord { buttons: buttons@, delay: Some(*delay) }),
    ;

    /// Presses one button for `delay`.
    fn press_delay(&mut self, button: &Button, delay: &Delay)
        ensures
            final(self).keeps_account() == old(self).keeps_account(),
            old(self).keeps_account() ==> final(self).pressed() == old(self).pressed().push(PressRecord { buttons: seq![*button], delay: Some(*delay) }),
    ;
}

/// A control that presses nothing on any console; it only keeps account of
/// what it was asked to press.
pub struct NopControl {
    log: Ghost<Seq<PressRecord>>,
}

impl NopControl {
    /// A control that has pressed nothing yet.
    pub fn new() -> (r: NopControl)
        ensures
            r.pressed() == Seq::<PressRecord>::empty(),
    {
        NopControl { log: Ghost(Seq::empty()) }
    }
}

impl BotControl for NopControl {
    open spec fn keeps_account(&self) -> bool {
        true
    }

    closed spec fn pressed(&self) -> Seq<PressRecord> {
        self.log@
    }

    fn press(&mut self, button: &Button) {
        self.log = Ghost(self.log@.push(PressRecord { buttons: seq![*button], delay: None }));
    }

    fn presses_delay(&mut self, buttons: &[Button], delay: &Delay) {
        self.log = Ghost(self.log@.push(PressRecord { buttons: buttons@, delay: Some(*delay) }));
    }

    fn press_delay(&mut self, button: &Button, delay: &Delay) {
        self.log = Ghost(self.log@.push(PressRecord { buttons: seq![*button], delay: Some(*delay) }));
    }
}

} // verus!
