//! The text commands of the DS button presser: `q`, a button letter and `1`
//! to press it, `0` to release it, with a hold command in between.
use vstd::prelude::*;
use crate::control::{Button, Delay};

verus! {

/// The letter of a button, for the buttons the presser has.
pub open spec fn button_letter(b: Button) -> Option<char> {
    match b {
        Button::A => Some('A'),
        Button::B => Some('B'),
        Button::X => Some('X'),
        Button::Y => Some('Y'),
        Button::Start => Some('S'),
        Button::Select => Some('s'),
        Button::L => Some('L'),
        Button::R => Some('R'),
        Button::Left => Some('l'),
        Button::Right => Some('r'),
        Button::Up => Some('u'),
        Button::Down => Some('d'),
        Button::Home => Some('h'),
        _ => None,
    }
}

/// The command that presses (`down`) or releases a button; nothing for a
/// button the presser does not have.
pub open spec fn button_text(b: Button, down: bool) -> Seq<char> {
    match button_letter(b) {
        Some(c) => seq!['q', c, if down { '1' } else { '0' }],
        None => Seq::empty(),
    }
}

/// The command that holds the buttons for a press length.
pub open spec fn delay_text(d: Delay) -> Seq<char> {
    seq!['q', match d {
        Delay::Half => 'P',
        Delay::Sec => 'M',
        Delay::Tenth => 'p',
        Delay::Twentieth => 'm',
    }]
}

/// The commands that press (or release) each button in turn.
pub open spec fn buttons_text(bs: Seq<Button>, down: bool) -> Seq<char>
    decreases bs.len(),
{
    if bs.len() == 0 {
        Seq::empty()
    } else {
        buttons_text(bs.drop_last(), down) + button_text(bs.last(), down)
    }
}

/// Whether the buttons make the soft-reset chord A+B+Select+Start.
pub open spec fn is_reset_chord(bs: Seq<Button>) -> bool {
    bs.contains(Button::A) && bs.contains(Button::B) && bs.contains(Button::Select) && bs.contains(Button::Start)
}

/// The commands for one press of the buttons: the presser's own soft-reset
/// command for the reset chord, else every button down, the hold, and every
/// button up.
pub open spec fn control_text(bs: Seq<Button>, d: Delay) -> Seq<char> {
    if is_reset_chord(bs) {
        seq!['q', '!', '1', 'q', 'p', 'q', '!', '0']
    } else {
        buttons_text(bs, true) + delay_text(d) + buttons_text(bs, false)
    }
}

fn letter(b: &Button) -> (r: Option<&'static str>)
    ensures
        match button_letter(*b) {
            Some(c) => r matches Some(s) && s@ == seq![c],
            None => r is None,
        },
{
    proof {
        reveal_strlit("A");
        reveal_strlit("B");
        reveal_strlit("X");
        reveal_strlit("Y");
        reveal_strlit("S");
        reveal_strlit("s");
        reveal_strlit("L");
        reveal_strlit("R");
        reveal_strlit("l");
        reveal_strlit("r");
        reveal_strlit("u");
        reveal_strlit("d");
        reveal_strlit("h");
    }
    match b {
        Button::A => Some("A"),
        Button::B => Some("B"),
        Button::X => Some("X"),
        Button::Y => Some("Y"),
        Button::Start => Some("S"),
        Button::Select => Some("s"),
        Button::L => Some("L"),
        Button::R => Some("R"),
        Button::Left => Some("l"),
        Button::Right => Some("r"),
        Button::Up => Some("u"),
        Button::Down => Some("d"),
        Button::Home => Some("h"),
        _ => None,
    }
}

/// The command that presses (`down`) or releases `button`.
pub fn get_button_str(button: &Button, down: bool) -> (r: String)
    ensures
        r@ == button_text(*button, down),
{
    proof {
        reveal_strlit("q");
        reveal_strlit("1");
        reveal_strlit("0");
    }
    match letter(button) {
        Some(l) => {
            let mut s = String::from_str("q");
            s.append(l);
            s.append(if down { "1" } else { "0" });
            assert(s@ =~= button_text(*button, down));
            s
        },
        None => {
            let s = String::new();
            assert(s@ =~= button_text(*button, down));
            s
        },
    }
}

/// The command that holds the buttons for `delay`.
pub fn get_delay_str(delay: &Delay) -> (r: String)
    ensures
        r@ == delay_text(*delay),
{
    proof {
        reveal_strlit("qP");
        reveal_strlit("qM");
        reveal_strlit("qp");
        reveal_strlit("qm");
    }
    let s = match delay {
        Delay::Half => String::from_str("qP"),
        Delay::Sec => String::from_str("qM"),
        Delay::Tenth => String::from_str("qp"),
        Delay::Twentieth => String::from_str("qm"),
    };
    assert(s@ =~= delay_text(*delay));
    s
}

fn holds(bs: &[Button], b: Button) -> (r: bool)
    ensures
        r == bs@.contains(b),
{
    let mut i: usize = 0;
    while i < bs.len()
        invariant
            i <= bs.len(),
            forall|j: int| 0 <= j < i ==> bs@[j] != b,
        decreases bs.len() - i,
    {
        if bs[i] == b {
            assert(bs@[i as int] == b);
            return true;
        }
        i = i + 1;
    }
    false
}

fn append_buttons(s: &mut String, bs: &[Button], down: bool)
    ensures
        final(s)@ == old(s)@ + buttons_text(bs@, down),
{
    let mut i: usize = 0;
    while i < bs.len()
        invariant
            i <= bs.len(),
            s@ == old(s)@ + buttons_text(bs@.subrange(0, i as int), down),
        decreases bs.len() - i,
    {
        let t = get_button_str(&bs[i], down);
        s.append(t.as_str());
        assert(bs@.subrange(0, i + 1).drop_last() =~= bs@.subrange(0, i as int));
        i = i + 1;
        assert(s@ =~= old(s)@ + buttons_text(bs@.subrange(0, i as int), down));
    }
    assert(bs@.subrange(0, bs.len() as int) =~= bs@);
}

/// The commands for one press of `buttons` held for `delay`.
pub fn control_string(buttons: &[Button], delay: &Delay) -> (r: String)
    ensures
        r@ == control_text(buttons@, *delay),
{
    if holds(buttons, Button::A) && holds(buttons, Button::B) && holds(buttons, Button::Select)
        && holds(buttons, Button::Start) {
        proof {
            reveal_strlit("q!1qpq!0");
        }
        let s = String::from_str("q!1qpq!0");
        assert(s@ =~= control_text(buttons@, *delay));
        s
    } else {
        let mut s = String::new();
        append_buttons(&mut s, buttons, true);
        let d = get_delay_str(delay);
        s.append(d.as_str());
        append_buttons(&mut s, buttons, false);
        assert(s@ =~= control_text(buttons@, *delay));
        s
    }
}

/// The name of a button, as `Debug` writes it (without the position of a
/// circle-pad or touch input).
pub open spec fn button_name(b: Button) -> Seq<char> {
    match b {
        Button::A => "A"@,
        Button::B => "B"@,
        Button::X => "X"@,
        Button::Y => "Y"@,
        Button::Start => "Start"@,
        Button::Select => "Select"@,
        Button::L => "L"@,
        Button::R => "R"@,
        Button::Left => "Left"@,
        Button::Right => "Right"@,
        Button::Up => "Up"@,
        Button::Down => "Down"@,
        Button::Home => "Home"@,
        Button::ZL => "ZL"@,
        Button::ZR => "ZR"@,
        Button::Circle(_, _) => "Circle"@,
        Button::Touch(_, _) => "Touch"@,
    }
}

/// The lower-case form of an ASCII capital letter; other characters as
/// they are.
pub open spec fn lower_case(c: char) -> char {
    if 'A' <= c && c <= 'Z' { ((c as u32) + 32) as char } else { c }
}

/// Whether the presser writes the button's letter in lower case: the
/// directions, Select and Home.
pub open spec fn lower_case_button(b: Button) -> bool {
    b == Button::Left || b == Button::Right || b == Button::Up || b == Button::Down
        || b == Button::Select || b == Button::Home
}

/// The presser has every button of a DS but the shoulder triggers, circle
/// pad and touch screen; the letter of each is the initial of its name,
/// in lower case for the directions, Select and Home. So no two buttons
/// share a letter, and the command of a press names the button pressed.
pub proof fn law_button_letters_are_initials(b: Button, c: Button)
    ensures
        (button_letter(b) is Some) == !(b == Button::ZL || b == Button::ZR || b is Circle || b is Touch),
        button_letter(b) matches Some(l) ==> l == if lower_case_button(b) {
            lower_case(button_name(b)[0])
        } else {
            button_name(b)[0]
        },
        button_letter(b) is Some && button_letter(b) == button_letter(c) ==> b == c,
        button_letter(b) is Some ==> button_text(b, true) == seq!['q', button_letter(b)->0, '1'],
{
    reveal_strlit("A");
    reveal_strlit("B");
    reveal_strlit("X");
    reveal_strlit("Y");
    reveal_strlit("Start");
    reveal_strlit("Select");
    reveal_strlit("L");
    reveal_strlit("R");
    reveal_strlit("Left");
    reveal_strlit("Right");
    reveal_strlit("Up");
    reveal_strlit("Down");
    reveal_strlit("Home");
    reveal_strlit("ZL");
    reveal_strlit("ZR");
    reveal_strlit("Circle");
    reveal_strlit("Touch");
}

} // verus!
