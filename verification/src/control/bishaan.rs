//! The 3DS input-redirection packet: which buttons are held, where the
//! touch screen and the circle pad are pressed, and the extra buttons of the
//! New 3DS, as the console's input server reads them.
use vstd::prelude::*;
use crate::control::{Button, Delay};
use crate::vision::ntr::{le_bytes, push_le};
use vstd::arithmetic::power2::{pow2, lemma2_to64};

verus! {

/// The width of the touch screen in pixels.
pub const TOUCH_SCREEN_WIDTH: u32 = 320;

/// The height of the touch screen in pixels.
pub const TOUCH_SCREEN_HEIGHT: u32 = 240;

/// `bit` when `b` is among the buttons, else 0.
pub open spec fn if_held(bs: Seq<Button>, b: Button, bit: u32) -> int {
    if bs.contains(b) { bit as int } else { 0 }
}

/// The pad word: all twelve button bits set, less those of the held
/// buttons.
pub open spec fn pad_word(bs: Seq<Button>) -> u32 {
    (0xfff - if_held(bs, Button::A, 0x1) - if_held(bs, Button::B, 0x2) - if_held(bs, Button::Select, 0x4)
        - if_held(bs, Button::Start, 0x8) - if_held(bs, Button::Right, 0x10) - if_held(bs, Button::Left, 0x20)
        - if_held(bs, Button::Up, 0x40) - if_held(bs, Button::Down, 0x80) - if_held(bs, Button::R, 0x100)
        - if_held(bs, Button::L, 0x200) - if_held(bs, Button::X, 0x400) - if_held(bs, Button::Y, 0x800)) as u32
}

/// The interface word: bit 0 for Home.
pub open spec fn intf_word(bs: Seq<Button>) -> u32 {
    if bs.contains(Button::Home) { 1 } else { 0 }
}

/// The C-stick and shoulder word: its resting value with the ZL and ZR bits
/// added.
pub open spec fn cpp_word(bs: Seq<Button>) -> u32 {
    (0x80800081 + if_held(bs, Button::ZL, 0x400) + if_held(bs, Button::ZR, 0x200)) as u32
}

/// The first circle-pad position among the buttons, if any.
pub open spec fn first_circle(bs: Seq<Button>) -> Option<(u16, u16)>
    decreases bs.len(),
{
    if bs.len() == 0 {
        None
    } else {
        match bs[0] {
            Button::Circle(x, y) => Some((x, y)),
            _ => first_circle(bs.drop_first()),
        }
    }
}

/// The first touch-screen position among the buttons, if any.
pub open spec fn first_touch(bs: Seq<Button>) -> Option<(u16, u16)>
    decreases bs.len(),
{
    if bs.len() == 0 {
        None
    } else {
        match bs[0] {
            Button::Touch(x, y) => Some((x, y)),
            _ => first_touch(bs.drop_first()),
        }
    }
}

/// The circle-pad word: the first position given, each coordinate scaled
/// by 16, x in the low 12 bits and y shifted up by 12 (bits beyond 32
/// dropped); the centre `0x7ff7ff` when none is given.
pub open spec fn circle_word(bs: Seq<Button>) -> u32 {
    match first_circle(bs) {
        Some((x, y)) => ((x as u32) * 16) as u32 | ((((y as u32) * 16) as u32) << 12u32),
        None => 0x7ff7ff,
    }
}

/// A touch coordinate scaled from `0..=size` pixels to `0..=0xfff`, clamped
/// at the screen's edge.
pub open spec fn touch_scale(v: u16, size: u32) -> int {
    (0xfff * (if (v as u32) < size { v as int } else { size as int })) / (size as int)
}

/// The touch-screen word: bit 24 set, y in bits 12 to 23 and x in the low
/// 12 bits, for the first position given; `0x2000000` when none is given.
pub open spec fn touch_word(bs: Seq<Button>) -> u32 {
    match first_touch(bs) {
        Some((x, y)) => (0x1000000 + touch_scale(y, TOUCH_SCREEN_HEIGHT) * 4096
            + touch_scale(x, TOUCH_SCREEN_WIDTH)) as u32,
        None => 0x2000000,
    }
}

/// The 20-byte packet: pad, touch, circle, C-stick and interface words,
/// each little-endian.
pub open spec fn input_packet(bs: Seq<Button>) -> Seq<u8> {
    le_bytes(pad_word(bs)) + le_bytes(touch_word(bs)) + le_bytes(circle_word(bs)) + le_bytes(cpp_word(bs))
        + le_bytes(intf_word(bs))
}

fn holds(bs: &[Button], b: Button) -> (r: bool)
    ensures
        r == bs@.contains(b),
{
    let mut i: usize = 0;
    while i < bs.len()
        invariant
            i <= bs.len(),
            forall|j: int| 0 <= j < i ==> bs@[j] != b,
        decreases bs.len() - i,
    {
        if bs[i] == b {
            assert(bs@[i as int] == b);
            return true;
        }
        i = i + 1;
    }
    false
}

fn held_bit(bs: &[Button], b: Button, bit: u32) -> (r: u32)
    ensures
        r == if_held(bs@, b, bit),
{
    if holds(bs, b) { bit } else { 0 }
}

/// The pad word of the held buttons.
pub fn get_pad(buttons: &[Button]) -> (r: u32)
    ensures
        r == pad_word(buttons@),
{
    0xfff - held_bit(buttons, Button::A, 0x1) - held_bit(buttons, Button::B, 0x2)
        - held_bit(buttons, Button::Select, 0x4) - held_bit(buttons, Button::Start, 0x8)
        - held_bit(buttons, Button::Right, 0x10) - held_bit(buttons, Button::Left, 0x20)
        - held_bit(buttons, Button::Up, 0x40) - held_bit(buttons, Button::Down, 0x80)
        - held_bit(buttons, Button::R, 0x100) - held_bit(buttons, Button::L, 0x200)
        - held_bit(buttons, Button::X, 0x400) - held_bit(buttons, Button::Y, 0x800)
}

/// The interface word of the held buttons.
pub fn get_intf(buttons: &[Button]) -> (r: u32)
    ensures
        r == intf_word(buttons@),
{
    if holds(buttons, Button::Home) { 1 } else { 0 }
}

/// The C-stick and shoulder word of the held buttons.
pub fn get_cpp(buttons: &[Button]) -> (r: u32)
    ensures
        r == cpp_word(buttons@),
{
    0x80800081 + held_bit(buttons, Button::ZL, 0x400) + held_bit(buttons, Button::ZR, 0x200)
}

fn find_circle(bs: &[Button]) -> (r: Option<(u16, u16)>)
    ensures
        r == first_circle(bs@),
{
    let mut i: usize = 0;
    assert(bs@.subrange(0, bs@.len() as int) =~= bs@);
    while i < bs.len()
        invariant
            i <= bs.len(),
            first_circle(bs@) == first_circle(bs@.subrange(i as int, bs.len() as int)),
        decreases bs.len() - i,
    {
        let ghost rest = bs@.subrange(i as int, bs.len() as int);
        match bs[i] {
            Button::Circle(x, y) => {
                assert(rest[0] == bs@[i as int]);
                return Some((x, y));
            },
            _ => {},
        }
        assert(rest.drop_first() =~= bs@.subrange(i + 1, bs.len() as int));
        i = i + 1;
    }
    None
}

fn find_touch(bs: &[Button]) -> (r: Option<(u16, u16)>)
    ensures
        r == first_touch(bs@),
{
    let mut i: usize = 0;
    assert(bs@.subrange(0, bs@.len() as int) =~= bs@);
    while i < bs.len()
        invariant
            i <= bs.len(),
            first_touch(bs@) == first_touch(bs@.subrange(i as int, bs.len() as int)),
        decreases bs.len() - i,
    {
        let ghost rest = bs@.subrange(i as int, bs.len() as int);
        match bs[i] {
            Button::Touch(x, y) => {
                assert(rest[0] == bs@[i as int]);
                return Some((x, y));
            },
            _ => {},
        }
        assert(rest.drop_first() =~= bs@.subrange(i + 1, bs.len() as int));
        i = i + 1;
    }
    None
}

/// The circle-pad word of the held buttons.
pub fn get_circle(buttons: &[Button]) -> (r: u32)
    ensures
        r == circle_word(buttons@),
{
    assert(buttons@.subrange(0, buttons@.len() as int) =~= buttons@);
    match find_circle(buttons) {
        Some((x, y)) => {
            let x32: u32 = (x as u32) * 16;
            let y32: u32 = (y as u32) * 16;
            x32 | (y32 << 12u32)
        },
        None => 0x7ff7ff,
    }
}

fn scale(v: u16, size: u32) -> (r: u32)
    requires
        size == TOUCH_SCREEN_WIDTH || size == TOUCH_SCREEN_HEIGHT,
    ensures
        r == touch_scale(v, size),
        r <= 0xfff,
{
    let c: u32 = if (v as u32) < size { v as u32 } else { size };
    assert(0xfff * c <= 0xfff * size) by (nonlinear_arith)
        requires c <= size;
    assert((0xfff * c) / (size as int) <= 0xfff) by (nonlinear_arith)
        requires c <= size, size > 0;
    (0xfff * c) / size
}

/// The touch-screen word of the held buttons.
pub fn get_touch(buttons: &[Button]) -> (r: u32)
    ensures
        r == touch_word(buttons@),
{
    assert(buttons@.subrange(0, buttons@.len() as int) =~= buttons@);
    match find_touch(buttons) {
        Some((x, y)) => {
            let x32 = scale(x, TOUCH_SCREEN_WIDTH);
            let y32 = scale(y, TOUCH_SCREEN_HEIGHT);
            0x1000000 + y32 * 4096 + x32
        },
        None => 0x2000000,
    }
}

/// The input-redirection packet for the held buttons.
pub fn get_buf(buttons: &[Button]) -> (r: Vec<u8>)
    ensures
        r@ == input_packet(buttons@),
        r@.len() == 20,
{
    let mut buf: Vec<u8> = Vec::new();
    push_le(&mut buf, get_pad(buttons));
    push_le(&mut buf, get_touch(buttons));
    push_le(&mut buf, get_circle(buttons));
    push_le(&mut buf, get_cpp(buttons));
    push_le(&mut buf, get_intf(buttons));
    assert(buf@ =~= input_packet(buttons@));
    buf
}

/// How long a press is held, and then released, on the 3DS, in ms; short
/// presses are lengthened to 200 ms, which the console reads reliably.
pub fn press_millis(delay: &Delay) -> (r: u64)
    ensures
        r == match *delay {
            Delay::Half => 500u64,
            Delay::Sec => 1000u64,
            Delay::Tenth => 200u64,
            Delay::Twentieth => 200u64,
        },
{
    match delay {
        Delay::Half => 500,
        Delay::Sec => 1000,
        Delay::Tenth => 200,
        Delay::Twentieth => 200,
    }
}

/// The buttons of the pad word in the order of its bits, as the 3DS HID
/// register lays them out: bit 0 is A, then B, Select, Start, Right, Left,
/// Up, Down, R, L, X and Y.
pub open spec fn hid_order() -> Seq<Button> {
    seq![Button::A, Button::B, Button::Select, Button::Start, Button::Right, Button::Left, Button::Up,
        Button::Down, Button::R, Button::L, Button::X, Button::Y]
}

/// The sum of the bits of the first `n` buttons of the HID order that are
/// held.
pub open spec fn held_bits(bs: Seq<Button>, n: nat) -> nat
    decreases n,
{
    if n == 0 {
        0
    } else {
        held_bits(bs, (n - 1) as nat) + if bs.contains(hid_order()[n - 1]) { pow2((n - 1) as nat) } else { 0 }
    }
}

proof fn lemma_held_bits_unfold(bs: Seq<Button>)
    ensures
        held_bits(bs, 12) == if_held(bs, Button::A, 0x1) + if_held(bs, Button::B, 0x2)
            + if_held(bs, Button::Select, 0x4) + if_held(bs, Button::Start, 0x8)
            + if_held(bs, Button::Right, 0x10) + if_held(bs, Button::Left, 0x20)
            + if_held(bs, Button::Up, 0x40) + if_held(bs, Button::Down, 0x80)
            + if_held(bs, Button::R, 0x100) + if_held(bs, Button::L, 0x200)
            + if_held(bs, Button::X, 0x400) + if_held(bs, Button::Y, 0x800),
{
    lemma2_to64();
    let h = hid_order();
    assert(h[0] == Button::A && h[1] == Button::B && h[2] == Button::Select && h[3] == Button::Start
        && h[4] == Button::Right && h[5] == Button::Left && h[6] == Button::Up && h[7] == Button::Down
        && h[8] == Button::R && h[9] == Button::L && h[10] == Button::X && h[11] == Button::Y);
    assert(held_bits(bs, 0) == 0);
    assert(held_bits(bs, 1) == if_held(bs, Button::A, 0x1));
    assert(held_bits(bs, 2) == held_bits(bs, 1) + if_held(bs, Button::B, 0x2));
    assert(held_bits(bs, 3) == held_bits(bs, 2) + if_held(bs, Button::Select, 0x4));
    assert(held_bits(bs, 4) == held_bits(bs, 3) + if_held(bs, Button::Start, 0x8));
    assert(held_bits(bs, 5) == held_bits(bs, 4) + if_held(bs, Button::Right, 0x10));
    assert(held_bits(bs, 6) == held_bits(bs, 5) + if_held(bs, Button::Left, 0x20));
    assert(held_bits(bs, 7) == held_bits(bs, 6) + if_held(bs, Button::Up, 0x40));
    assert(held_bits(bs, 8) == held_bits(bs, 7) + if_held(bs, Button::Down, 0x80));
    assert(held_bits(bs, 9) == held_bits(bs, 8) + if_held(bs, Button::R, 0x100));
    assert(held_bits(bs, 10) == held_bits(bs, 9) + if_held(bs, Button::L, 0x200));
    assert(held_bits(bs, 11) == held_bits(bs, 10) + if_held(bs, Button::X, 0x400));
    assert(held_bits(bs, 12) == held_bits(bs, 11) + if_held(bs, Button::Y, 0x800));
}

/// Each held button clears its own bit of the pad word, bit `i` for the
/// `i`-th button of the HID order, and nothing else: the word is all twelve
/// bits less the bits of the held buttons, and a button held alone leaves
/// every bit but its own set.
pub proof fn law_each_button_clears_its_own_bit(bs: Seq<Button>, i: int)
    requires
        0 <= i < 12,
    ensures
        pad_word(bs) == 0xfff - held_bits(bs, 12),
        pad_word(seq![hid_order()[i]]) == 0xfff - pow2(i as nat),
{
    lemma2_to64();
    lemma_held_bits_unfold(bs);
    let b = hid_order()[i];
    let one = seq![b];
    lemma_held_bits_unfold(one);
    assert forall|x: Button| #[trigger] one.contains(x) == (x == b) by {
        if x == b {
            assert(one[0] == x);
        }
    }
    assert(pad_word(one) == 0xfff - held_bits(one, 12));
}

} // verus!
