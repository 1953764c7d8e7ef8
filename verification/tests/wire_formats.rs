use shaoooh::control::bishaan::{
    get_buf, get_circle, get_cpp, get_intf, get_pad, get_touch, press_millis,
};
use shaoooh::control::gyaaas::{control_string, get_button_str, get_delay_str};
use shaoooh::control::{Button, Delay};
use shaoooh::vision::ntr::{NTRPacket, HDR_SIZE};
use shaoooh::vision::stream::{Screen, StreamAssembly};

#[test]
fn pad_word_of_no_buttons_is_all_released() {
    assert_eq!(get_pad(&[]), 0xfff);
}

#[test]
fn pad_word_clears_the_pressed_bits() {
    assert_eq!(get_pad(&[Button::A, Button::Start]), 0xff6);
    assert_eq!(get_pad(&[Button::Y]), 0x7ff);
    assert_eq!(get_pad(&[Button::Down, Button::L]), 0xfff & !(1 << 7) & !(1 << 9));
}

#[test]
fn interface_word_holds_home() {
    assert_eq!(get_intf(&[]), 0);
    assert_eq!(get_intf(&[Button::Home]), 1);
    assert_eq!(get_intf(&[Button::A]), 0);
}

#[test]
fn cpp_word_holds_the_shoulder_triggers() {
    assert_eq!(get_cpp(&[]), 0x80800081);
    assert_eq!(get_cpp(&[Button::ZL]), 0x80800481);
    assert_eq!(get_cpp(&[Button::ZR]), 0x80800281);
    assert_eq!(get_cpp(&[Button::ZL, Button::ZR]), 0x80800681);
}

#[test]
fn circle_word_scales_the_first_circle_position() {
    assert_eq!(get_circle(&[]), 0x7ff7ff);
    assert_eq!(get_circle(&[Button::Circle(10, 20)]), 160 | (320 << 12));
    assert_eq!(
        get_circle(&[Button::A, Button::Circle(1, 2), Button::Circle(9, 9)]),
        16 | (32 << 12)
    );
}

#[test]
fn touch_word_scales_and_clamps() {
    assert_eq!(get_touch(&[]), 0x2000000);
    assert_eq!(get_touch(&[Button::Touch(160, 120)]), (1 << 24) | (2047 << 12) | 2047);
    assert_eq!(get_touch(&[Button::Touch(400, 300)]), (1 << 24) | (0xfff << 12) | 0xfff);
    assert_eq!(get_touch(&[Button::Touch(0, 0)]), 1 << 24);
}

#[test]
fn input_packet_of_no_buttons() {
    let buf = get_buf(&[]);
    assert_eq!(
        buf,
        vec![
            0xff, 0x0f, 0x00, 0x00, 0x00, 0x00, 0x00, 0x02, 0xff, 0xf7, 0x7f, 0x00, 0x81, 0x00,
            0x80, 0x80, 0x00, 0x00, 0x00, 0x00
        ]
    );
}

#[test]
fn input_packet_of_a_and_home() {
    let buf = get_buf(&[Button::A, Button::Home]);
    assert_eq!(buf.len(), 20);
    assert_eq!(&buf[0..4], &[0xfe, 0x0f, 0x00, 0x00]);
    assert_eq!(&buf[16..20], &[0x01, 0x00, 0x00, 0x00]);
}

#[test]
fn press_lengths() {
    assert_eq!(press_millis(&Delay::Half), 500);
    assert_eq!(press_millis(&Delay::Sec), 1000);
    assert_eq!(press_millis(&Delay::Tenth), 200);
    assert_eq!(press_millis(&Delay::Twentieth), 200);
}

#[test]
fn button_commands() {
    assert_eq!(get_button_str(&Button::A, true), "qA1");
    assert_eq!(get_button_str(&Button::Select, false), "qs0");
    assert_eq!(get_button_str(&Button::Home, true), "qh1");
    assert_eq!(get_button_str(&Button::Touch(1, 2), true), "");
    assert_eq!(get_button_str(&Button::ZL, false), "");
}

#[test]
fn delay_commands() {
    assert_eq!(get_delay_str(&Delay::Half), "qP");
    assert_eq!(get_delay_str(&Delay::Sec), "qM");
    assert_eq!(get_delay_str(&Delay::Tenth), "qp");
    assert_eq!(get_delay_str(&Delay::Twentieth), "qm");
}

#[test]
fn control_string_presses_holds_and_releases() {
    assert_eq!(control_string(&[Button::A], &Delay::Tenth), "qA1qpqA0");
    assert_eq!(
        control_string(&[Button::Up, Button::B], &Delay::Sec),
        "qu1qB1qMqu0qB0"
    );
    assert_eq!(control_string(&[], &Delay::Half), "qP");
}

#[test]
fn control_string_of_the_reset_chord() {
    assert_eq!(
        control_string(
            &[Button::Start, Button::Select, Button::B, Button::A],
            &Delay::Half
        ),
        "q!1qpq!0"
    );
}

fn header_bytes(v: Vec<u8>) -> [u8; 84] {
    v.try_into().unwrap()
}

#[test]
fn heartbeat_on_the_wire() {
    let w = NTRPacket::heartbeat(7).to_wire();
    assert_eq!(w.len(), HDR_SIZE);
    assert_eq!(&w[0..8], &[0x78, 0x56, 0x34, 0x12, 7, 0, 0, 0]);
    assert!(w[8..].iter().all(|b| *b == 0));
}

#[test]
fn stream_request_on_the_wire() {
    let w = NTRPacket::init().to_wire();
    assert_eq!(w.len(), 84);
    assert_eq!(
        &w[0..28],
        &[
            0x78, 0x56, 0x34, 0x12, 0xb8, 0x0b, 0, 0, 0, 0, 0, 0, 0x85, 0x03, 0, 0, 2, 0, 0, 0,
            20, 0, 0, 0, 0, 0, 0x20, 0
        ]
    );
    assert!(w[28..].iter().all(|b| *b == 0));
}

#[test]
fn header_read_from_the_wire() {
    let mut bytes = [0u8; 84];
    bytes[0..4].copy_from_slice(&[0x78, 0x56, 0x34, 0x12]);
    bytes[80..84].copy_from_slice(&[0x10, 0x27, 0, 0]);
    let p = NTRPacket::from_wire(&bytes).unwrap();
    assert_eq!(p.extra_len(), 10000);
}

#[test]
fn header_with_a_wrong_marker_is_refused() {
    let mut bytes = [0u8; 84];
    bytes[0..4].copy_from_slice(&[0x12, 0x34, 0x56, 0x78]);
    assert!(NTRPacket::from_wire(&bytes).is_none());
    assert!(NTRPacket::from_wire(&[0u8; 84]).is_none());
}

#[test]
fn written_headers_are_accepted() {
    for p in [NTRPacket::heartbeat(5), NTRPacket::init()] {
        let back = NTRPacket::from_wire(&header_bytes(p.to_wire())).unwrap();
        assert_eq!(back.extra_len(), 0);
    }
}

#[test]
fn screen_image_is_whole_at_its_last_packet() {
    let mut st = StreamAssembly::new();
    assert!(st.receive(&[5, 0x01, 0, 0, 1, 2]).is_none());
    assert!(st.receive(&[9, 0x00, 0, 0, 7]).is_none());
    assert!(st.receive(&[5, 0x01, 0, 1, 3]).is_none());
    assert_eq!(st.receive(&[5, 0x11, 0, 2, 4, 5]), Some((Screen::Top, vec![1, 2, 3, 4, 5])));
    assert_eq!(st.receive(&[9, 0x10, 0, 1, 8]), Some((Screen::Bottom, vec![7, 8])));
}

#[test]
fn missing_packet_poisons_the_frame() {
    let mut st = StreamAssembly::new();
    assert!(st.receive(&[5, 0x01, 0, 0, 1]).is_none());
    assert!(st.receive(&[5, 0x01, 0, 2, 2]).is_none());
    assert!(st.receive(&[5, 0x11, 0, 3, 3]).is_none());
    assert!(st.receive(&[6, 0x01, 0, 0, 4]).is_none());
    assert_eq!(st.receive(&[6, 0x11, 0, 1, 5]), Some((Screen::Top, vec![4, 5])));
}

#[test]
fn packet_of_another_frame_is_not_taken() {
    let mut st = StreamAssembly::new();
    assert!(st.receive(&[5, 0x01, 0, 0, 1]).is_none());
    assert!(st.receive(&[4, 0x11, 0, 1, 2]).is_none());
    assert!(st.receive(&[5, 0x11, 0, 1, 3]).is_none());
}
