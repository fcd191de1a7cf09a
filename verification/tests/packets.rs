use switchpad::Axis;
use switchpad::Button;
use switchpad::ButtonState;
use switchpad::ControllerState;
use switchpad::Stick;
use switchpad::build_packets;
use switchpad::get_axis_values;
use switchpad::get_button_name;
use switchpad::make_network_line;
use switchpad::make_packet_for_button_state;
use switchpad::make_packet_for_stick;
use switchpad::to_hex_string;

#[test]
fn hex_rendering_examples() {
    assert_eq!(to_hex_string(-1), "-0x0001");
    assert_eq!(to_hex_string(32767), "0x7FFF");
    assert_eq!(to_hex_string(0), "0x0000");
    assert_eq!(to_hex_string(-32768), "-0x8000");
    assert_eq!(to_hex_string(4660), "0x1234");
    assert_eq!(to_hex_string(-43981 / 2), "-0x55E6");
    assert_eq!(to_hex_string(255), "0x00FF");
}

#[test]
fn hex_rendering_is_injective_over_samples() {
    let mut seen: Vec<String> = Vec::new();
    let mut n: i32 = -32768;
    while n < 32767 {
        seen.push(to_hex_string(n));
        n += 4093;
    }
    let mut i: usize = 0;
    while i < seen.len() {
        let mut j: usize = i + 1;
        while j < seen.len() {
            assert_ne!(seen[i], seen[j]);
            j += 1;
        }
        i += 1;
    }
}

#[test]
fn button_names_match_protocol_table() {
    assert_eq!(get_button_name(Button::A), "A");
    assert_eq!(get_button_name(Button::DPADRIGHT), "DRIGHT");
    assert_eq!(get_button_name(Button::R1), "R");
    assert_eq!(get_button_name(Button::R2), "ZR");
    assert_eq!(get_button_name(Button::L2), "ZL");
    assert_eq!(get_button_name(Button::START), "PLUS");
    assert_eq!(get_button_name(Button::SELECT), "MINUS");
    assert_eq!(get_button_name(Button::HOME), "HOME");
}

#[test]
fn digital_command_encoding() {
    assert_eq!(
        make_packet_for_button_state(Button::A, ButtonState::PRESSED),
        "click A"
    );
    assert_eq!(
        make_packet_for_button_state(Button::R2, ButtonState::HELD),
        "press ZR"
    );
    assert_eq!(
        make_packet_for_button_state(Button::L3, ButtonState::RELEASED),
        "release LSTICK"
    );
}

#[test]
fn analog_command_encoding() {
    assert_eq!(
        make_packet_for_stick(Stick::LEFT, (16383, -16383)),
        "setStick LEFT 0x3FFF -0x3FFF"
    );
    assert_eq!(
        make_packet_for_stick(Stick::RIGHT, (0, -32768)),
        "setStick RIGHT 0x0000 -0x8000"
    );
}

#[test]
fn deadzone_collapses_small_magnitudes() {
    // The scaled forms of raw samples 0.1 and 0.2.
    assert_eq!((0.1f32 * 32767.) as i32, 3276);
    assert_eq!((0.2f32 * 32767.) as i32, 6553);
    assert_eq!(get_axis_values(3276), 0);
    assert_eq!(get_axis_values(6553), 6553);
    assert_eq!(get_axis_values(-4999), 0);
    assert_eq!(get_axis_values(-5000), -5000);
    assert_eq!(get_axis_values(4999), 0);
    assert_eq!(get_axis_values(5000), 5000);
    assert_eq!(get_axis_values(0), 0);
}

#[test]
fn left_stick_sample_emits_one_analog_command() {
    // The scaled forms of raw samples 0.5 and -0.5.
    assert_eq!((0.5f32 * 32767.) as i32, 16383);
    assert_eq!((-0.5f32 * 32767.) as i32, -16383);
    let mut cs = ControllerState::new();
    cs.set_axis_value(Axis::LeftStickX, 16383);
    cs.set_axis_value(Axis::LeftStickY, -16383);
    let p = cs.make_packets();
    assert_eq!(p.len(), 1);
    assert_eq!(p[0], "setStick LEFT 0x3FFF -0x3FFF");
}

#[test]
fn unchanged_stick_emits_no_command() {
    let mut cs = ControllerState::new();
    // A sample inside the deadzone stores zero, which equals the prior
    // position: nothing to report.
    cs.set_axis_value(Axis::LeftStickX, 3000);
    assert_eq!(cs.make_packets().len(), 0);

    // A real deflection reports once, then stays quiet while unchanged,
    // even when the same sample is recorded again.
    cs.set_axis_value(Axis::LeftStickX, 6553);
    assert_eq!(cs.make_packets().len(), 1);
    cs.advance_tick();
    assert_eq!(cs.make_packets().len(), 0);
    cs.set_axis_value(Axis::LeftStickX, 6553);
    assert_eq!(cs.make_packets().len(), 0);
}

#[test]
fn out_of_range_sample_is_clamped() {
    let mut cs = ControllerState::new();
    cs.set_axis_value(Axis::RightStickX, 40000);
    cs.set_axis_value(Axis::RightStickY, -40000);
    let p = cs.make_packets();
    assert_eq!(p.len(), 1);
    assert_eq!(p[0], "setStick RIGHT 0x7FFF -0x8000");
}

#[test]
fn digital_commands_precede_analog_commands() {
    let mut cs = ControllerState::new();
    cs.set_axis_value(Axis::RightStickX, 6553);
    cs.set_axis_value(Axis::LeftStickX, 6553);
    cs.set_button_states((Button::B, switchpad::RawEvent::DOWN));
    let p = cs.make_packets();
    assert_eq!(p.len(), 3);
    assert_eq!(p[0], "click B");
    assert_eq!(p[1], "setStick RIGHT 0x1999 0x0000");
    assert_eq!(p[2], "setStick LEFT 0x1999 0x0000");
}

#[test]
fn hardware_frames_carry_length_prefix_and_bytes() {
    let data: Vec<String> = vec![String::from("click A"), String::from("press ZR")];
    let frames = build_packets(data);
    assert_eq!(frames.len(), 4);
    // "click A" has 7 bytes; the prefix holds 9 in little-endian order.
    assert_eq!(frames[0], vec![9u8, 0, 0, 0]);
    assert_eq!(frames[1], b"click A".to_vec());
    assert_eq!(frames[2], vec![10u8, 0, 0, 0]);
    assert_eq!(frames[3], b"press ZR".to_vec());
}

#[test]
fn network_lines_end_with_crlf() {
    assert_eq!(make_network_line("press B"), "press B\r\n");
    assert_eq!(make_network_line(""), "\r\n");
}
