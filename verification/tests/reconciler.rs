use switchpad::Axis;
use switchpad::Button;
use switchpad::ButtonState;
use switchpad::ControllerState;
use switchpad::PhysicalButton;
use switchpad::RawEvent;
use switchpad::process_button_action;

#[test]
fn press_lifecycle_click_press_release_gone() {
    let mut cs = ControllerState::new();

    // Tick 1: a down event on A with empty prior state reports one click.
    cs.set_button_states((Button::A, RawEvent::DOWN));
    let p1 = cs.make_packets();
    assert_eq!(p1.len(), 1);
    assert_eq!(p1[0], "click A");
    cs.advance_tick();

    // Tick 2: no further events; the sustained press reports as a level.
    let p2 = cs.make_packets();
    assert_eq!(p2.len(), 1);
    assert_eq!(p2[0], "press A");
    cs.advance_tick();

    // Tick 3: the up event reports one release.
    cs.set_button_states((Button::A, RawEvent::UP));
    let p3 = cs.make_packets();
    assert_eq!(p3.len(), 1);
    assert_eq!(p3[0], "release A");
    cs.advance_tick();

    // Tick 4: the button has disappeared from the delta.
    let p4 = cs.make_packets();
    assert_eq!(p4.len(), 0);
    cs.advance_tick();

    // Pressed again: a fresh click edge.
    cs.set_button_states((Button::A, RawEvent::DOWN));
    let p5 = cs.make_packets();
    assert_eq!(p5.len(), 1);
    assert_eq!(p5[0], "click A");
}

#[test]
fn held_level_persists_across_empty_ticks() {
    let mut cs = ControllerState::new();
    cs.set_button_states((Button::B, RawEvent::DOWN));
    cs.advance_tick();
    let mut t: usize = 0;
    while t < 3 {
        let p = cs.make_packets();
        assert_eq!(p.len(), 1);
        assert_eq!(p[0], "press B");
        cs.advance_tick();
        t += 1;
    }
}

#[test]
fn down_and_up_in_one_tick_coalesce_to_click() {
    let mut cs = ControllerState::new();
    cs.set_button_states((Button::X, RawEvent::DOWN));
    cs.set_button_states((Button::X, RawEvent::UP));
    let p = cs.make_packets();
    assert_eq!(p.len(), 1);
    assert_eq!(p[0], "click X");
}

#[test]
fn duplicate_downs_in_one_tick_report_one_click() {
    let mut cs = ControllerState::new();
    cs.set_button_states((Button::A, RawEvent::DOWN));
    cs.set_button_states((Button::A, RawEvent::DOWN));
    let p = cs.make_packets();
    assert_eq!(p.len(), 1);
    assert_eq!(p[0], "click A");
}

#[test]
fn up_without_history_reports_release() {
    let mut cs = ControllerState::new();
    let r = cs.set_button_states((Button::Y, RawEvent::UP));
    assert_eq!(r, (Button::Y, ButtonState::RELEASED));
    let p = cs.make_packets();
    assert_eq!(p.len(), 1);
    assert_eq!(p[0], "release Y");
}

#[test]
fn duplicate_up_after_release_is_not_rereported() {
    let mut cs = ControllerState::new();
    cs.set_button_states((Button::A, RawEvent::DOWN));
    cs.advance_tick();
    cs.set_button_states((Button::A, RawEvent::UP));
    let p1 = cs.make_packets();
    assert_eq!(p1.len(), 1);
    assert_eq!(p1[0], "release A");
    cs.advance_tick();

    // A duplicate up one tick after the reported release records nothing:
    // the release is reported exactly once and the button stays absent.
    let r = cs.set_button_states((Button::A, RawEvent::UP));
    assert_eq!(r, (Button::A, ButtonState::RELEASED));
    assert_eq!(cs.make_packets().len(), 0);
    assert_eq!(cs.get_old_state()[0], Some(ButtonState::RELEASED));
    cs.advance_tick();
    assert_eq!(cs.make_packets().len(), 0);
    assert_eq!(cs.get_old_state()[0], None);
    cs.advance_tick();

    // Only a fresh down brings the button back, as a new click edge.
    cs.set_button_states((Button::A, RawEvent::DOWN));
    let p2 = cs.make_packets();
    assert_eq!(p2.len(), 1);
    assert_eq!(p2[0], "click A");
}

#[test]
fn down_after_release_seeds_held_not_pressed() {
    // The edge was already reported in a prior tick, so a released button
    // seeing a new down continues as the level, not as a second click.
    let mut cs = ControllerState::new();
    cs.set_button_states((Button::A, RawEvent::DOWN));
    cs.advance_tick();
    cs.set_button_states((Button::A, RawEvent::UP));
    cs.advance_tick();
    cs.set_button_states((Button::A, RawEvent::DOWN));
    let p = cs.make_packets();
    assert_eq!(p.len(), 1);
    assert_eq!(p[0], "press A");
}

#[test]
fn up_on_held_button_flips_to_pressed_in_merge() {
    // Re-press semantics: a held current-tick entry seeing an up is
    // treated as a fresh press edge.
    let mut cs = ControllerState::new();
    cs.set_button_states((Button::A, RawEvent::DOWN));
    cs.advance_tick();
    // Seeded to HELD by the first down of the tick, then merged on the up.
    cs.set_button_states((Button::A, RawEvent::DOWN));
    let r = cs.set_button_states((Button::A, RawEvent::UP));
    assert_eq!(r.1, ButtonState::PRESSED);
    let p = cs.make_packets();
    assert_eq!(p.len(), 1);
    assert_eq!(p[0], "click A");
}

#[test]
fn multiple_buttons_report_in_index_order() {
    let mut cs = ControllerState::new();
    cs.set_button_states((Button::HOME, RawEvent::DOWN));
    cs.set_button_states((Button::A, RawEvent::DOWN));
    let p = cs.make_packets();
    assert_eq!(p.len(), 2);
    assert_eq!(p[0], "click A");
    assert_eq!(p[1], "click HOME");
}

#[test]
fn physical_buttons_translate_and_unmapped_are_ignored() {
    let mut cs = ControllerState::new();
    process_button_action(&mut cs, &PhysicalButton::East, RawEvent::DOWN);
    process_button_action(&mut cs, &PhysicalButton::C, RawEvent::DOWN);
    process_button_action(&mut cs, &PhysicalButton::Z, RawEvent::DOWN);
    let p = cs.make_packets();
    assert_eq!(p.len(), 1);
    assert_eq!(p[0], "click A");
}

#[test]
fn unknown_physical_button_maps_to_capture() {
    let mut cs = ControllerState::new();
    process_button_action(&mut cs, &PhysicalButton::Unknown, RawEvent::DOWN);
    let p = cs.make_packets();
    assert_eq!(p.len(), 1);
    assert_eq!(p[0], "click CAPTURE");
}

#[test]
fn get_old_state_reflects_last_tick() {
    let mut cs = ControllerState::new();
    cs.set_button_states((Button::A, RawEvent::DOWN));
    cs.advance_tick();
    let old = cs.get_old_state();
    assert_eq!(old.len(), 18);
    assert_eq!(old[0], Some(ButtonState::PRESSED));
    assert_eq!(old[1], None);
}

#[test]
fn ignored_axes_leave_sticks_alone() {
    let mut cs = ControllerState::new();
    cs.set_axis_value(Axis::LeftZ, 30000);
    cs.set_axis_value(Axis::DPadX, 30000);
    cs.set_axis_value(Axis::Unknown, 30000);
    let p = cs.make_packets();
    assert_eq!(p.len(), 0);
}
