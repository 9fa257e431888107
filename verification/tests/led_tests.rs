use loop_pad::app_state::{highlight_active, AppLayer, AppState};
use loop_pad::protocol::{PadCommand, PadEvent, Rgb};
use loop_pad::trading_state::{Enc1Value, Enc2Value};

fn count_set_leds(cmds: &[PadCommand]) -> usize {
    cmds.iter()
        .filter(|c| matches!(c, PadCommand::SetLed { .. }))
        .count()
}

#[test]
fn pressed_key_overrides_steady_armed_color() {
    let mut s = AppState::default();
    s.armed = true;
    s.key_pressed[4] = true;
    let leds = s.desired_leds();
    assert_eq!(leds[4], Rgb { r: 0, g: 0, b: 255 }, "pressed wins");
    assert_eq!(leds[3], Rgb { r: 255, g: 255, b: 255 }, "armed steady");
}

#[test]
fn unarmed_unpressed_keys_are_off() {
    let s = AppState::default();
    let leds = s.desired_leds();
    assert!(leds.iter().all(|&c| c == Rgb { r: 0, g: 0, b: 0 }));
}

#[test]
fn steady_color_only_on_base_layer() {
    let mut s = AppState::default();
    s.armed = true;
    s.layer = AppLayer::Buy;
    let leds = s.desired_leds();
    assert!(leds.iter().all(|&c| c == Rgb { r: 0, g: 0, b: 0 }));
}

#[test]
fn second_sync_on_same_state_is_a_zero_diff() {
    let mut s = AppState::default();
    s.armed = true;
    let first = s.sync_leds_if_needed(1000);
    assert_eq!(first.len(), 9, "all slots changed to steady");
    let second = s.sync_leds_if_needed(2000);
    assert_eq!(second.len(), 0, "nothing left to write");
}

#[test]
fn sync_emits_only_differing_slots() {
    let mut s = AppState::default();
    s.armed = true;
    let _ = s.sync_leds_if_needed(1000);
    s.key_pressed[2] = true;
    let diff = s.sync_leds_if_needed(2000);
    assert_eq!(
        diff,
        vec![PadCommand::SetLed {
            idx: 2,
            color: Rgb { r: 0, g: 0, b: 255 },
        }]
    );
}

#[test]
fn sync_skips_non_base_layers() {
    let mut s = AppState::default();
    s.layer = AppLayer::Sell;
    s.armed = true;
    assert!(s.sync_leds_if_needed(1000).is_empty());
}

#[test]
fn hello_forces_nine_set_leds_regardless_of_throttle() {
    let mut s = AppState::default();
    s.last_led_update = Some(40); // a batch just went out
    let cmds = s.apply_event(
        &PadEvent::Hello {
            proto: 1,
            fw_major: 2,
            fw_minor: 3,
        },
        50,
    );
    assert_eq!(cmds[0], PadCommand::HostReady);
    assert_eq!(cmds[1], PadCommand::SetLayer { layer: 0 });
    assert_eq!(count_set_leds(&cmds), 9);
    assert_eq!(cmds.len(), 11);
    assert!(s.connected);
    assert_eq!(s.fw, Some((1, 2, 3)));
}

#[test]
fn two_events_within_throttle_window_make_one_batch() {
    let mut s = AppState::default();
    let _ = s.apply_event(
        &PadEvent::Button {
            layer: 0,
            idx: 0,
            pressed: true,
        },
        1000,
    );
    let first = s.sync_leds_if_needed(1000);
    assert_eq!(first.len(), 1, "first event produces a batch");
    let _ = s.apply_event(
        &PadEvent::Button {
            layer: 0,
            idx: 2,
            pressed: true,
        },
        1040,
    );
    let second = s.sync_leds_if_needed(1040);
    assert!(second.is_empty(), "second write within 75 ms is withheld");
    let third = s.sync_leds_if_needed(1075);
    assert_eq!(third.len(), 1, "the withheld slot goes out after the window");
}

#[test]
fn layer_event_switches_and_unknown_is_ignored() {
    let mut s = AppState::default();
    let cmds = s.apply_event(&PadEvent::Layer { layer: 2 }, 10);
    assert!(cmds.is_empty());
    assert_eq!(s.layer, AppLayer::Sell);
    assert!(s.needs_led_sync);
    let _ = s.apply_event(&PadEvent::Layer { layer: 7 }, 20);
    assert_eq!(s.layer, AppLayer::Sell, "unknown layer value is ignored");
}

#[test]
fn button_event_clamps_index_and_stamps_time() {
    let mut s = AppState::default();
    let _ = s.apply_event(
        &PadEvent::Button {
            layer: 0,
            idx: 200,
            pressed: true,
        },
        500,
    );
    assert!(s.key_pressed[8], "index clamped to the last slot");
    assert_eq!(s.key_last_ts[8], Some(500));
    assert_eq!(s.last_key_event, Some((200, true)));
    let _ = s.apply_event(
        &PadEvent::Button {
            layer: 0,
            idx: 8,
            pressed: false,
        },
        600,
    );
    assert!(!s.key_pressed[8]);
    assert_eq!(s.key_last_ts[8], None, "release clears the highlight");
}

#[test]
fn encoder_events_update_values_and_stamps() {
    let mut s = AppState::default();
    let _ = s.apply_event(&PadEvent::EncRotate { idx: 0, delta: 4 }, 100);
    assert_eq!(s.enc1, Enc1Value::Shares(4));
    assert_eq!(s.enc_last_ts[0], Some(100));
    assert_eq!(s.last_encoder_event, Some((0, 4)));
    let _ = s.apply_event(&PadEvent::EncPress { idx: 1, long: false }, 200);
    assert_eq!(s.enc2, Enc2Value::Percent(0));
    assert_eq!(s.enc_last_ts[1], Some(200));
    let _ = s.apply_event(&PadEvent::EncRotate { idx: 5, delta: 1 }, 300);
    assert_eq!(s.last_encoder_event, Some((5, 1)));
    assert_eq!(s.enc_last_ts, [Some(100), Some(200), None]);
}

#[test]
fn midi_cc_event_is_carried_through_unchanged() {
    let mut s = AppState::default();
    let before = s.clone();
    let cmds = s.apply_event(
        &PadEvent::MidiCc {
            channel: 0,
            controller: 21,
            value: 127,
        },
        100,
    );
    assert!(cmds.is_empty());
    assert_eq!(s.layer, before.layer);
    assert_eq!(s.key_pressed, before.key_pressed);
    assert_eq!(s.enc1, before.enc1);
}

#[test]
fn toggle_armed_marks_leds_dirty() {
    let mut s = AppState::default();
    s.needs_led_sync = false;
    s.toggle_armed();
    assert!(s.armed);
    assert!(s.needs_led_sync);
    s.toggle_armed();
    assert!(!s.armed);
}

#[test]
fn ui_layer_switch_mirrors_to_device_only_when_connected() {
    let mut s = AppState::default();
    assert_eq!(s.ui_set_layer(AppLayer::Buy), None);
    s.connected = true;
    assert_eq!(
        s.ui_set_layer(AppLayer::Sell),
        Some(PadCommand::SetLayer { layer: 2 })
    );
    assert_eq!(s.layer, AppLayer::Sell);
}

#[test]
fn flash_phase_toggles_once_a_second() {
    let mut s = AppState::default();
    s.needs_led_sync = false;
    s.tick_flash(500);
    assert!(!s.flash_phase, "half a second is too early");
    s.tick_flash(1000);
    assert!(s.flash_phase);
    assert_eq!(s.last_flash_toggle, 1000);
    assert!(s.needs_led_sync);
}

#[test]
fn highlight_window_decays() {
    assert!(highlight_active(Some(100), 250, 200));
    assert!(!highlight_active(Some(100), 350, 200));
    assert!(!highlight_active(None, 250, 200));
}
