use loop_pad::protocol::Rgb;
use loop_pad::trading_state::{
    AccountType, Enc1Value, Enc2Value, Enc3Value, Encoder1Mode, Encoder2Mode, Encoder3Mode,
    Layer, TradingState,
};

#[test]
fn default_state_matches_startup() {
    let s = TradingState::default();
    assert_eq!(s.account_type, AccountType::Paper);
    assert!(!s.armed);
    assert_eq!(s.account, 0);
    assert_eq!(s.layer, Layer::Base);
    assert_eq!(s.enc1, Enc1Value::Shares(100));
    assert_eq!(s.enc2, Enc2Value::Ticks(5));
    assert_eq!(s.enc3, Enc3Value::MidOffset(0));
    assert!(s.key_pressed.iter().all(|&p| !p));
    assert!(s.last_key_event.is_none());
    assert!(s.last_encoder_event.is_none());
    assert_eq!(s.key_labels.base[0], "Paper/Live");
    assert_eq!(s.key_labels.buy[0], "Market Buy");
    assert_eq!(s.key_labels.sell[8], "Reverse Short");
}

#[test]
fn encoder_press_three_times_restores_mode_and_magnitude() {
    let mut s = TradingState::default();
    s.enc1 = Enc1Value::Shares(250);
    s.enc2 = Enc2Value::Percent(-40);
    s.enc3 = Enc3Value::AskOffset(17);
    for idx in 0..3u8 {
        s.handle_encoder_press(idx);
        s.handle_encoder_press(idx);
        s.handle_encoder_press(idx);
    }
    assert_eq!(s.enc1, Enc1Value::Shares(250));
    assert_eq!(s.enc2, Enc2Value::Percent(-40));
    assert_eq!(s.enc3, Enc3Value::AskOffset(17));
}

#[test]
fn encoder_press_carries_magnitude_to_next_mode() {
    let mut s = TradingState::default();
    s.enc1 = Enc1Value::Shares(250);
    s.handle_encoder_press(0);
    assert_eq!(s.enc1, Enc1Value::PercentBuyingPower(250));
    s.handle_encoder_press(0);
    assert_eq!(s.enc1, Enc1Value::RiskDollars(250));
}

#[test]
fn encoder_mode_tags() {
    let s = TradingState::default();
    assert_eq!(s.enc1.mode(), Encoder1Mode::Shares);
    assert_eq!(s.enc2.mode(), Encoder2Mode::Ticks);
    assert_eq!(s.enc3.mode(), Encoder3Mode::Mid);
    assert_eq!(s.enc1.magnitude(), 100);
}

#[test]
fn rotation_adds_delta_and_records_event() {
    let mut s = TradingState::default();
    s.handle_encoder_rotate(0, 3);
    assert_eq!(s.enc1, Enc1Value::Shares(103));
    assert_eq!(s.last_encoder_event, Some((0, 3)));
    s.handle_encoder_rotate(1, -2);
    assert_eq!(s.enc2, Enc2Value::Ticks(3));
    s.handle_encoder_rotate(2, -10);
    assert_eq!(s.enc3, Enc3Value::MidOffset(-10));
}

#[test]
fn rotation_clamps_to_encoder_bounds() {
    let mut s = TradingState::default();
    s.enc1 = Enc1Value::Shares(2);
    s.handle_encoder_rotate(0, -5);
    assert_eq!(s.enc1, Enc1Value::Shares(0), "encoder 1 is non-negative");

    s.enc2 = Enc2Value::Percent(98);
    s.handle_encoder_rotate(1, 5);
    assert_eq!(s.enc2, Enc2Value::Percent(100), "encoder 2 tops out at 100");

    s.enc2 = Enc2Value::Percent(-98);
    s.handle_encoder_rotate(1, -5);
    assert_eq!(s.enc2, Enc2Value::Percent(-100), "encoder 2 bottoms out at -100");
}

#[test]
fn rotation_of_unknown_encoder_only_records_event() {
    let mut s = TradingState::default();
    s.handle_encoder_rotate(3, 7);
    assert_eq!(s.enc1, Enc1Value::Shares(100));
    assert_eq!(s.enc2, Enc2Value::Ticks(5));
    assert_eq!(s.enc3, Enc3Value::MidOffset(0));
    assert_eq!(s.last_encoder_event, Some((3, 7)));
}

#[test]
fn press_of_unknown_encoder_changes_nothing() {
    let mut s = TradingState::default();
    s.handle_encoder_press(3);
    assert_eq!(s.enc1, Enc1Value::Shares(100));
    assert_eq!(s.enc2, Enc2Value::Ticks(5));
    assert_eq!(s.enc3, Enc3Value::MidOffset(0));
}

#[test]
fn button_press_records_state_and_fires_base_action() {
    let mut s = TradingState::default();
    s.handle_button(0, 0, true);
    assert!(s.key_pressed[0]);
    assert_eq!(s.last_key_event, Some((0, true)));
    assert_eq!(s.account_type, AccountType::Live, "paper/live toggle fired");
    s.handle_button(0, 0, false);
    assert!(!s.key_pressed[0]);
    assert_eq!(s.account_type, AccountType::Live, "release fires nothing");
}

#[test]
fn account_select_cycles_through_ten_accounts() {
    let mut s = TradingState::default();
    for expected in [1, 2, 3, 4, 5, 6, 7, 8, 9, 0] {
        s.handle_button(0, 2, true);
        s.handle_button(0, 2, false);
        assert_eq!(s.account, expected);
    }
}

#[test]
fn button_on_buy_layer_changes_no_trading_fields() {
    let mut s = TradingState::default();
    s.handle_button(1, 0, true);
    assert!(s.key_pressed[0]);
    assert_eq!(s.account_type, AccountType::Paper);
    assert_eq!(s.account, 0);
}

#[test]
fn out_of_range_button_is_clamped_to_the_last_slot() {
    let mut s = TradingState::default();
    s.handle_button(0, 200, true);
    assert!(s.key_pressed[8], "recorded at the clamped slot");
    assert!(s.key_pressed[..8].iter().all(|&p| !p));
    assert_eq!(s.last_key_event, Some((200, true)), "the raw index is remembered");
    assert_eq!(
        s.account_type,
        AccountType::Paper,
        "slot 8's base action has no state effect"
    );
    s.handle_button(0, 9, false);
    assert!(!s.key_pressed[8], "release clamps the same way");
    assert_eq!(s.last_key_event, Some((9, false)));
}

#[test]
fn armed_sensitivity_follows_default_bindings() {
    let s = TradingState::default();
    assert!(s.is_action_armed_sensitive(1, 0), "market buy");
    assert!(s.is_action_armed_sensitive(1, 8), "reverse to long");
    assert!(s.is_action_armed_sensitive(2, 0), "market sell");
    assert!(s.is_action_armed_sensitive(2, 8), "reverse to short");
    assert!(!s.is_action_armed_sensitive(1, 5));
    assert!(!s.is_action_armed_sensitive(0, 0));
    assert!(!s.is_action_armed_sensitive(3, 0));
}

#[test]
fn bound_buttons_follow_default_bindings() {
    let mut s = TradingState::default();
    for layer in 0..3u8 {
        for idx in 0..9u8 {
            assert!(s.is_button_bound(layer, idx));
        }
    }
    assert!(!s.is_button_bound(0, 9));
    assert!(!s.is_button_bound(3, 0));
    s.base_keys.btn4 = None;
    assert!(!s.is_button_bound(0, 4));
}

#[test]
fn layer_coloring_respects_binding_and_arming() {
    let mut s = TradingState::default();
    let dim_white = Rgb { r: 100, g: 100, b: 100 };
    let dim_green = Rgb { r: 0, g: 100, b: 0 };
    let dim_red = Rgb { r: 100, g: 0, b: 0 };
    let dark = Rgb { r: 0, g: 0, b: 0 };

    assert_eq!(s.key_led_color(0, 3), dim_white, "bound base key");
    assert_eq!(s.key_led_color(1, 3), dim_green, "plain bound buy key");
    assert_eq!(s.key_led_color(2, 3), dim_red, "plain bound sell key");
    assert_eq!(s.key_led_color(1, 0), dark, "market buy while disarmed");
    assert_eq!(s.key_led_color(2, 8), dark, "reverse-to-short while disarmed");
    s.armed = true;
    assert_eq!(s.key_led_color(1, 0), dim_green, "market buy while armed");
    s.buy_keys.btn3 = None;
    assert_eq!(s.key_led_color(1, 3), dark, "unbound key is dark");
}

#[test]
fn set_layer_changes_only_the_layer() {
    let mut s = TradingState::default();
    s.set_layer(Layer::Sell);
    assert_eq!(s.layer, Layer::Sell);
    assert_eq!(s.account_type, AccountType::Paper);
    assert_eq!(s.enc1, Enc1Value::Shares(100));
}
