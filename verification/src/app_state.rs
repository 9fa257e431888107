//! UI-facing application state and the LED synchronization engine.
//!
//! The state mirrors what the UI shows: connection and firmware, layer,
//! armed gate, per-key press state with interaction timestamps, encoder
//! values, and the last frame of colors confirmed written to the device.
//! Timestamps are plain milliseconds from a monotonic clock supplied by the
//! caller, so every function here is a pure state transition.
//!
//! The LED engine derives a desired 9-slot frame from the state with strict
//! precedence (pressed beats steady-armed beats off), diffs it against the
//! last-confirmed frame, emits one `SetLed` command per differing slot, and
//! is throttled to one resync per 75 ms; a forced full pass bypasses both
//! the diff and the throttle. LED writes only ever happen on the base
//! layer.

use vstd::prelude::*;
use vstd::array::spec_array_update;

use crate::protocol::{spec_command_valid, PadCommand, PadEvent, Rgb};
use crate::trading_state::{
    AccountType, Enc1Value, Enc2Value, Enc3Value, KeyLabels, spec_clamp, clamp_add,
    ENC1_MIN, ENC1_MAX, ENC2_MIN, ENC2_MAX, ENC3_MIN, ENC3_MAX,
};

verus! {

broadcast use vstd::array::group_array_axioms;

/// Minimum interval between two LED resyncs.
pub const LED_THROTTLE_MS: u64 = 75;

/// Interval of the (currently inert) flash-phase toggle.
pub const FLASH_TOGGLE_MS: u64 = 1000;

/// One of three mutually exclusive input-mapping modes for the 9 keys.
#[derive(Debug, Clone, Copy, PartialEq, Eq, Structural)]
pub enum AppLayer {
    Base,
    Buy,
    Sell,
}

/// The wire number of a layer.
pub open spec fn spec_layer_num(l: AppLayer) -> u8 {
    match l {
        AppLayer::Base => 0,
        AppLayer::Buy => 1,
        AppLayer::Sell => 2,
    }
}

/// UI-facing application state; single writer, advanced one event at a
/// time.
#[derive(Debug, Clone)]
#[verifier::ext_equal]
pub struct AppState {
    /// Whether a `Hello` has been observed since startup.
    pub connected: bool,
    /// Protocol version and firmware major/minor from the last `Hello`.
    pub fw: Option<(u8, u8, u8)>,
    pub account_type: AccountType,
    pub armed: bool,
    pub account: u16,
    pub layer: AppLayer,
    pub key_labels: KeyLabels,
    pub key_pressed: [bool; 9],
    pub last_key_event: Option<(u8, bool)>,
    /// Last interaction time per key, for UI highlight decay.
    pub key_last_ts: [Option<u64>; 9],
    /// Last interaction time per encoder.
    pub enc_last_ts: [Option<u64>; 3],
    pub enc1: Enc1Value,
    pub enc2: Enc2Value,
    pub enc3: Enc3Value,
    pub last_encoder_event: Option<(u8, i16)>,
    /// Last color written to the device, one slot per key.
    pub base_leds: [Rgb; 9],
    /// Time of the last confirmed LED batch.
    pub last_led_update: Option<u64>,
    pub needs_led_sync: bool,
    /// Named, currently inert hook: toggled at 1 Hz, does not alter colors.
    pub flash_phase: bool,
    pub last_flash_toggle: u64,
}

/// Color of a pressed key.
pub open spec fn spec_pressed_color() -> Rgb {
    Rgb { r: 0, g: 0, b: 255 }
}

/// Color of an unpressed key while armed on the base layer.
pub open spec fn spec_steady_color() -> Rgb {
    Rgb { r: 255, g: 255, b: 255 }
}

/// Color of a key that no rule lights.
pub open spec fn spec_off_color() -> Rgb {
    Rgb { r: 0, g: 0, b: 0 }
}

/// The color slot `i` should show, by strict precedence: a pressed key is
/// always the pressed color, overriding every other rule; otherwise, armed
/// on the base layer is the steady color; otherwise off.
pub open spec fn spec_desired_led(s: AppState, i: int) -> Rgb {
    if s.key_pressed[i] {
        spec_pressed_color()
    } else if s.armed && s.layer == AppLayer::Base {
        spec_steady_color()
    } else {
        spec_off_color()
    }
}

/// The whole desired 9-slot frame.
pub open spec fn spec_desired_leds(s: AppState) -> Seq<Rgb> {
    Seq::new(9, |i: int| spec_desired_led(s, i))
}

/// Milliseconds from `last` to `now` on a monotonic clock; zero if `now`
/// reads earlier.
pub open spec fn spec_elapsed(last: u64, now: u64) -> int {
    if now >= last {
        now - last
    } else {
        0
    }
}

/// Whether a resync at `now` is within the throttle window of the last
/// confirmed batch.
pub open spec fn spec_throttled(s: AppState, now: u64) -> bool {
    match s.last_led_update {
        Some(last) => spec_elapsed(last, now) < LED_THROTTLE_MS,
        None => false,
    }
}

/// The `SetLed` commands for the slots in `[0, i)` whose desired color
/// differs from the last-confirmed frame, in slot order.
pub open spec fn spec_diff_commands_to(s: AppState, i: int) -> Seq<PadCommand>
    decreases i,
{
    if i <= 0 {
        Seq::empty()
    } else {
        spec_diff_commands_to(s, i - 1) + if spec_desired_led(s, i - 1) != s.base_leds[i - 1] {
            seq![PadCommand::SetLed { idx: (i - 1) as u8, color: spec_desired_led(s, i - 1) }]
        } else {
            Seq::empty()
        }
    }
}

/// One `SetLed` command for every slot, in slot order: the forced full
/// pass.
pub open spec fn spec_full_pass_commands(s: AppState) -> Seq<PadCommand> {
    Seq::new(9, |i: int| PadCommand::SetLed { idx: i as u8, color: spec_desired_led(s, i) })
}

/// The desired frame as the stored array value.
pub open spec fn spec_written_leds(s: AppState) -> [Rgb; 9] {
    let a0 = spec_array_update(s.base_leds, 0, spec_desired_led(s, 0));
    let a1 = spec_array_update(a0, 1, spec_desired_led(s, 1));
    let a2 = spec_array_update(a1, 2, spec_desired_led(s, 2));
    let a3 = spec_array_update(a2, 3, spec_desired_led(s, 3));
    let a4 = spec_array_update(a3, 4, spec_desired_led(s, 4));
    let a5 = spec_array_update(a4, 5, spec_desired_led(s, 5));
    let a6 = spec_array_update(a5, 6, spec_desired_led(s, 6));
    let a7 = spec_array_update(a6, 7, spec_desired_led(s, 7));
    spec_array_update(a7, 8, spec_desired_led(s, 8))
}

/// The stored frame after a full write holds exactly the desired colors.
pub proof fn lemma_written_leds_are_desired(s: AppState)
    ensures
        spec_written_leds(s)@ =~= spec_desired_leds(s),
{
}

/// The state after a confirmed batch of LED writes at `now`: the confirmed
/// frame holds the desired colors, the batch time is recorded, and the
/// dirty flag is cleared.
pub open spec fn spec_after_led_write(s: AppState, now: u64) -> AppState {
    AppState {
        base_leds: spec_written_leds(s),
        last_led_update: Some(now),
        needs_led_sync: false,
        ..s
    }
}

/// The commands and next state of one throttled sync step at `now`: nothing
/// happens off the base layer or within the throttle window or when no slot
/// differs; otherwise one `SetLed` per differing slot is emitted and the
/// write is confirmed.
pub open spec fn spec_sync_leds(s: AppState, now: u64) -> (Seq<PadCommand>, AppState) {
    if s.layer != AppLayer::Base {
        (Seq::empty(), s)
    } else if spec_throttled(s, now) {
        (Seq::empty(), s)
    } else {
        let cmds = spec_diff_commands_to(s, 9);
        if cmds.len() > 0 {
            (cmds, spec_after_led_write(s, now))
        } else {
            (Seq::empty(), s)
        }
    }
}

/// The commands and next state of one forced full pass at `now`: off the
/// base layer nothing happens; on it, all 9 slots are written
/// unconditionally, bypassing the throttle.
pub open spec fn spec_force_full_pass(s: AppState, now: u64) -> (Seq<PadCommand>, AppState) {
    if s.layer != AppLayer::Base {
        (Seq::empty(), s)
    } else {
        (spec_full_pass_commands(s), spec_after_led_write(s, now))
    }
}

impl Default for AppState {
    /// The startup state: disconnected, paper account 0, disarmed, base
    /// layer, empty labels, nothing pressed, encoders at zero in their
    /// first modes, all LEDs recorded off, and an initial sync owed.
    fn default() -> (s: Self)
        ensures
            !s.connected,
            s.fw is None,
            s.account_type == AccountType::Paper,
            !s.armed,
            s.account == 0u16,
            s.layer == AppLayer::Base,
            s.key_pressed@ == Seq::new(9, |i: int| false),
            s.last_key_event is None,
            s.key_last_ts@ == Seq::new(9, |i: int| None::<u64>),
            s.enc_last_ts@ == Seq::new(3, |i: int| None::<u64>),
            s.enc1 == Enc1Value::Shares(0i32),
            s.enc2 == Enc2Value::Ticks(0i32),
            s.enc3 == Enc3Value::MidOffset(0i32),
            s.last_encoder_event is None,
            s.base_leds@ == Seq::new(9, |i: int| spec_off_color()),
            s.last_led_update is None,
            s.needs_led_sync,
            !s.flash_phase,
            s.last_flash_toggle == 0u64,
    {
        let off = Rgb { r: 0, g: 0, b: 0 };
        let s = AppState {
            connected: false,
            fw: None,
            account_type: AccountType::Paper,
            armed: false,
            account: 0,
            layer: AppLayer::Base,
            key_labels: KeyLabels::default(),
            key_pressed: [false; 9],
            last_key_event: None,
            key_last_ts: [None; 9],
            enc_last_ts: [None; 3],
            enc1: Enc1Value::Shares(0),
            enc2: Enc2Value::Ticks(0),
            enc3: Enc3Value::MidOffset(0),
            last_encoder_event: None,
            base_leds: [off, off, off, off, off, off, off, off, off],
            last_led_update: None,
            needs_led_sync: true,
            flash_phase: false,
            last_flash_toggle: 0,
        };
        proof {
            assert(s.key_pressed@ =~= Seq::new(9, |i: int| false));
            assert(s.key_last_ts@ =~= Seq::new(9, |i: int| None::<u64>));
            assert(s.enc_last_ts@ =~= Seq::new(3, |i: int| None::<u64>));
            assert(s.base_leds@ =~= Seq::new(9, |i: int| (Rgb { r: 0u8, g: 0u8, b: 0u8 })));
            assert(s.base_leds@ =~= Seq::new(9, |i: int| spec_off_color()));
        }
        s
    }
}

impl AppState {
    /// The wire number of the current layer.
    pub fn layer_num(&self) -> (n: u8)
        ensures
            n == spec_layer_num(self.layer),
    {
        match self.layer {
            AppLayer::Base => 0,
            AppLayer::Buy => 1,
            AppLayer::Sell => 2,
        }
    }

    /// Compute the desired 9-slot frame from the current state.
    pub fn desired_leds(&self) -> (r: [Rgb; 9])
        ensures
            r@ == spec_desired_leds(*self),
    {
        let mut leds = [Rgb { r: 0, g: 0, b: 0 }; 9];
        let base = matches!(self.layer, AppLayer::Base);
        let mut i: usize = 0;
        while i < 9
            invariant
                i <= 9,
                base == (self.layer == AppLayer::Base),
                leds@.len() == 9,
                forall|j: int| 0 <= j < i ==> leds@[j] == spec_desired_led(*self, j),
            decreases 9 - i,
        {
            if self.key_pressed[i] {
                leds[i] = Rgb { r: 0, g: 0, b: 255 };
            } else if self.armed && base {
                leds[i] = Rgb { r: 255, g: 255, b: 255 };
            } else {
                leds[i] = Rgb { r: 0, g: 0, b: 0 };
            }
            i += 1;
        }
        proof {
            assert(leds@ =~= spec_desired_leds(*self));
        }
        leds
    }

    /// One throttled sync step; see [`spec_sync_leds`]. Emits one `SetLed`
    /// per slot whose desired color differs from the last-confirmed frame
    /// and confirms the write only when something was emitted.
    pub fn sync_leds_if_needed(&mut self, now_ms: u64) -> (cmds: Vec<PadCommand>)
        ensures
            cmds@ == spec_sync_leds(*old(self), now_ms).0,
            *final(self) == spec_sync_leds(*old(self), now_ms).1,
    {
        if !matches!(self.layer, AppLayer::Base) {
            return Vec::new();
        }
        if let Some(last) = self.last_led_update {
            let elapsed = if now_ms >= last {
                now_ms - last
            } else {
                0
            };
            if elapsed < LED_THROTTLE_MS {
                return Vec::new();
            }
        }
        let desired = self.desired_leds();
        let mut cmds: Vec<PadCommand> = Vec::new();
        let mut i: usize = 0;
        while i < 9
            invariant
                i <= 9,
                desired@ == spec_desired_leds(*self),
                *self == *old(self),
                cmds@ == spec_diff_commands_to(*self, i as int),
            decreases 9 - i,
        {
            let want = desired[i];
            let had = self.base_leds[i];
            if want.r != had.r || want.g != had.g || want.b != had.b {
                cmds.push(PadCommand::SetLed { idx: i as u8, color: want });
            }
            i += 1;
        }
        if cmds.len() > 0 {
            self.base_leds = desired;
            self.last_led_update = Some(now_ms);
            self.needs_led_sync = false;
            proof {
                assert(self.base_leds =~= spec_written_leds(*old(self)));
                assert(*self =~= spec_sync_leds(*old(self), now_ms).1);
            }
        }
        cmds
    }

    /// One forced full pass; see [`spec_force_full_pass`]. On the base
    /// layer all 9 slots are written unconditionally, bypassing the
    /// throttle.
    pub fn force_full_led_pass(&mut self, now_ms: u64) -> (cmds: Vec<PadCommand>)
        ensures
            cmds@ == spec_force_full_pass(*old(self), now_ms).0,
            *final(self) == spec_force_full_pass(*old(self), now_ms).1,
    {
        if !matches!(self.layer, AppLayer::Base) {
            return Vec::new();
        }
        let desired = self.desired_leds();
        let mut cmds: Vec<PadCommand> = Vec::new();
        let mut i: usize = 0;
        while i < 9
            invariant
                i <= 9,
                desired@ == spec_desired_leds(*self),
                *self == *old(self),
                cmds@.len() == i,
                forall|j: int|
                    0 <= j < i ==> cmds@[j] == spec_full_pass_commands(*self)[j],
            decreases 9 - i,
        {
            cmds.push(PadCommand::SetLed { idx: i as u8, color: desired[i] });
            i += 1;
        }
        self.base_leds = desired;
        self.last_led_update = Some(now_ms);
        self.needs_led_sync = false;
        proof {
            assert(cmds@ =~= spec_full_pass_commands(*old(self)));
            assert(self.base_leds =~= spec_written_leds(*old(self)));
            assert(*self =~= spec_force_full_pass(*old(self), now_ms).1);
        }
        cmds
    }
}

/// The state change and the commands owed for one decoded event at `now`;
/// see [`AppState::apply_event`].
pub open spec fn spec_apply_event(s: AppState, evt: PadEvent, now: u64) -> (
    Seq<PadCommand>,
    AppState,
) {
    match evt {
        PadEvent::Hello { proto, fw_major, fw_minor } => {
            let connected = AppState { connected: true, fw: Some((proto, fw_major, fw_minor)), ..s };
            let full = spec_force_full_pass(connected, now);
            (
                seq![
                    PadCommand::HostReady,
                    PadCommand::SetLayer { layer: spec_layer_num(s.layer) },
                ] + full.0,
                full.1,
            )
        },
        PadEvent::Layer { layer } => {
            let next = if layer == 0 {
                AppLayer::Base
            } else if layer == 1 {
                AppLayer::Buy
            } else if layer == 2 {
                AppLayer::Sell
            } else {
                s.layer
            };
            (Seq::empty(), AppState { layer: next, needs_led_sync: true, ..s })
        },
        PadEvent::Button { layer, idx, pressed } => {
            let i = if idx < 9 { idx as int } else { 8 };
            (
                Seq::empty(),
                AppState {
                    key_pressed: spec_array_update(s.key_pressed, i, pressed),
                    key_last_ts: spec_array_update(
                        s.key_last_ts,
                        i,
                        if pressed { Some(now) } else { None },
                    ),
                    last_key_event: Some((idx, pressed)),
                    needs_led_sync: true,
                    ..s
                },
            )
        },
        PadEvent::EncRotate { idx, delta } => {
            let recorded = AppState { last_encoder_event: Some((idx, delta as i16)), ..s };
            if idx == 0 {
                (
                    Seq::empty(),
                    AppState {
                        enc1: s.enc1.spec_with_magnitude(
                            spec_clamp(
                                s.enc1.spec_magnitude() + delta,
                                ENC1_MIN as int,
                                ENC1_MAX as int,
                            ) as i32,
                        ),
                        enc_last_ts: spec_array_update(s.enc_last_ts, 0, Some(now)),
                        ..recorded
                    },
                )
            } else if idx == 1 {
                (
                    Seq::empty(),
                    AppState {
                        enc2: s.enc2.spec_with_magnitude(
                            spec_clamp(
                                s.enc2.spec_magnitude() + delta,
                                ENC2_MIN as int,
                                ENC2_MAX as int,
                            ) as i32,
                        ),
                        enc_last_ts: spec_array_update(s.enc_last_ts, 1, Some(now)),
                        ..recorded
                    },
                )
            } else if idx == 2 {
                (
                    Seq::empty(),
                    AppState {
                        enc3: s.enc3.spec_with_magnitude(
                            spec_clamp(
                                s.enc3.spec_magnitude() + delta,
                                ENC3_MIN as int,
                                ENC3_MAX as int,
                            ) as i32,
                        ),
                        enc_last_ts: spec_array_update(s.enc_last_ts, 2, Some(now)),
                        ..recorded
                    },
                )
            } else {
                (Seq::empty(), recorded)
            }
        },
        PadEvent::EncPress { idx, long } => {
            if idx == 0 {
                (
                    Seq::empty(),
                    AppState {
                        enc1: s.enc1.spec_cycle(),
                        enc_last_ts: spec_array_update(s.enc_last_ts, 0, Some(now)),
                        ..s
                    },
                )
            } else if idx == 1 {
                (
                    Seq::empty(),
                    AppState {
                        enc2: s.enc2.spec_cycle(),
                        enc_last_ts: spec_array_update(s.enc_last_ts, 1, Some(now)),
                        ..s
                    },
                )
            } else if idx == 2 {
                (
                    Seq::empty(),
                    AppState {
                        enc3: s.enc3.spec_cycle(),
                        enc_last_ts: spec_array_update(s.enc_last_ts, 2, Some(now)),
                        ..s
                    },
                )
            } else {
                (Seq::empty(), s)
            }
        },
        PadEvent::MidiCc { channel, controller, value } => (Seq::empty(), s),
    }
}

impl AppState {
    /// Advance the state by one decoded event, returning the commands owed
    /// to the device, in order.
    ///
    /// `Hello` marks the connection, records the firmware descriptor, owes
    /// `HostReady` and a `SetLayer` mirroring the current UI layer, and
    /// forces a full LED pass. `Layer` switches the layer (an unknown value
    /// is ignored) and marks the LEDs dirty. `Button` records the press
    /// state and timestamp of the key, its index clamped into range, and
    /// marks the LEDs dirty. `EncRotate` adds the delta to the addressed
    /// encoder's magnitude under the encoder's documented bounds and stamps
    /// it; an index above 2 only records the event. `EncPress` cycles the
    /// addressed encoder's mode, magnitude unchanged, and stamps it; an
    /// index above 2 is ignored. `MidiCc` is carried through unchanged and
    /// touches nothing here.
    pub fn apply_event(&mut self, evt: &PadEvent, now_ms: u64) -> (cmds: Vec<PadCommand>)
        ensures
            cmds@ == spec_apply_event(*old(self), *evt, now_ms).0,
            *final(self) == spec_apply_event(*old(self), *evt, now_ms).1,
    {
        match evt {
            PadEvent::Hello { proto, fw_major, fw_minor } => {
                self.connected = true;
                self.fw = Some((*proto, *fw_major, *fw_minor));
                let mut cmds: Vec<PadCommand> = Vec::new();
                cmds.push(PadCommand::HostReady);
                cmds.push(PadCommand::SetLayer { layer: self.layer_num() });
                let mut full = self.force_full_led_pass(now_ms);
                let ghost pre = cmds@;
                let ghost tail = full@;
                cmds.append(&mut full);
                proof {
                    assert(cmds@ =~= pre + tail);
                    assert(cmds@ =~= spec_apply_event(*old(self), *evt, now_ms).0);
                }
                cmds
            }
            PadEvent::Layer { layer } => {
                if *layer == 0 {
                    self.layer = AppLayer::Base;
                } else if *layer == 1 {
                    self.layer = AppLayer::Buy;
                } else if *layer == 2 {
                    self.layer = AppLayer::Sell;
                }
                self.needs_led_sync = true;
                proof {
                    assert(*self =~= spec_apply_event(*old(self), *evt, now_ms).1);
                }
                Vec::new()
            }
            PadEvent::Button { layer: _, idx, pressed } => {
                let i: usize = if *idx < 9 {
                    *idx as usize
                } else {
                    8
                };
                self.key_pressed[i] = *pressed;
                self.key_last_ts[i] = if *pressed {
                    Some(now_ms)
                } else {
                    None
                };
                self.last_key_event = Some((*idx, *pressed));
                self.needs_led_sync = true;
                proof {
                    assert(*self =~= spec_apply_event(*old(self), *evt, now_ms).1);
                }
                Vec::new()
            }
            PadEvent::EncRotate { idx, delta } => {
                self.last_encoder_event = Some((*idx, *delta as i16));
                if *idx == 0 {
                    let m = self.enc1.magnitude();
                    let nv = clamp_add(m, *delta, ENC1_MIN, ENC1_MAX);
                    self.enc1 = match self.enc1 {
                        Enc1Value::Shares(_) => Enc1Value::Shares(nv),
                        Enc1Value::PercentBuyingPower(_) => Enc1Value::PercentBuyingPower(nv),
                        Enc1Value::RiskDollars(_) => Enc1Value::RiskDollars(nv),
                    };
                    self.enc_last_ts[0] = Some(now_ms);
                } else if *idx == 1 {
                    let m = self.enc2.magnitude();
                    let nv = clamp_add(m, *delta, ENC2_MIN, ENC2_MAX);
                    self.enc2 = match self.enc2 {
                        Enc2Value::Ticks(_) => Enc2Value::Ticks(nv),
                        Enc2Value::Percent(_) => Enc2Value::Percent(nv),
                        Enc2Value::Atr(_) => Enc2Value::Atr(nv),
                    };
                    self.enc_last_ts[1] = Some(now_ms);
                } else if *idx == 2 {
                    let m = self.enc3.magnitude();
                    let nv = clamp_add(m, *delta, ENC3_MIN, ENC3_MAX);
                    self.enc3 = match self.enc3 {
                        Enc3Value::BidOffset(_) => Enc3Value::BidOffset(nv),
                        Enc3Value::MidOffset(_) => Enc3Value::MidOffset(nv),
                        Enc3Value::AskOffset(_) => Enc3Value::AskOffset(nv),
                    };
                    self.enc_last_ts[2] = Some(now_ms);
                }
                proof {
                    assert(*self =~= spec_apply_event(*old(self), *evt, now_ms).1);
                }
                Vec::new()
            }
            PadEvent::EncPress { idx, long: _ } => {
                if *idx == 0 {
                    self.enc1 = match self.enc1 {
                        Enc1Value::Shares(v) => Enc1Value::PercentBuyingPower(v),
                        Enc1Value::PercentBuyingPower(v) => Enc1Value::RiskDollars(v),
                        Enc1Value::RiskDollars(v) => Enc1Value::Shares(v),
                    };
                    self.enc_last_ts[0] = Some(now_ms);
                } else if *idx == 1 {
                    self.enc2 = match self.enc2 {
                        Enc2Value::Ticks(v) => Enc2Value::Percent(v),
                        Enc2Value::Percent(v) => Enc2Value::Atr(v),
                        Enc2Value::Atr(v) => Enc2Value::Ticks(v),
                    };
                    self.enc_last_ts[1] = Some(now_ms);
                } else if *idx == 2 {
                    self.enc3 = match self.enc3 {
                        Enc3Value::BidOffset(v) => Enc3Value::MidOffset(v),
                        Enc3Value::MidOffset(v) => Enc3Value::AskOffset(v),
                        Enc3Value::AskOffset(v) => Enc3Value::BidOffset(v),
                    };
                    self.enc_last_ts[2] = Some(now_ms);
                }
                proof {
                    assert(*self =~= spec_apply_event(*old(self), *evt, now_ms).1);
                }
                Vec::new()
            }
            PadEvent::MidiCc { .. } => {
                proof {
                    assert(*self =~= spec_apply_event(*old(self), *evt, now_ms).1);
                }
                Vec::new()
            }
        }
    }

    /// User-driven transition: flip the armed gate and mark the LEDs dirty.
    pub fn toggle_armed(&mut self)
        ensures
            *final(self) == (AppState {
                armed: !old(self).armed,
                needs_led_sync: true,
                ..*old(self)
            }),
    {
        self.armed = !self.armed;
        self.needs_led_sync = true;
        proof {
            assert(*self =~= (AppState {
                armed: !old(self).armed,
                needs_led_sync: true,
                ..*old(self)
            }));
        }
    }

    /// User-driven transition: switch the layer from the UI, marking the
    /// LEDs dirty and mirroring a `SetLayer` to the device only while
    /// connected.
    pub fn ui_set_layer(&mut self, layer: AppLayer) -> (cmd: Option<PadCommand>)
        ensures
            *final(self) == (AppState { layer, needs_led_sync: true, ..*old(self) }),
            cmd == if old(self).connected {
                Some(PadCommand::SetLayer { layer: spec_layer_num(layer) })
            } else {
                None::<PadCommand>
            },
    {
        self.layer = layer;
        self.needs_led_sync = true;
        let cmd = if self.connected {
            Some(PadCommand::SetLayer { layer: self.layer_num() })
        } else {
            None
        };
        proof {
            assert(*self =~= (AppState { layer, needs_led_sync: true, ..*old(self) }));
        }
        cmd
    }

    /// Toggle the (currently inert) flash phase once a second; a toggle
    /// marks the LEDs dirty, though the phase does not yet alter colors.
    pub fn tick_flash(&mut self, now_ms: u64)
        ensures
            *final(self) == if spec_elapsed(old(self).last_flash_toggle, now_ms)
                >= FLASH_TOGGLE_MS {
                AppState {
                    flash_phase: !old(self).flash_phase,
                    last_flash_toggle: now_ms,
                    needs_led_sync: true,
                    ..*old(self)
                }
            } else {
                *old(self)
            },
    {
        let elapsed = if now_ms >= self.last_flash_toggle {
            now_ms - self.last_flash_toggle
        } else {
            0
        };
        if elapsed >= FLASH_TOGGLE_MS {
            self.flash_phase = !self.flash_phase;
            self.last_flash_toggle = now_ms;
            self.needs_led_sync = true;
        }
        proof {
            assert(*self =~= if spec_elapsed(old(self).last_flash_toggle, now_ms)
                >= FLASH_TOGGLE_MS {
                AppState {
                    flash_phase: !old(self).flash_phase,
                    last_flash_toggle: now_ms,
                    needs_led_sync: true,
                    ..*old(self)
                }
            } else {
                *old(self)
            });
        }
    }
}

/// Whether a last-interaction timestamp is within the highlight window of
/// `now`.
pub fn highlight_active(ts: Option<u64>, now_ms: u64, window_ms: u64) -> (r: bool)
    ensures
        r == match ts {
            Some(t) => spec_elapsed(t, now_ms) < window_ms,
            None => false,
        },
{
    match ts {
        Some(t) => {
            let elapsed = if now_ms >= t {
                now_ms - t
            } else {
                0
            };
            elapsed < window_ms
        }
        None => false,
    }
}

/// A frame with no differing slot yields no commands, for any prefix.
proof fn lemma_no_diff_no_commands(s: AppState, i: int)
    requires
        0 <= i <= 9,
        forall|j: int| 0 <= j < 9 ==> spec_desired_led(s, j) == s.base_leds[j],
    ensures
        spec_diff_commands_to(s, i).len() == 0,
    decreases i,
{
    if i > 0 {
        lemma_no_diff_no_commands(s, i - 1);
    }
}

/// Idempotence of the LED engine: one sync step that was free to run,
/// followed by another on the unchanged state, emits no command the second
/// time — the second diff has size zero.
pub proof fn lemma_led_sync_idempotent(s: AppState, t1: u64, t2: u64)
    requires
        !spec_throttled(s, t1),
    ensures
        spec_sync_leds(spec_sync_leds(s, t1).1, t2).0.len() == 0,
{
    let s1 = spec_sync_leds(s, t1).1;
    if s.layer == AppLayer::Base {
        let cmds = spec_diff_commands_to(s, 9);
        if cmds.len() > 0 {
            lemma_written_leds_are_desired(s);
            assert forall|j: int| 0 <= j < 9 implies spec_desired_led(s1, j) == s1.base_leds[j] by {
                assert(spec_desired_led(s1, j) == spec_desired_led(s, j));
                assert(s1.base_leds[j] == spec_written_leds(s)@[j]);
            }
            if !spec_throttled(s1, t2) {
                lemma_no_diff_no_commands(s1, 9);
            }
        } else {
            assert(s1 == s);
            assert(spec_diff_commands_to(s1, 9) == spec_diff_commands_to(s, 9));
        }
    }
}

/// A forced full pass on the base layer writes all 9 slots whatever the
/// time of the last confirmed batch: the throttle does not apply to it.
pub proof fn lemma_full_pass_bypasses_throttle(s: AppState, now: u64)
    requires
        s.layer == AppLayer::Base,
    ensures
        spec_force_full_pass(s, now).0.len() == 9,
{
}

proof fn lemma_diff_commands_valid(s: AppState, i: int)
    requires
        0 <= i <= 9,
    ensures
        forall|k: int|
            0 <= k < spec_diff_commands_to(s, i).len() ==> spec_command_valid(
                #[trigger] spec_diff_commands_to(s, i)[k],
            ),
    decreases i,
{
    if i > 0 {
        lemma_diff_commands_valid(s, i - 1);
        let prev = spec_diff_commands_to(s, i - 1);
        let cur = spec_diff_commands_to(s, i);
        assert forall|k: int| 0 <= k < cur.len() implies spec_command_valid(cur[k]) by {
            if k < prev.len() {
                assert(cur[k] == prev[k]);
            } else {
                assert(cur[k] == (PadCommand::SetLed {
                    idx: (i - 1) as u8,
                    color: spec_desired_led(s, i - 1),
                }));
            }
        }
    }
}

/// Every command the LED engine emits — from a throttled sync step or a
/// forced full pass — is valid at the construction boundary: each `SetLed`
/// addresses one of the 9 slots.
pub proof fn lemma_engine_commands_valid(s: AppState, now: u64)
    ensures
        forall|k: int|
            0 <= k < spec_sync_leds(s, now).0.len() ==> spec_command_valid(
                #[trigger] spec_sync_leds(s, now).0[k],
            ),
        forall|k: int|
            0 <= k < spec_force_full_pass(s, now).0.len() ==> spec_command_valid(
                #[trigger] spec_force_full_pass(s, now).0[k],
            ),
{
    lemma_diff_commands_valid(s, 9);
}

/// Every command the state machine issues for an event is valid at the
/// construction boundary: the layer mirrored after `Hello` is one of the 3
/// known layers, and each forced `SetLed` addresses one of the 9 slots.
pub proof fn lemma_apply_event_commands_valid(s: AppState, evt: PadEvent, now: u64)
    ensures
        forall|k: int|
            0 <= k < spec_apply_event(s, evt, now).0.len() ==> spec_command_valid(
                #[trigger] spec_apply_event(s, evt, now).0[k],
            ),
{
    match evt {
        PadEvent::Hello { proto, fw_major, fw_minor } => {
            let connected = AppState { connected: true, fw: Some((proto, fw_major, fw_minor)), ..s };
            lemma_engine_commands_valid(connected, now);
        },
        _ => {},
    }
}

/// Precedence: a key that is pressed always renders the pressed color, even
/// when it is also eligible for the steady armed color.
pub proof fn lemma_pressed_overrides_steady(s: AppState, i: int)
    requires
        0 <= i < 9,
        s.key_pressed[i],
    ensures
        spec_desired_led(s, i) == spec_pressed_color(),
{
}

} // verus!
