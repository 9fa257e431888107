//! Application state for the trading pad: layer, per-key press state and
//! bindings, encoder modes with an attached magnitude, and the armed gate.
//! The state is advanced one decoded event at a time; nothing here performs
//! I/O.

use vstd::prelude::*;
use vstd::array::spec_array_update;

use crate::protocol::Rgb;

verus! {

broadcast use vstd::array::group_array_axioms;

/// Number of pad keys.
pub const KEY_COUNT: usize = 9;

/// Number of encoders.
pub const ENCODER_COUNT: usize = 3;

/// Magnitude bounds applied when an encoder is rotated, one consistent
/// policy per encoder: encoder 1 holds a non-negative size, encoder 2 a
/// percentage-like value within +/-100, encoder 3 a symmetric price offset.
/// Cycling an encoder's mode never changes or re-clamps the magnitude.
pub const ENC1_MIN: i32 = 0;
pub const ENC1_MAX: i32 = 1000000;
pub const ENC2_MIN: i32 = -100;
pub const ENC2_MAX: i32 = 100;
pub const ENC3_MIN: i32 = -1000000;
pub const ENC3_MAX: i32 = 1000000;

#[derive(Debug, Clone, Copy, PartialEq, Eq, Structural)]
pub enum AccountType {
    Paper,
    Live,
}

#[derive(Debug, Clone, Copy, PartialEq, Eq, Structural)]
pub enum Layer {
    Base,
    Buy,
    Sell,
}

/// Value of encoder 1; the variant is the current mode, the payload the
/// magnitude that persists across a mode cycle.
#[derive(Debug, Clone, Copy, PartialEq, Eq, Structural)]
pub enum Enc1Value {
    Shares(i32),
    PercentBuyingPower(i32),
    RiskDollars(i32),
}

/// Value of encoder 2.
#[derive(Debug, Clone, Copy, PartialEq, Eq, Structural)]
pub enum Enc2Value {
    Ticks(i32),
    Percent(i32),
    Atr(i32),
}

/// Value of encoder 3.
#[derive(Debug, Clone, Copy, PartialEq, Eq, Structural)]
pub enum Enc3Value {
    BidOffset(i32),
    MidOffset(i32),
    AskOffset(i32),
}

/// Mode tag of encoder 1, without the magnitude; purely descriptive for the
/// UI.
#[derive(Debug, Clone, Copy, PartialEq, Eq, Structural)]
pub enum Encoder1Mode {
    Shares,
    PercentBuyingPower,
    RiskDollars,
}

/// Mode tag of encoder 2.
#[derive(Debug, Clone, Copy, PartialEq, Eq, Structural)]
pub enum Encoder2Mode {
    Ticks,
    Percent,
    Atr,
}

/// Mode tag of encoder 3.
#[derive(Debug, Clone, Copy, PartialEq, Eq, Structural)]
pub enum Encoder3Mode {
    Bid,
    Mid,
    Ask,
}

/// Actions reachable on the base layer.
#[derive(Debug, Clone, Copy, PartialEq, Eq, Structural)]
pub enum BaseAction {
    PaperLiveToggle,
    Btn1,
    AccountSelect,
    RefreshData,
    Btn4,
    SymbolLockToggle,
    Btn6,
    Btn7,
    SnapshotBackup,
}

/// Actions reachable on the buy layer.
#[derive(Debug, Clone, Copy, PartialEq, Eq, Structural)]
pub enum BuyAction {
    MarketBuy,
    LimitBuy,
    BracketBuy,
    StopEntryBuy,
    ScaleIn25,
    ScaleIn50,
    FlattenCurrentSymbol,
    Btn7,
    ReverseToLong,
}

/// Actions reachable on the sell layer.
#[derive(Debug, Clone, Copy, PartialEq, Eq, Structural)]
pub enum SellAction {
    MarketSell,
    LimitSell,
    BracketSell,
    StopEntrySell,
    ScaleOut25,
    ScaleOut50,
    FlattenCurrentSymbol,
    Btn7,
    ReverseToShort,
}

/// Per-key binding on the base layer; `None` is an unbound key.
#[derive(Debug, Clone)]
pub struct BaseKeysState {
    pub btn0: Option<BaseAction>,
    pub btn1: Option<BaseAction>,
    pub btn2: Option<BaseAction>,
    pub btn3: Option<BaseAction>,
    pub btn4: Option<BaseAction>,
    pub btn5: Option<BaseAction>,
    pub btn6: Option<BaseAction>,
    pub btn7: Option<BaseAction>,
    pub btn8: Option<BaseAction>,
}

/// Per-key binding on the buy layer.
#[derive(Debug, Clone)]
pub struct BuyKeysState {
    pub btn0: Option<BuyAction>,
    pub btn1: Option<BuyAction>,
    pub btn2: Option<BuyAction>,
    pub btn3: Option<BuyAction>,
    pub btn4: Option<BuyAction>,
    pub btn5: Option<BuyAction>,
    pub btn6: Option<BuyAction>,
    pub btn7: Option<BuyAction>,
    pub btn8: Option<BuyAction>,
}

/// Per-key binding on the sell layer.
#[derive(Debug, Clone)]
pub struct SellKeysState {
    pub btn0: Option<SellAction>,
    pub btn1: Option<SellAction>,
    pub btn2: Option<SellAction>,
    pub btn3: Option<SellAction>,
    pub btn4: Option<SellAction>,
    pub btn5: Option<SellAction>,
    pub btn6: Option<SellAction>,
    pub btn7: Option<SellAction>,
    pub btn8: Option<SellAction>,
}

/// Per-layer key labels for the UI.
#[derive(Debug, Clone)]
pub struct KeyLabels {
    pub base: [String; 9],
    pub buy: [String; 9],
    pub sell: [String; 9],
}

/// Single-writer application state, mutated only through the event handlers
/// below and read by the UI and the LED engine.
#[derive(Debug, Clone)]
#[verifier::ext_equal]
pub struct TradingState {
    pub account_type: AccountType,
    pub armed: bool,
    pub account: u16,
    pub layer: Layer,
    pub key_labels: KeyLabels,
    pub base_keys: BaseKeysState,
    pub buy_keys: BuyKeysState,
    pub sell_keys: SellKeysState,
    pub key_pressed: [bool; 9],
    pub last_key_event: Option<(u8, bool)>,
    pub enc1: Enc1Value,
    pub enc2: Enc2Value,
    pub enc3: Enc3Value,
    pub last_encoder_event: Option<(u8, i16)>,
}

impl Enc1Value {
    /// The magnitude attached to the current mode.
    pub open spec fn spec_magnitude(self) -> i32 {
        match self {
            Enc1Value::Shares(v) => v,
            Enc1Value::PercentBuyingPower(v) => v,
            Enc1Value::RiskDollars(v) => v,
        }
    }

    /// The same mode carrying magnitude `v`.
    pub open spec fn spec_with_magnitude(self, v: i32) -> Enc1Value {
        match self {
            Enc1Value::Shares(_) => Enc1Value::Shares(v),
            Enc1Value::PercentBuyingPower(_) => Enc1Value::PercentBuyingPower(v),
            Enc1Value::RiskDollars(_) => Enc1Value::RiskDollars(v),
        }
    }

    /// The next mode in the fixed 3-cycle, magnitude carried unchanged.
    pub open spec fn spec_cycle(self) -> Enc1Value {
        match self {
            Enc1Value::Shares(v) => Enc1Value::PercentBuyingPower(v),
            Enc1Value::PercentBuyingPower(v) => Enc1Value::RiskDollars(v),
            Enc1Value::RiskDollars(v) => Enc1Value::Shares(v),
        }
    }

    /// The mode tag of the current value.
    pub fn mode(&self) -> (m: Encoder1Mode)
        ensures
            m == match *self {
                Enc1Value::Shares(_) => Encoder1Mode::Shares,
                Enc1Value::PercentBuyingPower(_) => Encoder1Mode::PercentBuyingPower,
                Enc1Value::RiskDollars(_) => Encoder1Mode::RiskDollars,
            },
    {
        match self {
            Enc1Value::Shares(_) => Encoder1Mode::Shares,
            Enc1Value::PercentBuyingPower(_) => Encoder1Mode::PercentBuyingPower,
            Enc1Value::RiskDollars(_) => Encoder1Mode::RiskDollars,
        }
    }

    /// The magnitude attached to the current mode.
    pub fn magnitude(&self) -> (v: i32)
        ensures
            v == self.spec_magnitude(),
    {
        match self {
            Enc1Value::Shares(v) => *v,
            Enc1Value::PercentBuyingPower(v) => *v,
            Enc1Value::RiskDollars(v) => *v,
        }
    }
}

impl Enc2Value {
    /// The magnitude attached to the current mode.
    pub open spec fn spec_magnitude(self) -> i32 {
        match self {
            Enc2Value::Ticks(v) => v,
            Enc2Value::Percent(v) => v,
            Enc2Value::Atr(v) => v,
        }
    }

    /// The same mode carrying magnitude `v`.
    pub open spec fn spec_with_magnitude(self, v: i32) -> Enc2Value {
        match self {
            Enc2Value::Ticks(_) => Enc2Value::Ticks(v),
            Enc2Value::Percent(_) => Enc2Value::Percent(v),
            Enc2Value::Atr(_) => Enc2Value::Atr(v),
        }
    }

    /// The next mode in the fixed 3-cycle, magnitude carried unchanged.
    pub open spec fn spec_cycle(self) -> Enc2Value {
        match self {
            Enc2Value::Ticks(v) => Enc2Value::Percent(v),
            Enc2Value::Percent(v) => Enc2Value::Atr(v),
            Enc2Value::Atr(v) => Enc2Value::Ticks(v),
        }
    }

    /// The mode tag of the current value.
    pub fn mode(&self) -> (m: Encoder2Mode)
        ensures
            m == match *self {
                Enc2Value::Ticks(_) => Encoder2Mode::Ticks,
                Enc2Value::Percent(_) => Encoder2Mode::Percent,
                Enc2Value::Atr(_) => Encoder2Mode::Atr,
            },
    {
        match self {
            Enc2Value::Ticks(_) => Encoder2Mode::Ticks,
            Enc2Value::Percent(_) => Encoder2Mode::Percent,
            Enc2Value::Atr(_) => Encoder2Mode::Atr,
        }
    }

    /// The magnitude attached to the current mode.
    pub fn magnitude(&self) -> (v: i32)
        ensures
            v == self.spec_magnitude(),
    {
        match self {
            Enc2Value::Ticks(v) => *v,
            Enc2Value::Percent(v) => *v,
            Enc2Value::Atr(v) => *v,
        }
    }
}

impl Enc3Value {
    /// The magnitude attached to the current mode.
    pub open spec fn spec_magnitude(self) -> i32 {
        match self {
            Enc3Value::BidOffset(v) => v,
            Enc3Value::MidOffset(v) => v,
            Enc3Value::AskOffset(v) => v,
        }
    }

    /// The same mode carrying magnitude `v`.
    pub open spec fn spec_with_magnitude(self, v: i32) -> Enc3Value {
        match self {
            Enc3Value::BidOffset(_) => Enc3Value::BidOffset(v),
            Enc3Value::MidOffset(_) => Enc3Value::MidOffset(v),
            Enc3Value::AskOffset(_) => Enc3Value::AskOffset(v),
        }
    }

    /// The next mode in the fixed 3-cycle, magnitude carried unchanged.
    pub open spec fn spec_cycle(self) -> Enc3Value {
        match self {
            Enc3Value::BidOffset(v) => Enc3Value::MidOffset(v),
            Enc3Value::MidOffset(v) => Enc3Value::AskOffset(v),
            Enc3Value::AskOffset(v) => Enc3Value::BidOffset(v),
        }
    }

    /// The mode tag of the current value.
    pub fn mode(&self) -> (m: Encoder3Mode)
        ensures
            m == match *self {
                Enc3Value::BidOffset(_) => Encoder3Mode::Bid,
                Enc3Value::MidOffset(_) => Encoder3Mode::Mid,
                Enc3Value::AskOffset(_) => Encoder3Mode::Ask,
            },
    {
        match self {
            Enc3Value::BidOffset(_) => Encoder3Mode::Bid,
            Enc3Value::MidOffset(_) => Encoder3Mode::Mid,
            Enc3Value::AskOffset(_) => Encoder3Mode::Ask,
        }
    }

    /// The magnitude attached to the current mode.
    pub fn magnitude(&self) -> (v: i32)
        ensures
            v == self.spec_magnitude(),
    {
        match self {
            Enc3Value::BidOffset(v) => *v,
            Enc3Value::MidOffset(v) => *v,
            Enc3Value::AskOffset(v) => *v,
        }
    }
}

/// `v` held to the inclusive range `[lo, hi]`.
pub open spec fn spec_clamp(v: int, lo: int, hi: int) -> int {
    if v < lo {
        lo
    } else if v > hi {
        hi
    } else {
        v
    }
}

impl TradingState {
    /// The base-layer binding of key `idx`.
    pub open spec fn spec_base_binding(self, idx: u8) -> Option<BaseAction> {
        if idx == 0 {
            self.base_keys.btn0
        } else if idx == 1 {
            self.base_keys.btn1
        } else if idx == 2 {
            self.base_keys.btn2
        } else if idx == 3 {
            self.base_keys.btn3
        } else if idx == 4 {
            self.base_keys.btn4
        } else if idx == 5 {
            self.base_keys.btn5
        } else if idx == 6 {
            self.base_keys.btn6
        } else if idx == 7 {
            self.base_keys.btn7
        } else if idx == 8 {
            self.base_keys.btn8
        } else {
            None
        }
    }

    /// The buy-layer binding of key `idx`.
    pub open spec fn spec_buy_binding(self, idx: u8) -> Option<BuyAction> {
        if idx == 0 {
            self.buy_keys.btn0
        } else if idx == 1 {
            self.buy_keys.btn1
        } else if idx == 2 {
            self.buy_keys.btn2
        } else if idx == 3 {
            self.buy_keys.btn3
        } else if idx == 4 {
            self.buy_keys.btn4
        } else if idx == 5 {
            self.buy_keys.btn5
        } else if idx == 6 {
            self.buy_keys.btn6
        } else if idx == 7 {
            self.buy_keys.btn7
        } else if idx == 8 {
            self.buy_keys.btn8
        } else {
            None
        }
    }

    /// The sell-layer binding of key `idx`.
    pub open spec fn spec_sell_binding(self, idx: u8) -> Option<SellAction> {
        if idx == 0 {
            self.sell_keys.btn0
        } else if idx == 1 {
            self.sell_keys.btn1
        } else if idx == 2 {
            self.sell_keys.btn2
        } else if idx == 3 {
            self.sell_keys.btn3
        } else if idx == 4 {
            self.sell_keys.btn4
        } else if idx == 5 {
            self.sell_keys.btn5
        } else if idx == 6 {
            self.sell_keys.btn6
        } else if idx == 7 {
            self.sell_keys.btn7
        } else if idx == 8 {
            self.sell_keys.btn8
        } else {
            None
        }
    }

    /// Whether the key at `idx` on `layer` (0 base, 1 buy, 2 sell) is bound
    /// to an action that only takes effect while the system is armed.
    pub open spec fn spec_is_action_armed_sensitive(self, layer: u8, idx: u8) -> bool {
        if layer == 1 {
            if idx == 0 {
                self.spec_buy_binding(0) == Some(BuyAction::MarketBuy)
            } else if idx == 8 {
                self.spec_buy_binding(8) == Some(BuyAction::ReverseToLong)
            } else {
                false
            }
        } else if layer == 2 {
            if idx == 0 {
                self.spec_sell_binding(0) == Some(SellAction::MarketSell)
            } else if idx == 8 {
                self.spec_sell_binding(8) == Some(SellAction::ReverseToShort)
            } else {
                false
            }
        } else {
            false
        }
    }

    /// See [`Self::spec_is_action_armed_sensitive`].
    pub fn is_action_armed_sensitive(&self, layer: u8, idx: u8) -> (r: bool)
        ensures
            r == self.spec_is_action_armed_sensitive(layer, idx),
    {
        match layer {
            1 => {
                match idx {
                    0 => matches!(self.buy_keys.btn0, Some(BuyAction::MarketBuy)),
                    8 => matches!(self.buy_keys.btn8, Some(BuyAction::ReverseToLong)),
                    _ => false,
                }
            }
            2 => {
                match idx {
                    0 => matches!(self.sell_keys.btn0, Some(SellAction::MarketSell)),
                    8 => matches!(self.sell_keys.btn8, Some(SellAction::ReverseToShort)),
                    _ => false,
                }
            }
            _ => false,
        }
    }

    /// Whether the key at `idx` on `layer` is bound to any action.
    pub open spec fn spec_is_button_bound(self, layer: u8, idx: u8) -> bool {
        if layer == 0 {
            self.spec_base_binding(idx) is Some
        } else if layer == 1 {
            self.spec_buy_binding(idx) is Some
        } else if layer == 2 {
            self.spec_sell_binding(idx) is Some
        } else {
            false
        }
    }

    /// See [`Self::spec_is_button_bound`].
    pub fn is_button_bound(&self, layer: u8, idx: u8) -> (r: bool)
        ensures
            r == self.spec_is_button_bound(layer, idx),
    {
        match layer {
            0 => {
                match idx {
                    0 => self.base_keys.btn0.is_some(),
                    1 => self.base_keys.btn1.is_some(),
                    2 => self.base_keys.btn2.is_some(),
                    3 => self.base_keys.btn3.is_some(),
                    4 => self.base_keys.btn4.is_some(),
                    5 => self.base_keys.btn5.is_some(),
                    6 => self.base_keys.btn6.is_some(),
                    7 => self.base_keys.btn7.is_some(),
                    8 => self.base_keys.btn8.is_some(),
                    _ => false,
                }
            }
            1 => {
                match idx {
                    0 => self.buy_keys.btn0.is_some(),
                    1 => self.buy_keys.btn1.is_some(),
                    2 => self.buy_keys.btn2.is_some(),
                    3 => self.buy_keys.btn3.is_some(),
                    4 => self.buy_keys.btn4.is_some(),
                    5 => self.buy_keys.btn5.is_some(),
                    6 => self.buy_keys.btn6.is_some(),
                    7 => self.buy_keys.btn7.is_some(),
                    8 => self.buy_keys.btn8.is_some(),
                    _ => false,
                }
            }
            2 => {
                match idx {
                    0 => self.sell_keys.btn0.is_some(),
                    1 => self.sell_keys.btn1.is_some(),
                    2 => self.sell_keys.btn2.is_some(),
                    3 => self.sell_keys.btn3.is_some(),
                    4 => self.sell_keys.btn4.is_some(),
                    5 => self.sell_keys.btn5.is_some(),
                    6 => self.sell_keys.btn6.is_some(),
                    7 => self.sell_keys.btn7.is_some(),
                    8 => self.sell_keys.btn8.is_some(),
                    _ => false,
                }
            }
            _ => false,
        }
    }

    /// Effect of a press on a bound base-layer key: toggling the account
    /// type or cycling the account number; every other action leaves the
    /// state unchanged.
    pub open spec fn spec_handle_base_action(self, idx: u8) -> TradingState {
        match self.spec_base_binding(idx) {
            Some(BaseAction::PaperLiveToggle) => TradingState {
                account_type: match self.account_type {
                    AccountType::Paper => AccountType::Live,
                    AccountType::Live => AccountType::Paper,
                },
                ..self
            },
            Some(BaseAction::AccountSelect) => TradingState {
                account: (((self.account + 1) as int % 10) as u16),
                ..self
            },
            _ => self,
        }
    }

    /// Apply the base-layer action bound to a pressed key; see
    /// [`Self::spec_handle_base_action`].
    pub fn handle_base_action(&mut self, idx: u8)
        ensures
            *final(self) == old(self).spec_handle_base_action(idx),
    {
        let action = match idx {
            0 => self.base_keys.btn0,
            1 => self.base_keys.btn1,
            2 => self.base_keys.btn2,
            3 => self.base_keys.btn3,
            4 => self.base_keys.btn4,
            5 => self.base_keys.btn5,
            6 => self.base_keys.btn6,
            7 => self.base_keys.btn7,
            8 => self.base_keys.btn8,
            _ => None,
        };
        match action {
            Some(BaseAction::PaperLiveToggle) => {
                self.account_type = match self.account_type {
                    AccountType::Paper => AccountType::Live,
                    AccountType::Live => AccountType::Paper,
                };
            }
            Some(BaseAction::AccountSelect) => {
                self.account = (((self.account as u32) + 1) % 10) as u16;
            }
            _ => {}
        }
        proof {
            assert(*self =~= old(self).spec_handle_base_action(idx));
        }
    }

    /// Effect of a button event: the press state is recorded at the key's
    /// slot and the raw event remembered, and a press additionally fires
    /// the base-layer action bound to that slot; buy- and sell-layer
    /// actions are decided outside this state (via
    /// [`Self::spec_is_action_armed_sensitive`]) and change nothing here.
    /// An out-of-range index is clamped to the last slot rather than
    /// rejected.
    pub open spec fn spec_handle_button(self, layer: u8, idx: u8, pressed: bool) -> TradingState {
        let i = if idx < 9 {
            idx as int
        } else {
            8
        };
        let recorded = TradingState {
            key_pressed: spec_array_update(self.key_pressed, i, pressed),
            last_key_event: Some((idx, pressed)),
            ..self
        };
        if pressed && layer == 0 {
            recorded.spec_handle_base_action(i as u8)
        } else {
            recorded
        }
    }

    /// Record a button press or release; see [`Self::spec_handle_button`].
    pub fn handle_button(&mut self, layer: u8, idx: u8, pressed: bool)
        ensures
            *final(self) == old(self).spec_handle_button(layer, idx, pressed),
    {
        let i: usize = if (idx as usize) < KEY_COUNT {
            idx as usize
        } else {
            KEY_COUNT - 1
        };
        self.key_pressed[i] = pressed;
        self.last_key_event = Some((idx, pressed));
        if pressed && layer == 0 {
            self.handle_base_action(i as u8);
        }
        proof {
            assert(*self =~= old(self).spec_handle_button(layer, idx, pressed));
        }
    }

    /// Effect of rotating encoder `idx` by `delta`: the delta is added to
    /// the magnitude of the encoder's current mode and the result held to
    /// the encoder's documented bounds; the event is recorded. An index
    /// above 2 only records the event.
    pub open spec fn spec_handle_encoder_rotate(self, idx: u8, delta: i8) -> TradingState {
        let recorded = TradingState {
            last_encoder_event: Some((idx, delta as i16)),
            ..self
        };
        if idx == 0 {
            TradingState {
                enc1: self.enc1.spec_with_magnitude(
                    spec_clamp(
                        self.enc1.spec_magnitude() + delta,
                        ENC1_MIN as int,
                        ENC1_MAX as int,
                    ) as i32,
                ),
                ..recorded
            }
        } else if idx == 1 {
            TradingState {
                enc2: self.enc2.spec_with_magnitude(
                    spec_clamp(
                        self.enc2.spec_magnitude() + delta,
                        ENC2_MIN as int,
                        ENC2_MAX as int,
                    ) as i32,
                ),
                ..recorded
            }
        } else if idx == 2 {
            TradingState {
                enc3: self.enc3.spec_with_magnitude(
                    spec_clamp(
                        self.enc3.spec_magnitude() + delta,
                        ENC3_MIN as int,
                        ENC3_MAX as int,
                    ) as i32,
                ),
                ..recorded
            }
        } else {
            recorded
        }
    }

    /// Rotate an encoder; see [`Self::spec_handle_encoder_rotate`].
    pub fn handle_encoder_rotate(&mut self, idx: u8, delta: i8)
        ensures
            *final(self) == old(self).spec_handle_encoder_rotate(idx, delta),
    {
        self.last_encoder_event = Some((idx, delta as i16));
        if idx == 0 {
            let m = self.enc1.magnitude();
            let nv = clamp_add(m, delta, ENC1_MIN, ENC1_MAX);
            self.enc1 = match self.enc1 {
                Enc1Value::Shares(_) => Enc1Value::Shares(nv),
                Enc1Value::PercentBuyingPower(_) => Enc1Value::PercentBuyingPower(nv),
                Enc1Value::RiskDollars(_) => Enc1Value::RiskDollars(nv),
            };
        } else if idx == 1 {
            let m = self.enc2.magnitude();
            let nv = clamp_add(m, delta, ENC2_MIN, ENC2_MAX);
            self.enc2 = match self.enc2 {
                Enc2Value::Ticks(_) => Enc2Value::Ticks(nv),
                Enc2Value::Percent(_) => Enc2Value::Percent(nv),
                Enc2Value::Atr(_) => Enc2Value::Atr(nv),
            };
        } else if idx == 2 {
            let m = self.enc3.magnitude();
            let nv = clamp_add(m, delta, ENC3_MIN, ENC3_MAX);
            self.enc3 = match self.enc3 {
                Enc3Value::BidOffset(_) => Enc3Value::BidOffset(nv),
                Enc3Value::MidOffset(_) => Enc3Value::MidOffset(nv),
                Enc3Value::AskOffset(_) => Enc3Value::AskOffset(nv),
            };
        }
        proof {
            assert(*self =~= old(self).spec_handle_encoder_rotate(idx, delta));
        }
    }

    /// Effect of pressing encoder `idx`: its mode cycles to the next of the
    /// fixed three, the magnitude carried forward unchanged; nothing else
    /// changes. An index above 2 changes nothing.
    pub open spec fn spec_handle_encoder_press(self, idx: u8) -> TradingState {
        if idx == 0 {
            TradingState { enc1: self.enc1.spec_cycle(), ..self }
        } else if idx == 1 {
            TradingState { enc2: self.enc2.spec_cycle(), ..self }
        } else if idx == 2 {
            TradingState { enc3: self.enc3.spec_cycle(), ..self }
        } else {
            self
        }
    }

    /// Cycle an encoder's mode; see [`Self::spec_handle_encoder_press`].
    pub fn handle_encoder_press(&mut self, idx: u8)
        ensures
            *final(self) == old(self).spec_handle_encoder_press(idx),
    {
        if idx == 0 {
            self.enc1 = match self.enc1 {
                Enc1Value::Shares(v) => Enc1Value::PercentBuyingPower(v),
                Enc1Value::PercentBuyingPower(v) => Enc1Value::RiskDollars(v),
                Enc1Value::RiskDollars(v) => Enc1Value::Shares(v),
            };
        } else if idx == 1 {
            self.enc2 = match self.enc2 {
                Enc2Value::Ticks(v) => Enc2Value::Percent(v),
                Enc2Value::Percent(v) => Enc2Value::Atr(v),
                Enc2Value::Atr(v) => Enc2Value::Ticks(v),
            };
        } else if idx == 2 {
            self.enc3 = match self.enc3 {
                Enc3Value::BidOffset(v) => Enc3Value::MidOffset(v),
                Enc3Value::MidOffset(v) => Enc3Value::AskOffset(v),
                Enc3Value::AskOffset(v) => Enc3Value::BidOffset(v),
            };
        }
        proof {
            assert(*self =~= old(self).spec_handle_encoder_press(idx));
        }
    }

    /// The accent color of a layer on the pad: dim white for base, dim
    /// green for buy, dim red for sell, and dim white again for anything
    /// unknown.
    pub open spec fn spec_layer_color(layer: u8) -> Rgb {
        if layer == 1 {
            Rgb { r: 0, g: 100, b: 0 }
        } else if layer == 2 {
            Rgb { r: 100, g: 0, b: 0 }
        } else {
            Rgb { r: 100, g: 100, b: 100 }
        }
    }

    /// The color the per-layer coloring collaborator shows on key `idx` of
    /// `layer`: the layer's accent color for a bound key, except that a
    /// bound, armed-sensitive key goes dark while the system is disarmed;
    /// an unbound key is dark.
    pub open spec fn spec_key_led_color(self, layer: u8, idx: u8) -> Rgb {
        if self.spec_is_button_bound(layer, idx) {
            if self.spec_is_action_armed_sensitive(layer, idx) && !self.armed {
                Rgb { r: 0, g: 0, b: 0 }
            } else {
                Self::spec_layer_color(layer)
            }
        } else {
            Rgb { r: 0, g: 0, b: 0 }
        }
    }

    /// See [`Self::spec_key_led_color`].
    pub fn key_led_color(&self, layer: u8, idx: u8) -> (c: Rgb)
        ensures
            c == self.spec_key_led_color(layer, idx),
    {
        let layer_color = if layer == 1 {
            Rgb { r: 0, g: 100, b: 0 }
        } else if layer == 2 {
            Rgb { r: 100, g: 0, b: 0 }
        } else {
            Rgb { r: 100, g: 100, b: 100 }
        };
        if self.is_button_bound(layer, idx) {
            if self.is_action_armed_sensitive(layer, idx) && !self.armed {
                Rgb { r: 0, g: 0, b: 0 }
            } else {
                layer_color
            }
        } else {
            Rgb { r: 0, g: 0, b: 0 }
        }
    }

    /// Switch the UI layer; nothing else changes.
    pub fn set_layer(&mut self, layer: Layer)
        ensures
            *final(self) == (TradingState { layer, ..*old(self) }),
    {
        self.layer = layer;
        proof {
            assert(*self =~= (TradingState { layer, ..*old(self) }));
        }
    }
}

/// `m + delta` held to the inclusive range `[lo, hi]`, computed without
/// overflow.
pub(crate) fn clamp_add(m: i32, delta: i8, lo: i32, hi: i32) -> (r: i32)
    requires
        lo <= hi,
    ensures
        r == spec_clamp(m + delta, lo as int, hi as int),
{
    let wide: i64 = m as i64 + delta as i64;
    if wide < lo as i64 {
        lo
    } else if wide > hi as i64 {
        hi
    } else {
        wide as i32
    }
}

/// The label texts of the stock key layout, one per layer.
pub open spec fn spec_is_default_labels(k: KeyLabels) -> bool {
    &&& k.base[0]@ == "Paper/Live"@
    &&& k.base[1]@ == "Btn1"@
    &&& k.base[2]@ == "Account"@
    &&& k.base[3]@ == "Refresh"@
    &&& k.base[4]@ == "Btn4"@
    &&& k.base[5]@ == "Lock Symbol"@
    &&& k.base[6]@ == "Btn6"@
    &&& k.base[7]@ == "Btn7"@
    &&& k.base[8]@ == "Snapshot"@
    &&& k.buy[0]@ == "Market Buy"@
    &&& k.buy[1]@ == "Limit Buy"@
    &&& k.buy[2]@ == "Bracket Buy"@
    &&& k.buy[3]@ == "Stop Entry"@
    &&& k.buy[4]@ == "Scale In 25%"@
    &&& k.buy[5]@ == "Scale In 50%"@
    &&& k.buy[6]@ == "Flatten"@
    &&& k.buy[7]@ == "Btn7"@
    &&& k.buy[8]@ == "Reverse Long"@
    &&& k.sell[0]@ == "Market Sell"@
    &&& k.sell[1]@ == "Limit Sell"@
    &&& k.sell[2]@ == "Bracket Sell"@
    &&& k.sell[3]@ == "Stop Entry"@
    &&& k.sell[4]@ == "Scale Out 25%"@
    &&& k.sell[5]@ == "Scale Out 50%"@
    &&& k.sell[6]@ == "Flatten"@
    &&& k.sell[7]@ == "Btn7"@
    &&& k.sell[8]@ == "Reverse Short"@
}

/// The stock bindings: every key of every layer bound, in the layout order
/// of the action enums.
pub open spec fn spec_is_default_bindings(s: TradingState) -> bool {
    &&& s.base_keys.btn0 == Some(BaseAction::PaperLiveToggle)
    &&& s.base_keys.btn1 == Some(BaseAction::Btn1)
    &&& s.base_keys.btn2 == Some(BaseAction::AccountSelect)
    &&& s.base_keys.btn3 == Some(BaseAction::RefreshData)
    &&& s.base_keys.btn4 == Some(BaseAction::Btn4)
    &&& s.base_keys.btn5 == Some(BaseAction::SymbolLockToggle)
    &&& s.base_keys.btn6 == Some(BaseAction::Btn6)
    &&& s.base_keys.btn7 == Some(BaseAction::Btn7)
    &&& s.base_keys.btn8 == Some(BaseAction::SnapshotBackup)
    &&& s.buy_keys.btn0 == Some(BuyAction::MarketBuy)
    &&& s.buy_keys.btn1 == Some(BuyAction::LimitBuy)
    &&& s.buy_keys.btn2 == Some(BuyAction::BracketBuy)
    &&& s.buy_keys.btn3 == Some(BuyAction::StopEntryBuy)
    &&& s.buy_keys.btn4 == Some(BuyAction::ScaleIn25)
    &&& s.buy_keys.btn5 == Some(BuyAction::ScaleIn50)
    &&& s.buy_keys.btn6 == Some(BuyAction::FlattenCurrentSymbol)
    &&& s.buy_keys.btn7 == Some(BuyAction::Btn7)
    &&& s.buy_keys.btn8 == Some(BuyAction::ReverseToLong)
    &&& s.sell_keys.btn0 == Some(SellAction::MarketSell)
    &&& s.sell_keys.btn1 == Some(SellAction::LimitSell)
    &&& s.sell_keys.btn2 == Some(SellAction::BracketSell)
    &&& s.sell_keys.btn3 == Some(SellAction::StopEntrySell)
    &&& s.sell_keys.btn4 == Some(SellAction::ScaleOut25)
    &&& s.sell_keys.btn5 == Some(SellAction::ScaleOut50)
    &&& s.sell_keys.btn6 == Some(SellAction::FlattenCurrentSymbol)
    &&& s.sell_keys.btn7 == Some(SellAction::Btn7)
    &&& s.sell_keys.btn8 == Some(SellAction::ReverseToShort)
}

impl Default for KeyLabels {
    /// Labels start empty; the application fills them in later.
    fn default() -> (k: Self)
        ensures
            forall|i: int| 0 <= i < 9 ==> (#[trigger] k.base[i]@).len() == 0,
            forall|i: int| 0 <= i < 9 ==> (#[trigger] k.buy[i]@).len() == 0,
            forall|i: int| 0 <= i < 9 ==> (#[trigger] k.sell[i]@).len() == 0,
    {
        let k = KeyLabels {
            base: [
                "".to_string(),
                "".to_string(),
                "".to_string(),
                "".to_string(),
                "".to_string(),
                "".to_string(),
                "".to_string(),
                "".to_string(),
                "".to_string(),
            ],
            buy: [
                "".to_string(),
                "".to_string(),
                "".to_string(),
                "".to_string(),
                "".to_string(),
                "".to_string(),
                "".to_string(),
                "".to_string(),
                "".to_string(),
            ],
            sell: [
                "".to_string(),
                "".to_string(),
                "".to_string(),
                "".to_string(),
                "".to_string(),
                "".to_string(),
                "".to_string(),
                "".to_string(),
                "".to_string(),
            ],
        };
        proof {
            reveal_strlit("");
        }
        k
    }
}

impl Default for TradingState {
    /// The startup state: paper account 0, disarmed, base layer, no key
    /// pressed, no event seen yet, the stock bindings and labels, encoder 1
    /// at 100 shares, encoder 2 at 5 ticks, encoder 3 at mid offset 0.
    fn default() -> (s: Self)
        ensures
            s.account_type == AccountType::Paper,
            !s.armed,
            s.account == 0u16,
            s.layer == Layer::Base,
            spec_is_default_labels(s.key_labels),
            spec_is_default_bindings(s),
            s.key_pressed@ == Seq::new(9, |i: int| false),
            s.last_key_event is None,
            s.enc1 == Enc1Value::Shares(100i32),
            s.enc2 == Enc2Value::Ticks(5i32),
            s.enc3 == Enc3Value::MidOffset(0i32),
            s.last_encoder_event is None,
    {
        let s = TradingState {
            account_type: AccountType::Paper,
            armed: false,
            account: 0,
            layer: Layer::Base,
            key_labels: KeyLabels {
                base: [
                    "Paper/Live".to_string(),
                    "Btn1".to_string(),
                    "Account".to_string(),
                    "Refresh".to_string(),
                    "Btn4".to_string(),
                    "Lock Symbol".to_string(),
                    "Btn6".to_string(),
                    "Btn7".to_string(),
                    "Snapshot".to_string(),
                ],
                buy: [
                    "Market Buy".to_string(),
                    "Limit Buy".to_string(),
                    "Bracket Buy".to_string(),
                    "Stop Entry".to_string(),
                    "Scale In 25%".to_string(),
                    "Scale In 50%".to_string(),
                    "Flatten".to_string(),
                    "Btn7".to_string(),
                    "Reverse Long".to_string(),
                ],
                sell: [
                    "Market Sell".to_string(),
                    "Limit Sell".to_string(),
                    "Bracket Sell".to_string(),
                    "Stop Entry".to_string(),
                    "Scale Out 25%".to_string(),
                    "Scale Out 50%".to_string(),
                    "Flatten".to_string(),
                    "Btn7".to_string(),
                    "Reverse Short".to_string(),
                ],
            },
            base_keys: BaseKeysState {
                btn0: Some(BaseAction::PaperLiveToggle),
                btn1: Some(BaseAction::Btn1),
                btn2: Some(BaseAction::AccountSelect),
                btn3: Some(BaseAction::RefreshData),
                btn4: Some(BaseAction::Btn4),
                btn5: Some(BaseAction::SymbolLockToggle),
                btn6: Some(BaseAction::Btn6),
                btn7: Some(BaseAction::Btn7),
                btn8: Some(BaseAction::SnapshotBackup),
            },
            buy_keys: BuyKeysState {
                btn0: Some(BuyAction::MarketBuy),
                btn1: Some(BuyAction::LimitBuy),
                btn2: Some(BuyAction::BracketBuy),
                btn3: Some(BuyAction::StopEntryBuy),
                btn4: Some(BuyAction::ScaleIn25),
                btn5: Some(BuyAction::ScaleIn50),
                btn6: Some(BuyAction::FlattenCurrentSymbol),
                btn7: Some(BuyAction::Btn7),
                btn8: Some(BuyAction::ReverseToLong),
            },
            sell_keys: SellKeysState {
                btn0: Some(SellAction::MarketSell),
                btn1: Some(SellAction::LimitSell),
                btn2: Some(SellAction::BracketSell),
                btn3: Some(SellAction::StopEntrySell),
                btn4: Some(SellAction::ScaleOut25),
                btn5: Some(SellAction::ScaleOut50),
                btn6: Some(SellAction::FlattenCurrentSymbol),
                btn7: Some(SellAction::Btn7),
                btn8: Some(SellAction::ReverseToShort),
            },
            key_pressed: [false; 9],
            last_key_event: None,
            enc1: Enc1Value::Shares(100),
            enc2: Enc2Value::Ticks(5),
            enc3: Enc3Value::MidOffset(0),
            last_encoder_event: None,
        };
        proof {
            assert(s.key_pressed@ =~= Seq::new(9, |i: int| false));
        }
        s
    }
}

/// Exactly three presses of one encoder return the state to what it was:
/// the mode is back to the original and the magnitude is unchanged, and no
/// other part of the state is touched.
pub proof fn lemma_encoder_press_cycle(s: TradingState, idx: u8)
    ensures
        s.spec_handle_encoder_press(idx).spec_handle_encoder_press(idx).spec_handle_encoder_press(
            idx,
        ) == s,
{
    let s3 = s.spec_handle_encoder_press(idx).spec_handle_encoder_press(
        idx,
    ).spec_handle_encoder_press(idx);
    assert(s3 =~= s);
}

} // verus!
