//! Interpretation of MIDI continuous-controller events from the external
//! MIDI collaborator. Opening ports and reading from them happens outside
//! this crate; only the pure mapping from controller numbers to encoder
//! actions lives here.

use vstd::prelude::*;

use crate::protocol::PadEvent;

verus! {

/// Encoder CC numbers assigned by the firmware.
pub const SHARES_DOWN: u8 = 20;
pub const SHARES_UP: u8 = 21;
pub const STOP_DOWN: u8 = 22;
pub const STOP_UP: u8 = 23;
pub const LIMIT_DOWN: u8 = 24;
pub const LIMIT_UP: u8 = 25;

/// What a raw MIDI message decodes to: a control-change message (status
/// nibble `0xB`) of exactly three bytes becomes the auxiliary event, with
/// the channel taken from the low nibble of the status byte; anything else
/// is ignored.
pub open spec fn spec_parse_midi_message(message: Seq<u8>) -> Option<PadEvent> {
    if message.len() == 3 && (message[0] & 0xF0) == 0xB0 {
        Some(
            PadEvent::MidiCc {
                channel: message[0] & 0x0F,
                controller: message[1],
                value: message[2],
            },
        )
    } else {
        None
    }
}

/// Decode one raw MIDI message into the auxiliary pad event; see
/// [`spec_parse_midi_message`].
pub fn parse_midi_message(message: &[u8]) -> (r: Option<PadEvent>)
    ensures
        r == spec_parse_midi_message(message@),
{
    if message.len() == 3 && (message[0] & 0xF0) == 0xB0 {
        Some(
            PadEvent::MidiCc {
                channel: message[0] & 0x0F,
                controller: message[1],
                value: message[2],
            },
        )
    } else {
        None
    }
}

/// Interpret a MIDI CC event as an encoder action description. A zero
/// value is a CC off event and yields nothing, as does an unassigned
/// controller number.
pub fn interpret_midi_cc(controller: u8, value: u8) -> (r: Option<String>)
    ensures
        value == 0 ==> r is None,
        value != 0 && controller == SHARES_UP ==> (r matches Some(s) && s@ == "Shares encoder up"@),
        value != 0 && controller == SHARES_DOWN ==> (r matches Some(s) && s@
            == "Shares encoder down"@),
        value != 0 && controller == STOP_UP ==> (r matches Some(s) && s@ == "Stop encoder up"@),
        value != 0 && controller == STOP_DOWN ==> (r matches Some(s) && s@ == "Stop encoder down"@),
        value != 0 && controller == LIMIT_UP ==> (r matches Some(s) && s@ == "Limit encoder up"@),
        value != 0 && controller == LIMIT_DOWN ==> (r matches Some(s) && s@
            == "Limit encoder down"@),
        !(controller == SHARES_UP || controller == SHARES_DOWN || controller == STOP_UP
            || controller == STOP_DOWN || controller == LIMIT_UP || controller == LIMIT_DOWN)
            ==> r is None,
{
    if value == 0 {
        return None;
    }
    if controller == SHARES_UP {
        Some("Shares encoder up".to_string())
    } else if controller == SHARES_DOWN {
        Some("Shares encoder down".to_string())
    } else if controller == STOP_UP {
        Some("Stop encoder up".to_string())
    } else if controller == STOP_DOWN {
        Some("Stop encoder down".to_string())
    } else if controller == LIMIT_UP {
        Some("Limit encoder up".to_string())
    } else if controller == LIMIT_DOWN {
        Some("Limit encoder down".to_string())
    } else {
        None
    }
}

/// Stand-in for the MIDI collaborator when no port is present: yields the
/// fixed CC sequence that the real reader would produce, for the
/// surrounding application to feed into the event channel on its own
/// schedule.
pub struct MockMidiReader;

impl MockMidiReader {
    /// The scripted events: one shares-up and one shares-down CC, both at
    /// full value on channel 0.
    pub fn mock_events() -> (evts: Vec<PadEvent>)
        ensures
            evts@ == seq![
                PadEvent::MidiCc { channel: 0u8, controller: SHARES_UP, value: 127u8 },
                PadEvent::MidiCc { channel: 0u8, controller: SHARES_DOWN, value: 127u8 },
            ],
    {
        let mut evts: Vec<PadEvent> = Vec::new();
        evts.push(PadEvent::MidiCc { channel: 0, controller: SHARES_UP, value: 127 });
        evts.push(PadEvent::MidiCc { channel: 0, controller: SHARES_DOWN, value: 127 });
        proof {
            assert(evts@ =~= seq![
                PadEvent::MidiCc { channel: 0u8, controller: SHARES_UP, value: 127u8 },
                PadEvent::MidiCc { channel: 0u8, controller: SHARES_DOWN, value: 127u8 },
            ]);
        }
        evts
    }
}

} // verus!
