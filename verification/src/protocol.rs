//! Wire protocol codec: raw input reports to typed events, typed commands to
//! raw output reports. Pure functions, no I/O and no state.

use vstd::prelude::*;

verus! {

/// Fixed size of every report exchanged with the device.
pub const REPORT_SIZE: usize = 32;

/// A 3-channel color; three independent 0-255 channels, no alpha.
#[derive(Clone, Copy, Debug, PartialEq, Eq, Structural)]
pub struct Rgb {
    pub r: u8,
    pub g: u8,
    pub b: u8,
}

impl Rgb {
    pub fn white() -> (c: Rgb)
        ensures
            c == (Rgb { r: 255u8, g: 255u8, b: 255u8 }),
    {
        Rgb { r: 255, g: 255, b: 255 }
    }

    pub fn red() -> (c: Rgb)
        ensures
            c == (Rgb { r: 255u8, g: 0u8, b: 0u8 }),
    {
        Rgb { r: 255, g: 0, b: 0 }
    }

    pub fn green() -> (c: Rgb)
        ensures
            c == (Rgb { r: 0u8, g: 255u8, b: 0u8 }),
    {
        Rgb { r: 0, g: 255, b: 0 }
    }

    pub fn blue() -> (c: Rgb)
        ensures
            c == (Rgb { r: 0u8, g: 0u8, b: 255u8 }),
    {
        Rgb { r: 0, g: 0, b: 255 }
    }

    pub fn off() -> (c: Rgb)
        ensures
            c == (Rgb { r: 0u8, g: 0u8, b: 0u8 }),
    {
        Rgb { r: 0, g: 0, b: 0 }
    }
}

/// An event decoded from a device input report. Every event is
/// self-contained; `MidiCc` is the auxiliary-input event that an external
/// MIDI collaborator feeds into the same channel and is carried through
/// unchanged (it never appears on the pad's own wire).
#[derive(Clone, Copy, Debug, PartialEq, Eq, Structural)]
pub enum PadEvent {
    Hello { proto: u8, fw_major: u8, fw_minor: u8 },
    Layer { layer: u8 },
    Button { layer: u8, idx: u8, pressed: bool },
    EncRotate { idx: u8, delta: i8 },
    EncPress { idx: u8, long: bool },
    MidiCc { channel: u8, controller: u8, value: u8 },
}

/// What decoding a raw input report yields, dispatching on the opcode in
/// byte 0 and requiring the per-opcode minimum length. Anything that matches
/// no known pattern is no event.
pub open spec fn spec_parse_hid_event(data: Seq<u8>) -> Option<PadEvent> {
    if data.len() == 0 {
        None
    } else if data[0] == 0x10 && data.len() >= 4 {
        Some(PadEvent::Button { layer: data[1], idx: data[2], pressed: data[3] == 1 })
    } else if data[0] == 0x11 && data.len() >= 3 {
        Some(PadEvent::EncRotate { idx: data[1], delta: data[2] as i8 })
    } else if data[0] == 0x12 && data.len() >= 3 {
        Some(PadEvent::EncPress { idx: data[1], long: data[2] == 2 })
    } else if data[0] == 0x13 && data.len() >= 2 {
        Some(PadEvent::Layer { layer: data[1] })
    } else if data[0] == 0x7E && data.len() >= 4 {
        Some(PadEvent::Hello { proto: data[1], fw_major: data[2], fw_minor: data[3] })
    } else {
        None
    }
}

/// Parse a raw input report into a typed event. Unrecognized or truncated
/// traffic yields `None`; malformed input never panics.
pub fn parse_hid_event(data: &[u8]) -> (r: Option<PadEvent>)
    ensures
        r == spec_parse_hid_event(data@),
{
    if data.len() == 0 {
        return None;
    }
    if data[0] == 0x10 && data.len() >= 4 {
        Some(PadEvent::Button { layer: data[1], idx: data[2], pressed: data[3] == 1 })
    } else if data[0] == 0x11 && data.len() >= 3 {
        Some(PadEvent::EncRotate { idx: data[1], delta: data[2] as i8 })
    } else if data[0] == 0x12 && data.len() >= 3 {
        Some(PadEvent::EncPress { idx: data[1], long: data[2] == 2 })
    } else if data[0] == 0x13 && data.len() >= 2 {
        Some(PadEvent::Layer { layer: data[1] })
    } else if data[0] == 0x7E && data.len() >= 4 {
        Some(PadEvent::Hello { proto: data[1], fw_major: data[2], fw_minor: data[3] })
    } else {
        None
    }
}

/// Error taxonomy of the driver core.
#[derive(Clone, Copy, Debug, PartialEq, Eq, Structural)]
pub enum PadError {
    /// Setup-time: no device matched the discovery criteria.
    DeviceNotFound,
    /// Transient: one write to the device failed; the owner loop continues.
    WriteFailed,
    /// Transient: one read from the device failed; the owner loop continues.
    ReadFailed,
    /// Fatal for the owning thread: a channel endpoint was dropped.
    ChannelDisconnected,
    /// A command was constructed with an out-of-range index or layer and
    /// rejected before reaching the channel.
    InvalidArgument,
}

/// A command from host to device.
#[derive(Clone, Copy, Debug, PartialEq, Eq, Structural)]
pub enum PadCommand {
    HostReady,
    SetAllLeds { color: Rgb },
    SetLed { idx: u8, color: Rgb },
    SetLayer { layer: u8 },
}

/// Range validity, established at the command-construction boundary:
/// a LED index is one of the 9 slots, a layer one of the 3 layers.
pub open spec fn spec_command_valid(c: PadCommand) -> bool {
    match c {
        PadCommand::HostReady => true,
        PadCommand::SetAllLeds { color } => true,
        PadCommand::SetLed { idx, color } => idx < 9,
        PadCommand::SetLayer { layer } => layer < 3,
    }
}

/// Build a `SetLed` command, rejecting an out-of-range index rather than
/// clamping or sending it.
pub fn make_set_led(idx: u8, color: Rgb) -> (r: Result<PadCommand, PadError>)
    ensures
        idx < 9 ==> r == Ok::<PadCommand, PadError>(PadCommand::SetLed { idx, color }),
        idx >= 9 ==> r == Err::<PadCommand, PadError>(PadError::InvalidArgument),
{
    if idx < 9 {
        Ok(PadCommand::SetLed { idx, color })
    } else {
        Err(PadError::InvalidArgument)
    }
}

/// Build a `SetLayer` command, rejecting an out-of-range layer rather than
/// clamping or sending it.
pub fn make_set_layer(layer: u8) -> (r: Result<PadCommand, PadError>)
    ensures
        layer < 3 ==> r == Ok::<PadCommand, PadError>(PadCommand::SetLayer { layer }),
        layer >= 3 ==> r == Err::<PadCommand, PadError>(PadError::InvalidArgument),
{
    if layer < 3 {
        Ok(PadCommand::SetLayer { layer })
    } else {
        Err(PadError::InvalidArgument)
    }
}

/// The opcode byte of a command report.
pub open spec fn spec_command_opcode(c: PadCommand) -> u8 {
    match c {
        PadCommand::HostReady => 0x7D,
        PadCommand::SetAllLeds { color } => 0x01,
        PadCommand::SetLed { idx, color } => 0x02,
        PadCommand::SetLayer { layer } => 0x03,
    }
}

/// The payload bytes of a command report, following the opcode.
pub open spec fn spec_command_payload(c: PadCommand) -> Seq<u8> {
    match c {
        PadCommand::HostReady => seq![1u8],
        PadCommand::SetAllLeds { color } => seq![color.r, color.g, color.b],
        PadCommand::SetLed { idx, color } => seq![idx, color.r, color.g, color.b],
        PadCommand::SetLayer { layer } => seq![layer],
    }
}

/// A full fixed-size report: opcode, then payload, zero-padded to
/// `REPORT_SIZE` bytes.
pub open spec fn spec_build_packet(id: u8, payload: Seq<u8>) -> Seq<u8> {
    seq![id] + payload + Seq::new((REPORT_SIZE - 1 - payload.len()) as nat, |i: int| 0u8)
}

/// The encoding of a command as the fixed-size report put on the wire.
pub open spec fn spec_encode_command(c: PadCommand) -> Seq<u8> {
    spec_build_packet(spec_command_opcode(c), spec_command_payload(c))
}

/// Assemble a fixed-size report from an opcode byte and a payload.
pub fn build_packet(id: u8, payload: &[u8]) -> (r: Vec<u8>)
    requires
        payload@.len() < REPORT_SIZE,
    ensures
        r@ == spec_build_packet(id, payload@),
{
    let mut out: Vec<u8> = Vec::new();
    out.push(id);
    let mut i: usize = 0;
    while i < payload.len()
        invariant
            i <= payload@.len() < REPORT_SIZE,
            out@ == seq![id] + payload@.subrange(0, i as int),
        decreases payload@.len() - i,
    {
        out.push(payload[i]);
        i += 1;
        proof {
            assert(out@ =~= seq![id] + payload@.subrange(0, i as int));
        }
    }
    proof {
        assert(payload@.subrange(0, payload@.len() as int) =~= payload@);
    }
    while out.len() < REPORT_SIZE
        invariant
            1 + payload@.len() <= out@.len() <= REPORT_SIZE,
            out@ == (seq![id] + payload@) + Seq::new(
                (out@.len() - 1 - payload@.len()) as nat,
                |j: int| 0u8,
            ),
        decreases REPORT_SIZE - out@.len(),
    {
        out.push(0);
        proof {
            assert(out@ =~= (seq![id] + payload@) + Seq::new(
                (out@.len() - 1 - payload@.len()) as nat,
                |j: int| 0u8,
            ));
        }
    }
    proof {
        assert(out@ =~= spec_build_packet(id, payload@));
    }
    out
}

/// Encode a command as the fixed-size report put on the wire.
pub fn encode_command(c: &PadCommand) -> (r: Vec<u8>)
    ensures
        r@ == spec_encode_command(*c),
{
    let mut payload: Vec<u8> = Vec::new();
    let id: u8;
    match c {
        PadCommand::HostReady => {
            id = 0x7D;
            payload.push(1);
        }
        PadCommand::SetAllLeds { color } => {
            id = 0x01;
            payload.push(color.r);
            payload.push(color.g);
            payload.push(color.b);
        }
        PadCommand::SetLed { idx, color } => {
            id = 0x02;
            payload.push(*idx);
            payload.push(color.r);
            payload.push(color.g);
            payload.push(color.b);
        }
        PadCommand::SetLayer { layer } => {
            id = 0x03;
            payload.push(*layer);
        }
    }
    proof {
        assert(payload@ =~= spec_command_payload(*c));
    }
    build_packet(id, payload.as_slice())
}

/// Prefix the transport-level report-ID byte that some host platforms
/// require before the fixed-size report; the logical payload is unchanged.
pub fn prepend_report_id(pkt: &[u8]) -> (r: Vec<u8>)
    requires
        pkt@.len() < usize::MAX,
    ensures
        r@ == seq![0u8] + pkt@,
{
    let mut out: Vec<u8> = Vec::new();
    out.push(0);
    let mut i: usize = 0;
    while i < pkt.len()
        invariant
            i <= pkt@.len(),
            out@ == seq![0u8] + pkt@.subrange(0, i as int),
        decreases pkt@.len() - i,
    {
        out.push(pkt[i]);
        i += 1;
        proof {
            assert(out@ =~= seq![0u8] + pkt@.subrange(0, i as int));
        }
    }
    proof {
        assert(pkt@.subrange(0, pkt@.len() as int) =~= pkt@);
        assert(out@ =~= seq![0u8] + pkt@);
    }
    out
}

/// The bytes the device would put on the wire for an event, at the minimum
/// length of the event's opcode. `MidiCc` has no wire form of its own.
pub open spec fn spec_encode_hid_event(e: PadEvent) -> Option<Seq<u8>> {
    match e {
        PadEvent::Hello { proto, fw_major, fw_minor } => Some(
            seq![0x7Eu8, proto, fw_major, fw_minor],
        ),
        PadEvent::Layer { layer } => Some(seq![0x13u8, layer]),
        PadEvent::Button { layer, idx, pressed } => Some(
            seq![0x10u8, layer, idx, if pressed { 1u8 } else { 0u8 }],
        ),
        PadEvent::EncRotate { idx, delta } => Some(seq![0x11u8, idx, delta as u8]),
        PadEvent::EncPress { idx, long } => Some(seq![0x12u8, idx, if long { 2u8 } else { 1u8 }]),
        PadEvent::MidiCc { channel, controller, value } => None,
    }
}

/// Encode an event as the device would; decoding the result yields the event
/// back. `MidiCc` yields `None`.
pub fn encode_hid_event(e: &PadEvent) -> (r: Option<Vec<u8>>)
    ensures
        match r {
            Some(v) => spec_encode_hid_event(*e) == Some(v@),
            None => spec_encode_hid_event(*e) is None,
        },
{
    match e {
        PadEvent::Hello { proto, fw_major, fw_minor } => {
            let mut v: Vec<u8> = Vec::new();
            v.push(0x7E);
            v.push(*proto);
            v.push(*fw_major);
            v.push(*fw_minor);
            proof {
                assert(v@ =~= seq![0x7Eu8, e->Hello_proto, e->Hello_fw_major, e->Hello_fw_minor]);
            }
            Some(v)
        }
        PadEvent::Layer { layer } => {
            let mut v: Vec<u8> = Vec::new();
            v.push(0x13);
            v.push(*layer);
            proof {
                assert(v@ =~= seq![0x13u8, e->Layer_layer]);
            }
            Some(v)
        }
        PadEvent::Button { layer, idx, pressed } => {
            let mut v: Vec<u8> = Vec::new();
            v.push(0x10);
            v.push(*layer);
            v.push(*idx);
            v.push(if *pressed { 1 } else { 0 });
            proof {
                assert(v@ =~= seq![
                    0x10u8,
                    e->Button_layer,
                    e->Button_idx,
                    if e->Button_pressed { 1u8 } else { 0u8 },
                ]);
            }
            Some(v)
        }
        PadEvent::EncRotate { idx, delta } => {
            let mut v: Vec<u8> = Vec::new();
            v.push(0x11);
            v.push(*idx);
            v.push(*delta as u8);
            proof {
                assert(v@ =~= seq![0x11u8, e->EncRotate_idx, e->EncRotate_delta as u8]);
            }
            Some(v)
        }
        PadEvent::EncPress { idx, long } => {
            let mut v: Vec<u8> = Vec::new();
            v.push(0x12);
            v.push(*idx);
            v.push(if *long { 2 } else { 1 });
            proof {
                assert(v@ =~= seq![0x12u8, e->EncPress_idx, if e->EncPress_long { 2u8 } else { 1u8 }]);
            }
            Some(v)
        }
        PadEvent::MidiCc { channel, controller, value } => None,
    }
}

/// Round trip: for each of the five wire opcodes, encoding the matching
/// event and decoding the result yields the same logical event.
pub proof fn lemma_encode_parse_round_trip(e: PadEvent)
    requires
        !(e is MidiCc),
    ensures
        spec_encode_hid_event(e) matches Some(bytes) && spec_parse_hid_event(bytes) == Some(e),
{
    match e {
        PadEvent::EncRotate { idx, delta } => {
            assert((delta as u8) as i8 == delta) by (bit_vector);
        }
        _ => {}
    }
}

/// Decoding returns no event for an empty buffer, an unrecognized opcode,
/// or a buffer shorter than its opcode's minimum length.
pub open spec fn spec_known_opcode(op: u8) -> bool {
    op == 0x10 || op == 0x11 || op == 0x12 || op == 0x13 || op == 0x7E
}

/// Minimum report length for each known opcode.
pub open spec fn spec_min_report_len(op: u8) -> nat {
    if op == 0x10 {
        4
    } else if op == 0x11 {
        3
    } else if op == 0x12 {
        3
    } else if op == 0x13 {
        2
    } else if op == 0x7E {
        4
    } else {
        1
    }
}

/// A buffer that is empty, starts with an unknown opcode, or is shorter than
/// its opcode's minimum length decodes to no event.
pub proof fn lemma_parse_rejects_unrecognized(data: Seq<u8>)
    requires
        data.len() == 0 || !spec_known_opcode(data[0]) || data.len() < spec_min_report_len(data[0]),
    ensures
        spec_parse_hid_event(data) is None,
{
}

} // verus!
