//! The ownership-transfer pattern around the raw device handle.
//!
//! The raw device is only safe to touch from one thread, so exactly one
//! owner thread holds it and drains a mailbox of [`HidCommand`]s while
//! polling for input reports. Everything else holds a [`Pad`]: a cheap,
//! cloneable, thread-safe handle carrying only the command-channel sender.
//! The owner thread's loop itself performs I/O and lives in the
//! surrounding application; its per-iteration decisions are the verified
//! step functions at the bottom of this module.

use vstd::prelude::*;

use crate::config::HidConfig;
use crate::protocol::{
    PadCommand, PadError, PadEvent, Rgb, encode_command, make_set_layer, make_set_led,
    parse_hid_event, spec_encode_command, spec_parse_hid_event,
};

verus! {

/// A command in the owner thread's mailbox: encode and write one report,
/// or exit the loop cleanly.
#[derive(Debug, Clone, Copy, PartialEq, Eq, Structural)]
pub enum HidCommand {
    Write(PadCommand),
    Shutdown,
}

#[verifier::external_type_specification]
#[verifier::external_body]
#[verifier::reject_recursive_types(T)]
pub struct ExSender<T>(crossbeam_channel::Sender<T>);

/// Relies on crossbeam_channel's `Clone` for `Sender`: the clone is another
/// sender for the same channel, which is what makes [`Pad`] cloneable.
pub assume_specification<T>[ <crossbeam_channel::Sender<T> as Clone>::clone ](
    tx: &crossbeam_channel::Sender<T>,
) -> crossbeam_channel::Sender<T>;

/// Relies on crossbeam_channel::Sender::send: the message is delivered into
/// the channel and Ok returned, or, once every receiver has been dropped,
/// Err returned with the message. Blocks while a bounded channel is full.
#[verifier::external_body]
fn channel_send(tx: &crossbeam_channel::Sender<HidCommand>, cmd: HidCommand) -> (ok: bool) {
    tx.send(cmd).is_ok()
}

/// The shareable handle to the device owner thread: holds only the
/// command-channel sender, never the device itself, and so may be cloned
/// and passed to any thread.
#[derive(Clone)]
pub struct Pad {
    cmd_tx: crossbeam_channel::Sender<HidCommand>,
}

impl Pad {
    /// Wrap the sending half of the owner thread's mailbox.
    pub fn new(cmd_tx: crossbeam_channel::Sender<HidCommand>) -> Pad {
        Pad { cmd_tx }
    }

    /// Queue one validated command; the outcome depends only on whether the
    /// owner thread's receiver is still alive.
    fn send_command(&self, c: PadCommand) -> (r: Result<(), PadError>)
        ensures
            r is Ok || r == Err::<(), PadError>(PadError::ChannelDisconnected),
    {
        if channel_send(&self.cmd_tx, HidCommand::Write(c)) {
            Ok(())
        } else {
            Err(PadError::ChannelDisconnected)
        }
    }

    /// Send the host-ready handshake.
    pub fn send_ready(&self) -> (r: Result<(), PadError>)
        ensures
            r is Ok || r == Err::<(), PadError>(PadError::ChannelDisconnected),
    {
        self.send_command(PadCommand::HostReady)
    }

    /// Set all LEDs to one color.
    pub fn set_all_leds(&self, rgb: Rgb) -> (r: Result<(), PadError>)
        ensures
            r is Ok || r == Err::<(), PadError>(PadError::ChannelDisconnected),
    {
        self.send_command(PadCommand::SetAllLeds { color: rgb })
    }

    /// Set one LED. An index outside the 9 slots is rejected before
    /// anything reaches the channel, never clamped or sent.
    pub fn set_led(&self, idx: u8, rgb: Rgb) -> (r: Result<(), PadError>)
        ensures
            idx >= 9 ==> r == Err::<(), PadError>(PadError::InvalidArgument),
            idx < 9 ==> r is Ok || r == Err::<(), PadError>(PadError::ChannelDisconnected),
    {
        match make_set_led(idx, rgb) {
            Ok(c) => self.send_command(c),
            Err(e) => Err(e),
        }
    }

    /// Set the active layer. A layer outside the 3 known ones is rejected
    /// before anything reaches the channel, never clamped or sent.
    pub fn set_layer(&self, layer: u8) -> (r: Result<(), PadError>)
        ensures
            layer >= 3 ==> r == Err::<(), PadError>(PadError::InvalidArgument),
            layer < 3 ==> r is Ok || r == Err::<(), PadError>(PadError::ChannelDisconnected),
    {
        match make_set_layer(layer) {
            Ok(c) => self.send_command(c),
            Err(e) => Err(e),
        }
    }

    /// Ask the owner thread to exit its loop cleanly.
    pub fn shutdown(&self) -> (r: Result<(), PadError>)
        ensures
            r is Ok || r == Err::<(), PadError>(PadError::ChannelDisconnected),
    {
        if channel_send(&self.cmd_tx, HidCommand::Shutdown) {
            Ok(())
        } else {
            Err(PadError::ChannelDisconnected)
        }
    }
}

/// A device as enumeration reports it: exactly the fields discovery
/// matches on.
#[derive(Debug, Clone, Copy, PartialEq, Eq, Structural)]
pub struct DeviceInfo {
    pub vid: u16,
    pub pid: u16,
    pub usage_page: u16,
    pub usage: u16,
}

/// Whether an enumerated device meets the discovery criteria: vendor and
/// product id must match, and each half of the usage pair only when the
/// criteria set one.
pub open spec fn spec_device_matches(d: DeviceInfo, c: HidConfig) -> bool {
    &&& d.vid == c.vid
    &&& d.pid == c.pid
    &&& (c.usage_page is None || c.usage_page == Some(d.usage_page))
    &&& (c.usage is None || c.usage == Some(d.usage))
}

/// Decide which enumerated device to open: deterministically the first
/// match in enumeration order, or `DeviceNotFound` when nothing matches.
pub fn select_device(devices: &Vec<DeviceInfo>, criteria: &HidConfig) -> (r: Result<
    usize,
    PadError,
>)
    ensures
        match r {
            Ok(i) => i < devices@.len() && spec_device_matches(devices@[i as int], *criteria)
                && forall|j: int|
                0 <= j < i ==> !spec_device_matches(#[trigger] devices@[j], *criteria),
            Err(e) => e == PadError::DeviceNotFound && forall|j: int|
                0 <= j < devices@.len() ==> !spec_device_matches(#[trigger] devices@[j], *criteria),
        },
{
    let mut i: usize = 0;
    while i < devices.len()
        invariant
            i <= devices@.len(),
            forall|j: int| 0 <= j < i ==> !spec_device_matches(#[trigger] devices@[j], *criteria),
        decreases devices@.len() - i,
    {
        let d = devices[i];
        let page_ok = match criteria.usage_page {
            Some(p) => d.usage_page == p,
            None => true,
        };
        let usage_ok = match criteria.usage {
            Some(u) => d.usage == u,
            None => true,
        };
        if d.vid == criteria.vid && d.pid == criteria.pid && page_ok && usage_ok {
            return Ok(i);
        }
        i += 1;
    }
    Err(PadError::DeviceNotFound)
}

/// What one non-blocking read attempt on the device produced, as handed in
/// by the I/O shell: a report, nothing pending, or a read error.
#[derive(Debug, Clone)]
pub enum ReadOutcome {
    Data(Vec<u8>),
    Empty,
    Error,
}

/// What the owner thread does with one mailbox command.
#[derive(Debug, Clone)]
pub enum MailboxStep {
    /// Write this fixed-size report to the device.
    WriteReport(Vec<u8>),
    /// Leave the loop cleanly.
    Exit,
}

/// What the owner thread does with one read outcome.
#[derive(Debug, Clone, Copy, PartialEq, Eq, Structural)]
pub enum ReadStep {
    /// Forward this decoded event on the event channel.
    Forward(PadEvent),
    /// Sleep briefly before retrying, after a read error that is not "no
    /// data available".
    Backoff,
    /// Nothing to do this iteration.
    Nothing,
}

/// Decide the owner thread's reaction to one mailbox command: a write
/// command becomes the encoded fixed-size report, a shutdown ends the
/// loop.
pub fn owner_handle_command(cmd: &HidCommand) -> (step: MailboxStep)
    ensures
        match *cmd {
            HidCommand::Write(c) => step matches MailboxStep::WriteReport(pkt) && pkt@
                == spec_encode_command(c),
            HidCommand::Shutdown => step is Exit,
        },
{
    match cmd {
        HidCommand::Write(c) => MailboxStep::WriteReport(encode_command(c)),
        HidCommand::Shutdown => MailboxStep::Exit,
    }
}

/// Decide the owner thread's reaction to one read attempt: data that
/// decodes is forwarded, undecodable or absent data is dropped silently,
/// and a read error asks for a backoff sleep.
pub fn owner_handle_read(outcome: &ReadOutcome) -> (step: ReadStep)
    ensures
        match *outcome {
            ReadOutcome::Data(buf) => step == match spec_parse_hid_event(buf@) {
                Some(e) => ReadStep::Forward(e),
                None => ReadStep::Nothing,
            },
            ReadOutcome::Empty => step == ReadStep::Nothing,
            ReadOutcome::Error => step == ReadStep::Backoff,
        },
{
    match outcome {
        ReadOutcome::Data(buf) => {
            match parse_hid_event(buf.as_slice()) {
                Some(e) => ReadStep::Forward(e),
                None => ReadStep::Nothing,
            }
        }
        ReadOutcome::Empty => ReadStep::Nothing,
        ReadOutcome::Error => ReadStep::Backoff,
    }
}

} // verus!
