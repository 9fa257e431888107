use loop_pad::config::HidConfig;
use loop_pad::hid::{
    owner_handle_command, owner_handle_read, select_device, DeviceInfo, HidCommand, MailboxStep,
    Pad, ReadOutcome, ReadStep,
};
use loop_pad::mock::{mock_events_for_tick, mock_hello_event};
use loop_pad::protocol::{PadCommand, PadError, PadEvent, Rgb};

#[test]
fn test_pad_creation() {
    let (tx, rx) = crossbeam_channel::bounded(100);
    let pad = Pad::new(tx);
    assert!(pad.send_ready().is_ok());
    drop(rx);
}

#[test]
fn pad_commands_reach_the_owner_mailbox() {
    let (tx, rx) = crossbeam_channel::bounded(100);
    let pad = Pad::new(tx);

    pad.send_ready().unwrap();
    assert_eq!(rx.try_recv().unwrap(), HidCommand::Write(PadCommand::HostReady));

    pad.set_led(3, Rgb::red()).unwrap();
    assert_eq!(
        rx.try_recv().unwrap(),
        HidCommand::Write(PadCommand::SetLed {
            idx: 3,
            color: Rgb { r: 255, g: 0, b: 0 },
        })
    );

    pad.set_all_leds(Rgb::white()).unwrap();
    assert_eq!(
        rx.try_recv().unwrap(),
        HidCommand::Write(PadCommand::SetAllLeds {
            color: Rgb { r: 255, g: 255, b: 255 },
        })
    );

    let clone = pad.clone();
    clone.set_layer(2).unwrap();
    assert_eq!(
        rx.try_recv().unwrap(),
        HidCommand::Write(PadCommand::SetLayer { layer: 2 })
    );

    pad.shutdown().unwrap();
    assert_eq!(rx.try_recv().unwrap(), HidCommand::Shutdown);
}

#[test]
fn pad_rejects_out_of_range_before_the_channel() {
    let (tx, rx) = crossbeam_channel::bounded(4);
    let pad = Pad::new(tx);
    assert_eq!(pad.set_led(9, Rgb::white()), Err(PadError::InvalidArgument));
    assert_eq!(pad.set_layer(3), Err(PadError::InvalidArgument));
    assert!(rx.try_recv().is_err(), "nothing entered the channel");
}

#[test]
fn pad_reports_a_disconnected_channel() {
    let (tx, rx) = crossbeam_channel::bounded(4);
    drop(rx);
    let pad = Pad::new(tx);
    assert_eq!(pad.send_ready(), Err(PadError::ChannelDisconnected));
    assert_eq!(pad.shutdown(), Err(PadError::ChannelDisconnected));
}

#[test]
fn owner_encodes_writes_and_honours_shutdown() {
    match owner_handle_command(&HidCommand::Write(PadCommand::HostReady)) {
        MailboxStep::WriteReport(pkt) => {
            assert_eq!(pkt.len(), 32);
            assert_eq!(pkt[0], 0x7D);
            assert_eq!(pkt[1], 1);
            assert!(pkt[2..].iter().all(|&b| b == 0));
        }
        MailboxStep::Exit => panic!("a write command must not exit the loop"),
    }
    assert!(matches!(
        owner_handle_command(&HidCommand::Shutdown),
        MailboxStep::Exit
    ));
}

#[test]
fn owner_forwards_decodable_reads_and_backs_off_on_errors() {
    assert_eq!(
        owner_handle_read(&ReadOutcome::Data(vec![0x10, 0, 5, 1])),
        ReadStep::Forward(PadEvent::Button {
            layer: 0,
            idx: 5,
            pressed: true,
        })
    );
    assert_eq!(
        owner_handle_read(&ReadOutcome::Data(vec![0xFF, 1, 2])),
        ReadStep::Nothing,
        "unrecognized traffic is dropped silently"
    );
    assert_eq!(owner_handle_read(&ReadOutcome::Empty), ReadStep::Nothing);
    assert_eq!(owner_handle_read(&ReadOutcome::Error), ReadStep::Backoff);
}

#[test]
fn discovery_picks_the_first_match_or_fails() {
    let criteria = HidConfig::default();
    let other = DeviceInfo {
        vid: 0x1234,
        pid: 0x5678,
        usage_page: 0xFF60,
        usage: 0x0061,
    };
    let wrong_usage = DeviceInfo {
        vid: criteria.vid,
        pid: criteria.pid,
        usage_page: 0x0001,
        usage: 0x0006,
    };
    let matching = DeviceInfo {
        vid: criteria.vid,
        pid: criteria.pid,
        usage_page: 0xFF60,
        usage: 0x0061,
    };

    let devices = vec![other, wrong_usage, matching, matching];
    assert_eq!(
        select_device(&devices, &criteria),
        Ok(2),
        "first of the two matches is picked deterministically"
    );

    let devices = vec![other, wrong_usage];
    assert_eq!(
        select_device(&devices, &criteria),
        Err(loop_pad::protocol::PadError::DeviceNotFound)
    );

    let no_usage_filter = HidConfig {
        usage_page: None,
        usage: None,
        ..criteria
    };
    let devices = vec![other, wrong_usage];
    assert_eq!(
        select_device(&devices, &no_usage_filter),
        Ok(1),
        "without a usage filter the vendor/product match is enough"
    );
}

#[test]
fn mock_announces_itself_then_follows_the_schedule() {
    assert_eq!(
        mock_hello_event(),
        PadEvent::Hello {
            proto: 1,
            fw_major: 0,
            fw_minor: 1,
        }
    );
    assert_eq!(
        mock_events_for_tick(0),
        vec![
            PadEvent::Layer { layer: 0 },
            PadEvent::Button {
                layer: 0,
                idx: 0,
                pressed: true,
            },
            PadEvent::EncRotate { idx: 0, delta: 1 },
            PadEvent::EncPress { idx: 0, long: false },
        ]
    );
    assert_eq!(
        mock_events_for_tick(5),
        vec![
            PadEvent::Button {
                layer: 0,
                idx: 0,
                pressed: false,
            },
            PadEvent::EncRotate { idx: 1, delta: -1 },
        ]
    );
    assert_eq!(mock_events_for_tick(7), vec![]);
    assert_eq!(
        mock_events_for_tick(40),
        vec![
            PadEvent::Layer { layer: 1 },
            PadEvent::Button {
                layer: 0,
                idx: 4,
                pressed: true,
            },
            PadEvent::EncRotate { idx: 2, delta: 1 },
        ]
    );
}
