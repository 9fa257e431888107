use loop_pad::protocol::{
    encode_command, encode_hid_event, make_set_led, make_set_layer, parse_hid_event,
    prepend_report_id, PadCommand, PadError, PadEvent, Rgb, REPORT_SIZE,
};

#[test]
fn test_parse_button_press() {
    let data = [0x10, 0, 3, 1];
    let event = parse_hid_event(&data).unwrap();
    assert_eq!(
        event,
        PadEvent::Button {
            layer: 0,
            idx: 3,
            pressed: true,
        }
    );
}

#[test]
fn test_parse_button_release() {
    let data = [0x10, 1, 5, 0];
    let event = parse_hid_event(&data).unwrap();
    assert_eq!(
        event,
        PadEvent::Button {
            layer: 1,
            idx: 5,
            pressed: false,
        }
    );
}

#[test]
fn test_parse_encoder_rotate() {
    let data = [0x11, 2, 0xFF]; // -1 as u8
    let event = parse_hid_event(&data).unwrap();
    assert_eq!(event, PadEvent::EncRotate { idx: 2, delta: -1 });
}

#[test]
fn test_parse_encoder_press_short() {
    let data = [0x12, 0, 1];
    let event = parse_hid_event(&data).unwrap();
    assert_eq!(event, PadEvent::EncPress { idx: 0, long: false });
}

#[test]
fn test_parse_encoder_press_long() {
    let data = [0x12, 1, 2];
    let event = parse_hid_event(&data).unwrap();
    assert_eq!(event, PadEvent::EncPress { idx: 1, long: true });
}

#[test]
fn test_parse_layer_change() {
    let data = [0x13, 2];
    let event = parse_hid_event(&data).unwrap();
    assert_eq!(event, PadEvent::Layer { layer: 2 });
}

#[test]
fn test_parse_hello() {
    let data = [0x7E, 1, 2, 3];
    let event = parse_hid_event(&data).unwrap();
    assert_eq!(
        event,
        PadEvent::Hello {
            proto: 1,
            fw_major: 2,
            fw_minor: 3,
        }
    );
}

#[test]
fn test_parse_unknown_event() {
    let data = [0xFF, 1, 2, 3];
    assert_eq!(parse_hid_event(&data), None);
}

#[test]
fn test_parse_empty_data() {
    let data = [];
    assert_eq!(parse_hid_event(&data), None);
}

#[test]
fn test_parse_insufficient_data() {
    let data = [0x10, 0]; // Button event needs 4 bytes
    assert_eq!(parse_hid_event(&data), None);
}

#[test]
fn test_event_parsing_comprehensive() {
    let test_cases = vec![
        (
            vec![0x10, 0, 5, 1],
            Some(PadEvent::Button {
                layer: 0,
                idx: 5,
                pressed: true,
            }),
        ),
        (
            vec![0x11, 1, 0xFF],
            Some(PadEvent::EncRotate { idx: 1, delta: -1 }),
        ),
        (
            vec![0x12, 2, 2],
            Some(PadEvent::EncPress { idx: 2, long: true }),
        ),
        (vec![0x13, 1], Some(PadEvent::Layer { layer: 1 })),
        (
            vec![0x7E, 1, 2, 3],
            Some(PadEvent::Hello {
                proto: 1,
                fw_major: 2,
                fw_minor: 3,
            }),
        ),
    ];

    for (data, expected) in test_cases {
        let result = parse_hid_event(&data);
        assert_eq!(result, expected, "Failed for data: {:?}", data);
    }
}

#[test]
fn test_boundary_conditions() {
    assert_eq!(
        parse_hid_event(&[0x10, 2, 8, 0]),
        Some(PadEvent::Button {
            layer: 2,
            idx: 8,
            pressed: false,
        })
    );

    assert_eq!(
        parse_hid_event(&[0x11, 2, 127]),
        Some(PadEvent::EncRotate { idx: 2, delta: 127 })
    );

    assert_eq!(
        parse_hid_event(&[0x11, 0, 128]),
        Some(PadEvent::EncRotate {
            idx: 0,
            delta: -128,
        })
    );
}

#[test]
fn test_rgb_constants() {
    assert_eq!(Rgb::white(), Rgb { r: 255, g: 255, b: 255 });
    assert_eq!(Rgb::red(), Rgb { r: 255, g: 0, b: 0 });
    assert_eq!(Rgb::green(), Rgb { r: 0, g: 255, b: 0 });
    assert_eq!(Rgb::blue(), Rgb { r: 0, g: 0, b: 255 });
    assert_eq!(Rgb::off(), Rgb { r: 0, g: 0, b: 0 });
}

#[test]
fn encode_then_parse_round_trips_every_opcode() {
    let events = vec![
        PadEvent::Hello {
            proto: 1,
            fw_major: 2,
            fw_minor: 3,
        },
        PadEvent::Layer { layer: 2 },
        PadEvent::Button {
            layer: 1,
            idx: 7,
            pressed: true,
        },
        PadEvent::Button {
            layer: 0,
            idx: 0,
            pressed: false,
        },
        PadEvent::EncRotate { idx: 1, delta: -1 },
        PadEvent::EncRotate {
            idx: 2,
            delta: -128,
        },
        PadEvent::EncPress { idx: 0, long: true },
        PadEvent::EncPress { idx: 2, long: false },
    ];
    for e in events {
        let bytes = encode_hid_event(&e).unwrap();
        assert_eq!(parse_hid_event(&bytes), Some(e), "round trip failed for {:?}", e);
    }
}

#[test]
fn midi_cc_has_no_wire_encoding() {
    let aux = PadEvent::MidiCc {
        channel: 0,
        controller: 21,
        value: 127,
    };
    assert!(encode_hid_event(&aux).is_none());
}

#[test]
fn encode_host_ready_report() {
    let pkt = encode_command(&PadCommand::HostReady);
    assert_eq!(pkt.len(), REPORT_SIZE);
    assert_eq!(pkt[0], 0x7D);
    assert_eq!(pkt[1], 1);
    assert!(pkt[2..].iter().all(|&b| b == 0));
}

#[test]
fn encode_set_all_leds_report() {
    let pkt = encode_command(&PadCommand::SetAllLeds {
        color: Rgb { r: 10, g: 20, b: 30 },
    });
    assert_eq!(pkt.len(), REPORT_SIZE);
    assert_eq!(&pkt[..4], &[0x01, 10, 20, 30]);
    assert!(pkt[4..].iter().all(|&b| b == 0));
}

#[test]
fn encode_set_led_report() {
    let pkt = encode_command(&PadCommand::SetLed {
        idx: 4,
        color: Rgb { r: 1, g: 2, b: 3 },
    });
    assert_eq!(pkt.len(), REPORT_SIZE);
    assert_eq!(&pkt[..5], &[0x02, 4, 1, 2, 3]);
    assert!(pkt[5..].iter().all(|&b| b == 0));
}

#[test]
fn encode_set_layer_report() {
    let pkt = encode_command(&PadCommand::SetLayer { layer: 2 });
    assert_eq!(pkt.len(), REPORT_SIZE);
    assert_eq!(&pkt[..2], &[0x03, 2]);
    assert!(pkt[2..].iter().all(|&b| b == 0));
}

#[test]
fn report_id_prefix_keeps_payload() {
    let pkt = vec![0x02, 4, 1, 2, 3];
    let framed = prepend_report_id(&pkt);
    assert_eq!(framed, vec![0x00, 0x02, 4, 1, 2, 3]);
}

#[test]
fn every_opcode_rejects_a_short_buffer() {
    assert_eq!(parse_hid_event(&[0x10, 0, 5]), None);
    assert_eq!(parse_hid_event(&[0x11, 1]), None);
    assert_eq!(parse_hid_event(&[0x12, 1]), None);
    assert_eq!(parse_hid_event(&[0x13]), None);
    assert_eq!(parse_hid_event(&[0x7E, 1, 2]), None);
}

#[test]
fn report_id_prefix_on_a_full_report() {
    let pkt = encode_command(&PadCommand::SetLed {
        idx: 0,
        color: Rgb::green(),
    });
    let framed = prepend_report_id(&pkt);
    assert_eq!(framed.len(), REPORT_SIZE + 1);
    assert_eq!(framed[0], 0x00);
    assert_eq!(&framed[1..], &pkt[..], "the logical payload is unchanged");
}

#[test]
fn command_constructors_reject_out_of_range() {
    assert_eq!(make_set_led(9, Rgb::white()), Err(PadError::InvalidArgument));
    assert_eq!(make_set_layer(3), Err(PadError::InvalidArgument));
    assert_eq!(
        make_set_led(8, Rgb::red()),
        Ok(PadCommand::SetLed {
            idx: 8,
            color: Rgb { r: 255, g: 0, b: 0 },
        })
    );
    assert_eq!(make_set_layer(0), Ok(PadCommand::SetLayer { layer: 0 }));
}
