use softkvm::protocol::{key_code, key_of_byte, Event, Flag, KeyMouse, Protocol, PROTOCOL_LEN};

#[test]
fn test_protocol_to_u8() {
    let p = Protocol {
        flag: Flag::KeyMouse,
        key_mouse: KeyMouse::MouseMove,
        event: Event::Move((0.1f64).to_bits(), (0.1f64).to_bits()),
    };
    let buf: [u8; PROTOCOL_LEN] = p.to_arr();
    assert_eq!(
        buf,
        [
            0x01, 0x07, 0x03, 0x3F, 0xB9, 0x99, 0x99, 0x99, 0x99, 0x99, 0x9A, 0x3F, 0xB9, 0x99,
            0x99, 0x99, 0x99, 0x99, 0x9A,
        ]
    );
}

#[test]
fn decode_empty_buffer_is_all_unknown() {
    let p = Protocol::from_bytes(&[]);
    assert_eq!(
        p,
        Protocol {
            flag: Flag::Unknown,
            key_mouse: KeyMouse::Unknown,
            event: Event::Unknown,
        }
    );
}

#[test]
fn round_trip_key_press_frame() {
    let p = Protocol {
        flag: Flag::KeyMouse,
        key_mouse: KeyMouse::KeyA,
        event: Event::Press,
    };
    assert_eq!(Protocol::from_bytes(&p.to_arr()), p);
}

#[test]
fn round_trip_release_frame() {
    let p = Protocol {
        flag: Flag::ClientInitConnection,
        key_mouse: KeyMouse::Escape,
        event: Event::Release,
    };
    assert_eq!(Protocol::from_bytes(&p.to_arr()), p);
}

#[test]
fn round_trip_move_frame_full_double_precision() {
    let deltas = [
        0.1f64,
        -3.25f64,
        0.0f64,
        -0.0f64,
        f64::MAX,
        f64::MIN_POSITIVE,
        1234.5678f64,
    ];
    for dx in deltas {
        for dy in deltas {
            let p = Protocol {
                flag: Flag::KeyMouse,
                key_mouse: KeyMouse::MouseMove,
                event: Event::Move(dx.to_bits(), dy.to_bits()),
            };
            let q = Protocol::from_bytes(&p.to_arr());
            assert_eq!(q, p);
            match q.event {
                Event::Move(bx, by) => {
                    assert_eq!(f64::from_bits(bx), dx);
                    assert_eq!(f64::from_bits(by), dy);
                }
                _ => panic!("move event lost"),
            }
        }
    }
}

#[test]
fn round_trip_unknown_event_frame() {
    let p = Protocol {
        flag: Flag::Unknown,
        key_mouse: KeyMouse::Unknown,
        event: Event::Unknown,
    };
    assert_eq!(Protocol::from_bytes(&p.to_arr()), p);
}

#[test]
fn unmapped_key_encodes_to_unknown_byte() {
    // AltGr has no wire code of its own: it shares byte 0x00 with Unknown
    // and therefore comes back as Unknown.
    let p = Protocol {
        flag: Flag::KeyMouse,
        key_mouse: KeyMouse::AltGr,
        event: Event::Press,
    };
    let buf = p.to_arr();
    assert_eq!(buf[1], 0x00);
    assert_eq!(Protocol::from_bytes(&buf).key_mouse, KeyMouse::Unknown);
}

#[test]
fn every_flag_byte_decodes_without_error() {
    for b in 0u8..=255u8 {
        let mut buf = [0u8; PROTOCOL_LEN];
        buf[0] = b;
        let p = Protocol::from_bytes(&buf);
        match b {
            0x01 => assert_eq!(p.flag, Flag::KeyMouse),
            0x02 => assert_eq!(p.flag, Flag::CopyPaste),
            0x03 => assert_eq!(p.flag, Flag::ClientInitConnection),
            _ => assert_eq!(p.flag, Flag::Unknown),
        }
    }
}

#[test]
fn every_key_byte_decodes_without_error() {
    // Each byte either is the wire code of the key it decodes to, or it
    // falls back to Unknown; 0xFF is outside every table.
    for b in 0u8..=255u8 {
        let k = key_of_byte(b);
        if k != KeyMouse::Unknown {
            assert_eq!(key_code(k), b);
        }
        let mut buf = [0u8; PROTOCOL_LEN];
        buf[1] = b;
        assert_eq!(Protocol::from_bytes(&buf).key_mouse, k);
    }
    assert_eq!(key_of_byte(0xFF), KeyMouse::Unknown);
}

#[test]
fn every_event_byte_decodes_without_error() {
    for b in 0u8..=255u8 {
        let mut buf = [0u8; PROTOCOL_LEN];
        buf[2] = b;
        let p = Protocol::from_bytes(&buf);
        match b {
            0x01 => assert_eq!(p.event, Event::Press),
            0x02 => assert_eq!(p.event, Event::Release),
            0x03 => assert_eq!(p.event, Event::Move(0, 0)),
            _ => assert_eq!(p.event, Event::Unknown),
        }
    }
}

#[test]
fn truncated_buffer_decodes_partially() {
    // One byte: only the flag is readable.
    let p = Protocol::from_bytes(&[0x01]);
    assert_eq!(p.flag, Flag::KeyMouse);
    assert_eq!(p.key_mouse, KeyMouse::Unknown);
    assert_eq!(p.event, Event::Unknown);

    // Two bytes: flag and key, but no event payload.
    let p = Protocol::from_bytes(&[0x01, 0x41]);
    assert_eq!(p.key_mouse, KeyMouse::KeyA);
    assert_eq!(p.event, Event::Unknown);

    // Eighteen bytes: one short of a frame, the event stays Unknown.
    let p = Protocol::from_bytes(&[0x01; 18]);
    assert_eq!(p.event, Event::Unknown);

    // Twenty bytes: one past a frame, the event stays Unknown too.
    let p = Protocol::from_bytes(&[0x01; 20]);
    assert_eq!(p.event, Event::Unknown);
}

#[test]
fn encode_zero_fills_non_move_payload() {
    let p = Protocol {
        flag: Flag::KeyMouse,
        key_mouse: KeyMouse::Space,
        event: Event::Press,
    };
    let buf = p.to_arr();
    assert_eq!(buf[0], 0x01);
    assert_eq!(buf[1], 0x20);
    assert_eq!(buf[2], 0x01);
    assert_eq!(&buf[3..], &[0u8; 16]);
}
