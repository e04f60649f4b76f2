use softkvm::dispatch::{
    frame_of_input, inbound_step, outbound_step, InboundOutcome, InputEvent,
};
use softkvm::protocol::{Event, Flag, KeyMouse, Protocol, PROTOCOL_LEN};
use softkvm::registry::{ClientEndpoint, ClientRegistry};

const TARGET: ClientEndpoint = ClientEndpoint {
    ip: 0x7F000001,
    port: 6000,
};

fn init_frame() -> [u8; PROTOCOL_LEN] {
    let mut buf = [0u8; PROTOCOL_LEN];
    buf[0] = 0x03;
    buf
}

#[test]
fn key_press_becomes_a_key_mouse_frame() {
    let p = frame_of_input(&InputEvent::KeyPress(KeyMouse::KeyQ));
    assert_eq!(
        p,
        Protocol {
            flag: Flag::KeyMouse,
            key_mouse: KeyMouse::KeyQ,
            event: Event::Press,
        }
    );
}

#[test]
fn pointer_move_uses_the_move_marker() {
    let x = (100.5f64).to_bits();
    let y = (200.25f64).to_bits();
    let p = frame_of_input(&InputEvent::PointerMove { x, y });
    assert_eq!(p.key_mouse, KeyMouse::MouseMove);
    assert_eq!(p.event, Event::Move(x, y));
}

#[test]
fn wheel_rides_on_the_middle_button() {
    let p = frame_of_input(&InputEvent::Wheel {
        dx: (0.0f64).to_bits(),
        dy: (-1.0f64).to_bits(),
    });
    assert_eq!(p.key_mouse, KeyMouse::MouseMiddle);
    assert_eq!(p.event, Event::Move((0.0f64).to_bits(), (-1.0f64).to_bits()));
}

#[test]
fn forwarded_event_with_focus_owner_is_sent() {
    let r = outbound_step(&InputEvent::KeyPress(KeyMouse::KeyA), Some(TARGET));
    let d = r.expect("a key press with a focus owner must be sent");
    assert_eq!(d.target, TARGET);
    assert_eq!(d.payload[0], 0x01);
    assert_eq!(d.payload[1], 0x41);
    assert_eq!(d.payload[2], 0x01);
}

#[test]
fn release_with_focus_owner_is_sent() {
    let r = outbound_step(&InputEvent::ButtonRelease(KeyMouse::MouseLeft), Some(TARGET));
    let d = r.expect("a button release with a focus owner must be sent");
    assert_eq!(d.payload[1], 0x01);
    assert_eq!(d.payload[2], 0x02);
}

#[test]
fn event_without_focus_owner_is_dropped() {
    assert!(outbound_step(&InputEvent::KeyPress(KeyMouse::KeyA), None).is_none());
}

#[test]
fn motion_events_are_not_forwarded() {
    let x = (5.0f64).to_bits();
    assert!(outbound_step(&InputEvent::PointerMove { x, y: x }, Some(TARGET)).is_none());
    assert!(outbound_step(&InputEvent::Wheel { dx: x, dy: x }, Some(TARGET)).is_none());
}

#[test]
fn init_frame_registers_its_sender_once() {
    let mut reg = ClientRegistry::new();
    let buf = init_frame();

    assert_eq!(inbound_step(&mut reg, &buf, TARGET), InboundOutcome::Registered);
    assert_eq!(reg.len(), 1);
    assert_eq!(reg.get(0), TARGET);

    // The identical frame from the same address changes nothing.
    assert_eq!(
        inbound_step(&mut reg, &buf, TARGET),
        InboundOutcome::AlreadyRegistered
    );
    assert_eq!(reg.len(), 1);
}

#[test]
fn init_frames_from_two_addresses_register_both() {
    let mut reg = ClientRegistry::new();
    let buf = init_frame();
    let other = ClientEndpoint {
        ip: 0x7F000002,
        port: 6001,
    };
    inbound_step(&mut reg, &buf, TARGET);
    inbound_step(&mut reg, &buf, other);
    assert_eq!(reg.len(), 2);
    assert_eq!(reg.get(1), other);
}

#[test]
fn non_init_frames_leave_the_registry_alone() {
    let mut reg = ClientRegistry::new();
    for flag_byte in [0x00u8, 0x01, 0x02, 0xFF] {
        let mut buf = [0u8; PROTOCOL_LEN];
        buf[0] = flag_byte;
        assert_eq!(inbound_step(&mut reg, &buf, TARGET), InboundOutcome::Ignored);
    }
    assert_eq!(reg.len(), 0);
}

#[test]
fn truncated_init_frame_still_registers() {
    // The flag is readable from the first byte even when the datagram is
    // shorter than a frame; registration does not need the payload.
    let mut reg = ClientRegistry::new();
    assert_eq!(inbound_step(&mut reg, &[0x03], TARGET), InboundOutcome::Registered);
    assert_eq!(reg.len(), 1);
}
