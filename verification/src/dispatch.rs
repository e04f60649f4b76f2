//! Dispatch decisions: what one outbound or inbound loop iteration does.
//!
//! The loops themselves live outside the library, next to the socket and
//! the capture feed; they hand each captured event or received datagram to
//! the step functions here and perform the returned action.

use crate::protocol::{spec_decode, spec_encode, Event, Flag, KeyMouse, Protocol, PROTOCOL_LEN};
use crate::registry::{spec_register, ClientEndpoint, ClientRegistry};
use vstd::prelude::*;

verus! {

/// One locally captured input event, as the capture adapter hands it over:
/// keys and buttons already named symbolically, each motion delta or
/// cursor coordinate as the 64-bit pattern of an IEEE-754 double.
#[derive(Debug, Clone, Copy, PartialEq, Eq, Structural)]
pub enum InputEvent {
    KeyPress(KeyMouse),
    KeyRelease(KeyMouse),
    ButtonPress(KeyMouse),
    ButtonRelease(KeyMouse),
    /// Cursor motion; the fields hold the cursor position.
    PointerMove { x: u64, y: u64 },
    /// Wheel motion; the fields hold the wheel deltas.
    Wheel { dx: u64, dy: u64 },
}

/// The frame a captured event turns into: always a key/mouse frame;
/// pointer motion becomes the dedicated pointer-move marker, wheel motion
/// rides on the middle-button symbol, both with a Move event.
pub open spec fn spec_frame_of_input(e: InputEvent) -> Protocol {
    match e {
        InputEvent::KeyPress(k) => Protocol {
            flag: Flag::KeyMouse,
            key_mouse: k,
            event: Event::Press,
        },
        InputEvent::KeyRelease(k) => Protocol {
            flag: Flag::KeyMouse,
            key_mouse: k,
            event: Event::Release,
        },
        InputEvent::ButtonPress(k) => Protocol {
            flag: Flag::KeyMouse,
            key_mouse: k,
            event: Event::Press,
        },
        InputEvent::ButtonRelease(k) => Protocol {
            flag: Flag::KeyMouse,
            key_mouse: k,
            event: Event::Release,
        },
        InputEvent::PointerMove { x, y } => Protocol {
            flag: Flag::KeyMouse,
            key_mouse: KeyMouse::MouseMove,
            event: Event::Move(x, y),
        },
        InputEvent::Wheel { dx, dy } => Protocol {
            flag: Flag::KeyMouse,
            key_mouse: KeyMouse::MouseMiddle,
            event: Event::Move(dx, dy),
        },
    }
}

/// Which events the outbound loop forwards: presses and releases of keys
/// and buttons. Motion events are not forwarded from this loop.
pub open spec fn spec_forwards(e: InputEvent) -> bool {
    match e {
        InputEvent::KeyPress(_) => true,
        InputEvent::KeyRelease(_) => true,
        InputEvent::ButtonPress(_) => true,
        InputEvent::ButtonRelease(_) => true,
        InputEvent::PointerMove { .. } => false,
        InputEvent::Wheel { .. } => false,
    }
}

/// Build the frame for a captured event.
pub fn frame_of_input(e: &InputEvent) -> (p: Protocol)
    ensures
        p == spec_frame_of_input(*e),
{
    match *e {
        InputEvent::KeyPress(k) => Protocol {
            flag: Flag::KeyMouse,
            key_mouse: k,
            event: Event::Press,
        },
        InputEvent::KeyRelease(k) => Protocol {
            flag: Flag::KeyMouse,
            key_mouse: k,
            event: Event::Release,
        },
        InputEvent::ButtonPress(k) => Protocol {
            flag: Flag::KeyMouse,
            key_mouse: k,
            event: Event::Press,
        },
        InputEvent::ButtonRelease(k) => Protocol {
            flag: Flag::KeyMouse,
            key_mouse: k,
            event: Event::Release,
        },
        InputEvent::PointerMove { x, y } => Protocol {
            flag: Flag::KeyMouse,
            key_mouse: KeyMouse::MouseMove,
            event: Event::Move(x, y),
        },
        InputEvent::Wheel { dx, dy } => Protocol {
            flag: Flag::KeyMouse,
            key_mouse: KeyMouse::MouseMiddle,
            event: Event::Move(dx, dy),
        },
    }
}

/// A datagram the outbound loop is to send.
#[derive(Debug, Clone, Copy)]
pub struct OutboundDatagram {
    pub payload: [u8; PROTOCOL_LEN],
    pub target: ClientEndpoint,
}

/// One outbound iteration's decision for a captured event, given the
/// focus owner the arbiter holds. A forwarded event with a focus owner
/// becomes exactly one encoded datagram to that owner; everything else is
/// dropped, with no buffering and no retry.
pub fn outbound_step(e: &InputEvent, active: Option<ClientEndpoint>) -> (r: Option<
    OutboundDatagram,
>)
    ensures
        spec_forwards(*e) && active is Some ==> (r matches Some(d)
            && d.payload@ == spec_encode(spec_frame_of_input(*e)) && active == Some(d.target)),
        !(spec_forwards(*e) && active is Some) ==> r is None,
{
    let forwards = match e {
        InputEvent::KeyPress(_) => true,
        InputEvent::KeyRelease(_) => true,
        InputEvent::ButtonPress(_) => true,
        InputEvent::ButtonRelease(_) => true,
        InputEvent::PointerMove { .. } => false,
        InputEvent::Wheel { .. } => false,
    };
    if !forwards {
        return None;
    }
    match active {
        Some(target) => {
            let frame = frame_of_input(e);
            Some(OutboundDatagram { payload: frame.to_arr(), target })
        }
        None => None,
    }
}

/// What one inbound iteration did with a datagram.
#[derive(Debug, Clone, Copy, PartialEq, Eq, Structural)]
pub enum InboundOutcome {
    /// An init frame from a new address: one entry appended.
    Registered,
    /// An init frame from a known address: registry unchanged, worth a
    /// warning, not an error.
    AlreadyRegistered,
    /// Any other frame: logged and otherwise ignored.
    Ignored,
}

/// One inbound iteration's decision for a received datagram: decode it,
/// and register the sender exactly when the frame is an init frame. No
/// datagram is an error; the loop stays available whatever arrives.
pub fn inbound_step(registry: &mut ClientRegistry, buf: &[u8], source: ClientEndpoint) -> (r:
    InboundOutcome)
    requires
        old(registry).inv(),
    ensures
        final(registry).inv(),
        spec_decode(buf@).flag is ClientInitConnection ==> {
            &&& final(registry)@ == spec_register(old(registry)@, source)
            &&& r == if old(registry)@.contains(source) {
                InboundOutcome::AlreadyRegistered
            } else {
                InboundOutcome::Registered
            }
        },
        !(spec_decode(buf@).flag is ClientInitConnection) ==> {
            &&& final(registry)@ == old(registry)@
            &&& r == InboundOutcome::Ignored
        },
{
    let frame = Protocol::from_bytes(buf);
    match frame.flag {
        Flag::ClientInitConnection => {
            if registry.register(source) {
                InboundOutcome::Registered
            } else {
                InboundOutcome::AlreadyRegistered
            }
        }
        _ => InboundOutcome::Ignored,
    }
}

} // verus!
