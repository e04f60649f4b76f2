use softkvm::arbiter::ScreenArbiter;
use softkvm::registry::{ClientEndpoint, ClientRegistry};
use softkvm::Display;

const CLIENT: ClientEndpoint = ClientEndpoint {
    ip: 0x0A000001,
    port: 5000,
};

#[test]
fn edge_crossing_selects_first_registered_client() {
    let display = Display::new(1920, 1080);
    let mut reg = ClientRegistry::new();
    reg.register(CLIENT);
    let mut arb = ScreenArbiter::new();

    arb.active_client(1000, 500, &display, &reg);
    assert_eq!(arb.active(), None);

    arb.active_client(1915, 500, &display, &reg);
    assert_eq!(arb.active(), Some(CLIENT));
}

#[test]
fn exact_threshold_is_inside_the_margin() {
    let display = Display::new(1920, 1080);
    let mut reg = ClientRegistry::new();
    reg.register(CLIENT);
    let mut arb = ScreenArbiter::new();

    // width - 10 is the first column that counts as the edge.
    arb.active_client(1909, 0, &display, &reg);
    assert_eq!(arb.active(), None);
    arb.active_client(1910, 0, &display, &reg);
    assert_eq!(arb.active(), Some(CLIENT));
}

#[test]
fn empty_registry_never_hands_off() {
    let display = Display::new(1920, 1080);
    let reg = ClientRegistry::new();
    let mut arb = ScreenArbiter::new();
    arb.active_client(1919, 0, &display, &reg);
    assert_eq!(arb.active(), None);
}

#[test]
fn active_client_is_sticky() {
    let display = Display::new(1920, 1080);
    let mut reg = ClientRegistry::new();
    reg.register(CLIENT);
    let mut arb = ScreenArbiter::new();
    arb.active_client(1919, 0, &display, &reg);
    assert_eq!(arb.active(), Some(CLIENT));

    // No later cursor position changes or clears the owner, even after
    // more clients register: no hand-back is modeled.
    let other = ClientEndpoint {
        ip: 0x0A000002,
        port: 5001,
    };
    reg.register(other);
    arb.active_client(0, 0, &display, &reg);
    assert_eq!(arb.active(), Some(CLIENT));
    arb.active_client(1919, 1079, &display, &reg);
    assert_eq!(arb.active(), Some(CLIENT));
}

#[test]
fn first_registered_client_wins_the_handoff() {
    let display = Display::new(1920, 1080);
    let mut reg = ClientRegistry::new();
    let other = ClientEndpoint {
        ip: 0x0A000002,
        port: 5001,
    };
    reg.register(other);
    reg.register(CLIENT);
    let mut arb = ScreenArbiter::new();
    arb.active_client(1915, 0, &display, &reg);
    assert_eq!(arb.active(), Some(other));
}
