use softkvm::registry::{ClientEndpoint, ClientRegistry};

fn ep(last_octet: u32, port: u16) -> ClientEndpoint {
    ClientEndpoint {
        ip: 0xC0A80000 | last_octet,
        port,
    }
}

#[test]
fn register_keeps_insertion_order() {
    let mut reg = ClientRegistry::new();
    assert_eq!(reg.len(), 0);
    assert!(reg.register(ep(1, 4000)));
    assert!(reg.register(ep(2, 4000)));
    assert!(reg.register(ep(3, 4000)));
    assert_eq!(reg.len(), 3);
    assert_eq!(reg.get(0), ep(1, 4000));
    assert_eq!(reg.get(1), ep(2, 4000));
    assert_eq!(reg.get(2), ep(3, 4000));
}

#[test]
fn register_is_idempotent() {
    let mut reg = ClientRegistry::new();
    assert!(reg.register(ep(1, 4000)));
    assert_eq!(reg.len(), 1);
    assert!(!reg.register(ep(1, 4000)));
    assert_eq!(reg.len(), 1);
    assert_eq!(reg.get(0), ep(1, 4000));
}

#[test]
fn same_host_different_port_is_a_new_endpoint() {
    let mut reg = ClientRegistry::new();
    assert!(reg.register(ep(1, 4000)));
    assert!(reg.register(ep(1, 4001)));
    assert_eq!(reg.len(), 2);
}

#[test]
fn contains_sees_only_registered_endpoints() {
    let mut reg = ClientRegistry::new();
    assert!(!reg.contains(ep(1, 4000)));
    reg.register(ep(1, 4000));
    assert!(reg.contains(ep(1, 4000)));
    assert!(!reg.contains(ep(2, 4000)));
}

#[test]
fn snapshot_copies_the_ordered_sequence() {
    let mut reg = ClientRegistry::new();
    reg.register(ep(7, 1));
    reg.register(ep(5, 2));
    let snap = reg.snapshot();
    assert_eq!(snap, vec![ep(7, 1), ep(5, 2)]);
}
