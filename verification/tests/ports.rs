use dart::port::Port;

#[test]
fn the_invalid_port_is_invalid() {
    assert!(Port::invalid().is_invalid());
}

#[test]
fn registration_failure_yields_no_port() {
    assert_eq!(Port::make_native_port(0), None);
}

#[test]
fn successful_registration_never_yields_the_invalid_port() {
    let p = Port::make_native_port(1234).unwrap();
    assert!(!p.is_invalid());
    let q = Port::make_native_port(-1).unwrap();
    assert!(!q.is_invalid());
}

#[test]
fn an_open_port_carries_the_identifier_the_vm_answered() {
    assert_eq!(Port::make_native_port(7).unwrap().id(), 7);
    assert_eq!(Port::invalid().id(), 0);
}

#[test]
fn ports_with_the_same_identifier_are_equal() {
    let p = Port::make_native_port(7).unwrap();
    let q = Port::make_native_port(7).unwrap();
    assert_eq!(p, q);
    assert_ne!(p, Port::invalid());
}
