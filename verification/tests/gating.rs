use mangalib_parser::gate::ConcurrencyGate;

#[test]
fn permits_run_out_at_capacity() {
    let mut gate = ConcurrencyGate::new(2);
    assert!(gate.try_acquire());
    assert!(gate.try_acquire());
    assert!(!gate.try_acquire());
}

#[test]
fn a_released_permit_can_be_taken_again() {
    let mut gate = ConcurrencyGate::new(1);
    assert!(gate.try_acquire());
    assert!(!gate.try_acquire());
    gate.release();
    assert!(gate.try_acquire());
}

#[test]
fn a_zero_capacity_gate_hands_out_nothing() {
    let mut gate = ConcurrencyGate::new(0);
    assert!(!gate.try_acquire());
}
