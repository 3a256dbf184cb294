use contract_vm::gas::GasMeter;
use contract_vm::instance::InstanceWrapper;

#[test]
fn use_gas_debits_when_it_fits() {
    let mut g = GasMeter::new(100);
    g.use_gas(30);
    assert_eq!(g.remaining(), 70);
    assert_eq!(g.used_gas(), 30);
    g.use_gas(70);
    assert_eq!(g.remaining(), 0);
    assert!(g.is_exhausted());
}

#[test]
fn use_gas_saturates_at_zero() {
    let mut g = GasMeter::new(100);
    g.use_gas(150);
    assert_eq!(g.remaining(), 0);
    let mut h = GasMeter::new(5);
    h.use_gas(u64::MAX);
    assert_eq!(h.remaining(), 0);
    assert_eq!(h.used_gas(), 5);
}

#[test]
fn used_gas_setters() {
    let mut g = GasMeter::new(1_000);
    g.set_used_gas(250);
    assert_eq!(g.remaining(), 750);
    g.set_used_gas(5_000);
    assert_eq!(g.remaining(), 0);
    g.set_remaining(2_000);
    assert_eq!(g.used_gas(), 0);
}

#[test]
fn instance_gas_accessors() {
    let mut inst = InstanceWrapper::new(vec![0, 97, 115, 109], 1_000_000, 0, 64).unwrap();
    assert_eq!(inst.get_remaining_gas(), 1_000_000);
    inst.use_gas(400);
    assert_eq!(inst.get_remaining_gas(), 999_600);
    assert_eq!(inst.get_used_gas(), 400);
    inst.set_remaining_gas(10);
    inst.use_gas(11);
    assert_eq!(inst.get_remaining_gas(), 0);
    inst.set_used_gas(1);
    assert_eq!(inst.get_remaining_gas(), 999_999);
}
