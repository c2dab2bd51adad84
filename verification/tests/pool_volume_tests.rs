use cvm::pool::{pool_action, pool_definition, pool_name, pool_step, PoolAction, PoolEvent, PoolPhase};
use cvm::volume::{create_volume, volume_definition, VolumeAction};

#[test]
fn pool_definition_is_a_directory_pool() {
    let p = pool_definition();
    assert_eq!(p.pool_type, "dir");
    assert_eq!(p.name, "cvm");
    assert_eq!(p.target.path, "/var/lib/cvm");
    assert_eq!(pool_name(), "cvm");
}

#[test]
fn pool_missing_is_defined_then_enabled_and_started() {
    assert!(matches!(pool_action(&PoolPhase::LookingUp), PoolAction::LookUp));
    let (p, a) = pool_step(PoolPhase::LookingUp, PoolEvent::LookedUp(false));
    assert_eq!(p, PoolPhase::Defining);
    match a {
        PoolAction::Define(pool) => assert_eq!(pool.name, "cvm"),
        other => panic!("unexpected {:?}", other),
    }
    let (p, a) = pool_step(p, PoolEvent::Defined);
    assert_eq!(p, PoolPhase::CheckingAutostart);
    assert!(matches!(a, PoolAction::CheckAutostart));
    let (p, a) = pool_step(p, PoolEvent::AutostartIs(false));
    assert_eq!(p, PoolPhase::EnablingAutostart);
    assert!(matches!(a, PoolAction::EnableAutostart));
    let (p, a) = pool_step(p, PoolEvent::AutostartEnabled);
    assert_eq!(p, PoolPhase::CheckingActive);
    assert!(matches!(a, PoolAction::CheckActive));
    let (p, a) = pool_step(p, PoolEvent::ActiveIs(false));
    assert_eq!(p, PoolPhase::Starting);
    assert!(matches!(a, PoolAction::Start));
    let (p, a) = pool_step(p, PoolEvent::Started);
    assert_eq!(p, PoolPhase::Done);
    assert!(matches!(a, PoolAction::Ready));
}

#[test]
fn pool_found_and_running_needs_nothing() {
    let (p, a) = pool_step(PoolPhase::LookingUp, PoolEvent::LookedUp(true));
    assert_eq!(p, PoolPhase::CheckingAutostart);
    assert!(matches!(a, PoolAction::CheckAutostart));
    let (p, _) = pool_step(p, PoolEvent::AutostartIs(true));
    assert_eq!(p, PoolPhase::CheckingActive);
    let (p, a) = pool_step(p, PoolEvent::ActiveIs(true));
    assert_eq!(p, PoolPhase::Done);
    assert!(matches!(a, PoolAction::Ready));
}

#[test]
fn volume_definition_is_32_gib() {
    let v = volume_definition("test.qcow2");
    assert_eq!(v.name, "test.qcow2");
    assert_eq!(v.capacity.unit, "G");
    assert_eq!(v.capacity.capacity, 32);
}

#[test]
fn create_volume_deletes_an_existing_one_first() {
    let plan = create_volume("test.qcow2", true);
    assert_eq!(plan.len(), 2);
    assert!(matches!(plan[0], VolumeAction::DeleteExisting));
    match &plan[1] {
        VolumeAction::Create(v) => assert_eq!(v.name, "test.qcow2"),
        other => panic!("unexpected {:?}", other),
    }
}

#[test]
fn create_volume_fresh() {
    let plan = create_volume("a.qcow2", false);
    assert_eq!(plan.len(), 1);
    match &plan[0] {
        VolumeAction::Create(v) => {
            assert_eq!(v.name, "a.qcow2");
            assert_eq!(v.capacity.capacity, 32);
        }
        other => panic!("unexpected {:?}", other),
    }
}
