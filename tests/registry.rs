use bevy_liquidfun::joint::JointPtr;
use bevy_liquidfun::registry::{HandleRegistry, RegistryError, RemovedFixture};

#[test]
fn create_body_registers_handle_both_ways() {
    let mut r = HandleRegistry::new();
    assert_eq!(r.create_body(1, 100), Ok(()));
    assert_eq!(r.body_handle(1), Some(100));
    assert_eq!(r.body_entity(100), Some(1));
    assert_eq!(r.body_handle(2), None);
    assert_eq!(r.body_entity(101), None);
    assert_eq!(r.fixtures_attached_to(1).map(|v| v.len()), Some(0));
}

#[test]
fn create_body_twice_for_one_entity_is_refused() {
    let mut r = HandleRegistry::new();
    assert_eq!(r.create_body(1, 100), Ok(()));
    assert_eq!(r.create_body(1, 200), Err(RegistryError::AlreadyRegistered));
    assert_eq!(r.body_handle(1), Some(100));
    assert_eq!(r.body_entity(200), None);
}

#[test]
fn two_bodies_cannot_share_a_handle() {
    let mut r = HandleRegistry::new();
    assert_eq!(r.create_body(1, 100), Ok(()));
    assert_eq!(r.create_body(2, 100), Err(RegistryError::HandleInUse));
    assert_eq!(r.body_handle(2), None);
    assert_eq!(r.body_entity(100), Some(1));
}

#[test]
fn fixture_needs_a_registered_body() {
    let mut r = HandleRegistry::new();
    assert_eq!(r.create_fixture(10, 1, 500), Err(RegistryError::BodyNotRegistered));
    assert_eq!(r.fixture_handle(10), None);
}

#[test]
fn fixture_registration_and_its_errors() {
    let mut r = HandleRegistry::new();
    r.create_body(1, 100).unwrap();
    assert_eq!(r.create_fixture(10, 1, 500), Ok(()));
    assert_eq!(r.create_fixture(10, 1, 501), Err(RegistryError::AlreadyRegistered));
    assert_eq!(r.create_fixture(11, 1, 500), Err(RegistryError::HandleInUse));
    assert_eq!(r.fixture_handle(10), Some(500));
    assert_eq!(r.fixture_entity(500), Some(10));
    assert_eq!(r.fixture_body_entity(10), Some(1));
    assert_eq!(r.fixtures_attached_to(1).cloned(), Some(vec![10]));
}

#[test]
fn destroy_fixture_returns_handles_and_cleans_indices() {
    let mut r = HandleRegistry::new();
    r.create_body(1, 100).unwrap();
    r.create_fixture(10, 1, 500).unwrap();
    r.create_fixture(11, 1, 501).unwrap();
    assert_eq!(
        r.destroy_fixture(10),
        Some(RemovedFixture { fixture_handle: 500, body_handle: 100 })
    );
    assert_eq!(r.fixture_handle(10), None);
    assert_eq!(r.fixture_entity(500), None);
    assert_eq!(r.fixture_body_entity(10), None);
    assert_eq!(r.fixtures_attached_to(1).cloned(), Some(vec![11]));
    assert_eq!(r.fixture_handle(11), Some(501));
}

#[test]
fn destroy_fixture_of_unknown_entity_is_a_no_op() {
    let mut r = HandleRegistry::new();
    r.create_body(1, 100).unwrap();
    assert_eq!(r.destroy_fixture(42), None);
    assert_eq!(r.body_handle(1), Some(100));
}

#[test]
fn destroying_a_body_cascades_to_its_fixtures() {
    let mut r = HandleRegistry::new();
    r.create_body(1, 100).unwrap();
    r.create_body(2, 200).unwrap();
    r.create_fixture(10, 1, 500).unwrap();
    r.create_fixture(11, 1, 501).unwrap();
    r.create_fixture(12, 1, 502).unwrap();
    r.create_fixture(20, 2, 600).unwrap();
    let destroyed = r.destroy_body(1).unwrap();
    assert_eq!(destroyed.handle, 100);
    let mut fixtures = destroyed.fixtures.clone();
    fixtures.sort();
    assert_eq!(fixtures, vec![10, 11, 12]);
    for f in [10u64, 11, 12] {
        assert_eq!(r.fixture_handle(f), None);
        assert_eq!(r.fixture_body_entity(f), None);
        // The fixture's own removal arrives later and finds nothing to do.
        assert_eq!(r.destroy_fixture(f), None);
    }
    for h in [500u64, 501, 502] {
        assert_eq!(r.fixture_entity(h), None);
    }
    assert_eq!(r.body_handle(1), None);
    assert_eq!(r.body_entity(100), None);
    assert_eq!(r.fixtures_attached_to(1), None);
    assert_eq!(r.fixture_handle(20), Some(600));
    assert_eq!(r.fixture_body_entity(20), Some(2));
}

#[test]
fn destroying_an_unknown_body_is_an_error() {
    let mut r = HandleRegistry::new();
    assert_eq!(r.destroy_body(7).err(), Some(RegistryError::NotRegistered));
}

#[test]
fn handle_of_destroyed_body_can_be_reused() {
    let mut r = HandleRegistry::new();
    r.create_body(1, 100).unwrap();
    r.destroy_body(1).unwrap();
    assert_eq!(r.create_body(2, 100), Ok(()));
    assert_eq!(r.body_entity(100), Some(2));
}

#[test]
fn joint_needs_both_bodies() {
    let mut r = HandleRegistry::new();
    r.create_body(1, 100).unwrap();
    assert_eq!(
        r.register_joint(30, 1, 2, JointPtr::Revolute(900)),
        Err(RegistryError::BodyNotRegistered)
    );
    r.create_body(2, 200).unwrap();
    assert_eq!(r.register_joint(30, 1, 2, JointPtr::Revolute(900)), Ok(()));
    assert_eq!(r.joint_ptr(30), Some(JointPtr::Revolute(900)));
    assert_eq!(
        r.register_joint(30, 1, 2, JointPtr::Prismatic(901)),
        Err(RegistryError::AlreadyRegistered)
    );
    assert_eq!(
        r.register_joint(31, 1, 2, JointPtr::Prismatic(900)),
        Err(RegistryError::HandleInUse)
    );
    assert_eq!(r.register_joint(32, 1, 2, JointPtr::Weld), Ok(()));
    assert_eq!(r.register_joint(33, 2, 1, JointPtr::Weld), Ok(()));
    assert_eq!(r.joint_ptr(31), None);
}

#[test]
fn particle_system_registration() {
    let mut r = HandleRegistry::new();
    assert_eq!(r.create_particle_system(5, 700), Ok(()));
    assert_eq!(r.particle_system_handle(5), Some(700));
    assert_eq!(r.create_particle_system(5, 701), Err(RegistryError::AlreadyRegistered));
    assert_eq!(r.create_particle_system(6, 700), Err(RegistryError::HandleInUse));
    assert_eq!(r.particle_system_handle(6), None);
}

#[test]
fn live_handles_stay_unique_over_a_sequence_of_operations() {
    let mut r = HandleRegistry::new();
    r.create_body(1, 100).unwrap();
    r.create_body(2, 200).unwrap();
    r.create_fixture(10, 1, 500).unwrap();
    r.create_fixture(20, 2, 600).unwrap();
    r.destroy_body(1).unwrap();
    r.create_body(3, 100).unwrap();
    r.create_fixture(30, 3, 500).unwrap();
    assert_eq!(r.create_fixture(31, 3, 600), Err(RegistryError::HandleInUse));
    assert_eq!(r.destroy_fixture(20), Some(RemovedFixture { fixture_handle: 600, body_handle: 200 }));
    r.create_fixture(31, 3, 600).unwrap();
    let bodies = [1u64, 2, 3];
    let mut seen = Vec::new();
    for b in bodies {
        if let Some(h) = r.body_handle(b) {
            assert!(!seen.contains(&h));
            seen.push(h);
        }
    }
    assert_eq!(seen, vec![200, 100]);
    for f in [10u64, 20, 30, 31] {
        if let Some(b) = r.fixture_body_entity(f) {
            assert!(r.body_handle(b).is_some());
        }
    }
    assert_eq!(r.fixtures_attached_to(3).map(|v| v.len()), Some(2));
}
