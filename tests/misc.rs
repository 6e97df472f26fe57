use bevy_liquidfun::body::b2BodyType;
use bevy_liquidfun::filter::b2Filter;
use bevy_liquidfun::joint::{b2Joint, b2JointType, JointPtr};
use bevy_liquidfun::particles::{b2ParticleContacts, b2ParticleSystem, b2ParticleSystemContacts};
use bevy_liquidfun::stepping::PhysicsTimeAccumulator;

#[test]
fn default_filter_accepts_all_categories() {
    let f = b2Filter::default();
    assert_eq!(f.category, 0x0001);
    assert_eq!(f.mask, 0xFFFF);
    assert_eq!(f.group_index, 0);
}

#[test]
fn default_body_type_is_static() {
    assert_eq!(b2BodyType::default(), b2BodyType::Static);
}

#[test]
fn joint_keeps_its_parts() {
    let j = b2Joint::new(b2JointType::Prismatic, 3, 4, true);
    assert_eq!(*j.joint_type(), b2JointType::Prismatic);
    assert_eq!(*j.body_a(), 3);
    assert_eq!(*j.body_b(), 4);
    assert!(j.collide_connected());
    assert!(JointPtr::Revolute(1).is_supported());
    assert!(JointPtr::Prismatic(1).is_supported());
    assert!(!JointPtr::Gear.is_supported());
}

#[test]
fn destruction_queue_is_handed_over_in_order() {
    let mut ps = b2ParticleSystem::new(10);
    ps.queue_particle_for_destruction(4);
    ps.queue_particle_for_destruction(1);
    ps.queue_particle_for_destruction(4);
    assert_eq!(ps.destruction_queue().clone(), vec![4, 1, 4]);
    assert_eq!(ps.process_destruction_queue(), vec![4, 1, 4]);
    assert!(ps.destruction_queue().is_empty());
    assert!(ps.process_destruction_queue().is_empty());
}

#[test]
fn particle_count_follows_engine_within_buffer() {
    let mut ps = b2ParticleSystem::new(100);
    assert_eq!(ps.max_count(), 100);
    assert_eq!(ps.particle_count(), 0);
    ps.sync_with_world(42);
    assert_eq!(ps.particle_count(), 42);
    ps.sync_with_world(100);
    assert_eq!(ps.particle_count(), 100);
    ps.sync_with_world(101);
    assert_eq!(ps.particle_count(), 100);
    ps.sync_with_world(-3);
    assert_eq!(ps.particle_count(), 0);
}

#[test]
fn particle_contacts_start_empty_and_can_be_filled() {
    let mut c = b2ParticleContacts::default();
    assert!(c.contacts().is_empty());
    c.contacts_mut().insert(3);
    c.contacts_mut().insert(5);
    assert!(c.contacts().contains(&3));
    assert_eq!(c.contacts().len(), 2);
    let mut sc = b2ParticleSystemContacts::default();
    assert!(sc.body_contacts().is_empty());
    sc.body_contacts_mut().clear();
    assert!(sc.body_contacts().is_empty());
}

#[test]
fn accumulator_runs_whole_steps_and_keeps_the_rest() {
    let step: u64 = 16_666_667;
    let mut acc = PhysicsTimeAccumulator::new();
    assert_eq!(acc.leftover(), 0);
    assert_eq!(acc.advance(10_000_000, step), 0);
    assert_eq!(acc.leftover(), 10_000_000);
    assert_eq!(acc.advance(10_000_000, step), 1);
    assert_eq!(acc.leftover(), 20_000_000 - step);
    assert_eq!(acc.advance(50_000_000, step), 3);
    assert_eq!(acc.leftover(), 20_000_000 - step + 50_000_000 - 3 * step);
    assert!(acc.leftover() < step);
}
