use bevy_liquidfun::contacts::{
    b2Contact, b2ContactListener, b2ParticleBodyContact, contact_key, RawVec2,
};

fn raw(x: u32, y: u32) -> RawVec2 {
    RawVec2 { x, y }
}

fn contact(fixture_a: u64, fixture_b: u64, normal_x: u32) -> b2Contact {
    b2Contact {
        fixture_a,
        fixture_b,
        body_a: fixture_a + 100,
        body_b: fixture_b + 100,
        points: [raw(1, 2), raw(3, 4)],
        normal: raw(normal_x, 0),
    }
}

fn particle_contact(fixture: u64, particle_index: i32) -> b2ParticleBodyContact {
    b2ParticleBodyContact {
        particle_index,
        fixture,
        body: 1,
        weight: 0.5f32.to_bits(),
        normal: raw(0, 1.0f32.to_bits()),
        mass: 2.0f32.to_bits(),
    }
}

#[test]
fn contact_key_ignores_order() {
    assert_eq!(contact_key(3, 7), (3, 7));
    assert_eq!(contact_key(7, 3), (3, 7));
    assert_eq!(contact_key(5, 5), (5, 5));
    assert_eq!(contact(9, 4, 0).get_contact_key(), contact(4, 9, 0).get_contact_key());
}

#[test]
fn begin_records_active_and_begun() {
    let mut l = b2ContactListener::new();
    l.begin_contact(contact(9, 4, 1));
    assert!(l.fixture_contacts().contains(4, 9));
    assert!(!l.fixture_contacts().contains(9, 4));
    assert!(l.begun_fixture_contacts().contains(4, 9));
    assert_eq!(l.fixture_contacts().get(4, 9).map(|c| c.normal), Some(raw(1, 0)));
    assert!(l.ended_fixture_contacts().get(4, 9).is_none());
}

#[test]
fn swapped_report_lands_on_the_same_entry() {
    let mut l = b2ContactListener::new();
    l.begin_contact(contact(4, 9, 1));
    l.begin_contact(contact(9, 4, 2));
    assert_eq!(l.fixture_contacts().rows().len(), 1);
    assert_eq!(l.fixture_contacts().get(4, 9).map(|c| c.normal), Some(raw(2, 0)));
    l.end_contact(contact(9, 4, 3));
    assert!(!l.fixture_contacts().contains(4, 9));
    assert_eq!(l.ended_fixture_contacts().get(4, 9).map(|c| c.normal), Some(raw(3, 0)));
}

#[test]
fn end_moves_contact_to_ended() {
    let mut l = b2ContactListener::new();
    l.begin_contact(contact(1, 2, 0));
    l.clear_contact_changes();
    l.end_contact(contact(2, 1, 5));
    assert!(!l.fixture_contacts().contains(1, 2));
    assert!(!l.begun_fixture_contacts().contains(1, 2));
    let ended = l.ended_fixture_contacts().get(1, 2).copied().unwrap();
    assert_eq!(ended.fixture_a, 2);
    assert_eq!(ended.fixture_b, 1);
    assert_eq!(ended.normal, raw(5, 0));
}

#[test]
fn begin_and_end_in_one_tick_show_in_both_sets() {
    let mut l = b2ContactListener::new();
    l.begin_contact(contact(1, 2, 0));
    l.end_contact(contact(1, 2, 0));
    assert!(!l.fixture_contacts().contains(1, 2));
    assert!(l.begun_fixture_contacts().contains(1, 2));
    assert!(l.ended_fixture_contacts().contains(1, 2));
}

#[test]
fn draining_empties_begun_and_ended_and_keeps_active() {
    let mut l = b2ContactListener::new();
    l.begin_contact(contact(1, 2, 0));
    l.begin_contact(contact(3, 4, 0));
    l.end_contact(contact(3, 4, 0));
    l.begin_particle_body_contact(particle_contact(7, 0));
    l.clear_contact_changes();
    assert!(l.begun_fixture_contacts().rows().values().all(|r| r.is_empty()));
    assert!(l.ended_fixture_contacts().rows().values().all(|r| r.is_empty()));
    assert!(!l.begun_fixture_contacts().contains(1, 2));
    assert!(!l.ended_fixture_contacts().contains(3, 4));
    assert!(!l.begun_particle_body_contacts().contains(7, 0));
    assert!(l.fixture_contacts().contains(1, 2));
    assert!(l.particle_body_contacts().contains(7, 0));
    // A tick without contact changes adds nothing.
    l.clear_contact_changes();
    assert!(!l.begun_fixture_contacts().contains(1, 2));
    assert!(l.ended_fixture_contacts().rows().is_empty());
}

#[test]
fn particle_contacts_follow_begin_and_end() {
    let mut l = b2ContactListener::new();
    let c = particle_contact(7, 3);
    assert_eq!(c.get_contact_key(), (7, 3));
    l.begin_particle_body_contact(c);
    assert!(l.particle_body_contacts().contains(7, 3));
    assert!(l.begun_particle_body_contacts().contains(7, 3));
    l.end_particle_body_contact(7, 3);
    assert!(!l.particle_body_contacts().contains(7, 3));
    assert_eq!(l.ended_particle_body_contacts().get(7, 3).copied(), Some(c));
    assert!(!l.fixture_contacts().contains(7, 3));
}

#[test]
fn particle_contact_ending_unseen_leaves_no_trace() {
    let mut l = b2ContactListener::new();
    l.end_particle_body_contact(7, 3);
    assert!(!l.ended_particle_body_contacts().contains(7, 3));
    assert!(!l.particle_body_contacts().contains(7, 3));
}
