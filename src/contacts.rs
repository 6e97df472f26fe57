//! Contact snapshots and the per-tick contact event log.
//!
//! The native engine reports contacts beginning and ending while it steps. The
//! listener turns those reports into a table of the contacts that are active
//! now, and the sets of contacts that began and ended since the host last
//! drained them. A fixture pair is keyed without regard to which fixture the
//! engine names first.
use vstd::prelude::*;
use vstd::std_specs::hash::obeys_key_model;

use crate::pair_table::PairTable;

verus! {

broadcast use vstd::std_specs::hash::group_hash_axioms;

/// The IEEE-754 bit patterns of a 2D vector's two components. The library
/// carries these values through without computing with them.
#[derive(Debug, Clone, Copy, PartialEq, Eq, Structural)]
pub struct RawVec2 {
    pub x: u32,
    pub y: u32,
}

/// A contact between two fixtures, as it stood when the engine reported it:
/// the fixtures and their bodies, up to two contact points and the normal.
#[allow(non_camel_case_types)]
#[derive(Debug, Clone, Copy)]
pub struct b2Contact {
    pub fixture_a: u64,
    pub fixture_b: u64,
    pub body_a: u64,
    pub body_b: u64,
    pub points: [RawVec2; 2],
    pub normal: RawVec2,
}

/// The key of the contact between fixtures `a` and `b`: the smaller entity
/// first.
pub open spec fn spec_contact_key(a: u64, b: u64) -> (u64, u64) {
    if a <= b {
        (a, b)
    } else {
        (b, a)
    }
}

/// The key of the contact between fixtures `a` and `b`, whichever comes first.
pub fn contact_key(a: u64, b: u64) -> (r: (u64, u64))
    ensures
        r == spec_contact_key(a, b),
{
    if a <= b {
        (a, b)
    } else {
        (b, a)
    }
}

/// A contact is keyed the same whichever of its two fixtures the engine
/// reports first, and two contacts share a key exactly when they join the
/// same two fixtures.
pub proof fn lemma_contact_key_symmetric(a: u64, b: u64, c: u64, d: u64)
    ensures
        spec_contact_key(a, b) == spec_contact_key(b, a),
        spec_contact_key(a, b) == spec_contact_key(c, d) <==> (a == c && b == d) || (a == d && b
            == c),
{
}

impl b2Contact {
    pub open spec fn spec_key(&self) -> (u64, u64) {
        spec_contact_key(self.fixture_a, self.fixture_b)
    }

    /// The key under which this contact is logged.
    pub fn get_contact_key(&self) -> (r: (u64, u64))
        ensures
            r == self.spec_key(),
    {
        contact_key(self.fixture_a, self.fixture_b)
    }
}

/// A contact between a particle and a fixture, as the engine reported it.
/// `weight` and `mass` are IEEE-754 bit patterns.
#[allow(non_camel_case_types)]
#[derive(Debug, Clone, Copy, PartialEq, Eq, Structural)]
pub struct b2ParticleBodyContact {
    pub particle_index: i32,
    pub fixture: u64,
    pub body: u64,
    pub weight: u32,
    pub normal: RawVec2,
    pub mass: u32,
}

impl b2ParticleBodyContact {
    pub open spec fn spec_key(&self) -> (u64, i32) {
        (self.fixture, self.particle_index)
    }

    /// The key under which this contact is logged: the fixture and the
    /// particle's index.
    pub fn get_contact_key(&self) -> (r: (u64, i32))
        ensures
            r == self.spec_key(),
    {
        (self.fixture, self.particle_index)
    }
}

/// The contact event log of one physics world.
#[allow(non_camel_case_types)]
pub struct b2ContactListener {
    fixture_contacts: PairTable<u64, b2Contact>,
    begun_fixture_contacts: PairTable<u64, ()>,
    ended_fixture_contacts: PairTable<u64, b2Contact>,
    particle_body_contacts: PairTable<i32, b2ParticleBodyContact>,
    begun_particle_body_contacts: PairTable<i32, ()>,
    ended_particle_body_contacts: PairTable<i32, b2ParticleBodyContact>,
    begins_seen: Ghost<Set<(u64, u64)>>,
    particle_begins_seen: Ghost<Set<(u64, i32)>>,
}

impl b2ContactListener {
    /// Fixture contacts that are active now, by key.
    pub closed spec fn active(&self) -> Map<(u64, u64), b2Contact> {
        self.fixture_contacts@
    }

    /// Keys of the fixture contacts that began since the last drain.
    pub closed spec fn begun(&self) -> Set<(u64, u64)> {
        self.begun_fixture_contacts@.dom()
    }

    /// Fixture contacts that ended since the last drain, as they stood when
    /// they ended.
    pub closed spec fn ended(&self) -> Map<(u64, u64), b2Contact> {
        self.ended_fixture_contacts@
    }

    /// Particle-fixture contacts that are active now, by key.
    pub closed spec fn particle_active(&self) -> Map<(u64, i32), b2ParticleBodyContact> {
        self.particle_body_contacts@
    }

    /// Keys of the particle-fixture contacts that began since the last drain.
    pub closed spec fn particle_begun(&self) -> Set<(u64, i32)> {
        self.begun_particle_body_contacts@.dom()
    }

    /// Particle-fixture contacts that ended since the last drain.
    pub closed spec fn particle_ended(&self) -> Map<(u64, i32), b2ParticleBodyContact> {
        self.ended_particle_body_contacts@
    }

    /// Keys of every fixture contact whose beginning this log has recorded.
    pub closed spec fn begins_seen(&self) -> Set<(u64, u64)> {
        self.begins_seen@
    }

    /// Keys of every particle-fixture contact whose beginning this log has
    /// recorded.
    pub closed spec fn particle_begins_seen(&self) -> Set<(u64, i32)> {
        self.particle_begins_seen@
    }

    pub closed spec fn wf(&self) -> bool {
        &&& self.active().dom().subset_of(self.begins_seen())
        &&& self.particle_active().dom().subset_of(self.particle_begins_seen())
        &&& self.fixture_contacts.wf()
        &&& self.begun_fixture_contacts.wf()
        &&& self.ended_fixture_contacts.wf()
        &&& self.particle_body_contacts.wf()
        &&& self.begun_particle_body_contacts.wf()
        &&& self.ended_particle_body_contacts.wf()
    }

    /// `after` is this log with the begun and ended sets emptied and the
    /// active contacts kept.
    pub open spec fn drained(&self, after: &b2ContactListener) -> bool {
        &&& after.active() == self.active()
        &&& after.particle_active() == self.particle_active()
        &&& after.begun().is_empty()
        &&& after.ended().is_empty()
        &&& after.particle_begun().is_empty()
        &&& after.particle_ended().is_empty()
    }

    /// An empty log.
    pub fn new() -> (r: Self)
        ensures
            r.wf(),
            r.active().is_empty(),
            r.begun().is_empty(),
            r.ended().is_empty(),
            r.particle_active().is_empty(),
            r.particle_begun().is_empty(),
            r.particle_ended().is_empty(),
    {
        proof {
            assert(obeys_key_model::<u64>());
            assert(obeys_key_model::<i32>());
        }
        let r = b2ContactListener {
            fixture_contacts: PairTable::new(),
            begun_fixture_contacts: PairTable::new(),
            ended_fixture_contacts: PairTable::new(),
            particle_body_contacts: PairTable::new(),
            begun_particle_body_contacts: PairTable::new(),
            ended_particle_body_contacts: PairTable::new(),
            begins_seen: Ghost(Set::empty()),
            particle_begins_seen: Ghost(Set::empty()),
        };
        assert(r.begun() =~= Set::empty());
        assert(r.particle_begun() =~= Set::empty());
        r
    }

    /// Records that contact `c` began: it becomes active under its key, and
    /// the key joins the begun set.
    pub fn begin_contact(&mut self, c: b2Contact)
        requires
            old(self).wf(),
        ensures
            final(self).wf(),
            final(self).active() == old(self).active().insert(c.spec_key(), c),
            final(self).begun() == old(self).begun().insert(c.spec_key()),
            final(self).ended() == old(self).ended(),
            final(self).particle_active() == old(self).particle_active(),
            final(self).particle_begun() == old(self).particle_begun(),
            final(self).particle_ended() == old(self).particle_ended(),
    {
        let key = c.get_contact_key();
        self.fixture_contacts.insert(key.0, key.1, c);
        self.begun_fixture_contacts.insert(key.0, key.1, ());
        self.begins_seen = Ghost(self.begins_seen@.insert(key));
        assert(self.begun() =~= old(self).begun().insert(c.spec_key()));
    }

    /// Records that contact `c` ended: it is no longer active, and its
    /// snapshot joins the ended set.
    pub fn end_contact(&mut self, c: b2Contact)
        requires
            old(self).wf(),
        ensures
            final(self).wf(),
            final(self).active() == old(self).active().remove(c.spec_key()),
            final(self).ended() == old(self).ended().insert(c.spec_key(), c),
            final(self).begun() == old(self).begun(),
            final(self).particle_active() == old(self).particle_active(),
            final(self).particle_begun() == old(self).particle_begun(),
            final(self).particle_ended() == old(self).particle_ended(),
    {
        let key = c.get_contact_key();
        self.fixture_contacts.remove(key.0, key.1);
        self.ended_fixture_contacts.insert(key.0, key.1, c);
    }

    /// Records that particle contact `c` began.
    pub fn begin_particle_body_contact(&mut self, c: b2ParticleBodyContact)
        requires
            old(self).wf(),
        ensures
            final(self).wf(),
            final(self).particle_active() == old(self).particle_active().insert(c.spec_key(), c),
            final(self).particle_begun() == old(self).particle_begun().insert(c.spec_key()),
            final(self).particle_ended() == old(self).particle_ended(),
            final(self).active() == old(self).active(),
            final(self).begun() == old(self).begun(),
            final(self).ended() == old(self).ended(),
    {
        let key = c.get_contact_key();
        self.particle_body_contacts.insert(key.0, key.1, c);
        self.begun_particle_body_contacts.insert(key.0, key.1, ());
        self.particle_begins_seen = Ghost(self.particle_begins_seen@.insert(key));
        assert(self.particle_begun() =~= old(self).particle_begun().insert(c.spec_key()));
    }

    /// Records that the particle at `particle_index` stopped touching fixture
    /// `fixture`. The engine names no snapshot here, so the one taken when the
    /// contact began joins the ended set; a contact whose beginning was never
    /// seen leaves no trace.
    pub fn end_particle_body_contact(&mut self, fixture: u64, particle_index: i32)
        requires
            old(self).wf(),
        ensures
            final(self).wf(),
            final(self).particle_active() == old(self).particle_active().remove(
                (fixture, particle_index),
            ),
            final(self).particle_ended() == (if old(self).particle_active().contains_key(
                (fixture, particle_index),
            ) {
                old(self).particle_ended().insert(
                    (fixture, particle_index),
                    old(self).particle_active()[(fixture, particle_index)],
                )
            } else {
                old(self).particle_ended()
            }),
            final(self).particle_begun() == old(self).particle_begun(),
            final(self).active() == old(self).active(),
            final(self).begun() == old(self).begun(),
            final(self).ended() == old(self).ended(),
    {
        if let Some(c) = self.particle_body_contacts.remove(fixture, particle_index) {
            self.ended_particle_body_contacts.insert(fixture, particle_index, c);
        }
    }

    /// Empties the begun and ended sets of both kinds of contact. The active
    /// contacts stay.
    pub fn clear_contact_changes(&mut self)
        requires
            old(self).wf(),
        ensures
            final(self).wf(),
            old(self).drained(final(self)),
    {
        self.begun_fixture_contacts.clear();
        self.ended_fixture_contacts.clear();
        self.begun_particle_body_contacts.clear();
        self.ended_particle_body_contacts.clear();
        assert(self.begun() =~= Set::empty());
        assert(self.particle_begun() =~= Set::empty());
    }

    /// The fixture contacts that are active now.
    pub fn fixture_contacts(&self) -> (r: &PairTable<u64, b2Contact>)
        ensures
            r@ == self.active(),
    {
        &self.fixture_contacts
    }

    /// The keys of the fixture contacts that began since the last drain.
    pub fn begun_fixture_contacts(&self) -> (r: &PairTable<u64, ()>)
        ensures
            r@.dom() == self.begun(),
    {
        &self.begun_fixture_contacts
    }

    /// The fixture contacts that ended since the last drain.
    pub fn ended_fixture_contacts(&self) -> (r: &PairTable<u64, b2Contact>)
        ensures
            r@ == self.ended(),
    {
        &self.ended_fixture_contacts
    }

    /// The particle-fixture contacts that are active now.
    pub fn particle_body_contacts(&self) -> (r: &PairTable<i32, b2ParticleBodyContact>)
        ensures
            r@ == self.particle_active(),
    {
        &self.particle_body_contacts
    }

    /// The keys of the particle-fixture contacts that began since the last
    /// drain.
    pub fn begun_particle_body_contacts(&self) -> (r: &PairTable<i32, ()>)
        ensures
            r@.dom() == self.particle_begun(),
    {
        &self.begun_particle_body_contacts
    }

    /// The particle-fixture contacts that ended since the last drain.
    pub fn ended_particle_body_contacts(&self) -> (r: &PairTable<i32, b2ParticleBodyContact>)
        ensures
            r@ == self.particle_ended(),
    {
        &self.ended_particle_body_contacts
    }

    /// Two reports of the same contact that name its fixtures in opposite
    /// orders land on the same entry: beginning either one leaves the same
    /// key active and begun.
    pub proof fn lemma_begin_order_independent(&self, c: b2Contact, d: b2Contact)
        requires
            d.fixture_a == c.fixture_b,
            d.fixture_b == c.fixture_a,
        ensures
            c.spec_key() == d.spec_key(),
            self.active().insert(c.spec_key(), c).dom() == self.active().insert(
                d.spec_key(),
                d,
            ).dom(),
            self.begun().insert(c.spec_key()) == self.begun().insert(d.spec_key()),
    {
        lemma_contact_key_symmetric(c.fixture_a, c.fixture_b, d.fixture_a, d.fixture_b);
    }

    /// Every contact that is active now was recorded as beginning: the log
    /// never holds a contact whose beginning it did not see.
    pub proof fn lemma_active_contacts_were_begun(&self)
        requires
            self.wf(),
        ensures
            forall|k: (u64, u64)| #[trigger]
                self.active().contains_key(k) ==> self.begins_seen().contains(k),
            forall|k: (u64, i32)| #[trigger]
                self.particle_active().contains_key(k) ==> self.particle_begins_seen().contains(
                    k,
                ),
    {
    }

    /// Once drained, a log holds no begun or ended contact until the next
    /// contact begins or ends; a tick without contact changes adds none.
    pub proof fn lemma_drained_log_is_empty(&self, after: &b2ContactListener, k: (u64, u64))
        requires
            self.drained(after),
        ensures
            !after.begun().contains(k),
            !after.ended().contains_key(k),
            after.active() == self.active(),
    {
    }
}

} // verus!
