//! Particle systems: the particle count that the host sees, the particles
//! queued for destruction, and the particles touching a body.
use std::collections::HashSet;
use vstd::prelude::*;

use crate::contacts::b2ParticleBodyContact;

verus! {

broadcast use vstd::std_specs::hash::group_hash_axioms;

/// The particle bookkeeping of one particle system. The engine writes the
/// particle positions into a host buffer of `max_count` entries; of these,
/// the first `particle_count` are live.
#[allow(non_camel_case_types)]
#[derive(Debug)]
pub struct b2ParticleSystem {
    max_count: usize,
    particle_count: usize,
    destruction_queue: Vec<i32>,
}

impl b2ParticleSystem {
    pub closed spec fn spec_max_count(&self) -> nat {
        self.max_count as nat
    }

    pub closed spec fn spec_particle_count(&self) -> nat {
        self.particle_count as nat
    }

    pub closed spec fn spec_destruction_queue(&self) -> Seq<i32> {
        self.destruction_queue@
    }

    pub closed spec fn wf(&self) -> bool {
        self.particle_count <= self.max_count
    }

    /// A particle system that can hold up to `max_count` particles, none live
    /// yet.
    pub fn new(max_count: usize) -> (r: Self)
        ensures
            r.wf(),
            r.spec_max_count() == max_count,
            r.spec_particle_count() == 0,
            r.spec_destruction_queue() == Seq::<i32>::empty(),
    {
        b2ParticleSystem { max_count, particle_count: 0, destruction_queue: Vec::new() }
    }

    /// The most particles the position buffer holds.
    pub fn max_count(&self) -> (r: usize)
        ensures
            r == self.spec_max_count(),
    {
        self.max_count
    }

    /// How many particles are live.
    pub fn particle_count(&self) -> (r: usize)
        ensures
            r == self.spec_particle_count(),
    {
        self.particle_count
    }

    /// The particles waiting to be destroyed at the next step, in the order
    /// they were queued.
    pub fn destruction_queue(&self) -> (r: &Vec<i32>)
        ensures
            r@ == self.spec_destruction_queue(),
    {
        &self.destruction_queue
    }

    /// Queues the particle at `particle_index` for destruction.
    pub fn queue_particle_for_destruction(&mut self, particle_index: i32)
        ensures
            final(self).spec_destruction_queue() == old(self).spec_destruction_queue().push(
                particle_index,
            ),
            final(self).spec_max_count() == old(self).spec_max_count(),
            final(self).spec_particle_count() == old(self).spec_particle_count(),
            old(self).wf() ==> final(self).wf(),
    {
        self.destruction_queue.push(particle_index);
    }

    /// Hands over the queued particles, in the order they were queued, for the
    /// engine to destroy, and empties the queue.
    pub fn process_destruction_queue(&mut self) -> (r: Vec<i32>)
        ensures
            r@ == old(self).spec_destruction_queue(),
            final(self).spec_destruction_queue() == Seq::<i32>::empty(),
            final(self).spec_max_count() == old(self).spec_max_count(),
            final(self).spec_particle_count() == old(self).spec_particle_count(),
            old(self).wf() ==> final(self).wf(),
    {
        let mut taken = Vec::new();
        core::mem::swap(&mut taken, &mut self.destruction_queue);
        taken
    }

    /// Takes the engine's particle count after a step. The count the host sees
    /// never leaves the buffer: a negative count reads as none, one above the
    /// buffer's size as a full buffer.
    pub fn sync_with_world(&mut self, engine_count: i32)
        ensures
            final(self).wf(),
            final(self).spec_particle_count() == (if engine_count < 0 {
                0
            } else if engine_count as int > old(self).spec_max_count() {
                old(self).spec_max_count() as int
            } else {
                engine_count as int
            }),
            final(self).spec_max_count() == old(self).spec_max_count(),
            final(self).spec_destruction_queue() == old(self).spec_destruction_queue(),
    {
        if engine_count < 0 {
            self.particle_count = 0;
        } else if engine_count as u64 > self.max_count as u64 {
            self.particle_count = self.max_count;
        } else {
            self.particle_count = engine_count as usize;
        }
    }
}

/// The particles of one particle system that touch a body.
#[allow(non_camel_case_types)]
#[derive(Debug)]
pub struct b2ParticleContacts {
    contacts: HashSet<i32>,
}

impl Default for b2ParticleContacts {
    /// No particle touches the body.
    fn default() -> (r: Self)
        ensures
            r.spec_contacts().is_empty(),
    {
        let r = b2ParticleContacts { contacts: HashSet::new() };
        r
    }
}

impl b2ParticleContacts {
    pub closed spec fn spec_contacts(&self) -> Set<i32> {
        self.contacts@
    }

    /// The indices of the particles that touch the body.
    pub fn contacts(&self) -> (r: &HashSet<i32>)
        ensures
            r@ == self.spec_contacts(),
    {
        &self.contacts
    }

    /// The indices of the particles that touch the body, to be updated.
    pub fn contacts_mut(&mut self) -> (r: &mut HashSet<i32>)
        ensures
            r@ == old(self).spec_contacts(),
            final(self).spec_contacts() == final(r)@,
    {
        &mut self.contacts
    }
}

/// The particle-fixture contacts of one particle system, as the host last
/// gathered them.
#[allow(non_camel_case_types)]
#[derive(Debug, Default)]
pub struct b2ParticleSystemContacts {
    body_contacts: Vec<b2ParticleBodyContact>,
}

impl b2ParticleSystemContacts {
    pub closed spec fn spec_body_contacts(&self) -> Seq<b2ParticleBodyContact> {
        self.body_contacts@
    }

    pub fn body_contacts(&self) -> (r: &Vec<b2ParticleBodyContact>)
        ensures
            r@ == self.spec_body_contacts(),
    {
        &self.body_contacts
    }

    pub fn body_contacts_mut(&mut self) -> (r: &mut Vec<b2ParticleBodyContact>)
        ensures
            r@ == old(self).spec_body_contacts(),
            final(self).spec_body_contacts() == final(r)@,
    {
        &mut self.body_contacts
    }
}

} // verus!
