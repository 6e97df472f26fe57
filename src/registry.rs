//! The handle registry: which native object stands for which host entity.
//!
//! Every native body, fixture, joint and particle system is registered under
//! the host entity that owns it, and each table can be read both ways. The
//! registry only keeps the books: the caller creates and destroys the native
//! objects and hands the registry their opaque handles.
use std::collections::HashMap;
use vstd::prelude::*;

use crate::joint::JointPtr;

verus! {

broadcast use vstd::std_specs::hash::group_hash_axioms;

/// Why the registry refused a request. Each one is a broken lifecycle
/// ordering upstream.
#[derive(Debug, Clone, Copy, PartialEq, Eq, Structural)]
pub enum RegistryError {
    /// The entity already has an object of this kind.
    AlreadyRegistered,
    /// Another entity of the same table already holds this native handle.
    HandleInUse,
    /// A body that the request depends on is not registered.
    BodyNotRegistered,
    /// The entity has no object of this kind.
    NotRegistered,
}

/// What the caller must do after a body left the registry: destroy the native
/// body once (which takes its fixtures with it natively), and let go of the
/// fixture entities that were attached to it.
#[derive(Debug)]
pub struct DestroyedBody {
    pub handle: u64,
    pub fixtures: Vec<u64>,
}

/// What the caller must do after a fixture left the registry: destroy the
/// native fixture on its native body.
#[derive(Debug, Clone, Copy, PartialEq, Eq, Structural)]
pub struct RemovedFixture {
    pub fixture_handle: u64,
    pub body_handle: u64,
}

/// `inv` maps each handle of `m` back to its entity, and holds nothing else.
pub open spec fn inverse_of(m: Map<u64, u64>, inv: Map<u64, u64>) -> bool {
    &&& forall|e: u64| #[trigger] m.contains_key(e) ==> inv.contains_key(m[e]) && inv[m[e]] == e
    &&& forall|h: u64| #[trigger] inv.contains_key(h) ==> m.contains_key(inv[h]) && m[inv[h]] == h
}

/// No two entities of `m` share a handle.
pub open spec fn injective(m: Map<u64, u64>) -> bool {
    forall|a: u64, b: u64|
        #![trigger m[a], m[b]]
        m.contains_key(a) && m.contains_key(b) && a != b ==> m[a] != m[b]
}

/// Some entity of `m` holds handle `h`.
pub open spec fn holds_handle(m: Map<u64, u64>, h: u64) -> bool {
    exists|e: u64| #[trigger] m.contains_key(e) && m[e] == h
}

/// Two maps that are each other's inverse are injective.
proof fn lemma_inverse_injective(m: Map<u64, u64>, inv: Map<u64, u64>)
    requires
        inverse_of(m, inv),
    ensures
        injective(m),
{
    assert forall|a: u64, b: u64|
        #![trigger m[a], m[b]]
        m.contains_key(a) && m.contains_key(b) && a != b implies m[a] != m[b] by {
        assert(inv[m[a]] == a);
        assert(inv[m[b]] == b);
    }
}

/// Removing an entity together with its handle keeps two maps inverse.
proof fn lemma_inverse_remove(m: Map<u64, u64>, inv: Map<u64, u64>, e: u64)
    requires
        inverse_of(m, inv),
        m.contains_key(e),
    ensures
        inverse_of(m.remove(e), inv.remove(m[e])),
{
    let m2 = m.remove(e);
    let inv2 = inv.remove(m[e]);
    assert forall|x: u64| #[trigger] m2.contains_key(x) implies inv2.contains_key(m2[x])
        && inv2[m2[x]] == x by {
        assert(inv[m[x]] == x);
    }
    assert forall|h: u64| #[trigger] inv2.contains_key(h) implies m2.contains_key(inv2[h])
        && m2[inv2[h]] == h by {
        assert(m[inv[h]] == h);
    }
}

/// The entities among the first `n` of `list`.
spec fn prefix_set(list: Seq<u64>, n: int) -> Set<u64> {
    Set::new(|x: u64| exists|k: int| 0 <= k < n && #[trigger] list[k] == x)
}

/// The entity-to-handle tables of one physics world.
#[derive(Debug)]
pub struct HandleRegistry {
    body_ptrs: HashMap<u64, u64>,
    body_entities: HashMap<u64, u64>,
    fixture_ptrs: HashMap<u64, u64>,
    fixture_entities: HashMap<u64, u64>,
    body_to_fixtures: HashMap<u64, Vec<u64>>,
    fixture_to_body: HashMap<u64, u64>,
    joint_ptrs: HashMap<u64, JointPtr>,
    joint_entities: HashMap<u64, u64>,
    particle_system_ptrs: HashMap<u64, u64>,
    particle_system_entities: HashMap<u64, u64>,
}

impl HandleRegistry {
    /// Live bodies: entity to native body handle.
    pub closed spec fn bodies(&self) -> Map<u64, u64> {
        self.body_ptrs@
    }

    /// Live fixtures: entity to native fixture handle.
    pub closed spec fn fixtures(&self) -> Map<u64, u64> {
        self.fixture_ptrs@
    }

    /// The body entity that each live fixture entity is attached to.
    pub closed spec fn fixture_body(&self) -> Map<u64, u64> {
        self.fixture_to_body@
    }

    /// Registered joints: entity to tagged native joint handle.
    pub closed spec fn joints(&self) -> Map<u64, JointPtr> {
        self.joint_ptrs@
    }

    /// Live particle systems: entity to native particle system handle.
    pub closed spec fn particle_systems(&self) -> Map<u64, u64> {
        self.particle_system_ptrs@
    }

    /// The fixture entities attached to body entity `b`.
    pub open spec fn fixtures_of(&self, b: u64) -> Set<u64> {
        Set::new(|f: u64| self.fixture_body().contains_key(f) && self.fixture_body()[f] == b)
    }

    /// The native handles of the supported joints.
    pub open spec fn joint_handles(&self) -> Map<u64, u64> {
        Map::new(
            |j: u64| self.joints().contains_key(j) && self.joints()[j].spec_handle().is_some(),
            |j: u64| self.joints()[j].spec_handle().unwrap(),
        )
    }

    /// No two live entities of one table share a native handle.
    pub open spec fn handles_unique(&self) -> bool {
        &&& injective(self.bodies())
        &&& injective(self.fixtures())
        &&& injective(self.joint_handles())
        &&& injective(self.particle_systems())
    }

    /// Every live fixture is attached to a live body, and the fixture table and
    /// the fixture-to-body index hold the same entities.
    pub open spec fn fixtures_attached(&self) -> bool {
        &&& self.fixture_body().dom() == self.fixtures().dom()
        &&& forall|f: u64| #[trigger]
            self.fixture_body().contains_key(f) ==> self.bodies().contains_key(
                self.fixture_body()[f],
            )
    }

    /// The tables agree with each other.
    pub closed spec fn wf(&self) -> bool {
        &&& inverse_of(self.body_ptrs@, self.body_entities@)
        &&& inverse_of(self.fixture_ptrs@, self.fixture_entities@)
        &&& inverse_of(self.particle_system_ptrs@, self.particle_system_entities@)
        &&& inverse_of(self.joint_handles(), self.joint_entities@)
        &&& self.fixture_to_body@.dom() == self.fixture_ptrs@.dom()
        &&& forall|f: u64| #[trigger]
            self.fixture_to_body@.contains_key(f) ==> self.body_ptrs@.contains_key(
                self.fixture_to_body@[f],
            )
        &&& self.body_to_fixtures@.dom() == self.body_ptrs@.dom()
        &&& forall|b: u64| #[trigger]
            self.body_to_fixtures@.contains_key(b) ==> self.body_to_fixtures@[b]@.no_duplicates()
        &&& forall|b: u64, i: int|
            #![trigger self.body_to_fixtures@[b]@[i]]
            self.body_to_fixtures@.contains_key(b) && 0 <= i < self.body_to_fixtures@[b]@.len()
                ==> self.fixture_to_body@.contains_key(self.body_to_fixtures@[b]@[i])
                && self.fixture_to_body@[self.body_to_fixtures@[b]@[i]] == b
        &&& forall|f: u64| #[trigger]
            self.fixture_to_body@.contains_key(f) ==> self.body_to_fixtures@[self.fixture_to_body@[
                f]]@.contains(f)
    }

    /// A registry with no entries.
    pub fn new() -> (r: Self)
        ensures
            r.wf(),
            r.bodies().is_empty(),
            r.fixtures().is_empty(),
            r.fixture_body().is_empty(),
            r.joints().is_empty(),
            r.particle_systems().is_empty(),
    {
        let r = HandleRegistry {
            body_ptrs: HashMap::new(),
            body_entities: HashMap::new(),
            fixture_ptrs: HashMap::new(),
            fixture_entities: HashMap::new(),
            body_to_fixtures: HashMap::new(),
            fixture_to_body: HashMap::new(),
            joint_ptrs: HashMap::new(),
            joint_entities: HashMap::new(),
            particle_system_ptrs: HashMap::new(),
            particle_system_entities: HashMap::new(),
        };
        assert(r.joint_handles() =~= Map::empty());
        r
    }

    /// `after` is this registry with body entity `e` and every fixture attached
    /// to it taken out; the joints and particle systems are as they were.
    pub open spec fn body_destroyed(&self, after: &HandleRegistry, e: u64) -> bool {
        &&& after.bodies() == self.bodies().remove(e)
        &&& after.fixtures() == self.fixtures().remove_keys(self.fixtures_of(e))
        &&& after.fixture_body() == self.fixture_body().remove_keys(self.fixtures_of(e))
        &&& after.joints() == self.joints()
        &&& after.particle_systems() == self.particle_systems()
    }

    /// Destroying a body leaves none of its fixtures in any table, and leaves no
    /// fixture attached to it. A later removal of one of those fixtures then
    /// finds nothing to remove, which `destroy_fixture` treats as a no-op.
    pub proof fn lemma_body_destruction_cascades(&self, after: &HandleRegistry, e: u64)
        requires
            self.wf(),
            self.body_destroyed(after, e),
        ensures
            forall|f: u64| #[trigger]
                self.fixtures_of(e).contains(f) ==> !after.fixtures().contains_key(f)
                    && !after.fixture_body().contains_key(f),
            after.fixtures_of(e).is_empty(),
            !after.bodies().contains_key(e),
    {
        assert(after.fixtures_of(e) =~= Set::empty());
    }

    /// Live bodies, live fixtures and live particle systems keep their native
    /// handles apart, and every live fixture stays attached to a live body:
    /// this holds after any sequence of the registry's operations, since each
    /// of them keeps the registry well formed.
    pub proof fn lemma_live_handles_unique(&self)
        requires
            self.wf(),
        ensures
            self.handles_unique(),
            self.fixtures_attached(),
    {
        lemma_inverse_injective(self.body_ptrs@, self.body_entities@);
        lemma_inverse_injective(self.fixture_ptrs@, self.fixture_entities@);
        lemma_inverse_injective(self.joint_handles(), self.joint_entities@);
        lemma_inverse_injective(self.particle_system_ptrs@, self.particle_system_entities@);
    }

    /// The native handle of body entity `e`.
    pub fn body_handle(&self, e: u64) -> (r: Option<u64>)
        ensures
            r == (if self.bodies().contains_key(e) {
                Some(self.bodies()[e])
            } else {
                None
            }),
    {
        match self.body_ptrs.get(&e) {
            Some(h) => Some(*h),
            None => None,
        }
    }

    /// The native handle of fixture entity `e`.
    pub fn fixture_handle(&self, e: u64) -> (r: Option<u64>)
        ensures
            r == (if self.fixtures().contains_key(e) {
                Some(self.fixtures()[e])
            } else {
                None
            }),
    {
        match self.fixture_ptrs.get(&e) {
            Some(h) => Some(*h),
            None => None,
        }
    }

    /// The native handle of particle system entity `e`.
    pub fn particle_system_handle(&self, e: u64) -> (r: Option<u64>)
        ensures
            r == (if self.particle_systems().contains_key(e) {
                Some(self.particle_systems()[e])
            } else {
                None
            }),
    {
        match self.particle_system_ptrs.get(&e) {
            Some(h) => Some(*h),
            None => None,
        }
    }

    /// The tagged native handle of joint entity `e`.
    pub fn joint_ptr(&self, e: u64) -> (r: Option<JointPtr>)
        ensures
            r == (if self.joints().contains_key(e) {
                Some(self.joints()[e])
            } else {
                None
            }),
    {
        match self.joint_ptrs.get(&e) {
            Some(j) => Some(*j),
            None => None,
        }
    }

    /// The body entity that fixture entity `f` is attached to.
    pub fn fixture_body_entity(&self, f: u64) -> (r: Option<u64>)
        ensures
            r == (if self.fixture_body().contains_key(f) {
                Some(self.fixture_body()[f])
            } else {
                None
            }),
    {
        match self.fixture_to_body.get(&f) {
            Some(b) => Some(*b),
            None => None,
        }
    }

    /// The body entity that owns native body handle `h`.
    pub fn body_entity(&self, h: u64) -> (r: Option<u64>)
        requires
            self.wf(),
        ensures
            match r {
                Some(e) => self.bodies().contains_key(e) && self.bodies()[e] == h,
                None => !holds_handle(self.bodies(), h),
            },
    {
        match self.body_entities.get(&h) {
            Some(e) => Some(*e),
            None => None,
        }
    }

    /// The fixture entity that owns native fixture handle `h`.
    pub fn fixture_entity(&self, h: u64) -> (r: Option<u64>)
        requires
            self.wf(),
        ensures
            match r {
                Some(e) => self.fixtures().contains_key(e) && self.fixtures()[e] == h,
                None => !holds_handle(self.fixtures(), h),
            },
    {
        match self.fixture_entities.get(&h) {
            Some(e) => Some(*e),
            None => None,
        }
    }

    /// The fixture entities attached to body entity `b`, if `b` is a live body.
    pub fn fixtures_attached_to(&self, b: u64) -> (r: Option<&Vec<u64>>)
        requires
            self.wf(),
        ensures
            r.is_some() == self.bodies().contains_key(b),
            r.is_some() ==> r.unwrap()@.no_duplicates() && r.unwrap()@.to_set()
                == self.fixtures_of(b),
    {
        let r = self.body_to_fixtures.get(&b);
        proof {
            if r.is_some() {
                let v = self.body_to_fixtures@[b]@;
                assert forall|f: u64| v.to_set().contains(f) <==> self.fixtures_of(b).contains(
                    f,
                ) by {
                    if v.to_set().contains(f) {
                        let i = choose|i: int| 0 <= i < v.len() && v[i] == f;
                        assert(v[i] == self.body_to_fixtures@[b]@[i]);
                    }
                }
                assert(v.to_set() =~= self.fixtures_of(b));
            }
        }
        r
    }

    /// Registers body entity `e` under native handle `h`.
    pub fn create_body(&mut self, e: u64, h: u64) -> (r: Result<(), RegistryError>)
        requires
            old(self).wf(),
        ensures
            final(self).wf(),
            r == (if old(self).bodies().contains_key(e) {
                Err(RegistryError::AlreadyRegistered)
            } else if holds_handle(old(self).bodies(), h) {
                Err(RegistryError::HandleInUse)
            } else {
                Ok(())
            }),
            r is Ok ==> final(self).bodies() == old(self).bodies().insert(e, h),
            r is Err ==> final(self).bodies() == old(self).bodies(),
            final(self).fixtures() == old(self).fixtures(),
            final(self).fixture_body() == old(self).fixture_body(),
            final(self).joints() == old(self).joints(),
            final(self).particle_systems() == old(self).particle_systems(),
    {
        if self.body_ptrs.contains_key(&e) {
            return Err(RegistryError::AlreadyRegistered);
        }
        if self.body_entities.contains_key(&h) {
            return Err(RegistryError::HandleInUse);
        }
        proof {
            assert forall|x: u64| #[trigger]
                old(self).body_ptrs@.contains_key(x) implies old(self).body_ptrs@[x] != h by {
                assert(old(self).body_entities@.contains_key(old(self).body_ptrs@[x]));
            }
        }
        self.body_ptrs.insert(e, h);
        self.body_entities.insert(h, e);
        self.body_to_fixtures.insert(e, Vec::new());
        proof {
            assert forall|f: u64| #[trigger]
                self.fixture_to_body@.contains_key(f) implies self.body_to_fixtures@[
                self.fixture_to_body@[f]]@.contains(f) by {
                assert(self.fixture_to_body@[f] != e);
            }
        }
        Ok(())
    }

    /// Registers fixture entity `f`, attached to body entity `b`, under native
    /// fixture handle `h`.
    pub fn create_fixture(&mut self, f: u64, b: u64, h: u64) -> (r: Result<(), RegistryError>)
        requires
            old(self).wf(),
        ensures
            final(self).wf(),
            r == (if !old(self).bodies().contains_key(b) {
                Err(RegistryError::BodyNotRegistered)
            } else if old(self).fixtures().contains_key(f) {
                Err(RegistryError::AlreadyRegistered)
            } else if holds_handle(old(self).fixtures(), h) {
                Err(RegistryError::HandleInUse)
            } else {
                Ok(())
            }),
            r is Ok ==> final(self).fixtures() == old(self).fixtures().insert(f, h)
                && final(self).fixture_body() == old(self).fixture_body().insert(f, b),
            r is Err ==> final(self).fixtures() == old(self).fixtures() && final(self).fixture_body()
                == old(self).fixture_body(),
            final(self).bodies() == old(self).bodies(),
            final(self).joints() == old(self).joints(),
            final(self).particle_systems() == old(self).particle_systems(),
    {
        if !self.body_ptrs.contains_key(&b) {
            return Err(RegistryError::BodyNotRegistered);
        }
        if self.fixture_ptrs.contains_key(&f) {
            return Err(RegistryError::AlreadyRegistered);
        }
        if self.fixture_entities.contains_key(&h) {
            return Err(RegistryError::HandleInUse);
        }
        proof {
            assert forall|x: u64| #[trigger]
                old(self).fixture_ptrs@.contains_key(x) implies old(self).fixture_ptrs@[x] != h by {
                assert(old(self).fixture_entities@.contains_key(old(self).fixture_ptrs@[x]));
            }
        }
        let mut attached = match self.body_to_fixtures.remove(&b) {
            Some(v) => v,
            None => Vec::new(),
        };
        let ghost before = attached@;
        proof {
            assert(before == old(self).body_to_fixtures@[b]@);
            assert(!before.contains(f)) by {
                if before.contains(f) {
                    let i = choose|i: int| 0 <= i < before.len() && before[i] == f;
                    assert(old(self).body_to_fixtures@[b]@[i] == f);
                }
            }
        }
        attached.push(f);
        self.body_to_fixtures.insert(b, attached);
        self.fixture_ptrs.insert(f, h);
        self.fixture_entities.insert(h, f);
        self.fixture_to_body.insert(f, b);
        proof {
            let new_list = self.body_to_fixtures@[b]@;
            assert(new_list == before.push(f));
            assert forall|c: u64, i: int|
                #![trigger self.body_to_fixtures@[c]@[i]]
                self.body_to_fixtures@.contains_key(c) && 0 <= i
                    < self.body_to_fixtures@[c]@.len() implies self.fixture_to_body@.contains_key(
                self.body_to_fixtures@[c]@[i],
            ) && self.fixture_to_body@[self.body_to_fixtures@[c]@[i]] == c by {
                if c == b {
                    if i < before.len() {
                        assert(old(self).body_to_fixtures@[b]@[i] == before[i]);
                    }
                } else {
                    assert(old(self).body_to_fixtures@[c]@[i] == self.body_to_fixtures@[c]@[i]);
                }
            }
            assert forall|x: u64| #[trigger]
                self.fixture_to_body@.contains_key(x) implies self.body_to_fixtures@[
                self.fixture_to_body@[x]]@.contains(x) by {
                if x != f {
                    let c = old(self).fixture_to_body@[x];
                    assert(old(self).body_to_fixtures@[c]@.contains(x));
                    if c == b {
                        let i = choose|i: int| 0 <= i < before.len() && before[i] == x;
                        assert(new_list[i] == x);
                    }
                } else {
                    assert(new_list[before.len() as int] == f);
                }
            }
            assert forall|c: u64| #[trigger]
                self.body_to_fixtures@.contains_key(c) implies self.body_to_fixtures@[
                c]@.no_duplicates() by {
                if c == b {
                    assert forall|i: int, j: int|
                        0 <= i < new_list.len() && 0 <= j < new_list.len() && i != j implies new_list[i]
                        != new_list[j] by {
                        if i < before.len() {
                            assert(old(self).body_to_fixtures@[b]@[i] == before[i]);
                        }
                        if j < before.len() {
                            assert(old(self).body_to_fixtures@[b]@[j] == before[j]);
                        }
                    }
                }
            }
        }
        Ok(())
    }

    /// Takes fixture entity `f` out of the registry. A fixture that is not
    /// registered (its body went first and took it along) is no error: nothing
    /// changes and nothing is returned.
    pub fn destroy_fixture(&mut self, f: u64) -> (r: Option<RemovedFixture>)
        requires
            old(self).wf(),
        ensures
            final(self).wf(),
            r is None <==> !old(self).fixtures().contains_key(f),
            r is None ==> final(self).fixtures() == old(self).fixtures() && final(self).fixture_body()
                == old(self).fixture_body(),
            r is Some ==> {
                &&& r.unwrap().fixture_handle == old(self).fixtures()[f]
                &&& r.unwrap().body_handle == old(self).bodies()[old(self).fixture_body()[f]]
                &&& final(self).fixtures() == old(self).fixtures().remove(f)
                &&& final(self).fixture_body() == old(self).fixture_body().remove(f)
            },
            final(self).bodies() == old(self).bodies(),
            final(self).joints() == old(self).joints(),
            final(self).particle_systems() == old(self).particle_systems(),
    {
        if !self.fixture_ptrs.contains_key(&f) {
            return None;
        }
        let h = *self.fixture_ptrs.get(&f).unwrap();
        let b = *self.fixture_to_body.get(&f).unwrap();
        let body_handle = *self.body_ptrs.get(&b).unwrap();
        proof {
            lemma_inverse_remove(self.fixture_ptrs@, self.fixture_entities@, f);
        }
        self.fixture_ptrs.remove(&f);
        self.fixture_entities.remove(&h);
        self.fixture_to_body.remove(&f);
        let mut attached = self.body_to_fixtures.remove(&b).unwrap();
        let ghost before = attached@;
        assert(before == old(self).body_to_fixtures@[b]@);
        let mut i: usize = 0;
        while i < attached.len() && attached[i] != f
            invariant
                attached@ == before,
                0 <= i <= attached.len(),
                forall|k: int| 0 <= k < i ==> attached@[k] != f,
            decreases attached.len() - i,
        {
            i = i + 1;
        }
        proof {
            assert(before.contains(f));
            if i == attached.len() {
                let k = choose|k: int| 0 <= k < before.len() && before[k] == f;
                assert(false);
            }
        }
        attached.remove(i);
        let ghost after = attached@;
        self.body_to_fixtures.insert(b, attached);
        proof {
            assert(after == before.remove(i as int));
            assert forall|c: u64, k: int|
                #![trigger self.body_to_fixtures@[c]@[k]]
                self.body_to_fixtures@.contains_key(c) && 0 <= k
                    < self.body_to_fixtures@[c]@.len() implies self.fixture_to_body@.contains_key(
                self.body_to_fixtures@[c]@[k],
            ) && self.fixture_to_body@[self.body_to_fixtures@[c]@[k]] == c by {
                if c == b {
                    if k < i {
                        assert(old(self).body_to_fixtures@[b]@[k] == after[k]);
                        assert(before[k] != before[i as int]);
                    } else {
                        assert(old(self).body_to_fixtures@[b]@[k + 1] == after[k]);
                        assert(before[k + 1] != before[i as int]);
                    }
                } else {
                    assert(old(self).body_to_fixtures@[c]@[k] == self.body_to_fixtures@[c]@[k]);
                }
            }
            assert forall|x: u64| #[trigger]
                self.fixture_to_body@.contains_key(x) implies self.body_to_fixtures@[
                self.fixture_to_body@[x]]@.contains(x) by {
                let c = old(self).fixture_to_body@[x];
                assert(old(self).body_to_fixtures@[c]@.contains(x));
                if c == b {
                    let k = choose|k: int| 0 <= k < before.len() && before[k] == x;
                    assert(k != i);
                    if k < i {
                        assert(after[k] == x);
                    } else {
                        assert(after[k - 1] == x);
                    }
                }
            }
            assert forall|c: u64| #[trigger]
                self.body_to_fixtures@.contains_key(c) implies self.body_to_fixtures@[
                c]@.no_duplicates() by {
                if c == b {
                    assert forall|p: int, q: int|
                        0 <= p < after.len() && 0 <= q < after.len() && p != q implies after[p]
                        != after[q] by {
                        let p_old = if p < i { p } else { p + 1 };
                        let q_old = if q < i { q } else { q + 1 };
                        assert(after[p] == before[p_old]);
                        assert(after[q] == before[q_old]);
                    }
                }
            }
        }
        Some(RemovedFixture { fixture_handle: h, body_handle })
    }

    /// Takes body entity `e` out of the registry together with every fixture
    /// attached to it. The native side destroys those fixtures with the body,
    /// so only the body's handle is handed back for destruction.
    pub fn destroy_body(&mut self, e: u64) -> (r: Result<DestroyedBody, RegistryError>)
        requires
            old(self).wf(),
        ensures
            final(self).wf(),
            r is Err <==> !old(self).bodies().contains_key(e),
            r is Err ==> {
                &&& r == Err::<DestroyedBody, RegistryError>(RegistryError::NotRegistered)
                &&& final(self).bodies() == old(self).bodies()
                &&& final(self).fixtures() == old(self).fixtures()
                &&& final(self).fixture_body() == old(self).fixture_body()
            },
            r is Ok ==> {
                let d = r.unwrap();
                &&& d.handle == old(self).bodies()[e]
                &&& d.fixtures@.no_duplicates()
                &&& d.fixtures@.to_set() == old(self).fixtures_of(e)
                &&& old(self).body_destroyed(final(self), e)
            },
            final(self).joints() == old(self).joints(),
            final(self).particle_systems() == old(self).particle_systems(),
    {
        if !self.body_ptrs.contains_key(&e) {
            return Err(RegistryError::NotRegistered);
        }
        let h = *self.body_ptrs.get(&e).unwrap();
        proof {
            lemma_inverse_remove(self.body_ptrs@, self.body_entities@, e);
        }
        self.body_ptrs.remove(&e);
        self.body_entities.remove(&h);
        let fixtures = self.body_to_fixtures.remove(&e).unwrap();
        let ghost list = fixtures@;
        let ghost attached = old(self).fixtures_of(e);
        proof {
            assert(list == old(self).body_to_fixtures@[e]@);
            assert forall|x: u64| list.to_set().contains(x) <==> attached.contains(x) by {
                if list.to_set().contains(x) {
                    let k = choose|k: int| 0 <= k < list.len() && list[k] == x;
                    assert(old(self).body_to_fixtures@[e]@[k] == x);
                }
                if attached.contains(x) {
                    assert(old(self).body_to_fixtures@[e]@.contains(x));
                }
            }
            assert(list.to_set() =~= attached);
            assert(old(self).fixture_ptrs@.remove_keys(prefix_set(list, 0))
                =~= old(self).fixture_ptrs@);
            assert(old(self).fixture_to_body@.remove_keys(prefix_set(list, 0))
                =~= old(self).fixture_to_body@);
        }
        let mut i: usize = 0;
        while i < fixtures.len()
            invariant
                fixtures@ == list,
                old(self).body_to_fixtures@.contains_key(e),
                list == old(self).body_to_fixtures@[e]@,
                list.no_duplicates(),
                old(self).wf(),
                0 <= i <= fixtures.len(),
                self.body_ptrs@ == old(self).body_ptrs@.remove(e),
                self.body_to_fixtures@ == old(self).body_to_fixtures@.remove(e),
                inverse_of(self.body_ptrs@, self.body_entities@),
                self.joint_entities@ == old(self).joint_entities@,
                self.particle_system_entities@ == old(self).particle_system_entities@,
                self.fixture_ptrs@ == old(self).fixture_ptrs@.remove_keys(
                    prefix_set(list, i as int),
                ),
                self.fixture_to_body@ == old(self).fixture_to_body@.remove_keys(
                    prefix_set(list, i as int),
                ),
                inverse_of(self.fixture_ptrs@, self.fixture_entities@),
                self.joint_ptrs@ == old(self).joint_ptrs@,
                self.particle_system_ptrs@ == old(self).particle_system_ptrs@,
            decreases fixtures.len() - i,
        {
            let f = fixtures[i];
            let ghost done = prefix_set(list, i as int);
            let ghost done2 = prefix_set(list, i as int + 1);
            proof {
                assert(old(self).body_to_fixtures@[e]@[i as int] == f);
                assert(!done.contains(f)) by {
                    if done.contains(f) {
                        let k = choose|k: int| 0 <= k < i && #[trigger] list[k] == f;
                    }
                }
                assert(done2 =~= done.insert(f)) by {
                    assert forall|x: u64| done2.contains(x) <==> done.insert(f).contains(x) by {
                        if done2.contains(x) {
                            let k = choose|k: int| 0 <= k < i + 1 && #[trigger] list[k] == x;
                            if k < i {
                                assert(list[k] == x);
                            }
                        }
                        if done.contains(x) {
                            let k = choose|k: int| 0 <= k < i && #[trigger] list[k] == x;
                            assert(list[k] == x);
                        }
                        if x == f {
                            assert(list[i as int] == x);
                        }
                    }
                }
                assert(self.fixture_ptrs@.contains_key(f));
            }
            let fh = *self.fixture_ptrs.get(&f).unwrap();
            proof {
                lemma_inverse_remove(self.fixture_ptrs@, self.fixture_entities@, f);
            }
            self.fixture_ptrs.remove(&f);
            self.fixture_entities.remove(&fh);
            self.fixture_to_body.remove(&f);
            proof {
                assert(self.fixture_ptrs@ =~= old(self).fixture_ptrs@.remove_keys(done2));
                assert(self.fixture_to_body@ =~= old(self).fixture_to_body@.remove_keys(done2));
            }
            i = i + 1;
        }
        proof {
            assert(prefix_set(list, list.len() as int) =~= attached) by {
                assert forall|x: u64| prefix_set(list, list.len() as int).contains(x) <==> list.to_set().contains(x) by {
                    if list.to_set().contains(x) {
                        let k = choose|k: int| 0 <= k < list.len() && list[k] == x;
                        assert(list[k] == x);
                    }
                }
            }
            assert forall|x: u64| #[trigger]
                self.fixture_to_body@.contains_key(x) implies self.body_ptrs@.contains_key(
                self.fixture_to_body@[x],
            ) && self.body_to_fixtures@[self.fixture_to_body@[x]]@.contains(x) by {
                assert(!attached.contains(x));
                assert(old(self).body_to_fixtures@[old(self).fixture_to_body@[x]]@.contains(x));
            }
            assert forall|c: u64, k: int|
                #![trigger self.body_to_fixtures@[c]@[k]]
                self.body_to_fixtures@.contains_key(c) && 0 <= k
                    < self.body_to_fixtures@[c]@.len() implies self.fixture_to_body@.contains_key(
                self.body_to_fixtures@[c]@[k],
            ) && self.fixture_to_body@[self.body_to_fixtures@[c]@[k]] == c by {
                let x = old(self).body_to_fixtures@[c]@[k];
                assert(old(self).fixture_to_body@[x] == c);
                assert(!attached.contains(x));
            }
            assert forall|c: u64| #[trigger]
                self.body_to_fixtures@.contains_key(c) implies self.body_to_fixtures@[
                c]@.no_duplicates() by {
                assert(old(self).body_to_fixtures@.contains_key(c));
            }
        }
        Ok(DestroyedBody { handle: h, fixtures })
    }

    /// Registers joint entity `j`, connecting body entities `a` and `b`, under
    /// the tagged native handle `ptr`. Both bodies must already be registered.
    pub fn register_joint(&mut self, j: u64, a: u64, b: u64, ptr: JointPtr) -> (r: Result<
        (),
        RegistryError,
    >)
        requires
            old(self).wf(),
        ensures
            final(self).wf(),
            r == (if !old(self).bodies().contains_key(a) || !old(self).bodies().contains_key(b) {
                Err(RegistryError::BodyNotRegistered)
            } else if old(self).joints().contains_key(j) {
                Err(RegistryError::AlreadyRegistered)
            } else if ptr.spec_handle() is Some && holds_handle(
                old(self).joint_handles(),
                ptr.spec_handle().unwrap(),
            ) {
                Err(RegistryError::HandleInUse)
            } else {
                Ok(())
            }),
            r is Ok ==> final(self).joints() == old(self).joints().insert(j, ptr),
            r is Err ==> final(self).joints() == old(self).joints(),
            final(self).bodies() == old(self).bodies(),
            final(self).fixtures() == old(self).fixtures(),
            final(self).fixture_body() == old(self).fixture_body(),
            final(self).particle_systems() == old(self).particle_systems(),
    {
        if !self.body_ptrs.contains_key(&a) || !self.body_ptrs.contains_key(&b) {
            return Err(RegistryError::BodyNotRegistered);
        }
        if self.joint_ptrs.contains_key(&j) {
            return Err(RegistryError::AlreadyRegistered);
        }
        let handle = match ptr {
            JointPtr::Revolute(h) => Some(h),
            JointPtr::Prismatic(h) => Some(h),
            _ => None,
        };
        assert(handle == ptr.spec_handle());
        if let Some(h) = handle {
            if self.joint_entities.contains_key(&h) {
                return Err(RegistryError::HandleInUse);
            }
            proof {
                assert forall|x: u64| #[trigger]
                    old(self).joint_handles().contains_key(x) implies old(self).joint_handles()[x]
                    != h by {
                    assert(old(self).joint_entities@.contains_key(old(self).joint_handles()[x]));
                }
            }
            self.joint_entities.insert(h, j);
        }
        self.joint_ptrs.insert(j, ptr);
        proof {
            let jh = self.joint_handles();
            let ojh = old(self).joint_handles();
            if let Some(h) = handle {
                assert(jh =~= ojh.insert(j, h));
            } else {
                assert(jh =~= ojh);
            }
        }
        Ok(())
    }

    /// Registers particle system entity `e` under native handle `h`.
    pub fn create_particle_system(&mut self, e: u64, h: u64) -> (r: Result<(), RegistryError>)
        requires
            old(self).wf(),
        ensures
            final(self).wf(),
            r == (if old(self).particle_systems().contains_key(e) {
                Err(RegistryError::AlreadyRegistered)
            } else if holds_handle(old(self).particle_systems(), h) {
                Err(RegistryError::HandleInUse)
            } else {
                Ok(())
            }),
            r is Ok ==> final(self).particle_systems() == old(self).particle_systems().insert(e, h),
            r is Err ==> final(self).particle_systems() == old(self).particle_systems(),
            final(self).bodies() == old(self).bodies(),
            final(self).fixtures() == old(self).fixtures(),
            final(self).fixture_body() == old(self).fixture_body(),
            final(self).joints() == old(self).joints(),
    {
        if self.particle_system_ptrs.contains_key(&e) {
            return Err(RegistryError::AlreadyRegistered);
        }
        if self.particle_system_entities.contains_key(&h) {
            return Err(RegistryError::HandleInUse);
        }
        proof {
            assert forall|x: u64| #[trigger]
                old(self).particle_system_ptrs@.contains_key(x) implies old(
                self,
            ).particle_system_ptrs@[x] != h by {
                assert(old(self).particle_system_entities@.contains_key(
                    old(self).particle_system_ptrs@[x],
                ));
            }
        }
        self.particle_system_ptrs.insert(e, h);
        self.particle_system_entities.insert(h, e);
        Ok(())
    }
}

} // verus!
