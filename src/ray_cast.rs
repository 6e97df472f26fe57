//! Ray casts: how the engine's per-fixture reports are filtered and gathered.
//!
//! The engine walks the fixtures that a segment crosses and reports each one
//! with the fraction along the segment where it was hit. For every report the
//! callback answers how the walk goes on: ignore this fixture, stop, clip the
//! segment at this hit, or go on unclipped. A filter is asked first; a fixture
//! it rejects is ignored and does not clip the segment.
use std::collections::HashSet;
use vstd::prelude::*;

use crate::contacts::RawVec2;

verus! {

broadcast use vstd::std_specs::hash::group_hash_axioms;

/// How the engine should go on after a report. The engine reads these as the
/// numbers -1 (`Discard`), 0 (`Terminate`), the reported fraction (`Clip`) and
/// 1 (`Continue`).
#[derive(Debug, Clone, Copy, PartialEq, Eq, Structural)]
pub enum RayControl {
    /// Ignore this fixture and go on as before.
    Discard,
    /// Stop the ray cast now.
    Terminate,
    /// Go on, with the segment clipped at this hit.
    Clip,
    /// Go on with the segment as it is.
    Continue,
}

/// One fixture that a ray hit, with the world point and normal of the hit.
#[allow(non_camel_case_types)]
#[derive(Debug, Clone, Copy, PartialEq, Eq, Structural)]
pub struct b2RayCastHit {
    pub body_entity: u64,
    pub fixture_entity: u64,
    pub point: RawVec2,
    pub normal: RawVec2,
}

/// A policy that gathers the hits of one ray cast.
#[allow(non_camel_case_types)]
pub trait b2RayCastCallback: Sized {
    type Result;

    /// `after` is `self` once `hit` was reported to it and it answered `r`.
    spec fn reported(&self, hit: b2RayCastHit, after: &Self, r: RayControl) -> bool;

    /// Takes one hit and says how the ray cast goes on.
    fn report_fixture(&mut self, hit: b2RayCastHit) -> (r: RayControl)
        ensures
            old(self).reported(hit, final(self), r),
    ;

    /// What the policy has gathered so far.
    spec fn gathered(&self) -> Self::Result;

    /// What the policy gathered.
    fn into_result(self) -> (r: Self::Result)
        ensures
            r == self.gathered(),
    ;
}

/// Keeps the last hit reported and clips the segment at each one, so the
/// engine reports only nearer fixtures after it: the hit kept is the nearest.
#[allow(non_camel_case_types)]
#[derive(Debug)]
pub struct b2RayCastClosest {
    result: Option<b2RayCastHit>,
}

impl b2RayCastClosest {
    pub closed spec fn spec_result(&self) -> Option<b2RayCastHit> {
        self.result
    }

    pub fn new() -> (r: Self)
        ensures
            r.spec_result() is None,
    {
        b2RayCastClosest { result: None }
    }
}

impl b2RayCastCallback for b2RayCastClosest {
    type Result = Option<b2RayCastHit>;

    open spec fn gathered(&self) -> Option<b2RayCastHit> {
        self.spec_result()
    }

    open spec fn reported(&self, hit: b2RayCastHit, after: &Self, r: RayControl) -> bool {
        r == RayControl::Clip && after.spec_result() == Some(hit)
    }

    fn report_fixture(&mut self, hit: b2RayCastHit) -> (r: RayControl)
        ensures
            r == RayControl::Clip,
            final(self).spec_result() == Some(hit),
    {
        self.result = Some(hit);
        RayControl::Clip
    }

    fn into_result(self) -> (r: Option<b2RayCastHit>)
        ensures
            r == self.spec_result(),
    {
        self.result
    }
}

/// Keeps the first hit reported and stops the ray cast there.
#[allow(non_camel_case_types)]
#[derive(Debug)]
pub struct b2RayCastAny {
    result: Option<b2RayCastHit>,
}

impl b2RayCastAny {
    pub closed spec fn spec_result(&self) -> Option<b2RayCastHit> {
        self.result
    }

    pub fn new() -> (r: Self)
        ensures
            r.spec_result() is None,
    {
        b2RayCastAny { result: None }
    }
}

impl b2RayCastCallback for b2RayCastAny {
    type Result = Option<b2RayCastHit>;

    open spec fn gathered(&self) -> Option<b2RayCastHit> {
        self.spec_result()
    }

    open spec fn reported(&self, hit: b2RayCastHit, after: &Self, r: RayControl) -> bool {
        r == RayControl::Terminate && after.spec_result() == Some(hit)
    }

    fn report_fixture(&mut self, hit: b2RayCastHit) -> (r: RayControl)
        ensures
            r == RayControl::Terminate,
            final(self).spec_result() == Some(hit),
    {
        self.result = Some(hit);
        RayControl::Terminate
    }

    fn into_result(self) -> (r: Option<b2RayCastHit>)
        ensures
            r == self.spec_result(),
    {
        self.result
    }
}

/// Keeps every hit reported, in the order of the reports, and never clips.
#[allow(non_camel_case_types)]
#[derive(Debug)]
pub struct b2RayCastAll {
    result: Vec<b2RayCastHit>,
}

impl b2RayCastAll {
    pub closed spec fn spec_result(&self) -> Seq<b2RayCastHit> {
        self.result@
    }

    pub fn new() -> (r: Self)
        ensures
            r.spec_result() == Seq::<b2RayCastHit>::empty(),
    {
        b2RayCastAll { result: Vec::new() }
    }
}

impl b2RayCastCallback for b2RayCastAll {
    type Result = Vec<b2RayCastHit>;

    closed spec fn gathered(&self) -> Vec<b2RayCastHit> {
        self.result
    }

    open spec fn reported(&self, hit: b2RayCastHit, after: &Self, r: RayControl) -> bool {
        r == RayControl::Continue && after.spec_result() == self.spec_result().push(hit)
    }

    fn report_fixture(&mut self, hit: b2RayCastHit) -> (r: RayControl)
        ensures
            r == RayControl::Continue,
            final(self).spec_result() == old(self).spec_result().push(hit),
    {
        self.result.push(hit);
        RayControl::Continue
    }

    fn into_result(self) -> (r: Vec<b2RayCastHit>)
        ensures
            r@ == self.spec_result(),
    {
        self.result
    }
}

/// Decides which reported fixtures a ray cast may use.
#[allow(non_camel_case_types)]
pub trait b2RayCastFilter {
    /// Whether a fixture of collision category `category`, entity `fixture`,
    /// attached to body entity `body`, may be used.
    spec fn accepts(&self, body: u64, fixture: u64, category: u16) -> bool;

    fn should_use(&self, body: u64, fixture: u64, category: u16) -> (r: bool)
        ensures
            r == self.accepts(body, fixture, category),
    ;
}

/// Uses every fixture.
#[allow(non_camel_case_types)]
#[derive(Debug, Default)]
pub struct b2NoOpFilter {}

impl b2RayCastFilter for b2NoOpFilter {
    open spec fn accepts(&self, body: u64, fixture: u64, category: u16) -> bool {
        true
    }

    fn should_use(&self, body: u64, fixture: u64, category: u16) -> (r: bool) {
        true
    }
}

/// Uses every fixture but those of one body.
#[allow(non_camel_case_types)]
#[derive(Debug)]
pub struct b2ExcludeBodyFilter {
    excluded_body: u64,
}

impl b2ExcludeBodyFilter {
    pub closed spec fn spec_excluded_body(&self) -> u64 {
        self.excluded_body
    }

    pub fn new(excluded_body: u64) -> (r: Self)
        ensures
            r.spec_excluded_body() == excluded_body,
    {
        b2ExcludeBodyFilter { excluded_body }
    }
}

impl b2RayCastFilter for b2ExcludeBodyFilter {
    open spec fn accepts(&self, body: u64, fixture: u64, category: u16) -> bool {
        body != self.spec_excluded_body()
    }

    fn should_use(&self, body: u64, fixture: u64, category: u16) -> (r: bool) {
        body != self.excluded_body
    }
}

/// Uses every fixture but those of a set of bodies.
#[allow(non_camel_case_types)]
#[derive(Debug)]
pub struct b2ExcludeBodiesFilter {
    excluded_bodies: HashSet<u64>,
}

impl b2ExcludeBodiesFilter {
    pub closed spec fn spec_excluded_bodies(&self) -> Set<u64> {
        self.excluded_bodies@
    }

    pub fn new(excluded_bodies: HashSet<u64>) -> (r: Self)
        ensures
            r.spec_excluded_bodies() == excluded_bodies@,
    {
        b2ExcludeBodiesFilter { excluded_bodies }
    }
}

impl b2RayCastFilter for b2ExcludeBodiesFilter {
    open spec fn accepts(&self, body: u64, fixture: u64, category: u16) -> bool {
        !self.spec_excluded_bodies().contains(body)
    }

    fn should_use(&self, body: u64, fixture: u64, category: u16) -> (r: bool) {
        !self.excluded_bodies.contains(&body)
    }
}

/// Uses every fixture but a set of fixtures.
#[allow(non_camel_case_types)]
#[derive(Debug)]
pub struct b2ExcludeFixturesFilter {
    excluded_fixtures: HashSet<u64>,
}

impl b2ExcludeFixturesFilter {
    pub closed spec fn spec_excluded_fixtures(&self) -> Set<u64> {
        self.excluded_fixtures@
    }

    pub fn new(excluded_fixtures: HashSet<u64>) -> (r: Self)
        ensures
            r.spec_excluded_fixtures() == excluded_fixtures@,
    {
        b2ExcludeFixturesFilter { excluded_fixtures }
    }
}

impl b2RayCastFilter for b2ExcludeFixturesFilter {
    open spec fn accepts(&self, body: u64, fixture: u64, category: u16) -> bool {
        !self.spec_excluded_fixtures().contains(fixture)
    }

    fn should_use(&self, body: u64, fixture: u64, category: u16) -> (r: bool) {
        !self.excluded_fixtures.contains(&fixture)
    }
}

/// Uses only fixtures that belong to at least one of the allowed categories.
#[allow(non_camel_case_types)]
#[derive(Debug)]
pub struct b2CategoryFilter {
    allowed_categories: u16,
}

impl b2CategoryFilter {
    pub closed spec fn spec_allowed_categories(&self) -> u16 {
        self.allowed_categories
    }

    pub fn new(allowed_categories: u16) -> (r: Self)
        ensures
            r.spec_allowed_categories() == allowed_categories,
    {
        b2CategoryFilter { allowed_categories }
    }
}

impl b2RayCastFilter for b2CategoryFilter {
    open spec fn accepts(&self, body: u64, fixture: u64, category: u16) -> bool {
        self.spec_allowed_categories() & category != 0
    }

    fn should_use(&self, body: u64, fixture: u64, category: u16) -> (r: bool) {
        self.allowed_categories & category != 0
    }
}

/// One ray cast in progress: a filter in front of a gathering policy.
#[allow(non_camel_case_types)]
#[derive(Debug)]
pub struct b2RayCast<T: b2RayCastCallback, F: b2RayCastFilter> {
    callback: T,
    filter: F,
}

impl<T: b2RayCastCallback, F: b2RayCastFilter> b2RayCast<T, F> {
    pub closed spec fn spec_callback(&self) -> T {
        self.callback
    }

    pub closed spec fn spec_filter(&self) -> F {
        self.filter
    }

    pub fn new(callback: T, filter: F) -> (r: Self)
        ensures
            r.spec_callback() == callback,
            r.spec_filter() == filter,
    {
        b2RayCast { callback, filter }
    }

    /// Handles one report of the engine: a fixture that the filter rejects is
    /// discarded and leaves the policy as it was; any other goes to the policy,
    /// whose answer is handed back.
    pub fn report_fixture(
        &mut self,
        body_entity: u64,
        fixture_entity: u64,
        category: u16,
        point: RawVec2,
        normal: RawVec2,
    ) -> (r: RayControl)
        ensures
            final(self).spec_filter() == old(self).spec_filter(),
            !old(self).spec_filter().accepts(body_entity, fixture_entity, category) ==> r
                == RayControl::Discard && final(self).spec_callback() == old(self).spec_callback(),
            old(self).spec_filter().accepts(body_entity, fixture_entity, category) ==> old(
                self,
            ).spec_callback().reported(
                b2RayCastHit { body_entity, fixture_entity, point, normal },
                &final(self).spec_callback(),
                r,
            ),
    {
        if !self.filter.should_use(body_entity, fixture_entity, category) {
            return RayControl::Discard;
        }
        self.callback.report_fixture(b2RayCastHit { body_entity, fixture_entity, point, normal })
    }

    /// What the policy gathered.
    pub fn extract_hits(self) -> (r: T::Result)
        ensures
            r == self.spec_callback().gathered(),
    {
        self.callback.into_result()
    }
}

} // verus!
