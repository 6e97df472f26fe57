//! Kinds of rigid body.
use vstd::prelude::*;

verus! {

/// How the engine moves a body: not at all, by its velocity alone, or by the
/// forces on it.
#[allow(non_camel_case_types)]
#[derive(Debug, Clone, Copy, PartialEq, Eq, Structural)]
pub enum b2BodyType {
    Static,
    Kinematic,
    Dynamic,
}

impl Default for b2BodyType {
    /// A body is static unless told otherwise.
    fn default() -> (r: Self)
        ensures
            r == b2BodyType::Static,
    {
        b2BodyType::Static
    }
}

} // verus!
