//! Joints: the shared part of every joint and the native handle of each kind.
use vstd::prelude::*;

verus! {

/// The kinds of joint the engine knows. Only revolute and prismatic joints are
/// supported by this crate; the others are listed so that they can be named.
#[allow(non_camel_case_types)]
#[derive(Debug, Clone, Copy, PartialEq, Eq, Structural)]
pub enum b2JointType {
    Revolute,
    Prismatic,
    Distance,
    Pulley,
    Mouse,
    Gear,
    Wheel,
    Weld,
    Friction,
    Rope,
    Motor,
    Area,
}

/// What every joint carries: its kind, the two bodies it connects and whether
/// those two bodies may still collide with each other.
#[allow(non_camel_case_types)]
#[derive(Debug, Clone, Copy)]
pub struct b2Joint {
    joint_type: b2JointType,
    body_a: u64,
    body_b: u64,
    collide_connected: bool,
}

impl b2Joint {
    pub closed spec fn spec_joint_type(&self) -> b2JointType {
        self.joint_type
    }

    pub closed spec fn spec_body_a(&self) -> u64 {
        self.body_a
    }

    pub closed spec fn spec_body_b(&self) -> u64 {
        self.body_b
    }

    pub closed spec fn spec_collide_connected(&self) -> bool {
        self.collide_connected
    }

    pub fn new(joint_type: b2JointType, body_a: u64, body_b: u64, collide_connected: bool) -> (r:
        Self)
        ensures
            r.spec_joint_type() == joint_type,
            r.spec_body_a() == body_a,
            r.spec_body_b() == body_b,
            r.spec_collide_connected() == collide_connected,
    {
        b2Joint { joint_type, body_a, body_b, collide_connected }
    }

    pub fn joint_type(&self) -> (r: &b2JointType)
        ensures
            *r == self.spec_joint_type(),
    {
        &self.joint_type
    }

    pub fn body_a(&self) -> (r: &u64)
        ensures
            *r == self.spec_body_a(),
    {
        &self.body_a
    }

    pub fn body_b(&self) -> (r: &u64)
        ensures
            *r == self.spec_body_b(),
    {
        &self.body_b
    }

    pub fn collide_connected(&self) -> (r: bool)
        ensures
            r == self.spec_collide_connected(),
    {
        self.collide_connected
    }
}

/// The native handle of a registered joint, tagged with its kind. Kinds that
/// this crate does not support carry no handle.
#[derive(Debug, Clone, Copy, PartialEq, Eq, Structural)]
pub enum JointPtr {
    Revolute(u64),
    Prismatic(u64),
    Distance,
    Pulley,
    Mouse,
    Gear,
    Wheel,
    Weld,
    Friction,
    Rope,
    Motor,
    Area,
}

impl JointPtr {
    /// The native handle, for the kinds that have one.
    pub open spec fn spec_handle(self) -> Option<u64> {
        match self {
            JointPtr::Revolute(h) => Some(h),
            JointPtr::Prismatic(h) => Some(h),
            _ => None,
        }
    }

    /// Whether this kind of joint is backed by a live native object.
    pub fn is_supported(&self) -> (r: bool)
        ensures
            r == self.spec_handle().is_some(),
    {
        match self {
            JointPtr::Revolute(_) | JointPtr::Prismatic(_) => true,
            _ => false,
        }
    }
}

} // verus!
