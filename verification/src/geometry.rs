//! Vectors and partial transforms in fixed-point coordinates.
//!
//! Vectors are the plain interchange types of `mint`, with integer
//! components: micrometres for positions, millionths for scale factors.
use vstd::prelude::*;
use vstd::std_specs::cmp::PartialEqSpecImpl;
use mint::{Quaternion, Vector2, Vector3};

verus! {

/// `mint::Vector2`, a plain pair of public components `x` and `y`.
#[verifier::external_type_specification]
#[verifier::reject_recursive_types(T)]
pub struct ExVector2<T>(Vector2<T>);

/// `mint::Vector3`, a plain triple of public components `x`, `y` and `z`.
#[verifier::external_type_specification]
#[verifier::reject_recursive_types(T)]
pub struct ExVector3<T>(Vector3<T>);

/// `mint::Quaternion`, a vector part `v` and a scalar part `s`, both public.
#[verifier::external_type_specification]
#[verifier::reject_recursive_types(T)]
pub struct ExQuaternion<T>(Quaternion<T>);

/// Number of millionths in one, as a signed component.
pub const ONE: i64 = 1_000_000;

/// Whether two vectors have the same components.
pub fn same_vector(a: &Vector3<i64>, b: &Vector3<i64>) -> (r: bool)
    ensures
        r == (*a == *b),
{
    a.x == b.x && a.y == b.y && a.z == b.z
}

/// Whether two rotations have the same components.
pub fn same_rotation(a: &Quaternion<i64>, b: &Quaternion<i64>) -> (r: bool)
    ensures
        r == (*a == *b),
{
    a.s == b.s && same_vector(&a.v, &b.v)
}

/// Whether two optional vectors are both absent or both present and equal.
pub fn same_optional_vector(a: &Option<Vector3<i64>>, b: &Option<Vector3<i64>>) -> (r: bool)
    ensures
        r == (*a == *b),
{
    match (a, b) {
        (None, None) => true,
        (Some(p), Some(q)) => same_vector(p, q),
        _ => false,
    }
}

/// Whether two optional rotations are both absent or both present and equal.
pub fn same_optional_rotation(a: &Option<Quaternion<i64>>, b: &Option<Quaternion<i64>>) -> (r:
    bool)
    ensures
        r == (*a == *b),
{
    match (a, b) {
        (None, None) => true,
        (Some(p), Some(q)) => same_rotation(p, q),
        _ => false,
    }
}

/// A partial transform: each part that is present replaces that part of a
/// node's transform, each part that is absent leaves it as it is.
#[derive(Clone, Copy, Debug)]
pub struct Transform {
    /// Position in micrometres.
    pub position: Option<Vector3<i64>>,
    /// Rotation, components in millionths.
    pub rotation: Option<Quaternion<i64>>,
    /// Scale factors in millionths.
    pub scale: Option<Vector3<i64>>,
}

impl Transform {
    /// The transform that changes nothing.
    pub fn none() -> (r: Transform)
        ensures
            r == (Transform { position: None, rotation: None, scale: None }),
    {
        Transform { position: None, rotation: None, scale: None }
    }

    /// The transform that sets the scale alone.
    pub fn from_scale(scale: Vector3<i64>) -> (r: Transform)
        ensures
            r == (Transform { position: None, rotation: None, scale: Some(scale) }),
    {
        Transform { position: None, rotation: None, scale: Some(scale) }
    }

    /// The transform that sets position and scale and leaves the rotation.
    pub fn from_position_scale(position: Vector3<i64>, scale: Vector3<i64>) -> (r:
        Transform)
        ensures
            r == (Transform {
                position: Some(position),
                rotation: None,
                scale: Some(scale),
            }),
    {
        Transform { position: Some(position), rotation: None, scale: Some(scale) }
    }

    /// What a node's transform `self` becomes when `update` is applied to it.
    pub open spec fn updated(self, update: Transform) -> Transform {
        Transform {
            position: if update.position.is_some() {
                update.position
            } else {
                self.position
            },
            rotation: if update.rotation.is_some() {
                update.rotation
            } else {
                self.rotation
            },
            scale: if update.scale.is_some() {
                update.scale
            } else {
                self.scale
            },
        }
    }

    /// Applies `update` to this transform, part by part.
    pub fn apply(&mut self, update: &Transform)
        ensures
            *final(self) == old(self).updated(*update),
    {
        if update.position.is_some() {
            self.position = update.position;
        }
        if update.rotation.is_some() {
            self.rotation = update.rotation;
        }
        if update.scale.is_some() {
            self.scale = update.scale;
        }
    }
}

impl PartialEq for Transform {
    fn eq(&self, other: &Self) -> (r: bool) {
        same_optional_vector(&self.position, &other.position) && same_optional_rotation(
            &self.rotation,
            &other.rotation,
        ) && same_optional_vector(&self.scale, &other.scale)
    }
}

impl PartialEqSpecImpl for Transform {
    open spec fn obeys_eq_spec() -> bool {
        true
    }

    open spec fn eq_spec(&self, other: &Self) -> bool {
        *self == *other
    }
}

} // verus!
