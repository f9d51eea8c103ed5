//! Contact reports.
//!
//! While the kernel steps a space it finds pairs of shapes that touch, and
//! hands each pair to the caller as an arbiter: where the shapes touch, how
//! deep, and with what friction, restitution and surface velocity the kernel
//! is going to resolve the contact. The last three can be set, for this one
//! contact. An arbiter is good for the time of the call that brought it and
//! no longer; it holds what the kernel reported then.

use vstd::prelude::*;
use crate::scalar::{Scalar, Vect};

verus! {

/// The most points of contact that the kernel reports for one pair.
pub const MAX_CONTACTS: u32 = 2;

/// One point of contact.
#[derive(Clone, Copy, Debug, PartialEq, Eq)]
pub struct ContactPoint {
    /// The point on the first shape, in world coordinates.
    pub a: Vect,
    /// The point on the second shape, in world coordinates.
    pub b: Vect,
    /// How far apart the two points are: below zero where the shapes
    /// overlap.
    pub dist: Scalar,
}

/// The points of contact of one pair of shapes.
#[derive(Clone, Copy, Debug, PartialEq, Eq)]
pub struct ContactPointSet {
    /// How many of `points` are points of contact: the first `count`.
    pub count: u32,
    /// The direction of the contact.
    pub normal: Vect,
    pub points: [ContactPoint; 2],
}

/// What an arbiter is at one instant.
pub struct ArbiterView {
    /// The address of the kernel's arbiter.
    pub native: usize,
    pub set: ContactPointSet,
    pub friction: Scalar,
    pub restitution: Scalar,
    pub surface_velocity: Vect,
}

/// The report of one contact.
#[derive(Debug)]
pub struct Arbiter {
    native: usize,
    set: ContactPointSet,
    friction: Scalar,
    restitution: Scalar,
    surface_velocity: Vect,
}

impl View for Arbiter {
    type V = ArbiterView;

    closed spec fn view(&self) -> ArbiterView {
        ArbiterView {
            native: self.native,
            set: self.set,
            friction: self.friction,
            restitution: self.restitution,
            surface_velocity: self.surface_velocity,
        }
    }
}

impl ArbiterView {
    /// The point of contact `i`, if there is one.
    pub open spec fn point(self, i: u32) -> Option<ContactPoint> {
        if i < self.set.count && i < MAX_CONTACTS {
            Some(self.set.points[i as int])
        } else {
            None
        }
    }
}

impl Arbiter {
    #[verifier::type_invariant]
    spec fn inv(self) -> bool {
        self.set.count <= MAX_CONTACTS
    }

    /// The arbiter for what the kernel reports at `native`. A report of more
    /// points of contact than the kernel ever finds for one pair is turned
    /// away.
    pub fn wrap(
        native: usize,
        set: ContactPointSet,
        friction: Scalar,
        restitution: Scalar,
        surface_velocity: Vect,
    ) -> (arbiter: Option<Arbiter>)
        ensures
            arbiter is Some <==> set.count <= MAX_CONTACTS,
            arbiter matches Some(a) ==> a@ == (ArbiterView {
                native,
                set,
                friction,
                restitution,
                surface_velocity,
            }),
    {
        if set.count <= MAX_CONTACTS {
            Some(Arbiter { native, set, friction, restitution, surface_velocity })
        } else {
            None
        }
    }

    /// The address of the kernel's arbiter, for a call that reads it.
    pub fn as_ptr(&self) -> (native: usize)
        ensures
            native == self@.native,
    {
        self.native
    }

    /// The address of the kernel's arbiter, for a call that changes it.
    pub fn as_mut_ptr(&mut self) -> (native: usize)
        ensures
            native == old(self)@.native,
            *final(self) == *old(self),
    {
        self.native
    }

    /// The points of contact. There are two at most.
    pub fn contact_point_set(&self) -> (set: ContactPointSet)
        ensures
            set == self@.set,
            set.count <= MAX_CONTACTS,
    {
        proof {
            use_type_invariant(self);
        }
        self.set
    }

    /// The number of points of contact: two at most.
    pub fn count(&self) -> (count: u32)
        ensures
            count == self@.set.count,
            count <= MAX_CONTACTS,
    {
        proof {
            use_type_invariant(self);
        }
        self.set.count
    }

    /// The direction of the contact.
    pub fn normal(&self) -> (normal: Vect)
        ensures
            normal == self@.set.normal,
    {
        self.set.normal
    }

    fn point(&self, i: u32) -> (point: Option<ContactPoint>)
        ensures
            point == self@.point(i),
    {
        proof {
            use_type_invariant(self);
        }
        if i < self.set.count {
            Some(self.set.points[i as usize])
        } else {
            None
        }
    }

    /// How deep the shapes overlap at the point of contact `i`, counting from
    /// zero, if there is such a point.
    pub fn depth(&self, i: u32) -> (depth: Option<Scalar>)
        ensures
            depth == match self@.point(i) {
                Some(point) => Some(point.dist),
                None => None,
            },
    {
        match self.point(i) {
            Some(point) => Some(point.dist),
            None => None,
        }
    }

    /// The point of contact `i` on the first shape, if there is such a
    /// point.
    pub fn point_a(&self, i: u32) -> (a: Option<Vect>)
        ensures
            a == match self@.point(i) {
                Some(point) => Some(point.a),
                None => None,
            },
    {
        match self.point(i) {
            Some(point) => Some(point.a),
            None => None,
        }
    }

    /// The point of contact `i` on the second shape, if there is such a
    /// point.
    pub fn point_b(&self, i: u32) -> (b: Option<Vect>)
        ensures
            b == match self@.point(i) {
                Some(point) => Some(point.b),
                None => None,
            },
    {
        match self.point(i) {
            Some(point) => Some(point.b),
            None => None,
        }
    }

    /// The friction with which the contact is resolved.
    pub fn friction(&self) -> (friction: Scalar)
        ensures
            friction == self@.friction,
    {
        self.friction
    }

    /// Sets the friction for this contact, in place of what the kernel made
    /// of the two shapes' frictions.
    pub fn set_friction(&mut self, friction: Scalar)
        ensures
            final(self)@ == (ArbiterView { friction, ..old(self)@ }),
    {
        proof {
            use_type_invariant(&*self);
        }
        self.friction = friction;
    }

    /// The restitution with which the contact is resolved.
    pub fn restitution(&self) -> (restitution: Scalar)
        ensures
            restitution == self@.restitution,
    {
        self.restitution
    }

    /// Sets the restitution for this contact, in place of what the kernel
    /// made of the two shapes' elasticities.
    pub fn set_restitution(&mut self, restitution: Scalar)
        ensures
            final(self)@ == (ArbiterView { restitution, ..old(self)@ }),
    {
        proof {
            use_type_invariant(&*self);
        }
        self.restitution = restitution;
    }

    /// The surface velocity with which the contact is resolved.
    pub fn surface_velocity(&self) -> (velocity: Vect)
        ensures
            velocity == self@.surface_velocity,
    {
        self.surface_velocity
    }

    /// Sets the surface velocity for this contact.
    pub fn set_surface_velocity(&mut self, vx: Scalar, vy: Scalar)
        ensures
            final(self)@ == (ArbiterView { surface_velocity: Vect { x: vx, y: vy }, ..old(self)@ }),
    {
        proof {
            use_type_invariant(&*self);
        }
        self.surface_velocity = Vect { x: vx, y: vy };
    }
}

} // verus!
