//! Rigid bodies.
//!
//! A body here is the owner of one body of the kernel, which it names by the
//! address the kernel gave it. What the kernel keeps of the body (mass,
//! position, velocity and the rest) stays with the kernel; this crate decides
//! who holds the body and how long it lives.

use vstd::prelude::*;
use crate::handle::{Arena, Handle};
use crate::cell::{AccessError, CellState};

verus! {

/// How a body takes part in the simulation.
#[derive(Clone, Copy, Debug, PartialEq, Eq, Structural)]
pub enum BodyKind {
    /// Moved by forces and collisions, according to its mass and moment.
    Dynamic,
    /// Of infinite mass, moved by its velocity alone.
    Kinematic,
    /// Not moved at all.
    Static,
}

/// A rigid body: the one owner of a body of the kernel. It cannot be copied;
/// when it leaves its arena, the kernel's body is to be destroyed.
#[derive(Debug, PartialEq, Eq)]
pub struct Body {
    /// The address of the kernel's body, which is the body's identity. This
    /// crate compares it and hands it on, and never looks behind it.
    pub native: usize,
    /// How the body takes part in the simulation.
    pub kind: BodyKind,
}

/// A handle to a body.
pub type BodyHandle = Handle<Body>;

impl Body {
    /// The owner of the dynamic body that the kernel made at `native`.
    pub fn new(native: usize) -> (body: Body)
        ensures
            body == (Body { native, kind: BodyKind::Dynamic }),
    {
        Body { native, kind: BodyKind::Dynamic }
    }

    /// The owner of the kinematic body that the kernel made at `native`.
    pub fn new_kinematic(native: usize) -> (body: Body)
        ensures
            body == (Body { native, kind: BodyKind::Kinematic }),
    {
        Body { native, kind: BodyKind::Kinematic }
    }

    /// The owner of the static body that the kernel made at `native`.
    pub fn new_static(native: usize) -> (body: Body)
        ensures
            body == (Body { native, kind: BodyKind::Static }),
    {
        Body { native, kind: BodyKind::Static }
    }

    /// The address of the kernel's body, for a call that reads it.
    pub fn as_ptr(&self) -> (native: usize)
        ensures
            native == self.native,
    {
        self.native
    }

    /// The address of the kernel's body, for a call that changes it.
    pub fn as_mut_ptr(&mut self) -> (native: usize)
        ensures
            native == old(self).native,
            *final(self) == *old(self),
    {
        self.native
    }
}

impl Handle<Body> {
    /// Wraps the owner of the dynamic body that the kernel made at `native`.
    pub fn new(bodies: &mut Arena<Body>, native: usize) -> (handle: BodyHandle)
        requires
            old(bodies).wf(),
        ensures
            final(bodies).wf(),
            handle.id() == old(bodies)@.len(),
            final(bodies)@ == old(bodies)@.push(
                CellState::fresh(Body { native, kind: BodyKind::Dynamic }),
            ),
    {
        Handle::wrap(bodies, Body::new(native))
    }

    /// Wraps the owner of the kinematic body that the kernel made at `native`.
    pub fn new_kinematic(bodies: &mut Arena<Body>, native: usize) -> (handle: BodyHandle)
        requires
            old(bodies).wf(),
        ensures
            final(bodies).wf(),
            handle.id() == old(bodies)@.len(),
            final(bodies)@ == old(bodies)@.push(
                CellState::fresh(Body { native, kind: BodyKind::Kinematic }),
            ),
    {
        Handle::wrap(bodies, Body::new_kinematic(native))
    }

    /// Wraps the owner of the static body that the kernel made at `native`.
    pub fn new_static(bodies: &mut Arena<Body>, native: usize) -> (handle: BodyHandle)
        requires
            old(bodies).wf(),
        ensures
            final(bodies).wf(),
            handle.id() == old(bodies)@.len(),
            final(bodies)@ == old(bodies)@.push(
                CellState::fresh(Body { native, kind: BodyKind::Static }),
            ),
    {
        Handle::wrap(bodies, Body::new_static(native))
    }

    /// The address of the kernel's body, as one learns it who holds the write
    /// view for a moment: the view is taken, the address read, the view given
    /// back, and the arena is as before.
    pub fn write_native(&mut self, bodies: &mut Arena<Body>) -> (result: Result<
        usize,
        AccessError,
    >)
        requires
            old(bodies).wf(),
        ensures
            final(bodies).wf(),
            final(bodies)@ == old(bodies)@,
            final(self).id() == old(self).id(),
            result == match old(bodies).cell(old(self).id()).write_refusal() {
                Some(e) => Err::<usize, AccessError>(e),
                None => Ok(old(bodies).cell(old(self).id()).payload->0.native),
            },
    {
        match self.borrow_mut(bodies) {
            Err(e) => Err(e),
            Ok(view) => {
                let native = match view.get(bodies) {
                    Some(body) => body.as_ptr(),
                    None => 0,
                };
                view.end(bodies);
                assert(bodies@ =~= old(bodies)@);
                Ok(native)
            },
        }
    }
}

} // verus!
