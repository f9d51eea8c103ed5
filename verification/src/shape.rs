//! Collision shapes.
//!
//! A shape is made for one body, which it refers to weakly: the shape does
//! not keep its body alive, and the body knows nothing of its shapes. There
//! are three kinds of shape (circle, segment, convex polygon), each with its
//! own geometry, and a surface that all kinds have in common.
//!
//! The geometry is fixed when the shape is made. The surface changes only
//! through the setters here, which turn away a friction or an elasticity
//! below zero. What depends on the kernel's arithmetic (area, moment, centre
//! of gravity, the mass that a density gives) stays with the kernel.

use vstd::prelude::*;
use crate::body::{Body, BodyHandle};
use crate::cell::{AccessError, CellState};
use crate::handle::{Arena, Handle, WeakHandle};
use crate::scalar::{Scalar, Vect};

verus! {

/// Why a shape turned a request away.
#[derive(Clone, Copy, Debug, PartialEq, Eq, Structural)]
pub enum ShapeError {
    /// A friction or an elasticity that is below zero, or not a number.
    Negative,
    /// A vertex index at or beyond the number of vertices.
    OutOfRange,
    /// The body of the shape could not be had for the change. With
    /// [`AccessError::Gone`] the body no longer exists: nothing was done, and
    /// the shape is as good as before.
    Owner(AccessError),
}

/// How the mass of a shape was last given.
#[derive(Clone, Copy, Debug, PartialEq, Eq, Structural)]
pub enum MassSetting {
    /// As a mass.
    Mass(Scalar),
    /// As a density, from which the kernel computes the mass by the area.
    Density(Scalar),
}

/// What a shape is made of, by kind.
pub enum Geometry {
    /// A circle around `offset`, in the body's coordinates.
    Circle { radius: Scalar, offset: Vect },
    /// A segment from `a` to `b`, in the body's coordinates, of thickness
    /// `radius`.
    Segment { a: Vect, b: Vect, radius: Scalar },
    /// A polygon with the vertices `verts`, in the body's coordinates, of
    /// thickness `radius`.
    Poly { verts: Seq<Vect>, radius: Scalar },
}

/// What a shape is at one instant.
pub struct ShapeView {
    /// The address of the kernel's shape, which is the shape's identity.
    pub native: usize,
    /// The cell of the body that the shape was made for.
    pub body: nat,
    pub geometry: Geometry,
    pub friction: Scalar,
    pub elasticity: Scalar,
    pub sensor: bool,
    pub surface_velocity: Vect,
    pub mass: MassSetting,
}

impl ShapeView {
    /// A shape as it is when it has just been made: a surface without
    /// friction, elasticity or velocity, that is no sensor, and no mass.
    pub open spec fn fresh(native: usize, body: nat, geometry: Geometry) -> ShapeView {
        ShapeView {
            native,
            body,
            geometry,
            friction: Scalar { bits: 0 },
            elasticity: Scalar { bits: 0 },
            sensor: false,
            surface_velocity: Vect { x: Scalar { bits: 0 }, y: Scalar { bits: 0 } },
            mass: MassSetting::Mass(Scalar { bits: 0 }),
        }
    }
}

/// Why the body in `cell` cannot be had for a change through a weak
/// reference, if it cannot: the reference is upgraded first, which finds
/// nothing where there is no handle to the body, then the write view is asked
/// for.
pub open spec fn owner_refusal(cell: CellState<Body>) -> Option<AccessError> {
    if !cell.alive() || cell.handles == 0 {
        Some(AccessError::Gone)
    } else if cell.handles >= usize::MAX {
        Some(AccessError::Exhausted)
    } else {
        cell.write_refusal()
    }
}

/// The result of asking for the body in `cell` for a change: its address in
/// the kernel, or why it cannot be had.
pub open spec fn owner_for_write(cell: CellState<Body>) -> Result<usize, ShapeError> {
    match owner_refusal(cell) {
        Some(e) => Err(ShapeError::Owner(e)),
        None => Ok(cell.payload->0.native),
    }
}

/// What all kinds of shape have in common.
#[derive(Debug)]
struct Surface {
    native: usize,
    body: WeakHandle<Body>,
    friction: Scalar,
    elasticity: Scalar,
    sensor: bool,
    surface_velocity: Vect,
    mass: MassSetting,
}

impl Surface {
    #[verifier::type_invariant]
    spec fn inv(self) -> bool {
        self.friction.non_negative() && self.elasticity.non_negative()
    }

    spec fn with(self, geometry: Geometry) -> ShapeView {
        ShapeView {
            native: self.native,
            body: self.body.id(),
            geometry,
            friction: self.friction,
            elasticity: self.elasticity,
            sensor: self.sensor,
            surface_velocity: self.surface_velocity,
            mass: self.mass,
        }
    }

    /// Checks that `body` can be had for a change right now, and makes the
    /// surface of a new shape for it.
    fn bind(bodies: &mut Arena<Body>, body: &mut BodyHandle, native: usize) -> (result: Result<
        Surface,
        AccessError,
    >)
        requires
            old(bodies).wf(),
        ensures
            final(bodies).wf(),
            final(bodies)@ == old(bodies)@,
            final(body).id() == old(body).id(),
            match result {
                Ok(surface) => {
                    &&& old(bodies).cell(old(body).id()).write_refusal() is None
                    &&& forall|g: Geometry| #[trigger]
                        surface.with(g) == ShapeView::fresh(native, old(body).id(), g)
                },
                Err(e) => old(bodies).cell(old(body).id()).write_refusal() == Some(e),
            },
    {
        match body.write_native(bodies) {
            Err(e) => Err(e),
            Ok(_) => Ok(
                Surface {
                    native,
                    body: body.downgrade(),
                    friction: Scalar::zero(),
                    elasticity: Scalar::zero(),
                    sensor: false,
                    surface_velocity: Vect::zero(),
                    mass: MassSetting::Mass(Scalar::zero()),
                },
            ),
        }
    }

    fn owner_for_write(&self, bodies: &mut Arena<Body>) -> (result: Result<usize, ShapeError>)
        requires
            old(bodies).wf(),
        ensures
            final(bodies).wf(),
            final(bodies)@ == old(bodies)@,
            result == owner_for_write(old(bodies).cell(self.body.id())),
    {
        match self.body.upgrade(bodies) {
            None => {
                if self.body.is_alive(bodies) {
                    Err(ShapeError::Owner(AccessError::Exhausted))
                } else {
                    Err(ShapeError::Owner(AccessError::Gone))
                }
            },
            Some(mut owner) => {
                let found = owner.write_native(bodies);
                let gone = owner.release(bodies);
                // There was a handle before the upgrade, so there is one still.
                assert(gone is None);
                assert(bodies@ =~= old(bodies)@);
                match found {
                    Ok(native) => Ok(native),
                    Err(e) => Err(ShapeError::Owner(e)),
                }
            },
        }
    }
}

/// A circle.
#[derive(Debug)]
pub struct CircleShape {
    surface: Surface,
    radius: Scalar,
    offset: Vect,
}

/// A segment with a thickness.
#[derive(Debug)]
pub struct SegmentShape {
    surface: Surface,
    a: Vect,
    b: Vect,
    radius: Scalar,
}

/// A convex polygon with a thickness.
#[derive(Debug)]
pub struct PolyShape {
    surface: Surface,
    verts: Vec<Vect>,
    radius: Scalar,
}

/// A collision shape, of one of the three kinds.
#[derive(Debug)]
pub enum Shape {
    Circle(CircleShape),
    Segment(SegmentShape),
    Poly(PolyShape),
}

/// A handle to a shape.
pub type ShapeHandle = Handle<Shape>;

impl View for CircleShape {
    type V = ShapeView;

    closed spec fn view(&self) -> ShapeView {
        self.surface.with(Geometry::Circle { radius: self.radius, offset: self.offset })
    }
}

impl View for SegmentShape {
    type V = ShapeView;

    closed spec fn view(&self) -> ShapeView {
        self.surface.with(Geometry::Segment { a: self.a, b: self.b, radius: self.radius })
    }
}

impl View for PolyShape {
    type V = ShapeView;

    closed spec fn view(&self) -> ShapeView {
        self.surface.with(Geometry::Poly { verts: self.verts@, radius: self.radius })
    }
}

impl View for Shape {
    type V = ShapeView;

    open spec fn view(&self) -> ShapeView {
        match self {
            Shape::Circle(circle) => circle@,
            Shape::Segment(segment) => segment@,
            Shape::Poly(poly) => poly@,
        }
    }
}

impl Surface {
    fn set_friction(&mut self, friction: Scalar) -> (result: Result<(), ShapeError>)
        ensures
            result == sign_check(friction),
            forall|g: Geometry| #[trigger]
                final(self).with(g) == (if friction.non_negative() {
                    ShapeView { friction, ..old(self).with(g) }
                } else {
                    old(self).with(g)
                }),
    {
        proof {
            use_type_invariant(&*self);
        }
        if friction.is_non_negative() {
            self.friction = friction;
            Ok(())
        } else {
            Err(ShapeError::Negative)
        }
    }

    fn set_elasticity(&mut self, elasticity: Scalar) -> (result: Result<(), ShapeError>)
        ensures
            result == sign_check(elasticity),
            forall|g: Geometry| #[trigger]
                final(self).with(g) == (if elasticity.non_negative() {
                    ShapeView { elasticity, ..old(self).with(g) }
                } else {
                    old(self).with(g)
                }),
    {
        proof {
            use_type_invariant(&*self);
        }
        if elasticity.is_non_negative() {
            self.elasticity = elasticity;
            Ok(())
        } else {
            Err(ShapeError::Negative)
        }
    }

    fn set_sensor(&mut self, sensor: bool)
        ensures
            forall|g: Geometry| #[trigger]
                final(self).with(g) == (ShapeView { sensor, ..old(self).with(g) }),
    {
        proof {
            use_type_invariant(&*self);
        }
        self.sensor = sensor;
    }

    fn set_surface_velocity(&mut self, surface_velocity: Vect)
        ensures
            forall|g: Geometry| #[trigger]
                final(self).with(g) == (ShapeView { surface_velocity, ..old(self).with(g) }),
    {
        proof {
            use_type_invariant(&*self);
        }
        self.surface_velocity = surface_velocity;
    }

    fn set_mass(&mut self, bodies: &mut Arena<Body>, mass: MassSetting) -> (result: Result<
        usize,
        ShapeError,
    >)
        requires
            old(bodies).wf(),
        ensures
            final(bodies).wf(),
            final(bodies)@ == old(bodies)@,
            result == owner_for_write(old(bodies).cell(old(self).body.id())),
            forall|g: Geometry| #[trigger]
                final(self).with(g) == (if result is Ok {
                    ShapeView { mass, ..old(self).with(g) }
                } else {
                    old(self).with(g)
                }),
    {
        proof {
            use_type_invariant(&*self);
        }
        let found = self.owner_for_write(bodies);
        if found.is_ok() {
            self.mass = mass;
        }
        found
    }
}

/// The answer to a friction or an elasticity: accepted if it is a number,
/// zero or above.
pub open spec fn sign_check(value: Scalar) -> Result<(), ShapeError> {
    if value.non_negative() {
        Ok(())
    } else {
        Err(ShapeError::Negative)
    }
}

impl Shape {
    /// Makes the circle of radius `radius` around `offset` (in the body's
    /// coordinates) that the kernel made at `native` for `body`. The body has
    /// to be there, and to be had for writing at this moment; it is left as
    /// it was.
    pub fn new_circle(
        bodies: &mut Arena<Body>,
        body: &mut BodyHandle,
        native: usize,
        radius: Scalar,
        offset: Vect,
    ) -> (result: Result<Shape, AccessError>)
        requires
            old(bodies).wf(),
        ensures
            final(bodies).wf(),
            final(bodies)@ == old(bodies)@,
            final(body).id() == old(body).id(),
            match result {
                Ok(shape) => {
                    &&& old(bodies).cell(old(body).id()).write_refusal() is None
                    &&& shape is Circle
                    &&& shape@ == ShapeView::fresh(
                        native,
                        old(body).id(),
                        Geometry::Circle { radius, offset },
                    )
                },
                Err(e) => old(bodies).cell(old(body).id()).write_refusal() == Some(e),
            },
    {
        match Surface::bind(bodies, body, native) {
            Ok(surface) => Ok(Shape::Circle(CircleShape { surface, radius, offset })),
            Err(e) => Err(e),
        }
    }

    /// Makes the segment from `a` to `b` (in the body's coordinates), of
    /// thickness `radius`, that the kernel made at `native` for `body`. The
    /// body has to be there, and to be had for writing at this moment; it is
    /// left as it was.
    pub fn new_segment(
        bodies: &mut Arena<Body>,
        body: &mut BodyHandle,
        native: usize,
        a: Vect,
        b: Vect,
        radius: Scalar,
    ) -> (result: Result<Shape, AccessError>)
        requires
            old(bodies).wf(),
        ensures
            final(bodies).wf(),
            final(bodies)@ == old(bodies)@,
            final(body).id() == old(body).id(),
            match result {
                Ok(shape) => {
                    &&& old(bodies).cell(old(body).id()).write_refusal() is None
                    &&& shape is Segment
                    &&& shape@ == ShapeView::fresh(
                        native,
                        old(body).id(),
                        Geometry::Segment { a, b, radius },
                    )
                },
                Err(e) => old(bodies).cell(old(body).id()).write_refusal() == Some(e),
            },
    {
        match Surface::bind(bodies, body, native) {
            Ok(surface) => Ok(Shape::Segment(SegmentShape { surface, a, b, radius })),
            Err(e) => Err(e),
        }
    }

    /// Makes the polygon with the vertices `verts` (in the body's
    /// coordinates), of thickness `radius`, that the kernel made at `native`
    /// for `body`. The vertices are taken as they are: that they are convex
    /// and wind counter-clockwise is for the caller to see to. The body has to
    /// be there, and to be had for writing at this moment; it is left as it
    /// was.
    pub fn new_poly_raw(
        bodies: &mut Arena<Body>,
        body: &mut BodyHandle,
        native: usize,
        verts: Vec<Vect>,
        radius: Scalar,
    ) -> (result: Result<Shape, AccessError>)
        requires
            old(bodies).wf(),
        ensures
            final(bodies).wf(),
            final(bodies)@ == old(bodies)@,
            final(body).id() == old(body).id(),
            match result {
                Ok(shape) => {
                    &&& old(bodies).cell(old(body).id()).write_refusal() is None
                    &&& shape is Poly
                    &&& shape@ == ShapeView::fresh(
                        native,
                        old(body).id(),
                        Geometry::Poly { verts: verts@, radius },
                    )
                },
                Err(e) => old(bodies).cell(old(body).id()).write_refusal() == Some(e),
            },
    {
        match Surface::bind(bodies, body, native) {
            Ok(surface) => Ok(Shape::Poly(PolyShape { surface, verts, radius })),
            Err(e) => Err(e),
        }
    }

    /// Makes the box that the kernel made at `native` for `body`: a polygon
    /// with the four vertices `corners`, which the kernel computed from the
    /// width and the height of the box, and of thickness `radius`. The body
    /// has to be there, and to be had for writing at this moment; it is left
    /// as it was.
    pub fn new_box(
        bodies: &mut Arena<Body>,
        body: &mut BodyHandle,
        native: usize,
        corners: [Vect; 4],
        radius: Scalar,
    ) -> (result: Result<Shape, AccessError>)
        requires
            old(bodies).wf(),
        ensures
            final(bodies).wf(),
            final(bodies)@ == old(bodies)@,
            final(body).id() == old(body).id(),
            match result {
                Ok(shape) => {
                    &&& old(bodies).cell(old(body).id()).write_refusal() is None
                    &&& shape is Poly
                    &&& shape@ == ShapeView::fresh(
                        native,
                        old(body).id(),
                        Geometry::Poly { verts: corners@, radius },
                    )
                },
                Err(e) => old(bodies).cell(old(body).id()).write_refusal() == Some(e),
            },
    {
        let mut verts: Vec<Vect> = Vec::new();
        verts.push(corners[0]);
        verts.push(corners[1]);
        verts.push(corners[2]);
        verts.push(corners[3]);
        assert(verts@ =~= corners@);
        Shape::new_poly_raw(bodies, body, native, verts, radius)
    }

    fn surface(&self) -> (surface: &Surface)
        ensures
            forall|g: Geometry| #[trigger] surface.with(g) == (ShapeView { geometry: g, ..self@ }),
            surface.with(self@.geometry) == self@,
    {
        match self {
            Shape::Circle(circle) => &circle.surface,
            Shape::Segment(segment) => &segment.surface,
            Shape::Poly(poly) => &poly.surface,
        }
    }

    fn surface_mut(&mut self) -> (surface: &mut Surface)
        ensures
            forall|g: Geometry| #[trigger]
                surface.with(g) == (ShapeView { geometry: g, ..old(self)@ }),
            final(self)@ == final(surface).with(old(self)@.geometry),
            *final(self) is Circle <==> *old(self) is Circle,
            *final(self) is Segment <==> *old(self) is Segment,
            *final(self) is Poly <==> *old(self) is Poly,
    {
        match self {
            Shape::Circle(circle) => &mut circle.surface,
            Shape::Segment(segment) => &mut segment.surface,
            Shape::Poly(poly) => &mut poly.surface,
        }
    }

    /// The address of the kernel's shape, for a call that reads it.
    pub fn as_ptr(&self) -> (native: usize)
        ensures
            native == self@.native,
    {
        self.surface().native
    }

    /// The address of the kernel's shape, for a call that changes it.
    pub fn as_mut_ptr(&mut self) -> (native: usize)
        ensures
            native == old(self)@.native,
            final(self)@ == old(self)@,
    {
        self.surface_mut().native
    }

    /// A handle to the body that the shape was made for, unless there is no
    /// handle to the body any more (or the machine cannot count one more).
    pub fn body(&self, bodies: &mut Arena<Body>) -> (owner: Option<BodyHandle>)
        requires
            old(bodies).wf(),
        ensures
            final(bodies).wf(),
            owner is Some <==> old(bodies).cell(self@.body).retainable(usize::MAX as nat),
            owner matches Some(h) ==> h.id() == self@.body,
            owner is Some ==> final(bodies)@ == old(bodies).with_cell(
                self@.body,
                old(bodies).cell(self@.body).retain(),
            ),
            owner is None ==> final(bodies)@ == old(bodies)@,
    {
        self.surface().body.upgrade(bodies)
    }

    /// The friction of the surface: a number, zero or above.
    pub fn friction(&self) -> (friction: Scalar)
        ensures
            friction == self@.friction,
            friction.non_negative(),
    {
        let surface = self.surface();
        proof {
            use_type_invariant(surface);
        }
        surface.friction
    }

    /// Sets the friction of the surface. A friction that is below zero, or
    /// not a number, is turned away, and the shape stays as it was.
    pub fn set_friction(&mut self, friction: Scalar) -> (result: Result<(), ShapeError>)
        ensures
            result == sign_check(friction),
            result is Ok ==> final(self)@ == (ShapeView { friction, ..old(self)@ }),
            result is Err ==> final(self)@ == old(self)@,
    {
        self.surface_mut().set_friction(friction)
    }

    /// The elasticity of the surface: a number, zero or above.
    pub fn elasticity(&self) -> (elasticity: Scalar)
        ensures
            elasticity == self@.elasticity,
            elasticity.non_negative(),
    {
        let surface = self.surface();
        proof {
            use_type_invariant(surface);
        }
        surface.elasticity
    }

    /// Sets the elasticity of the surface. An elasticity that is below zero,
    /// or not a number, is turned away, and the shape stays as it was.
    pub fn set_elasticity(&mut self, elasticity: Scalar) -> (result: Result<(), ShapeError>)
        ensures
            result == sign_check(elasticity),
            result is Ok ==> final(self)@ == (ShapeView { elasticity, ..old(self)@ }),
            result is Err ==> final(self)@ == old(self)@,
    {
        self.surface_mut().set_elasticity(elasticity)
    }

    /// Whether the shape is a sensor: one that is told of collisions and
    /// takes no part in them.
    pub fn is_sensor(&self) -> (sensor: bool)
        ensures
            sensor == self@.sensor,
    {
        self.surface().sensor
    }

    /// Makes the shape a sensor, or an ordinary shape again.
    pub fn set_is_sensor(&mut self, is_sensor: bool)
        ensures
            final(self)@ == (ShapeView { sensor: is_sensor, ..old(self)@ }),
    {
        self.surface_mut().set_sensor(is_sensor)
    }

    /// The velocity of the surface.
    pub fn surface_velocity(&self) -> (velocity: Vect)
        ensures
            velocity == self@.surface_velocity,
    {
        self.surface().surface_velocity
    }

    /// Sets the velocity of the surface.
    pub fn set_surface_velocity(&mut self, surface_velocity: Vect)
        ensures
            final(self)@ == (ShapeView { surface_velocity, ..old(self)@ }),
    {
        self.surface_mut().set_surface_velocity(surface_velocity)
    }

    /// How the mass of the shape was last given.
    pub fn mass_setting(&self) -> (mass: MassSetting)
        ensures
            mass == self@.mass,
    {
        self.surface().mass
    }

    /// Sets the mass of the shape, after which the body is to add up its
    /// mass anew. So the body is asked for first, through the weak reference
    /// and for writing. If it can be had, the mass is taken and the address
    /// of the body returned, for the kernel to do its part. If not (most of
    /// all: if the body is gone) nothing is done, and the shape stays as it
    /// was. The arena is as before either way.
    pub fn set_mass(&mut self, bodies: &mut Arena<Body>, mass: Scalar) -> (result: Result<
        usize,
        ShapeError,
    >)
        requires
            old(bodies).wf(),
        ensures
            final(bodies).wf(),
            final(bodies)@ == old(bodies)@,
            result == owner_for_write(old(bodies).cell(old(self)@.body)),
            result is Ok ==> final(self)@ == (ShapeView {
                mass: MassSetting::Mass(mass),
                ..old(self)@
            }),
            result is Err ==> final(self)@ == old(self)@,
    {
        self.surface_mut().set_mass(bodies, MassSetting::Mass(mass))
    }

    /// Sets the density of the shape, from which the kernel computes its
    /// mass, after which the body is to add up its mass anew. The body is
    /// asked for as in [`Shape::set_mass`].
    pub fn set_density(&mut self, bodies: &mut Arena<Body>, density: Scalar) -> (result: Result<
        usize,
        ShapeError,
    >)
        requires
            old(bodies).wf(),
        ensures
            final(bodies).wf(),
            final(bodies)@ == old(bodies)@,
            result == owner_for_write(old(bodies).cell(old(self)@.body)),
            result is Ok ==> final(self)@ == (ShapeView {
                mass: MassSetting::Density(density),
                ..old(self)@
            }),
            result is Err ==> final(self)@ == old(self)@,
    {
        self.surface_mut().set_mass(bodies, MassSetting::Density(density))
    }
}

impl CircleShape {
    /// The centre of the circle, in the body's coordinates.
    pub fn offset(&self) -> (offset: Vect)
        ensures
            self@.geometry matches Geometry::Circle { offset: o, .. } && offset == o,
    {
        self.offset
    }

    /// The radius of the circle.
    pub fn radius(&self) -> (radius: Scalar)
        ensures
            self@.geometry matches Geometry::Circle { radius: r, .. } && radius == r,
    {
        self.radius
    }
}

impl SegmentShape {
    /// The first end of the segment, in the body's coordinates.
    pub fn a(&self) -> (a: Vect)
        ensures
            self@.geometry matches Geometry::Segment { a: end, .. } && a == end,
    {
        self.a
    }

    /// The second end of the segment, in the body's coordinates.
    pub fn b(&self) -> (b: Vect)
        ensures
            self@.geometry matches Geometry::Segment { b: end, .. } && b == end,
    {
        self.b
    }

    /// The thickness of the segment.
    pub fn radius(&self) -> (radius: Scalar)
        ensures
            self@.geometry matches Geometry::Segment { radius: r, .. } && radius == r,
    {
        self.radius
    }
}

impl PolyShape {
    /// The number of vertices.
    pub fn count(&self) -> (count: usize)
        ensures
            self@.geometry matches Geometry::Poly { verts, .. } && count == verts.len(),
    {
        self.verts.len()
    }

    /// The thickness of the polygon's edges.
    pub fn radius(&self) -> (radius: Scalar)
        ensures
            self@.geometry matches Geometry::Poly { radius: r, .. } && radius == r,
    {
        self.radius
    }

    /// The vertex `i`, counting from zero. An index at or beyond the number
    /// of vertices is turned away.
    pub fn vert(&self, i: usize) -> (result: Result<Vect, ShapeError>)
        ensures
            self@.geometry matches Geometry::Poly { verts, .. } && result == (if i < verts.len() {
                Ok::<Vect, ShapeError>(verts[i as int])
            } else {
                Err(ShapeError::OutOfRange)
            }),
    {
        if i < self.verts.len() {
            Ok(self.verts[i])
        } else {
            Err(ShapeError::OutOfRange)
        }
    }
}

impl Handle<Shape> {
    /// Makes a circle as [`Shape::new_circle`] does and wraps it.
    pub fn new_circle(
        shapes: &mut Arena<Shape>,
        bodies: &mut Arena<Body>,
        body: &mut BodyHandle,
        native: usize,
        radius: Scalar,
        offset: Vect,
    ) -> (result: Result<ShapeHandle, AccessError>)
        requires
            old(shapes).wf(),
            old(bodies).wf(),
        ensures
            final(shapes).wf(),
            final(bodies).wf(),
            final(bodies)@ == old(bodies)@,
            final(body).id() == old(body).id(),
            match result {
                Ok(handle) => {
                    &&& old(bodies).cell(old(body).id()).write_refusal() is None
                    &&& handle.id() == old(shapes)@.len()
                    &&& wrapped(
                        old(shapes)@,
                        final(shapes)@,
                        ShapeView::fresh(native, old(body).id(), Geometry::Circle { radius, offset }),
                    )
                    &&& final(shapes)@.last().payload->0 is Circle
                },
                Err(e) => {
                    &&& old(bodies).cell(old(body).id()).write_refusal() == Some(e)
                    &&& final(shapes)@ == old(shapes)@
                },
            },
    {
        match Shape::new_circle(bodies, body, native, radius, offset) {
            Ok(shape) => Ok(Handle::wrap(shapes, shape)),
            Err(e) => Err(e),
        }
    }

    /// Makes a segment as [`Shape::new_segment`] does and wraps it.
    pub fn new_segment(
        shapes: &mut Arena<Shape>,
        bodies: &mut Arena<Body>,
        body: &mut BodyHandle,
        native: usize,
        a: Vect,
        b: Vect,
        radius: Scalar,
    ) -> (result: Result<ShapeHandle, AccessError>)
        requires
            old(shapes).wf(),
            old(bodies).wf(),
        ensures
            final(shapes).wf(),
            final(bodies).wf(),
            final(bodies)@ == old(bodies)@,
            final(body).id() == old(body).id(),
            match result {
                Ok(handle) => {
                    &&& old(bodies).cell(old(body).id()).write_refusal() is None
                    &&& handle.id() == old(shapes)@.len()
                    &&& wrapped(
                        old(shapes)@,
                        final(shapes)@,
                        ShapeView::fresh(native, old(body).id(), Geometry::Segment { a, b, radius }),
                    )
                    &&& final(shapes)@.last().payload->0 is Segment
                },
                Err(e) => {
                    &&& old(bodies).cell(old(body).id()).write_refusal() == Some(e)
                    &&& final(shapes)@ == old(shapes)@
                },
            },
    {
        match Shape::new_segment(bodies, body, native, a, b, radius) {
            Ok(shape) => Ok(Handle::wrap(shapes, shape)),
            Err(e) => Err(e),
        }
    }

    /// Makes a polygon as [`Shape::new_poly_raw`] does and wraps it.
    pub fn new_poly_raw(
        shapes: &mut Arena<Shape>,
        bodies: &mut Arena<Body>,
        body: &mut BodyHandle,
        native: usize,
        verts: Vec<Vect>,
        radius: Scalar,
    ) -> (result: Result<ShapeHandle, AccessError>)
        requires
            old(shapes).wf(),
            old(bodies).wf(),
        ensures
            final(shapes).wf(),
            final(bodies).wf(),
            final(bodies)@ == old(bodies)@,
            final(body).id() == old(body).id(),
            match result {
                Ok(handle) => {
                    &&& old(bodies).cell(old(body).id()).write_refusal() is None
                    &&& handle.id() == old(shapes)@.len()
                    &&& wrapped(
                        old(shapes)@,
                        final(shapes)@,
                        ShapeView::fresh(
                            native,
                            old(body).id(),
                            Geometry::Poly { verts: verts@, radius },
                        ),
                    )
                    &&& final(shapes)@.last().payload->0 is Poly
                },
                Err(e) => {
                    &&& old(bodies).cell(old(body).id()).write_refusal() == Some(e)
                    &&& final(shapes)@ == old(shapes)@
                },
            },
    {
        match Shape::new_poly_raw(bodies, body, native, verts, radius) {
            Ok(shape) => Ok(Handle::wrap(shapes, shape)),
            Err(e) => Err(e),
        }
    }

    /// Makes a box as [`Shape::new_box`] does and wraps it.
    pub fn new_box(
        shapes: &mut Arena<Shape>,
        bodies: &mut Arena<Body>,
        body: &mut BodyHandle,
        native: usize,
        corners: [Vect; 4],
        radius: Scalar,
    ) -> (result: Result<ShapeHandle, AccessError>)
        requires
            old(shapes).wf(),
            old(bodies).wf(),
        ensures
            final(shapes).wf(),
            final(bodies).wf(),
            final(bodies)@ == old(bodies)@,
            final(body).id() == old(body).id(),
            match result {
                Ok(handle) => {
                    &&& old(bodies).cell(old(body).id()).write_refusal() is None
                    &&& handle.id() == old(shapes)@.len()
                    &&& wrapped(
                        old(shapes)@,
                        final(shapes)@,
                        ShapeView::fresh(
                            native,
                            old(body).id(),
                            Geometry::Poly { verts: corners@, radius },
                        ),
                    )
                    &&& final(shapes)@.last().payload->0 is Poly
                },
                Err(e) => {
                    &&& old(bodies).cell(old(body).id()).write_refusal() == Some(e)
                    &&& final(shapes)@ == old(shapes)@
                },
            },
    {
        match Shape::new_box(bodies, body, native, corners, radius) {
            Ok(shape) => Ok(Handle::wrap(shapes, shape)),
            Err(e) => Err(e),
        }
    }

    /// The address of the kernel's shape, as one learns it who holds the
    /// write view for a moment: the view is taken, the address read, the view
    /// given back, and the arena is as before.
    pub fn write_native(&mut self, shapes: &mut Arena<Shape>) -> (result: Result<
        usize,
        AccessError,
    >)
        requires
            old(shapes).wf(),
        ensures
            final(shapes).wf(),
            final(shapes)@ == old(shapes)@,
            final(self).id() == old(self).id(),
            result == match old(shapes).cell(old(self).id()).write_refusal() {
                Some(e) => Err::<usize, AccessError>(e),
                None => Ok(old(shapes).cell(old(self).id()).payload->0@.native),
            },
    {
        match self.borrow_mut(shapes) {
            Err(e) => Err(e),
            Ok(view) => {
                let native = match view.get(shapes) {
                    Some(shape) => shape.as_ptr(),
                    None => 0,
                };
                view.end(shapes);
                assert(shapes@ =~= old(shapes)@);
                Ok(native)
            },
        }
    }
}

/// `after` is `before` and one more cell, fresh, with a shape in it that
/// looks like `view`.
pub open spec fn wrapped(
    before: Seq<CellState<Shape>>,
    after: Seq<CellState<Shape>>,
    view: ShapeView,
) -> bool {
    &&& after.len() == before.len() + 1
    &&& after.last().payload is Some
    &&& after.last().payload->0@ == view
    &&& after == before.push(CellState::fresh(after.last().payload->0))
}

} // verus!
