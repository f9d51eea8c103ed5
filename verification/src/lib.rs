//! Shared ownership and lifecycle rules for the entities of a 2D physics
//! simulation.
//!
//! The simulation itself (integration, collision detection, constraint
//! solving) is the work of a native kernel. This crate holds what surrounds
//! it: who keeps an entity alive, who may look at it or change it, which
//! entities take part in a world, and which values an entity accepts. It
//! never calls the kernel: each operation says what was decided, and the
//! caller tells the kernel.

pub mod arbiter;
pub mod body;
pub mod cell;
pub mod handle;
pub mod scalar;
pub mod shape;
pub mod space;

pub use self::arbiter::{Arbiter, ContactPoint, ContactPointSet};
pub use self::body::{Body, BodyHandle, BodyKind};
pub use self::cell::AccessError;
pub use self::handle::{Arena, Handle, ReadView, WeakHandle, WriteView};
pub use self::scalar::{Scalar, Vect};
pub use self::shape::{
    CircleShape, MassSetting, PolyShape, SegmentShape, Shape, ShapeError, ShapeHandle,
};
pub use self::space::{Remains, Removal, Space, SpaceError};
