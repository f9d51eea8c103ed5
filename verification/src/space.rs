//! Spaces.
//!
//! A space is a world of the simulation: the bodies and shapes that take part
//! in it. It holds a handle to each of its members, so a member lives at
//! least as long as it is one, whoever else lets go of it. A member is known
//! by the address of its kernel object, not by the handle that brought it:
//! any handle to the same body names the same member.
//!
//! The space of the kernel is kept in step by the caller: each operation here
//! says what was decided, and the caller tells the kernel.

use vstd::prelude::*;
use crate::body::{Body, BodyHandle};
use crate::cell::{all_wf, cell_at, lemma_release_n, with_cell, AccessError, CellState};
use crate::handle::{Arena, Handle};
use crate::shape::{Shape, ShapeHandle};

verus! {

/// Why a space turned a request away.
#[derive(Clone, Copy, Debug, PartialEq, Eq, Structural)]
pub enum SpaceError {
    /// The body or shape is a member of the space already.
    AlreadyAttached,
    /// The body or shape could not be had for writing, or no further handle
    /// to it could be made.
    Access(AccessError),
}

/// A member of a space: the address of its kernel object, and the cell that
/// the space holds a handle to.
pub struct Entry {
    pub native: usize,
    pub cell: nat,
}

/// What taking a body or shape out of a space came to.
#[derive(Debug)]
pub struct Removal<T> {
    /// The address of the kernel object, which the kernel is to take out of
    /// its space, member or not.
    pub native: usize,
    /// Whether it was a member.
    pub was_member: bool,
    /// The body or shape itself, if the handle of the space was the last
    /// handle to it. The kernel object is then to be destroyed.
    pub destroyed: Option<T>,
}

/// What giving up a space brought out: the members to which nobody else had
/// a handle.
#[derive(Debug)]
pub struct Remains {
    pub bodies: Vec<Body>,
    pub shapes: Vec<Shape>,
}

#[derive(Debug)]
struct Member<T> {
    native: usize,
    handle: Handle<T>,
}

/// A world of the simulation.
#[derive(Debug)]
pub struct Space {
    native: usize,
    bodies: Vec<Member<Body>>,
    shapes: Vec<Member<Shape>>,
}

/// What a space is at one instant.
pub struct SpaceView {
    /// The address of the kernel's space.
    pub native: usize,
    /// The bodies that take part, in the order in which they came.
    pub bodies: Seq<Entry>,
    /// The shapes that take part, in the order in which they came.
    pub shapes: Seq<Entry>,
}

/// The kernel object at `native` is among `entries`.
pub open spec fn has_native(entries: Seq<Entry>, native: usize) -> bool {
    exists|i: int| 0 <= i < entries.len() && (#[trigger] entries[i]).native == native
}

/// The place of the kernel object at `native` among `entries`, if it is
/// there.
pub open spec fn index_of(entries: Seq<Entry>, native: usize) -> int {
    choose|i: int| 0 <= i < entries.len() && (#[trigger] entries[i]).native == native
}

/// No kernel object is among `entries` twice.
pub open spec fn distinct(entries: Seq<Entry>) -> bool {
    forall|i: int, j: int|
        0 <= i < j < entries.len() ==> (#[trigger] entries[i]).native != (
        #[trigger] entries[j]).native
}

/// `entries` without the kernel object at `native`.
pub open spec fn without(entries: Seq<Entry>, native: usize) -> Seq<Entry> {
    if has_native(entries, native) {
        entries.remove(index_of(entries, native))
    } else {
        entries
    }
}

/// The cell through which the kernel object at `native` is held, if it is
/// among `entries`.
pub open spec fn cell_of(entries: Seq<Entry>, native: usize) -> nat {
    entries[index_of(entries, native)].cell
}

/// Why a body or shape is not taken into a space, if it is not. `access` is
/// why it cannot be had for writing, `native` the address of its kernel
/// object, `handles` the number of handles to it, `entries` the members so
/// far.
pub open spec fn add_refusal(
    entries: Seq<Entry>,
    access: Option<AccessError>,
    native: usize,
    handles: nat,
) -> Option<SpaceError> {
    match access {
        Some(e) => Some(SpaceError::Access(e)),
        None => if has_native(entries, native) {
            Some(SpaceError::AlreadyAttached)
        } else if handles >= usize::MAX {
            Some(SpaceError::Access(AccessError::Exhausted))
        } else {
            None
        },
    }
}

/// The cells once the handles of `entries` are given up, the last entry
/// first.
pub open spec fn release_all<T>(cells: Seq<CellState<T>>, entries: Seq<Entry>) -> Seq<
    CellState<T>,
>
    decreases entries.len(),
{
    if entries.len() == 0 {
        cells
    } else {
        let id = entries.last().cell;
        release_all(with_cell(cells, id, cell_at(cells, id).release()), entries.drop_last())
    }
}

/// The payloads that leave while the handles of `entries` are given up, the
/// last entry first, in the order in which they leave.
pub open spec fn released_all<T>(cells: Seq<CellState<T>>, entries: Seq<Entry>) -> Seq<T>
    decreases entries.len(),
{
    if entries.len() == 0 {
        Seq::empty()
    } else {
        let id = entries.last().cell;
        let rest = released_all(
            with_cell(cells, id, cell_at(cells, id).release()),
            entries.drop_last(),
        );
        match cell_at(cells, id).released() {
            Some(payload) => seq![payload] + rest,
            None => rest,
        }
    }
}

spec fn entries_of<T>(members: Seq<Member<T>>) -> Seq<Entry> {
    Seq::new(members.len(), |i: int| Entry { native: members[i].native, cell: members[i].handle.id() })
}

/// Looks for the member with the kernel object at `native`.
fn find<T>(members: &Vec<Member<T>>, native: usize) -> (found: Option<usize>)
    ensures
        match found {
            Some(i) => i < members@.len() && entries_of(members@)[i as int].native == native,
            None => !has_native(entries_of(members@), native),
        },
{
    let mut i: usize = 0;
    while i < members.len()
        invariant
            i <= members@.len(),
            forall|j: int| 0 <= j < i ==> (#[trigger] entries_of(members@)[j]).native != native,
        decreases members@.len() - i,
    {
        if members[i].native == native {
            return Some(i);
        }
        i += 1;
    }
    None
}

/// Takes a further handle to the cell of `handle` and keeps it, under the
/// address `native`, unless that address is a member already.
fn join<T>(
    members: &mut Vec<Member<T>>,
    arena: &mut Arena<T>,
    handle: &Handle<T>,
    native: usize,
) -> (result: Result<(), SpaceError>)
    requires
        old(arena).wf(),
        old(arena).cell(handle.id()).alive(),
        distinct(entries_of(old(members)@)),
    ensures
        final(arena).wf(),
        distinct(entries_of(final(members)@)),
        result == match add_refusal(
            entries_of(old(members)@),
            None,
            native,
            old(arena).cell(handle.id()).handles,
        ) {
            Some(e) => Err::<(), SpaceError>(e),
            None => Ok(()),
        },
        result is Ok ==> entries_of(final(members)@) == entries_of(old(members)@).push(
            Entry { native, cell: handle.id() },
        ),
        result is Ok ==> final(arena)@ == old(arena).with_cell(
            handle.id(),
            old(arena).cell(handle.id()).retain(),
        ),
        result is Err ==> entries_of(final(members)@) == entries_of(old(members)@),
        result is Err ==> final(arena)@ == old(arena)@,
{
    if find(members, native).is_some() {
        return Err(SpaceError::AlreadyAttached);
    }
    match handle.clone(arena) {
        None => Err(SpaceError::Access(AccessError::Exhausted)),
        Some(kept) => {
            members.push(Member { native, handle: kept });
            assert(entries_of(members@) =~= entries_of(old(members)@).push(
                Entry { native, cell: handle.id() },
            ));
            Ok(())
        },
    }
}

/// Lets the member with the kernel object at `native` go, if there is one,
/// and gives up the handle that was kept for it.
fn leave<T>(members: &mut Vec<Member<T>>, arena: &mut Arena<T>, native: usize) -> (removal: Removal<
    T,
>)
    requires
        old(arena).wf(),
        distinct(entries_of(old(members)@)),
    ensures
        final(arena).wf(),
        distinct(entries_of(final(members)@)),
        removal.native == native,
        removal.was_member == has_native(entries_of(old(members)@), native),
        entries_of(final(members)@) == without(entries_of(old(members)@), native),
        removal.was_member ==> final(arena)@ == old(arena).with_cell(
            cell_of(entries_of(old(members)@), native),
            old(arena).cell(cell_of(entries_of(old(members)@), native)).release(),
        ),
        removal.was_member ==> removal.destroyed == old(arena).cell(
            cell_of(entries_of(old(members)@), native),
        ).released(),
        !removal.was_member ==> final(arena)@ == old(arena)@,
        !removal.was_member ==> removal.destroyed is None,
{
    match find(members, native) {
        None => Removal { native, was_member: false, destroyed: None },
        Some(i) => {
            proof {
                let entries = entries_of(members@);
                assert(entries[i as int].native == native);
                assert(has_native(entries, native));
                assert(index_of(entries, native) == i as int);
            }
            let member = members.remove(i);
            assert(entries_of(members@) =~= entries_of(old(members)@).remove(i as int));
            let destroyed = member.handle.release(arena);
            Removal { native, was_member: true, destroyed }
        },
    }
}

/// Gives up the handles of all `members`, the last first.
fn disband<T>(members: Vec<Member<T>>, arena: &mut Arena<T>) -> (gone: Vec<T>)
    requires
        old(arena).wf(),
    ensures
        final(arena).wf(),
        final(arena)@ == release_all(old(arena)@, entries_of(members@)),
        gone@ == released_all(old(arena)@, entries_of(members@)),
{
    let mut members = members;
    let mut gone: Vec<T> = Vec::new();
    let ghost start = entries_of(members@);
    while members.len() > 0
        invariant
            arena.wf(),
            release_all(arena@, entries_of(members@)) == release_all(old(arena)@, start),
            gone@ + released_all(arena@, entries_of(members@)) == released_all(
                old(arena)@,
                start,
            ),
        decreases members@.len(),
    {
        let ghost before = entries_of(members@);
        let ghost cells = arena@;
        let ghost had = gone@;
        let member = members.pop().unwrap();
        assert(entries_of(members@) =~= before.drop_last());
        assert(before.last().cell == member.handle.id());
        let left = member.handle.release(arena);
        match left {
            Some(payload) => {
                gone.push(payload);
                assert(gone@ + released_all(arena@, entries_of(members@)) =~= had + (seq![payload]
                    + released_all(arena@, entries_of(members@))));
            },
            None => {},
        }
    }
    assert(gone@ + Seq::<T>::empty() =~= gone@);
    gone
}

impl View for Space {
    type V = SpaceView;

    closed spec fn view(&self) -> SpaceView {
        SpaceView {
            native: self.native,
            bodies: entries_of(self.bodies@),
            shapes: entries_of(self.shapes@),
        }
    }
}

impl Space {
    /// No body and no shape is a member twice.
    pub open spec fn wf(&self) -> bool {
        distinct(self@.bodies) && distinct(self@.shapes)
    }

    /// The space without members that goes with the space the kernel made at
    /// `native`.
    pub fn new(native: usize) -> (space: Space)
        ensures
            space.wf(),
            space@ == (SpaceView { native, bodies: Seq::empty(), shapes: Seq::empty() }),
    {
        let space = Space { native, bodies: Vec::new(), shapes: Vec::new() };
        assert(space@.bodies =~= Seq::empty());
        assert(space@.shapes =~= Seq::empty());
        space
    }

    /// The address of the kernel's space, for a call that reads it.
    pub fn as_ptr(&self) -> (native: usize)
        ensures
            native == self@.native,
    {
        self.native
    }

    /// The address of the kernel's space, for a call that changes it.
    pub fn as_mut_ptr(&mut self) -> (native: usize)
        ensures
            native == old(self)@.native,
            *final(self) == *old(self),
    {
        self.native
    }

    /// The number of bodies that take part.
    pub fn body_count(&self) -> (count: usize)
        ensures
            count == self@.bodies.len(),
    {
        self.bodies.len()
    }

    /// The number of shapes that take part.
    pub fn shape_count(&self) -> (count: usize)
        ensures
            count == self@.shapes.len(),
    {
        self.shapes.len()
    }

    /// Whether the body with the kernel object at `native` takes part.
    pub fn contains_body(&self, native: usize) -> (found: bool)
        ensures
            found == has_native(self@.bodies, native),
    {
        find(&self.bodies, native).is_some()
    }

    /// Whether the shape with the kernel object at `native` takes part.
    pub fn contains_shape(&self, native: usize) -> (found: bool)
        ensures
            found == has_native(self@.shapes, native),
    {
        find(&self.shapes, native).is_some()
    }

    /// Takes a body into the space. The body is asked for, for writing; if
    /// it can be had and is no member yet, the space takes a handle of its
    /// own to it and returns the address of the kernel's body, for the caller
    /// to register with the kernel's space. A body that is a member already
    /// is turned away, and nothing changes.
    pub fn add_body(&mut self, bodies: &mut Arena<Body>, body: &mut BodyHandle) -> (result: Result<
        usize,
        SpaceError,
    >)
        requires
            old(self).wf(),
            old(bodies).wf(),
        ensures
            final(self).wf(),
            final(bodies).wf(),
            final(body).id() == old(body).id(),
            final(self)@.native == old(self)@.native,
            final(self)@.shapes == old(self)@.shapes,
            match result {
                Ok(native) => {
                    &&& native == old(bodies).cell(old(body).id()).payload->0.native
                    &&& add_refusal(
                        old(self)@.bodies,
                        old(bodies).cell(old(body).id()).write_refusal(),
                        native,
                        old(bodies).cell(old(body).id()).handles,
                    ) is None
                    &&& final(self)@.bodies == old(self)@.bodies.push(
                        Entry { native, cell: old(body).id() },
                    )
                    &&& final(bodies)@ == old(bodies).with_cell(
                        old(body).id(),
                        old(bodies).cell(old(body).id()).retain(),
                    )
                },
                Err(e) => {
                    &&& add_refusal(
                        old(self)@.bodies,
                        old(bodies).cell(old(body).id()).write_refusal(),
                        old(bodies).cell(old(body).id()).payload->0.native,
                        old(bodies).cell(old(body).id()).handles,
                    ) == Some(e)
                    &&& final(self)@.bodies == old(self)@.bodies
                    &&& final(bodies)@ == old(bodies)@
                },
            },
    {
        match body.write_native(bodies) {
            Err(e) => Err(SpaceError::Access(e)),
            Ok(native) => match join(&mut self.bodies, bodies, body, native) {
                Ok(()) => Ok(native),
                Err(e) => Err(e),
            },
        }
    }

    /// Takes a shape into the space, as [`Space::add_body`] takes a body.
    pub fn add_shape(&mut self, shapes: &mut Arena<Shape>, shape: &mut ShapeHandle) -> (result:
        Result<usize, SpaceError>)
        requires
            old(self).wf(),
            old(shapes).wf(),
        ensures
            final(self).wf(),
            final(shapes).wf(),
            final(shape).id() == old(shape).id(),
            final(self)@.native == old(self)@.native,
            final(self)@.bodies == old(self)@.bodies,
            match result {
                Ok(native) => {
                    &&& native == old(shapes).cell(old(shape).id()).payload->0@.native
                    &&& add_refusal(
                        old(self)@.shapes,
                        old(shapes).cell(old(shape).id()).write_refusal(),
                        native,
                        old(shapes).cell(old(shape).id()).handles,
                    ) is None
                    &&& final(self)@.shapes == old(self)@.shapes.push(
                        Entry { native, cell: old(shape).id() },
                    )
                    &&& final(shapes)@ == old(shapes).with_cell(
                        old(shape).id(),
                        old(shapes).cell(old(shape).id()).retain(),
                    )
                },
                Err(e) => {
                    &&& add_refusal(
                        old(self)@.shapes,
                        old(shapes).cell(old(shape).id()).write_refusal(),
                        old(shapes).cell(old(shape).id()).payload->0@.native,
                        old(shapes).cell(old(shape).id()).handles,
                    ) == Some(e)
                    &&& final(self)@.shapes == old(self)@.shapes
                    &&& final(shapes)@ == old(shapes)@
                },
            },
    {
        match shape.write_native(shapes) {
            Err(e) => Err(SpaceError::Access(e)),
            Ok(native) => match join(&mut self.shapes, shapes, shape, native) {
                Ok(()) => Ok(native),
                Err(e) => Err(e),
            },
        }
    }

    /// Takes a body out of the space. The body is asked for, for writing,
    /// through any handle to it; the member is found by the address of the
    /// kernel's body. If it is found, the space lets it go and gives up its
    /// own handle, with which the body leaves its arena if there is no other
    /// handle to it. If it is not found, the members stay as they are. Either way the
    /// address is returned, for the caller to take the body out of the
    /// kernel's space.
    pub fn remove_body(&mut self, bodies: &mut Arena<Body>, body: &mut BodyHandle) -> (result:
        Result<Removal<Body>, SpaceError>)
        requires
            old(self).wf(),
            old(bodies).wf(),
        ensures
            final(self).wf(),
            final(bodies).wf(),
            final(body).id() == old(body).id(),
            final(self)@.native == old(self)@.native,
            final(self)@.shapes == old(self)@.shapes,
            match result {
                Ok(removal) => {
                    &&& old(bodies).cell(old(body).id()).write_refusal() is None
                    &&& removal.native == old(bodies).cell(old(body).id()).payload->0.native
                    &&& removal.was_member == has_native(old(self)@.bodies, removal.native)
                    &&& final(self)@.bodies == without(old(self)@.bodies, removal.native)
                    &&& removal.was_member ==> final(bodies)@ == old(bodies).with_cell(
                        cell_of(old(self)@.bodies, removal.native),
                        old(bodies).cell(cell_of(old(self)@.bodies, removal.native)).release(),
                    )
                    &&& removal.was_member ==> removal.destroyed == old(bodies).cell(
                        cell_of(old(self)@.bodies, removal.native),
                    ).released()
                    &&& !removal.was_member ==> final(bodies)@ == old(bodies)@
                    &&& !removal.was_member ==> removal.destroyed is None
                },
                Err(e) => {
                    &&& old(bodies).cell(old(body).id()).write_refusal() matches Some(refusal)
                    &&& e == SpaceError::Access(refusal)
                    &&& final(self)@.bodies == old(self)@.bodies
                    &&& final(bodies)@ == old(bodies)@
                },
            },
    {
        match body.write_native(bodies) {
            Err(e) => Err(SpaceError::Access(e)),
            Ok(native) => Ok(leave(&mut self.bodies, bodies, native)),
        }
    }

    /// Takes a shape out of the space, as [`Space::remove_body`] takes a
    /// body.
    pub fn remove_shape(&mut self, shapes: &mut Arena<Shape>, shape: &mut ShapeHandle) -> (result:
        Result<Removal<Shape>, SpaceError>)
        requires
            old(self).wf(),
            old(shapes).wf(),
        ensures
            final(self).wf(),
            final(shapes).wf(),
            final(shape).id() == old(shape).id(),
            final(self)@.native == old(self)@.native,
            final(self)@.bodies == old(self)@.bodies,
            match result {
                Ok(removal) => {
                    &&& old(shapes).cell(old(shape).id()).write_refusal() is None
                    &&& removal.native == old(shapes).cell(old(shape).id()).payload->0@.native
                    &&& removal.was_member == has_native(old(self)@.shapes, removal.native)
                    &&& final(self)@.shapes == without(old(self)@.shapes, removal.native)
                    &&& removal.was_member ==> final(shapes)@ == old(shapes).with_cell(
                        cell_of(old(self)@.shapes, removal.native),
                        old(shapes).cell(cell_of(old(self)@.shapes, removal.native)).release(),
                    )
                    &&& removal.was_member ==> removal.destroyed == old(shapes).cell(
                        cell_of(old(self)@.shapes, removal.native),
                    ).released()
                    &&& !removal.was_member ==> final(shapes)@ == old(shapes)@
                    &&& !removal.was_member ==> removal.destroyed is None
                },
                Err(e) => {
                    &&& old(shapes).cell(old(shape).id()).write_refusal() matches Some(refusal)
                    &&& e == SpaceError::Access(refusal)
                    &&& final(self)@.shapes == old(self)@.shapes
                    &&& final(shapes)@ == old(shapes)@
                },
            },
    {
        match shape.write_native(shapes) {
            Err(e) => Err(SpaceError::Access(e)),
            Ok(native) => Ok(leave(&mut self.shapes, shapes, native)),
        }
    }

    /// Asks for a shape, for writing, before the kernel computes its bounds
    /// anew, and returns the address of the kernel's shape. Nothing changes
    /// here.
    pub fn reindex_shape(&mut self, shapes: &mut Arena<Shape>, shape: &mut ShapeHandle) -> (result:
        Result<usize, SpaceError>)
        requires
            old(shapes).wf(),
        ensures
            final(shapes).wf(),
            final(shapes)@ == old(shapes)@,
            final(shape).id() == old(shape).id(),
            *final(self) == *old(self),
            result == match old(shapes).cell(old(shape).id()).write_refusal() {
                Some(e) => Err::<usize, SpaceError>(SpaceError::Access(e)),
                None => Ok(old(shapes).cell(old(shape).id()).payload->0@.native),
            },
    {
        match shape.write_native(shapes) {
            Err(e) => Err(SpaceError::Access(e)),
            Ok(native) => Ok(native),
        }
    }

    /// Asks for a body, for writing, before the kernel computes the bounds of
    /// its shapes anew, and returns the address of the kernel's body. Nothing
    /// changes here.
    pub fn reindex_shapes_for_body(
        &mut self,
        bodies: &mut Arena<Body>,
        body: &mut BodyHandle,
    ) -> (result: Result<usize, SpaceError>)
        requires
            old(bodies).wf(),
        ensures
            final(bodies).wf(),
            final(bodies)@ == old(bodies)@,
            final(body).id() == old(body).id(),
            *final(self) == *old(self),
            result == match old(bodies).cell(old(body).id()).write_refusal() {
                Some(e) => Err::<usize, SpaceError>(SpaceError::Access(e)),
                None => Ok(old(bodies).cell(old(body).id()).payload->0.native),
            },
    {
        match body.write_native(bodies) {
            Err(e) => Err(SpaceError::Access(e)),
            Ok(native) => Ok(native),
        }
    }

    /// Gives the space up. The handles that it held to its members are given
    /// up, the last member first, bodies before shapes; the members to which
    /// no other handle is left leave their arenas and are returned, for the caller
    /// to destroy their kernel objects along with the kernel's space.
    pub fn destroy(self, bodies: &mut Arena<Body>, shapes: &mut Arena<Shape>) -> (remains: Remains)
        requires
            old(bodies).wf(),
            old(shapes).wf(),
        ensures
            final(bodies).wf(),
            final(shapes).wf(),
            final(bodies)@ == release_all(old(bodies)@, self@.bodies),
            final(shapes)@ == release_all(old(shapes)@, self@.shapes),
            remains.bodies@ == released_all(old(bodies)@, self@.bodies),
            remains.shapes@ == released_all(old(shapes)@, self@.shapes),
    {
        let gone_bodies = disband(self.bodies, bodies);
        let gone_shapes = disband(self.shapes, shapes);
        Remains { bodies: gone_bodies, shapes: gone_shapes }
    }
}

/// A body or shape that is taken into a space and out again at once leaves
/// the members as they were: as many as before, and the same ones in the
/// same order, whichever handle to it is used for either step.
pub proof fn law_add_then_remove(entries: Seq<Entry>, native: usize, cell: nat)
    requires
        distinct(entries),
        !has_native(entries, native),
    ensures
        distinct(entries.push(Entry { native, cell })),
        has_native(entries.push(Entry { native, cell }), native),
        cell_of(entries.push(Entry { native, cell }), native) == cell,
        without(entries.push(Entry { native, cell }), native) == entries,
        without(entries.push(Entry { native, cell }), native).len() == entries.len(),
{
    let after = entries.push(Entry { native, cell });
    assert(after[entries.len() as int].native == native);
    assert forall|i: int| 0 <= i < after.len() && (#[trigger] after[i]).native == native implies i
        == entries.len() by {
        if i < entries.len() {
            assert(entries[i].native == native);
        }
    }
    assert(after.remove(entries.len() as int) =~= entries);
}

/// The handle that a space takes to a new member and gives up when the
/// member leaves changes nothing in the end: the cell is as it was before the
/// member came, nothing left it, and the arena is as it was.
pub proof fn law_member_handle_returns<T>(cells: Seq<CellState<T>>, id: nat)
    requires
        all_wf(cells),
        cell_at(cells, id).alive(),
    ensures
        cell_at(cells, id).retain().released() is None,
        cell_at(cells, id).retain().release() == cell_at(cells, id),
        with_cell(
            with_cell(cells, id, cell_at(cells, id).retain()),
            id,
            cell_at(with_cell(cells, id, cell_at(cells, id).retain()), id).release(),
        ) == cells,
{
    let joined = with_cell(cells, id, cell_at(cells, id).retain());
    assert(cells[id as int].wf());
    assert(with_cell(joined, id, cell_at(joined, id).release()) =~= cells);
}

/// A member lives as long as it is one: while the space holds its handle,
/// the payload stays, however many other handles are given up and whoever
/// looks at it.
pub proof fn law_member_stays_alive<T>(s: CellState<T>, n: nat)
    requires
        s.wf(),
        s.alive(),
        n <= s.handles,
    ensures
        s.retain().release_n(n).alive(),
        s.retain().release_n(n).payload == s.payload,
        s.retain().departures(n) == 0,
{
    lemma_release_n(s.retain(), n);
}

} // verus!
