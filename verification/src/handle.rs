//! Reference-counted, lock-guarded cells, and the handles that refer to them.
//!
//! An [`Arena`] owns the cells. A [`Handle`] is a strong reference to one of
//! them, a [`WeakHandle`] a reference that keeps nothing alive, a [`ReadView`]
//! or [`WriteView`] the right to look at the payload or to change it. Handles
//! and views cannot be copied. Each handle keeps the payload alive until it
//! is given back to the arena, and the payload leaves the arena with the last
//! of them, whoever looks at it then: a view keeps nothing alive, and finds
//! nothing once the payload has left.
//!
//! Nothing here waits. Where a view cannot be had because somebody else holds
//! one, the answer is [`AccessError::Busy`], and the caller decides how to
//! wait before it asks again.

use vstd::prelude::*;
use crate::cell::{all_wf, cell_at, with_cell, AccessError, CellState};
use std::marker::PhantomData;

verus! {

struct Slot<T> {
    payload: Option<T>,
    handles: usize,
    readers: usize,
    writer: bool,
    poisoned: bool,
}

impl<T> Slot<T> {
    spec fn state(self) -> CellState<T> {
        CellState {
            payload: self.payload,
            handles: self.handles as nat,
            readers: self.readers as nat,
            writer: self.writer,
            poisoned: self.poisoned,
        }
    }
}

/// The cells of one payload type. A cell is never used twice: once its
/// payload has left, its place stays empty, so that within one arena a
/// reference made for one payload can never reach another. Handles and views
/// do not know which arena made them: they belong with the arena that made
/// them, and what one of another arena finds here is whatever this arena
/// holds in the same place.
pub struct Arena<T> {
    slots: Vec<Slot<T>>,
}

/// A strong reference to a cell: it keeps the payload alive.
#[derive(Debug)]
pub struct Handle<T> {
    index: usize,
    owner: PhantomData<T>,
}

/// A reference to a cell that does not keep its payload alive.
#[derive(Debug)]
pub struct WeakHandle<T> {
    index: usize,
    owner: PhantomData<T>,
}

/// The right to look at a payload, shared with other readers.
#[derive(Debug)]
pub struct ReadView<T> {
    index: usize,
    owner: PhantomData<T>,
}

/// The right to look at a payload and to change it, shared with nobody.
#[derive(Debug)]
pub struct WriteView<T> {
    index: usize,
    owner: PhantomData<T>,
}

impl<T> View for Arena<T> {
    type V = Seq<CellState<T>>;

    closed spec fn view(&self) -> Seq<CellState<T>> {
        Seq::new(self.slots@.len(), |i: int| self.slots@[i].state())
    }
}

impl<T> Arena<T> {
    /// Every cell is in a state that the operations can reach.
    pub open spec fn wf(&self) -> bool {
        all_wf(self@)
    }

    /// The state of the cell `id`. A cell that this arena never made is
    /// vacant.
    pub open spec fn cell(&self, id: nat) -> CellState<T> {
        cell_at(self@, id)
    }

    /// The cells of this arena with `next` in place of the cell `id`.
    pub open spec fn with_cell(&self, id: nat, next: CellState<T>) -> Seq<CellState<T>> {
        with_cell(self@, id, next)
    }

    /// An arena without cells.
    pub fn new() -> (arena: Self)
        ensures
            arena.wf(),
            arena@.len() == 0,
    {
        Arena { slots: Vec::new() }
    }

    /// The number of cells that this arena has made so far.
    pub fn len(&self) -> (n: usize)
        ensures
            n == self@.len(),
    {
        self.slots.len()
    }

    fn retain(&mut self, index: usize) -> (done: bool)
        requires
            old(self).wf(),
        ensures
            final(self).wf(),
            done == old(self).cell(index as nat).retainable(usize::MAX as nat),
            done ==> final(self)@ == old(self).with_cell(
                index as nat,
                old(self).cell(index as nat).retain(),
            ),
            !done ==> final(self)@ == old(self)@,
    {
        if index < self.slots.len() && self.slots[index].payload.is_some()
            && 0 < self.slots[index].handles && self.slots[index].handles < usize::MAX {
            self.slots[index].handles = self.slots[index].handles + 1;
            assert(final(self)@ =~= old(self).with_cell(
                index as nat,
                old(self).cell(index as nat).retain(),
            ));
            true
        } else {
            false
        }
    }

    fn release(&mut self, index: usize) -> (gone: Option<T>)
        requires
            old(self).wf(),
        ensures
            final(self).wf(),
            gone == old(self).cell(index as nat).released(),
            final(self)@ == old(self).with_cell(
                index as nat,
                old(self).cell(index as nat).release(),
            ),
    {
        if index >= self.slots.len() || self.slots[index].handles == 0 {
            return None;
        }
        self.slots[index].handles = self.slots[index].handles - 1;
        let gone = if self.slots[index].handles == 0 {
            self.slots[index].payload.take()
        } else {
            None
        };
        assert(final(self)@ =~= old(self).with_cell(
            index as nat,
            old(self).cell(index as nat).release(),
        ));
        gone
    }

    fn begin_read(&mut self, index: usize) -> (refusal: Option<AccessError>)
        requires
            old(self).wf(),
        ensures
            final(self).wf(),
            refusal == old(self).cell(index as nat).read_refusal(usize::MAX as nat),
            refusal is None ==> final(self)@ == old(self).with_cell(
                index as nat,
                old(self).cell(index as nat).begin_read(),
            ),
            refusal is Some ==> final(self)@ == old(self)@,
    {
        if index >= self.slots.len() || self.slots[index].payload.is_none() {
            Some(AccessError::Gone)
        } else if self.slots[index].poisoned {
            Some(AccessError::Poisoned)
        } else if self.slots[index].writer {
            Some(AccessError::Busy)
        } else if self.slots[index].readers == usize::MAX {
            Some(AccessError::Exhausted)
        } else {
            self.slots[index].readers = self.slots[index].readers + 1;
            assert(final(self)@ =~= old(self).with_cell(
                index as nat,
                old(self).cell(index as nat).begin_read(),
            ));
            None
        }
    }

    fn end_read(&mut self, index: usize)
        requires
            old(self).wf(),
        ensures
            final(self).wf(),
            final(self)@ == old(self).with_cell(
                index as nat,
                old(self).cell(index as nat).end_read(),
            ),
    {
        if index < self.slots.len() && self.slots[index].readers > 0 {
            self.slots[index].readers = self.slots[index].readers - 1;
            assert(final(self)@ =~= old(self).with_cell(
                index as nat,
                old(self).cell(index as nat).end_read(),
            ));
        }
    }

    fn begin_write(&mut self, index: usize) -> (refusal: Option<AccessError>)
        requires
            old(self).wf(),
        ensures
            final(self).wf(),
            refusal == old(self).cell(index as nat).write_refusal(),
            refusal is None ==> final(self)@ == old(self).with_cell(
                index as nat,
                old(self).cell(index as nat).begin_write(),
            ),
            refusal is Some ==> final(self)@ == old(self)@,
    {
        if index >= self.slots.len() || self.slots[index].payload.is_none() {
            Some(AccessError::Gone)
        } else if self.slots[index].poisoned {
            Some(AccessError::Poisoned)
        } else if self.slots[index].writer || self.slots[index].readers > 0 {
            Some(AccessError::Busy)
        } else {
            self.slots[index].writer = true;
            assert(final(self)@ =~= old(self).with_cell(
                index as nat,
                old(self).cell(index as nat).begin_write(),
            ));
            None
        }
    }

    fn end_write(&mut self, index: usize, complete: bool)
        requires
            old(self).wf(),
        ensures
            final(self).wf(),
            final(self)@ == old(self).with_cell(
                index as nat,
                if complete {
                    old(self).cell(index as nat).end_write()
                } else {
                    old(self).cell(index as nat).abandon_write()
                },
            ),
    {
        if index < self.slots.len() && self.slots[index].writer {
            self.slots[index].writer = false;
            if !complete {
                self.slots[index].poisoned = true;
            }
            assert(final(self)@ =~= old(self).with_cell(
                index as nat,
                if complete {
                    old(self).cell(index as nat).end_write()
                } else {
                    old(self).cell(index as nat).abandon_write()
                },
            ));
        }
    }
}

impl<T> Handle<T> {
    /// The cell that this handle refers to, as its place in the arena.
    pub closed spec fn id(&self) -> nat {
        self.index as nat
    }

    /// Moves `contents` into a new cell of `arena` and returns the one handle
    /// to it.
    pub fn wrap(arena: &mut Arena<T>, contents: T) -> (handle: Handle<T>)
        requires
            old(arena).wf(),
        ensures
            final(arena).wf(),
            final(arena)@ == old(arena)@.push(CellState::fresh(contents)),
            handle.id() == old(arena)@.len(),
    {
        let index = arena.slots.len();
        arena.slots.push(
            Slot { payload: Some(contents), handles: 1, readers: 0, writer: false, poisoned: false },
        );
        assert(final(arena)@ =~= old(arena)@.push(CellState::fresh(contents)));
        Handle { index, owner: PhantomData }
    }

    /// A further handle to the same cell: to the same payload, not to a copy
    /// of it. There is none if the cell has no handle (its payload is gone
    /// then), or if the machine cannot count one handle more.
    pub fn clone(&self, arena: &mut Arena<T>) -> (twin: Option<Handle<T>>)
        requires
            old(arena).wf(),
        ensures
            final(arena).wf(),
            twin is Some <==> old(arena).cell(self.id()).retainable(usize::MAX as nat),
            twin matches Some(h) ==> h.id() == self.id(),
            twin is Some ==> final(arena)@ == old(arena).with_cell(
                self.id(),
                old(arena).cell(self.id()).retain(),
            ),
            twin is None ==> final(arena)@ == old(arena)@,
    {
        if arena.retain(self.index) {
            Some(Handle { index: self.index, owner: PhantomData })
        } else {
            None
        }
    }

    /// Gives this handle up. If it was the last handle to the payload, the
    /// payload leaves the arena and is returned, for the caller to destroy,
    /// whether somebody looks at it or not; this happens to a payload once.
    /// A view that is still out finds nothing from then on.
    pub fn release(self, arena: &mut Arena<T>) -> (gone: Option<T>)
        requires
            old(arena).wf(),
        ensures
            final(arena).wf(),
            gone == old(arena).cell(self.id()).released(),
            final(arena)@ == old(arena).with_cell(
                self.id(),
                old(arena).cell(self.id()).release(),
            ),
    {
        arena.release(self.index)
    }

    /// Asks for a read view of the payload. Any number of readers share a
    /// cell; a writer excludes them.
    pub fn borrow(&self, arena: &mut Arena<T>) -> (result: Result<ReadView<T>, AccessError>)
        requires
            old(arena).wf(),
        ensures
            final(arena).wf(),
            match result {
                Ok(view) => {
                    &&& old(arena).cell(self.id()).read_refusal(usize::MAX as nat) is None
                    &&& view.id() == self.id()
                    &&& final(arena)@ == old(arena).with_cell(
                        self.id(),
                        old(arena).cell(self.id()).begin_read(),
                    )
                },
                Err(e) => {
                    &&& old(arena).cell(self.id()).read_refusal(usize::MAX as nat) == Some(e)
                    &&& final(arena)@ == old(arena)@
                },
            },
    {
        match arena.begin_read(self.index) {
            None => Ok(ReadView { index: self.index, owner: PhantomData }),
            Some(e) => Err(e),
        }
    }

    /// Asks for the write view of the payload. It is granted when nobody else
    /// holds a view of either kind.
    pub fn borrow_mut(&mut self, arena: &mut Arena<T>) -> (result: Result<
        WriteView<T>,
        AccessError,
    >)
        requires
            old(arena).wf(),
        ensures
            final(arena).wf(),
            final(self).id() == old(self).id(),
            match result {
                Ok(view) => {
                    &&& old(arena).cell(old(self).id()).write_refusal() is None
                    &&& view.id() == old(self).id()
                    &&& final(arena)@ == old(arena).with_cell(
                        old(self).id(),
                        old(arena).cell(old(self).id()).begin_write(),
                    )
                },
                Err(e) => {
                    &&& old(arena).cell(old(self).id()).write_refusal() == Some(e)
                    &&& final(arena)@ == old(arena)@
                },
            },
    {
        match arena.begin_write(self.index) {
            None => Ok(WriteView { index: self.index, owner: PhantomData }),
            Some(e) => Err(e),
        }
    }

    /// A weak reference to the same cell. It is not counted as a handle, and
    /// changes nothing in the arena.
    pub fn downgrade(&self) -> (weak: WeakHandle<T>)
        ensures
            weak.id() == self.id(),
    {
        WeakHandle { index: self.index, owner: PhantomData }
    }

    /// The number of handles to the cell: its strong count.
    pub fn strong_count(&self, arena: &Arena<T>) -> (n: usize)
        ensures
            n == arena.cell(self.id()).handles,
    {
        if self.index < arena.slots.len() {
            arena.slots[self.index].handles
        } else {
            0
        }
    }
}

impl<T> WeakHandle<T> {
    /// The cell that this reference refers to, as its place in the arena.
    pub closed spec fn id(&self) -> nat {
        self.index as nat
    }

    /// A new handle to the cell, as long as there is a handle to it: at a
    /// strong count of zero there is none (nor on a machine that cannot count
    /// one handle more). A payload that has left never comes back, so neither
    /// does a handle to it.
    pub fn upgrade(&self, arena: &mut Arena<T>) -> (strong: Option<Handle<T>>)
        requires
            old(arena).wf(),
        ensures
            final(arena).wf(),
            strong is Some <==> old(arena).cell(self.id()).retainable(usize::MAX as nat),
            strong matches Some(h) ==> h.id() == self.id(),
            strong is Some ==> final(arena)@ == old(arena).with_cell(
                self.id(),
                old(arena).cell(self.id()).retain(),
            ),
            strong is None ==> final(arena)@ == old(arena)@,
    {
        if arena.retain(self.index) {
            Some(Handle { index: self.index, owner: PhantomData })
        } else {
            None
        }
    }
}

impl<T> WeakHandle<T> {
    /// Whether the payload still exists: whether there is a handle to it.
    pub fn is_alive(&self, arena: &Arena<T>) -> (alive: bool)
        ensures
            alive == arena.cell(self.id()).alive(),
    {
        self.index < arena.slots.len() && arena.slots[self.index].payload.is_some()
    }
}

impl<T> Clone for WeakHandle<T> {
    fn clone(&self) -> (twin: Self)
        ensures
            twin == *self,
    {
        WeakHandle { index: self.index, owner: PhantomData }
    }
}

impl<T> Copy for WeakHandle<T> {

}

impl<T> ReadView<T> {
    /// The cell that this view looks at.
    pub closed spec fn id(&self) -> nat {
        self.index as nat
    }

    /// The payload, as long as a reader is counted on the cell and the
    /// payload has not left with its last handle.
    pub fn get<'a>(&self, arena: &'a Arena<T>) -> (payload: Option<&'a T>)
        ensures
            payload is Some <==> arena.cell(self.id()).seen_by_reader() is Some,
            payload matches Some(p) ==> arena.cell(self.id()).seen_by_reader() == Some(*p),
    {
        if self.index < arena.slots.len() && arena.slots[self.index].readers > 0 {
            arena.slots[self.index].payload.as_ref()
        } else {
            None
        }
    }

    /// Gives the view back: one reader fewer is counted on the cell.
    pub fn end(self, arena: &mut Arena<T>)
        requires
            old(arena).wf(),
        ensures
            final(arena).wf(),
            final(arena)@ == old(arena).with_cell(
                self.id(),
                old(arena).cell(self.id()).end_read(),
            ),
    {
        arena.end_read(self.index)
    }
}

impl<T> WriteView<T> {
    /// The cell that this view looks at.
    pub closed spec fn id(&self) -> nat {
        self.index as nat
    }

    /// The payload, as long as the writer is counted on the cell and the
    /// payload has not left with its last handle.
    pub fn get<'a>(&self, arena: &'a Arena<T>) -> (payload: Option<&'a T>)
        ensures
            payload is Some <==> arena.cell(self.id()).seen_by_writer() is Some,
            payload matches Some(p) ==> arena.cell(self.id()).seen_by_writer() == Some(*p),
    {
        if self.index < arena.slots.len() && arena.slots[self.index].writer {
            arena.slots[self.index].payload.as_ref()
        } else {
            None
        }
    }

    /// The payload, to be changed in place, as long as the writer is counted
    /// on the cell and the payload has not left with its last handle. What
    /// the caller leaves there is what the cell holds from then on.
    pub fn get_mut<'a>(&mut self, arena: &'a mut Arena<T>) -> (payload: Option<&'a mut T>)
        requires
            old(arena).wf(),
        ensures
            final(self).id() == old(self).id(),
            payload is Some <==> old(arena).cell(old(self).id()).seen_by_writer() is Some,
            payload matches Some(p) ==> old(arena).cell(old(self).id()).seen_by_writer() == Some(
                *p,
            ),
            payload matches Some(p) ==> final(arena)@ == old(arena).with_cell(
                old(self).id(),
                old(arena).cell(old(self).id()).put(*final(p)),
            ),
            payload is None ==> final(arena)@ == old(arena)@,
            final(arena).wf(),
    {
        assert(forall|i: int|
            0 <= i < arena.slots@.len() ==> (#[trigger] arena.slots@[i]).state() == arena@[i]);
        if self.index < arena.slots.len() && arena.slots[self.index].writer {
            arena.slots[self.index].payload.as_mut()
        } else {
            None
        }
    }

    /// Gives the view back after a complete update: no writer is counted on
    /// the cell any more.
    pub fn end(self, arena: &mut Arena<T>)
        requires
            old(arena).wf(),
        ensures
            final(arena).wf(),
            final(arena)@ == old(arena).with_cell(
                self.id(),
                old(arena).cell(self.id()).end_write(),
            ),
    {
        arena.end_write(self.index, true)
    }

    /// Gives the view back in the middle of an update, as a writer does that
    /// fails half way. The cell is poisoned: no view of it is granted again.
    pub fn abandon(self, arena: &mut Arena<T>)
        requires
            old(arena).wf(),
        ensures
            final(arena).wf(),
            final(arena)@ == old(arena).with_cell(
                self.id(),
                old(arena).cell(self.id()).abandon_write(),
            ),
    {
        arena.end_write(self.index, false)
    }
}

} // verus!
