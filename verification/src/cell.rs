//! The life of one shared cell, as a state machine.
//!
//! A cell guards one payload. Handles keep the payload alive: it leaves with
//! the last of them, and it leaves once. Read and write views give access to
//! it, to any number of readers or to one writer at a time. A view keeps
//! nothing alive: whether the payload exists is a matter of the handles alone,
//! and a view whose payload has left finds nothing.

use vstd::prelude::*;

verus! {

/// Why a view, or a further handle, is not to be had right now.
#[derive(Clone, Copy, Debug, PartialEq, Eq, Structural)]
pub enum AccessError {
    /// The payload is gone, or was never in this arena.
    Gone,
    /// A writer gave its view up in the middle of an update.
    Poisoned,
    /// Somebody else holds a view that excludes the one asked for. The caller
    /// waits and asks again.
    Busy,
    /// The cell already has as many handles, or as many readers, as the
    /// machine can count.
    Exhausted,
}

/// What one shared cell is at one instant.
pub struct CellState<T> {
    /// The payload, as long as there is a handle.
    pub payload: Option<T>,
    /// The number of handles: the strong count.
    pub handles: nat,
    /// The number of read views that are outstanding.
    pub readers: nat,
    /// Whether a write view is outstanding.
    pub writer: bool,
    /// Whether a writer gave its view up before its update was complete.
    pub poisoned: bool,
}

impl<T> CellState<T> {
    /// The cell that wrapping a payload makes: one handle, nobody looking.
    pub open spec fn fresh(payload: T) -> Self {
        CellState { payload: Some(payload), handles: 1, readers: 0, writer: false, poisoned: false }
    }

    /// A cell without a payload, which nobody refers to. Every operation
    /// leaves it as it is.
    pub open spec fn vacant() -> Self {
        CellState { payload: None, handles: 0, readers: 0, writer: false, poisoned: false }
    }

    /// The number of views that are outstanding, of either kind.
    pub open spec fn views(self) -> nat {
        if self.writer {
            self.readers + 1
        } else {
            self.readers
        }
    }

    /// The payload still exists.
    pub open spec fn alive(self) -> bool {
        self.payload is Some
    }

    /// What holds of every cell that the operations below can reach from a
    /// fresh one: the payload exists exactly as long as there is a handle, a
    /// writer excludes every reader, and nobody looks at a poisoned cell.
    pub open spec fn wf(self) -> bool {
        &&& self.payload is Some <==> self.handles > 0
        &&& self.writer ==> self.readers == 0
        &&& self.poisoned ==> self.views() == 0
    }

    /// A reader can be let in: the payload exists, no writer is at work and
    /// none gave up half way.
    pub open spec fn readable(self) -> bool {
        self.alive() && !self.poisoned && !self.writer
    }

    /// A writer can be let in: a reader could be, and none is there.
    pub open spec fn writable(self) -> bool {
        self.readable() && self.readers == 0
    }

    /// Why a reader is turned away, if it is, on a machine that counts up to
    /// `limit`.
    pub open spec fn read_refusal(self, limit: nat) -> Option<AccessError> {
        if !self.alive() {
            Some(AccessError::Gone)
        } else if self.poisoned {
            Some(AccessError::Poisoned)
        } else if self.writer {
            Some(AccessError::Busy)
        } else if self.readers >= limit {
            Some(AccessError::Exhausted)
        } else {
            None
        }
    }

    /// Why a writer is turned away, if it is.
    pub open spec fn write_refusal(self) -> Option<AccessError> {
        if !self.alive() {
            Some(AccessError::Gone)
        } else if self.poisoned {
            Some(AccessError::Poisoned)
        } else if self.writer || self.readers > 0 {
            Some(AccessError::Busy)
        } else {
            None
        }
    }

    /// A further handle can be made on a machine that counts up to `limit`:
    /// the payload exists, there is a handle already, and one more can be
    /// counted.
    pub open spec fn retainable(self, limit: nat) -> bool {
        self.alive() && 0 < self.handles < limit
    }

    /// One more handle, if there is one already. A cell without handles
    /// stays without.
    pub open spec fn retain(self) -> Self {
        if self.alive() && self.handles > 0 {
            CellState { handles: self.handles + 1, ..self }
        } else {
            self
        }
    }

    /// A handle is given up. With the last handle the payload leaves,
    /// whoever looks at it.
    pub open spec fn release(self) -> Self {
        if self.handles == 1 {
            CellState { handles: 0, payload: None, ..self }
        } else if self.handles > 1 {
            CellState { handles: (self.handles - 1) as nat, ..self }
        } else {
            self
        }
    }

    /// The payload that leaves the cell when a handle is given up: the
    /// payload itself if the handle was the last, nothing otherwise.
    pub open spec fn released(self) -> Option<T> {
        if self.handles == 1 {
            self.payload
        } else {
            None
        }
    }

    /// What a view finds: the payload, if it is still there.
    pub open spec fn seen_by_reader(self) -> Option<T> {
        if self.readers > 0 {
            self.payload
        } else {
            None
        }
    }

    /// What the writer finds: the payload, if it is still there.
    pub open spec fn seen_by_writer(self) -> Option<T> {
        if self.writer {
            self.payload
        } else {
            None
        }
    }

    /// A reader arrives. It is let in unless a writer is at work, the cell is
    /// poisoned or the payload is gone; otherwise nothing changes.
    pub open spec fn begin_read(self) -> Self {
        if self.readable() {
            CellState { readers: self.readers + 1, ..self }
        } else {
            self
        }
    }

    /// A reader leaves.
    pub open spec fn end_read(self) -> Self {
        if self.readers > 0 {
            CellState { readers: (self.readers - 1) as nat, ..self }
        } else {
            self
        }
    }

    /// A writer arrives. It is let in only if nobody else is looking.
    pub open spec fn begin_write(self) -> Self {
        if self.writable() {
            CellState { writer: true, ..self }
        } else {
            self
        }
    }

    /// The writer puts a new payload in place of the old one.
    pub open spec fn put(self, value: T) -> Self {
        if self.writer && self.alive() {
            CellState { payload: Some(value), ..self }
        } else {
            self
        }
    }

    /// The writer leaves with its update complete.
    pub open spec fn end_write(self) -> Self {
        if self.writer {
            CellState { writer: false, ..self }
        } else {
            self
        }
    }

    /// The writer leaves in the middle of its update. The cell is poisoned:
    /// nobody is let in again.
    pub open spec fn abandon_write(self) -> Self {
        if self.writer {
            CellState { writer: false, poisoned: true, ..self }
        } else {
            self
        }
    }

    /// `n` more handles, one after the other.
    pub open spec fn retain_n(self, n: nat) -> Self
        decreases n,
    {
        if n == 0 {
            self
        } else {
            self.retain().retain_n((n - 1) as nat)
        }
    }

    /// `n` handles given up, one after the other.
    pub open spec fn release_n(self, n: nat) -> Self
        decreases n,
    {
        if n == 0 {
            self
        } else {
            self.release().release_n((n - 1) as nat)
        }
    }

    /// How many times the payload left while `n` handles were given up, one
    /// after the other.
    pub open spec fn departures(self, n: nat) -> nat
        decreases n,
    {
        if n == 0 {
            0
        } else if self.released() is Some {
            1 + self.release().departures((n - 1) as nat)
        } else {
            self.release().departures((n - 1) as nat)
        }
    }

    /// `n` readers arrive, one after the other.
    pub open spec fn begin_read_n(self, n: nat) -> Self
        decreases n,
    {
        if n == 0 {
            self
        } else {
            self.begin_read().begin_read_n((n - 1) as nat)
        }
    }

    /// `n` readers leave, one after the other.
    pub open spec fn end_read_n(self, n: nat) -> Self
        decreases n,
    {
        if n == 0 {
            self
        } else {
            self.end_read().end_read_n((n - 1) as nat)
        }
    }
}

/// The cell `id` among `cells`. A cell that was never made is vacant.
pub open spec fn cell_at<T>(cells: Seq<CellState<T>>, id: nat) -> CellState<T> {
    if id < cells.len() {
        cells[id as int]
    } else {
        CellState::vacant()
    }
}

/// `cells` with `next` in place of the cell `id`, if there is such a cell.
pub open spec fn with_cell<T>(cells: Seq<CellState<T>>, id: nat, next: CellState<T>) -> Seq<
    CellState<T>,
> {
    if id < cells.len() {
        cells.update(id as int, next)
    } else {
        cells
    }
}

/// Every one of `cells` is in a state that the operations can reach.
pub open spec fn all_wf<T>(cells: Seq<CellState<T>>) -> bool {
    forall|i: int| 0 <= i < cells.len() ==> (#[trigger] cells[i]).wf()
}

/// Every operation takes a well-formed cell to a well-formed cell: the payload
/// exists exactly as long as there is a handle, and at no instant do a writer
/// and a reader look at it together.
pub proof fn law_operations_keep_wf<T>(s: CellState<T>, value: T)
    requires
        s.wf(),
    ensures
        CellState::fresh(value).wf(),
        CellState::<T>::vacant().wf(),
        s.retain().wf(),
        s.release().wf(),
        s.begin_read().wf(),
        s.end_read().wf(),
        s.begin_write().wf(),
        s.put(value).wf(),
        s.end_write().wf(),
        s.abandon_write().wf(),
{
}

/// A payload that has left does not come back: no operation makes a dead cell
/// alive, and none makes a new handle to it.
pub proof fn law_dead_stays_dead<T>(s: CellState<T>, value: T, limit: nat)
    requires
        !s.alive(),
    ensures
        !s.retainable(limit),
        s.read_refusal(limit) == Some(AccessError::Gone),
        s.write_refusal() == Some(AccessError::Gone),
        s.retain() == s,
        s.begin_read() == s,
        s.begin_write() == s,
        s.put(value) == s,
        !s.release().alive(),
        !s.end_read().alive(),
        !s.end_write().alive(),
        !s.abandon_write().alive(),
        s.released() is None,
        s.seen_by_reader() is None,
        s.seen_by_writer() is None,
        s.end_read().seen_by_reader() is None,
{
}

/// What `n` further handles make of a cell that is alive.
pub proof fn lemma_retain_n<T>(s: CellState<T>, n: nat)
    requires
        s.alive(),
        s.handles > 0,
    ensures
        s.retain_n(n) == (CellState { handles: s.handles + n, ..s }),
    decreases n,
{
    if n > 0 {
        lemma_retain_n(s.retain(), (n - 1) as nat);
    }
}

/// Giving up handles one after the other, whoever looks at the cell: as long
/// as one handle is left the payload stays where it is, untouched; it leaves
/// with the last handle, and it leaves once, however many more handles are
/// given up after that.
pub proof fn lemma_release_n<T>(s: CellState<T>, n: nat)
    requires
        s.wf(),
    ensures
        n < s.handles ==> s.release_n(n) == (CellState { handles: (s.handles - n) as nat, ..s })
            && s.departures(n) == 0,
        n >= s.handles ==> s.release_n(n) == (CellState { handles: 0, payload: None, ..s }),
        n >= s.handles && s.handles > 0 ==> s.departures(n) == 1,
        s.handles == 0 ==> s.departures(n) == 0,
    decreases n,
{
    if n > 0 {
        lemma_release_n(s.release(), (n - 1) as nat);
    }
}

/// Wrapping a payload and giving the handle up at once makes the payload
/// leave, and makes it leave exactly once: giving up more handles after that
/// brings nothing out again.
pub proof fn law_wrap_then_release<T>(payload: T, n: nat)
    requires
        n >= 1,
    ensures
        CellState::fresh(payload).released() == Some(payload),
        !CellState::fresh(payload).release().alive(),
        CellState::fresh(payload).departures(n) == 1,
{
    lemma_release_n(CellState::fresh(payload), n);
}

/// With `n` clones of a handle, the payload stays until all `n + 1` handles
/// are given up: after `k <= n` of them it is still there and has not left
/// once; the last one makes it leave; and it has left exactly once however
/// many handles `m > n` are given up.
pub proof fn law_clones_share_one_payload<T>(payload: T, n: nat, k: nat, m: nat)
    requires
        n >= 1,
        k <= n,
        m > n,
    ensures
        CellState::fresh(payload).retain_n(n).handles == n + 1,
        CellState::fresh(payload).retain_n(n).payload == Some(payload),
        CellState::fresh(payload).retain_n(n).release_n(k).payload == Some(payload),
        CellState::fresh(payload).retain_n(n).departures(k) == 0,
        CellState::fresh(payload).retain_n(n).release_n(n).released() == Some(payload),
        !CellState::fresh(payload).retain_n(n).release_n(m).alive(),
        CellState::fresh(payload).retain_n(n).departures(m) == 1,
{
    let s = CellState::fresh(payload).retain_n(n);
    lemma_retain_n(CellState::fresh(payload), n);
    lemma_release_n(s, k);
    lemma_release_n(s, n);
    lemma_release_n(s, m);
}

/// A weak reference made while the payload was alive finds nothing once the
/// last handle is given up, whether somebody looks at the cell or not: the
/// payload has left with that handle, the cell is dead, no handle can be made
/// to it on any machine, asking changes nothing, and a view that is still
/// out finds nothing.
pub proof fn law_upgrade_after_last_release<T>(s: CellState<T>, limit: nat)
    requires
        s.wf(),
        s.handles == 1,
    ensures
        s.released() == s.payload,
        s.payload is Some,
        !s.release().alive(),
        !s.release().retainable(limit),
        s.release().retain() == s.release(),
        s.release().seen_by_reader() is None,
        s.release().seen_by_writer() is None,
{
}

/// A handle can be made exactly where there is one: at a strong count of
/// zero a weak reference finds nothing, on any machine; above zero it finds
/// the payload, on a machine that can count one handle more, and the strong
/// count goes up by one.
pub proof fn law_upgrade_follows_strong_count<T>(s: CellState<T>, limit: nat)
    requires
        s.wf(),
    ensures
        s.handles == 0 ==> !s.retainable(limit) && s.retain() == s,
        0 < s.handles < limit ==> s.retainable(limit) && s.retain().handles == s.handles + 1
            && s.retain().payload == s.payload && s.payload is Some,
{
}

/// While a writer holds its view, a reader that asks is told to wait and
/// changes nothing, and so is a second writer. Once the writer has put its
/// value and given the view back, a reader is let in (on a machine that can
/// count one reader) and finds that value, whole.
pub proof fn law_writer_excludes_readers<T>(s: CellState<T>, value: T, limit: nat)
    requires
        s.wf(),
        s.writer,
        s.alive(),
        limit > 0,
    ensures
        s.read_refusal(limit) == Some(AccessError::Busy),
        s.begin_read() == s,
        s.write_refusal() == Some(AccessError::Busy),
        s.begin_write() == s,
        s.put(value).read_refusal(limit) == Some(AccessError::Busy),
        s.put(value).end_write().read_refusal(limit) is None,
        s.put(value).end_write().begin_read().seen_by_reader() == Some(value),
        s.put(value).end_write().begin_read().readers == 1,
{
}

/// A writer that gives its view up in the middle of an update leaves the
/// cell poisoned. From then on a reader and a writer that ask are told so,
/// whatever else happens to the cell, while handles are made and given up as
/// before; the payload, as far as the writer got with it, is still there for
/// the last handle to take away.
pub proof fn law_abandoned_write_poisons<T>(s: CellState<T>, limit: nat)
    requires
        s.wf(),
        s.writer,
        s.alive(),
    ensures
        s.abandon_write().poisoned,
        s.abandon_write().payload == s.payload,
        s.abandon_write().handles == s.handles,
        s.abandon_write().read_refusal(limit) == Some(AccessError::Poisoned),
        s.abandon_write().write_refusal() == Some(AccessError::Poisoned),
        s.abandon_write().begin_read() == s.abandon_write(),
        s.abandon_write().begin_write() == s.abandon_write(),
        s.abandon_write().retain().poisoned,
        s.abandon_write().release().poisoned,
        s.abandon_write().retain().handles == s.handles + 1,
{
}

/// What `n` readers in a row make of a cell that lets readers in: all of them
/// are let in, and nothing else changes.
pub proof fn lemma_begin_read_n<T>(s: CellState<T>, n: nat)
    requires
        s.readable(),
    ensures
        s.begin_read_n(n) == (CellState { readers: s.readers + n, ..s }),
        s.begin_read_n(n).readable(),
    decreases n,
{
    if n > 0 {
        lemma_begin_read_n(s.begin_read(), (n - 1) as nat);
    }
}

/// What `n` readers leaving make of a cell that has at least `n` readers:
/// nothing changes but their number.
pub proof fn lemma_end_read_n<T>(s: CellState<T>, n: nat)
    requires
        n <= s.readers,
    ensures
        s.end_read_n(n) == (CellState { readers: (s.readers - n) as nat, ..s }),
    decreases n,
{
    if n > 0 {
        lemma_end_read_n(s.end_read(), (n - 1) as nat);
    }
}

/// With readers out and no writer, one more reader is let in without waiting
/// for anybody to leave, on a machine that can count one reader more. The
/// readers are then one more, and all of them find the same payload,
/// unchanged.
pub proof fn law_one_more_reader<T>(s: CellState<T>, limit: nat)
    requires
        s.wf(),
        s.alive(),
        s.readers >= 1,
        !s.writer,
        s.readers < limit,
    ensures
        s.read_refusal(limit) is None,
        s.begin_read().readers == s.readers + 1,
        s.begin_read().seen_by_reader() == s.payload,
        s.seen_by_reader() == s.payload,
        s.begin_read().handles == s.handles,
{
}

/// Any number of readers hold views of one cell together, and a writer that
/// asks meanwhile is told to wait until the last of them has left. With `k`
/// readers in, one more is let in without waiting, on a machine that can count
/// `k + 1` of them, and all find the same payload, unchanged. With `n` readers
/// let in and `k < n` of them gone again, the writer is refused and changes
/// nothing; with all `n` gone, the cell is as it was before the first came,
/// and the writer is let in.
pub proof fn law_readers_share<T>(s: CellState<T>, n: nat, k: nat, limit: nat)
    requires
        s.wf(),
        s.writable(),
        k < n,
    ensures
        s.begin_read_n(n).readers == n,
        s.begin_read_n(n).seen_by_reader() == s.payload,
        s.begin_read_n(k).readable(),
        k < limit ==> s.begin_read_n(k).read_refusal(limit) is None,
        s.begin_read_n(k).begin_read() == s.begin_read_n(k + 1),
        s.begin_read_n(k + 1).readers == k + 1,
        s.begin_read_n(k + 1).seen_by_reader() == s.payload,
        s.begin_read_n(n).end_read_n(k).readers == n - k,
        s.begin_read_n(n).end_read_n(k).write_refusal() == Some(AccessError::Busy),
        s.begin_read_n(n).end_read_n(k).begin_write() == s.begin_read_n(n).end_read_n(k),
        s.begin_read_n(n).end_read_n(n) == s,
        s.begin_read_n(n).end_read_n(n).write_refusal() is None,
        s.begin_read_n(n).end_read_n(n).begin_write().writer,
{
    lemma_begin_read_n(s, n);
    lemma_begin_read_n(s, k);
    lemma_begin_read_n(s, k + 1);
    lemma_end_read_n(s.begin_read_n(n), k);
    lemma_end_read_n(s.begin_read_n(n), n);
}

} // verus!
