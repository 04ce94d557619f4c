//! Moving native values in and out of a field of a host object.
//!
//! The field holds an address into a side table of cells. Zero is the empty
//! field. An address is handed out once and never again, so a field that
//! outlives its cell finds nothing, not somebody else's value.

use vstd::prelude::*;
use crate::error::Error;
use crate::lock::{CellState, ReentrantLock, ReentrantReference, Turn};

verus! {

/// The side table as contracts see it: the cell at address `a` is entry `a - 1`.
pub type HeapState<T> = Seq<Option<CellState<T>>>;

/// A cell as `set_field` makes it: the value inside, the lock free.
pub open spec fn fresh_cell<T>(val: T) -> CellState<T> {
    CellState { value: val, owner: None, poisoned: false }
}

/// The live cell that `ptr` addresses, if there is one.
pub open spec fn cell_at<T>(heap: HeapState<T>, ptr: u64) -> Option<CellState<T>> {
    if 0 < ptr <= heap.len() {
        heap[ptr - 1]
    } else {
        None
    }
}

/// The table after a cell for `val` was added.
pub open spec fn installed<T>(heap: HeapState<T>, val: T) -> HeapState<T> {
    heap.push(Some(fresh_cell(val)))
}

/// The address that the next cell of `heap` gets.
pub open spec fn next_address<T>(heap: HeapState<T>) -> nat {
    heap.len() + 1
}

/// What `get_field` answers for a field that holds `ptr`.
pub open spec fn borrow_result<T>(heap: HeapState<T>, ptr: u64, thread: u64) -> Result<
    Turn<ReentrantReference>,
    Error,
> {
    match cell_at(heap, ptr) {
        None => Err(Error::ClosedHandle),
        Some(cell) => cell.lock_result(thread),
    }
}

/// The table after `get_field` on a field that holds `ptr`.
pub open spec fn borrowed<T>(heap: HeapState<T>, ptr: u64, thread: u64) -> HeapState<T> {
    match cell_at(heap, ptr) {
        None => heap,
        Some(cell) => heap.update(ptr - 1, Some(cell.after_lock(thread))),
    }
}

/// The table after a reference got through a field that holds `ptr` was dropped.
pub open spec fn dropped<T>(heap: HeapState<T>, ptr: u64, reference: ReentrantReference) -> HeapState<T> {
    match cell_at(heap, ptr) {
        None => heap,
        Some(cell) => heap.update(ptr - 1, Some(cell.after_unlock(reference))),
    }
}

/// The table after a holder that failed let go of its reference.
pub open spec fn abandoned<T>(heap: HeapState<T>, ptr: u64, reference: ReentrantReference) -> HeapState<T> {
    match cell_at(heap, ptr) {
        None => heap,
        Some(cell) => heap.update(ptr - 1, Some(cell.after_abandon(reference))),
    }
}

/// That `take_field` by `thread` has to wait: another thread is in the cell.
pub open spec fn release_waits<T>(heap: HeapState<T>, ptr: u64, thread: u64) -> bool {
    cell_at(heap, ptr) matches Some(cell) && cell.owner matches Some(holder) && holder != thread
}

/// What `take_field` answers for a field that holds `ptr`.
pub open spec fn release_result<T>(heap: HeapState<T>, ptr: u64, thread: u64) -> Result<
    Turn<Option<T>>,
    Error,
> {
    match cell_at(heap, ptr) {
        None => Ok(Turn::Ready(None)),
        Some(cell) => if release_waits(heap, ptr, thread) {
            Ok(Turn::Wait)
        } else if cell.poisoned {
            Err(Error::LockPoisoned)
        } else {
            Ok(Turn::Ready(Some(cell.value)))
        },
    }
}

/// The table after `take_field` on a field that holds `ptr`.
pub open spec fn released<T>(heap: HeapState<T>, ptr: u64, thread: u64) -> HeapState<T> {
    if cell_at(heap, ptr) is Some && !release_waits(heap, ptr, thread) {
        heap.update(ptr - 1, None)
    } else {
        heap
    }
}

/// What the field holds after `take_field` found `ptr` in it.
pub open spec fn field_after_release<T>(heap: HeapState<T>, ptr: u64, thread: u64) -> u64 {
    if release_waits(heap, ptr, thread) {
        ptr
    } else {
        0
    }
}

/// The value that `thread` sees through a field that holds `ptr`.
pub open spec fn visible_value<T>(heap: HeapState<T>, ptr: u64, thread: u64) -> Option<T> {
    match cell_at(heap, ptr) {
        Some(cell) => if cell.held_by(thread) {
            Some(cell.value)
        } else {
            None
        },
        None => None,
    }
}

/// The table after `thread` stored `value` through a field that holds `ptr`.
pub open spec fn stored<T>(heap: HeapState<T>, ptr: u64, thread: u64, value: T) -> HeapState<T> {
    match cell_at(heap, ptr) {
        Some(cell) => if cell.held_by(thread) {
            heap.update(ptr - 1, Some(CellState { value: value, ..cell }))
        } else {
            heap
        },
        None => heap,
    }
}

/// The value that a borrow by `thread` reaches through a field that holds
/// `ptr`, or why it reaches none.
pub open spec fn reached<T>(heap: HeapState<T>, ptr: u64, thread: u64) -> Result<Turn<T>, Error> {
    match borrow_result(heap, ptr, thread) {
        Err(e) => Err(e),
        Ok(Turn::Wait) => Ok(Turn::Wait),
        Ok(Turn::Ready(_)) => Ok(Turn::Ready(cell_at(heap, ptr).unwrap().value)),
    }
}

/// A borrow that is dropped again leaves the table as it was, and in
/// between the borrower sees the value of the cell. A borrow that was not
/// granted changes nothing in the first place.
pub proof fn lemma_borrow_then_drop<T>(heap: HeapState<T>, ptr: u64, thread: u64)
    ensures
        borrow_result(heap, ptr, thread) matches Ok(Turn::Ready(reference)) ==> {
            &&& dropped(borrowed(heap, ptr, thread), ptr, reference) == heap
            &&& reached(heap, ptr, thread) == Ok::<Turn<T>, Error>(
                Turn::Ready(cell_at(heap, ptr).unwrap().value),
            )
            &&& visible_value(borrowed(heap, ptr, thread), ptr, thread) == Some(
                cell_at(heap, ptr).unwrap().value,
            )
        },
        !(borrow_result(heap, ptr, thread) matches Ok(Turn::Ready(_))) ==> borrowed(heap, ptr, thread)
            == heap,
{
    match borrow_result(heap, ptr, thread) {
        Ok(Turn::Ready(reference)) => {
            assert(dropped(borrowed(heap, ptr, thread), ptr, reference) =~= heap);
        },
        _ => {
            assert(borrowed(heap, ptr, thread) =~= heap);
        },
    }
}

/// The table with `value` in place of the value of the cell at `ptr`, and
/// the lock of that cell as it was.
pub open spec fn rewritten<T>(heap: HeapState<T>, ptr: u64, value: T) -> HeapState<T> {
    match cell_at(heap, ptr) {
        Some(cell) => heap.update(ptr - 1, Some(CellState { value: value, ..cell })),
        None => heap,
    }
}

/// That `after` is `before` but for the value of the live cell at `ptr`.
pub open spec fn value_replaced<T>(before: HeapState<T>, after: HeapState<T>, ptr: u64) -> bool {
    &&& cell_at(before, ptr) is Some
    &&& cell_at(after, ptr) matches Some(cell)
    &&& after == rewritten(before, ptr, cell.value)
}

/// A value stored inside a borrow stays when the borrow is dropped, and
/// nothing else of the table has changed by then.
pub proof fn lemma_store_within_borrow<T>(heap: HeapState<T>, ptr: u64, thread: u64, value: T)
    ensures
        borrow_result(heap, ptr, thread) matches Ok(Turn::Ready(reference)) ==> {
            let inside = borrowed(heap, ptr, thread);
            let after = dropped(stored(inside, ptr, thread, value), ptr, reference);
            &&& visible_value(inside, ptr, thread) is Some
            &&& after == rewritten(heap, ptr, value)
            &&& value_replaced(heap, after, ptr)
        },
{
    match borrow_result(heap, ptr, thread) {
        Ok(Turn::Ready(reference)) => {
            let inside = borrowed(heap, ptr, thread);
            let after = dropped(stored(inside, ptr, thread, value), ptr, reference);
            assert(after =~= rewritten(heap, ptr, value));
            assert(rewritten(heap, ptr, value) =~= rewritten(heap, ptr, cell_at(after, ptr).unwrap().value));
        },
        _ => {},
    }
}

/// The field of a host object that addresses a native value.
#[derive(Debug)]
pub struct HostObject {
    ptr: u64,
}

impl HostObject {
    /// What the field holds: zero, or the address of a cell.
    pub closed spec fn field(self) -> u64 {
        self.ptr
    }

    /// A host object whose field is empty.
    pub fn new() -> (obj: Self)
        ensures
            obj.field() == 0,
    {
        HostObject { ptr: 0 }
    }

    /// What the field holds: zero, or the address of a cell.
    pub fn ptr(&self) -> (ptr: u64)
        ensures
            ptr == self.field(),
    {
        self.ptr
    }

    /// Whether the field is empty.
    pub fn is_empty(&self) -> (empty: bool)
        ensures
            empty == (self.field() == 0),
    {
        self.ptr == 0
    }
}

/// The side table that owns every cell.
pub struct Heap<T> {
    cells: Vec<Option<ReentrantLock<T>>>,
}

impl<T> View for Heap<T> {
    type V = HeapState<T>;

    closed spec fn view(&self) -> HeapState<T> {
        Seq::new(
            self.cells@.len(),
            |i: int|
                match self.cells@[i] {
                    Some(cell) => Some(cell@),
                    None => None,
                },
        )
    }
}

impl<T> Heap<T> {
    /// A table without cells.
    pub fn new() -> (heap: Self)
        ensures
            heap@ == Seq::<Option<CellState<T>>>::empty(),
    {
        let heap = Heap { cells: Vec::new() };
        assert(heap@ =~= Seq::<Option<CellState<T>>>::empty());
        heap
    }

    /// How many addresses were handed out so far.
    pub fn len(&self) -> (n: usize)
        ensures
            n == self@.len(),
    {
        self.cells.len()
    }

    /// Whether `ptr` addresses a live cell.
    pub fn is_live(&self, ptr: u64) -> (live: bool)
        ensures
            live == (cell_at(self@, ptr) is Some),
    {
        match self.slot(ptr) {
            Some(i) => self.cells[i].is_some(),
            None => false,
        }
    }

    /// The index of the entry that `ptr` addresses, live or not.
    fn slot(&self, ptr: u64) -> (slot: Option<usize>)
        ensures
            slot is Some == (0 < ptr <= self@.len()),
            slot matches Some(i) ==> i == ptr - 1 && i < self.cells@.len(),
            self@.len() == self.cells@.len(),
            forall|i: int|
                0 <= i < self.cells@.len() ==> #[trigger] self@[i] == (match self.cells@[i] {
                    Some(cell) => Some(cell@),
                    None => None,
                }),
    {
        let n = self.cells.len();
        if ptr == 0 || ptr > n as u64 {
            None
        } else {
            Some((ptr - 1) as usize)
        }
    }
}

/// Gives `val` to a new cell of `heap` and returns the address of that cell.
///
/// The address is never zero and was never handed out before.
pub fn into_raw<T>(heap: &mut Heap<T>, val: T) -> (ptr: u64)
    ensures
        ptr == next_address(old(heap)@),
        ptr != 0,
        final(heap)@ == installed(old(heap)@, val),
{
    heap.cells.push(Some(ReentrantLock::new(val)));
    let n = heap.cells.len();
    assert(heap@ =~= installed(old(heap)@, val));
    n as u64
}

/// Installs `rust_object` in the field of `obj`.
///
/// Whatever the field addressed before stays in the table.
pub fn set_field<T>(heap: &mut Heap<T>, obj: &mut HostObject, rust_object: T) -> (done: Result<(), Error>)
    ensures
        done is Ok,
        final(obj).field() == next_address(old(heap)@),
        final(obj).field() != 0,
        final(heap)@ == installed(old(heap)@, rust_object),
{
    let ptr = into_raw(heap, rust_object);
    obj.ptr = ptr;
    Ok(())
}

/// Borrows the value that the field of `obj` addresses, for `thread`.
///
/// An empty or stale field is a closed handle. Otherwise the cell decides:
/// see `ReentrantLock::lock`. Only a lock that was taken changes the table.
pub fn get_field<T>(heap: &mut Heap<T>, obj: &HostObject, thread: u64) -> (outcome: Result<
    Turn<ReentrantReference>,
    Error,
>)
    ensures
        outcome == borrow_result(old(heap)@, obj.field(), thread),
        final(heap)@ == borrowed(old(heap)@, obj.field(), thread),
{
    let slot = heap.slot(obj.ptr);
    match slot {
        None => Err(Error::ClosedHandle),
        Some(i) => {
            let outcome = match &mut heap.cells[i] {
                Some(cell) => cell.lock(thread),
                None => Err(Error::ClosedHandle),
            };
            assert(heap@ =~= borrowed(old(heap)@, obj.field(), thread));
            outcome
        },
    }
}

/// Drops a reference that `get_field` handed out through the field of `obj`.
///
/// The reference that took the lock frees it; a recursive one, or one whose
/// cell is gone, changes nothing.
pub fn drop_reference<T>(heap: &mut Heap<T>, obj: &HostObject, reference: ReentrantReference)
    ensures
        final(heap)@ == dropped(old(heap)@, obj.field(), reference),
{
    let slot = heap.slot(obj.ptr);
    match slot {
        None => {},
        Some(i) => {
            match &mut heap.cells[i] {
                Some(cell) => cell.unlock(reference),
                None => {},
            };
            assert(heap@ =~= dropped(old(heap)@, obj.field(), reference));
        },
    }
}

/// Drops a reference whose holder failed inside its critical section: the
/// lock is freed and the cell is poisoned.
pub fn abandon_reference<T>(heap: &mut Heap<T>, obj: &HostObject, reference: ReentrantReference)
    ensures
        final(heap)@ == abandoned(old(heap)@, obj.field(), reference),
{
    let slot = heap.slot(obj.ptr);
    match slot {
        None => {},
        Some(i) => {
            match &mut heap.cells[i] {
                Some(cell) => cell.abandon(reference),
                None => {},
            };
            assert(heap@ =~= abandoned(old(heap)@, obj.field(), reference));
        },
    }
}

/// The value behind the field of `obj`, for the thread that holds its lock.
pub fn deref<'a, T>(heap: &'a Heap<T>, obj: &HostObject, thread: u64) -> (value: Option<&'a T>)
    ensures
        value == (match visible_value(heap@, obj.field(), thread) {
            Some(v) => Some(&v),
            None => None,
        }),
{
    match heap.slot(obj.ptr) {
        None => None,
        Some(i) => match &heap.cells[i] {
            Some(cell) => cell.get(thread),
            None => None,
        },
    }
}

/// Replaces the value behind the field of `obj`, for the thread that holds
/// its lock; for any other nothing changes and the answer is `false`.
pub fn store<T>(heap: &mut Heap<T>, obj: &HostObject, thread: u64, value: T) -> (done: bool)
    ensures
        done == (visible_value(old(heap)@, obj.field(), thread) is Some),
        final(heap)@ == stored(old(heap)@, obj.field(), thread, value),
{
    let slot = heap.slot(obj.ptr);
    match slot {
        None => false,
        Some(i) => {
            let done = match &mut heap.cells[i] {
                Some(cell) => cell.put(thread, value),
                None => false,
            };
            assert(heap@ =~= stored(old(heap)@, obj.field(), thread, value));
            done
        },
    }
}

/// Releases the value that the field of `obj` addresses and empties the field.
///
/// An empty or stale field has nothing to release. While another thread is
/// inside the cell the caller has to wait and nothing changes. Otherwise the
/// cell leaves the table for good, the field becomes empty, and the value
/// comes out, unless the cell was poisoned.
pub fn take_field<T>(heap: &mut Heap<T>, obj: &mut HostObject, thread: u64) -> (outcome: Result<
    Turn<Option<T>>,
    Error,
>)
    ensures
        outcome == release_result(old(heap)@, old(obj).field(), thread),
        final(heap)@ == released(old(heap)@, old(obj).field(), thread),
        final(obj).field() == field_after_release(old(heap)@, old(obj).field(), thread),
{
    let slot = heap.slot(obj.ptr);
    match slot {
        None => {
            obj.ptr = 0;
            Ok(Turn::Ready(None))
        },
        Some(i) => {
            let busy = match &heap.cells[i] {
                Some(cell) => match cell.holder() {
                    Some(holder) => holder != thread,
                    None => false,
                },
                None => false,
            };
            if busy {
                return Ok(Turn::Wait);
            }
            let taken = heap.cells[i].take();
            obj.ptr = 0;
            assert(heap@ =~= released(old(heap)@, old(obj).field(), thread));
            match taken {
                None => Ok(Turn::Ready(None)),
                Some(cell) => match cell.into_inner() {
                    Ok(value) => Ok(Turn::Ready(Some(value))),
                    Err(e) => Err(e),
                },
            }
        },
    }
}

} // verus!
