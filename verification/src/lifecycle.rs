//! What holds of a handle over its whole life, proved from the contracts of
//! `set_field`, `get_field`, `drop_reference` and `take_field`.

use vstd::prelude::*;
use crate::error::Error;
use crate::interop::{
    abandoned, borrow_result, borrowed, cell_at, dropped, field_after_release, installed,
    next_address, release_result, release_waits, released, stored, visible_value, HeapState,
};
use crate::lock::{ReentrantReference, Turn};

verus! {

/// A value that was installed is the value that the next borrow sees: the
/// borrow takes the lock for the caller, whoever it is, and the caller then
/// reads exactly what was installed.
pub proof fn lemma_install_then_borrow<T>(heap: HeapState<T>, val: T, thread: u64)
    requires
        next_address(heap) <= u64::MAX,
    ensures
        ({
            let ptr = next_address(heap) as u64;
            let before = installed(heap, val);
            let after = borrowed(before, ptr, thread);
            &&& borrow_result(before, ptr, thread) == Ok::<Turn<ReentrantReference>, Error>(
                Turn::Ready(ReentrantReference::Locked(thread)),
            )
            &&& visible_value(after, ptr, thread) == Some(val)
        }),
{
}

/// Installing a value leaves every cell that was there before as it was.
pub proof fn lemma_install_keeps_others<T>(heap: HeapState<T>, val: T, ptr: u64)
    requires
        ptr != next_address(heap),
    ensures
        cell_at(installed(heap, val), ptr) == cell_at(heap, ptr),
{
}

/// Releasing twice is harmless: once a release went through, the field is
/// empty, and a further release by any thread finds nothing, changes
/// nothing and does not fail.
pub proof fn lemma_release_is_idempotent<T>(heap: HeapState<T>, ptr: u64, first: u64, second: u64)
    requires
        !release_waits(heap, ptr, first),
    ensures
        ({
            let after = released(heap, ptr, first);
            let field = field_after_release(heap, ptr, first);
            &&& field == 0
            &&& release_result(after, field, second) == Ok::<Turn<Option<T>>, Error>(Turn::Ready(None))
            &&& released(after, field, second) == after
            &&& field_after_release(after, field, second) == 0
        }),
{
}

/// A release that went through never leaves the value behind: the address
/// that the field held is dead from then on, so the value cannot come out
/// a second time through any copy of it.
pub proof fn lemma_release_frees_once<T>(heap: HeapState<T>, ptr: u64, first: u64, second: u64)
    requires
        !release_waits(heap, ptr, first),
    ensures
        cell_at(released(heap, ptr, first), ptr) is None,
        release_result(released(heap, ptr, first), ptr, second) == Ok::<Turn<Option<T>>, Error>(
            Turn::Ready(None),
        ),
{
}

/// A borrow through a field that was never installed fails as a closed
/// handle and changes nothing.
pub proof fn lemma_borrow_of_empty_field<T>(heap: HeapState<T>, thread: u64)
    ensures
        borrow_result(heap, 0, thread) == Err::<Turn<ReentrantReference>, Error>(Error::ClosedHandle),
        borrowed(heap, 0, thread) == heap,
{
}

/// A borrow after a release fails as a closed handle and changes nothing,
/// through the emptied field and through a stale copy of the old address.
pub proof fn lemma_borrow_after_release<T>(heap: HeapState<T>, ptr: u64, releaser: u64, thread: u64)
    requires
        !release_waits(heap, ptr, releaser),
    ensures
        ({
            let after = released(heap, ptr, releaser);
            let field = field_after_release(heap, ptr, releaser);
            &&& borrow_result(after, field, thread) == Err::<Turn<ReentrantReference>, Error>(
                Error::ClosedHandle,
            )
            &&& borrowed(after, field, thread) == after
            &&& borrow_result(after, ptr, thread) == Err::<Turn<ReentrantReference>, Error>(
                Error::ClosedHandle,
            )
            &&& borrowed(after, ptr, thread) == after
        }),
{
}

/// Two threads never share a critical section. While `first` holds the lock
/// that it took, a borrow by another thread has to wait and changes nothing;
/// once `first` has dropped its reference, the same borrow takes the lock.
pub proof fn lemma_borrows_serialize<T>(heap: HeapState<T>, ptr: u64, first: u64, second: u64)
    requires
        first != second,
        borrow_result(heap, ptr, first) == Ok::<Turn<ReentrantReference>, Error>(
            Turn::Ready(ReentrantReference::Locked(first)),
        ),
    ensures
        ({
            let held = borrowed(heap, ptr, first);
            let freed = dropped(held, ptr, ReentrantReference::Locked(first));
            &&& borrow_result(held, ptr, second) == Ok::<Turn<ReentrantReference>, Error>(Turn::Wait)
            &&& borrowed(held, ptr, second) == held
            &&& visible_value(held, ptr, second) is None
            &&& borrow_result(freed, ptr, second) == Ok::<Turn<ReentrantReference>, Error>(
                Turn::Ready(ReentrantReference::Locked(second)),
            )
        }),
{
}

/// At most one thread holds a cell: whenever two threads both see the value
/// behind an address, they are the same thread.
pub proof fn lemma_single_holder<T>(heap: HeapState<T>, ptr: u64, a: u64, b: u64)
    requires
        visible_value(heap, ptr, a) is Some,
        visible_value(heap, ptr, b) is Some,
    ensures
        a == b,
{
}

/// A release has to wait while another thread is inside the cell, and then
/// changes neither the table nor the field.
pub proof fn lemma_release_waits_for_holder<T>(heap: HeapState<T>, ptr: u64, holder: u64, thread: u64)
    requires
        holder != thread,
        visible_value(heap, ptr, holder) is Some,
    ensures
        release_result(heap, ptr, thread) == Ok::<Turn<Option<T>>, Error>(Turn::Wait),
        released(heap, ptr, thread) == heap,
        field_after_release(heap, ptr, thread) == ptr,
{
}

/// The holder may come in again. While `thread` holds the lock that it took,
/// a further borrow by the same thread is answered at once with a recursive
/// reference and changes nothing; dropping that reference leaves the lock
/// with the thread, and the value is still the one it saw before.
pub proof fn lemma_holder_reenters<T>(heap: HeapState<T>, ptr: u64, thread: u64)
    requires
        borrow_result(heap, ptr, thread) == Ok::<Turn<ReentrantReference>, Error>(
            Turn::Ready(ReentrantReference::Locked(thread)),
        ),
    ensures
        ({
            let held = borrowed(heap, ptr, thread);
            &&& borrow_result(held, ptr, thread) == Ok::<Turn<ReentrantReference>, Error>(
                Turn::Ready(ReentrantReference::Recursive(thread)),
            )
            &&& borrowed(held, ptr, thread) == held
            &&& dropped(held, ptr, ReentrantReference::Recursive(thread)) == held
            &&& visible_value(held, ptr, thread) == visible_value(
                borrowed(held, ptr, thread),
                ptr,
                thread,
            )
            &&& visible_value(held, ptr, thread) is Some
        }),
{
}

/// Released is for good. An address whose cell is gone stays dead whatever
/// is done next, through it or through any other address: installing,
/// borrowing, dropping or abandoning a reference, storing, releasing.
pub proof fn lemma_released_stays_released<T>(
    heap: HeapState<T>,
    ptr: u64,
    other: u64,
    thread: u64,
    reference: ReentrantReference,
    val: T,
)
    requires
        0 < ptr <= heap.len(),
        cell_at(heap, ptr) is None,
    ensures
        cell_at(installed(heap, val), ptr) is None,
        cell_at(borrowed(heap, other, thread), ptr) is None,
        cell_at(dropped(heap, other, reference), ptr) is None,
        cell_at(abandoned(heap, other, reference), ptr) is None,
        cell_at(stored(heap, other, thread, val), ptr) is None,
        cell_at(released(heap, other, thread), ptr) is None,
{
}

/// A live cell stays where it is: nothing but its own release takes the
/// value from its address, and nothing done through another address
/// changes it.
pub proof fn lemma_cells_do_not_interfere<T>(
    heap: HeapState<T>,
    ptr: u64,
    other: u64,
    thread: u64,
    reference: ReentrantReference,
    val: T,
)
    requires
        ptr != other,
    ensures
        cell_at(installed(heap, val), ptr) == cell_at(heap, ptr) || ptr == next_address(heap),
        cell_at(borrowed(heap, other, thread), ptr) == cell_at(heap, ptr),
        cell_at(dropped(heap, other, reference), ptr) == cell_at(heap, ptr),
        cell_at(abandoned(heap, other, reference), ptr) == cell_at(heap, ptr),
        cell_at(stored(heap, other, thread, val), ptr) == cell_at(heap, ptr),
        cell_at(released(heap, other, thread), ptr) == cell_at(heap, ptr),
{
}

/// The holder may release from inside its own critical section: it does not
/// wait for itself.
pub proof fn lemma_holder_releases<T>(heap: HeapState<T>, ptr: u64, thread: u64)
    requires
        visible_value(heap, ptr, thread) is Some,
    ensures
        !release_waits(heap, ptr, thread),
        cell_at(released(heap, ptr, thread), ptr) is None,
        field_after_release(heap, ptr, thread) == 0,
{
}

} // verus!
