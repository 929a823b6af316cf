//! The cell in which a request keeps the task that waits for it.

use futures::task::AtomicWaker;
use std::task::Waker;
use vstd::prelude::*;

verus! {

/// `std::task::Waker`, a handle that wakes one task. Opaque here.
#[verifier::external_type_specification]
#[verifier::external_body]
pub struct ExWaker(Waker);

/// `futures::task::AtomicWaker`, a cell for at most one waker. Opaque here.
#[verifier::external_type_specification]
#[verifier::external_body]
pub struct ExAtomicWaker(AtomicWaker);

/// The task that a waker wakes. A clone of a waker wakes the same task, and so
/// does every waker of which `Waker::will_wake` says so.
pub uninterp spec fn task_of(waker: Waker) -> nat;

/// The task whose waker a cell holds, if it holds one.
pub uninterp spec fn waiting_task(cell: AtomicWaker) -> Option<nat>;

/// `AtomicWaker::new`: the cell holds no waker.
#[verifier::external_body]
pub(crate) fn empty_cell() -> (cell: AtomicWaker)
    ensures
        waiting_task(cell) is None,
{
    AtomicWaker::new()
}

/// `AtomicWaker::register`, by the one owner of the cell: the task of `waker`
/// takes the place of whichever task the cell held. The cell keeps a clone of
/// `waker`, or the waker that it had where that one wakes the same task.
#[verifier::external_body]
pub(crate) fn register(cell: &mut AtomicWaker, waker: &Waker)
    ensures
        waiting_task(*final(cell)) == Some(task_of(*waker)),
{
    cell.register(waker)
}

/// `AtomicWaker::take`, by the one owner of the cell: hands out the waker that
/// the cell holds, if any, and leaves the cell empty.
#[verifier::external_body]
pub(crate) fn take_waker(cell: &mut AtomicWaker) -> (waker: Option<Waker>)
    ensures
        waiting_task(*final(cell)) is None,
        wakes(waker, waiting_task(*old(cell))),
{
    cell.take()
}

/// A waker wakes its own task and no other, and no waker wakes no task.
pub proof fn waker_wakes_its_own_task(waker: Waker, task: Option<nat>)
    ensures
        wakes(Some(waker), task) <==> task == Some(task_of(waker)),
        wakes(None, task) <==> task == None::<nat>,
{
}

/// Whether `waker` wakes `task`: it is a waker of that task, or there is neither
/// a waker nor a task.
pub open spec fn wakes(waker: Option<Waker>, task: Option<nat>) -> bool {
    match waker {
        Some(waker) => task == Some(task_of(waker)),
        None => task is None,
    }
}

} // verus!
