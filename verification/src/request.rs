//! Requests: what UCX keeps for an operation under way, and how a task waits
//! for one.

use crate::status::{Status, StatusPtr, UCS_INPROGRESS};
use crate::wake::{empty_cell, register, take_waker};
use futures::task::AtomicWaker;
use std::task::Waker;
use vstd::prelude::*;

verus! {

/// The structure that UCX stores at the address of every request.
///
/// UCX makes room for it and calls back to initialise it, as the parameters of
/// the context ask: see [`crate::ContextParams`].
pub struct Request {
    waker: AtomicWaker,
    length: usize,
}

/// What a request holds: the task that waits for it, and the number of bytes
/// that its last receive reported.
pub struct RequestView {
    pub waiting: Option<nat>,
    pub length: usize,
}

impl RequestView {
    /// No task waits, no byte was received.
    pub open spec fn initial() -> RequestView {
        RequestView { waiting: None, length: 0 }
    }

    /// After `task` has come to wait.
    pub open spec fn registered(self, task: nat) -> RequestView {
        RequestView { waiting: Some(task), ..self }
    }

    /// The task that a callback on the request wakes.
    pub open spec fn woken(self) -> Option<nat> {
        self.waiting
    }

    /// After the send callback.
    pub open spec fn sent(self) -> RequestView {
        RequestView { waiting: None, ..self }
    }

    /// After the receive callback has reported `length` bytes.
    pub open spec fn received(self, length: u64) -> RequestView {
        RequestView { waiting: None, length: length as usize }
    }

    /// What one look at the status of the request leads to.
    pub open spec fn poll(self, stage: PollStage, status: Status) -> PollStep {
        if status.is_completed() {
            PollStep::Ready(self.length)
        } else {
            match stage {
                PollStage::First => PollStep::Register(PollStage::Again),
                PollStage::Again => PollStep::Pending,
            }
        }
    }
}

impl View for Request {
    type V = RequestView;

    closed spec fn view(&self) -> RequestView {
        RequestView { waiting: crate::wake::waiting_task(self.waker), length: self.length }
    }
}

/// How far a poll of a request has come.
#[derive(Debug, Clone, Copy, PartialEq, Eq, Structural)]
pub enum PollStage {
    /// The status was not looked at yet.
    First,
    /// The waker is registered and the status is looked at again.
    Again,
}

/// What follows from looking at the status of a request.
#[derive(Debug, Clone, Copy, PartialEq, Eq, Structural)]
pub enum PollStep {
    /// The request is completed and this is its length.
    Ready(usize),
    /// Register the waker, then look at the status again at this stage.
    Register(PollStage),
    /// The request is under way and its completion wakes the task.
    Pending,
}

impl Default for Request {
    fn default() -> (request: Request)
        ensures
            request@ == RequestView::initial(),
            request@.waiting is None,
            request@.length == 0,
    {
        Request { waker: empty_cell(), length: 0 }
    }
}

impl Request {
    /// The value that a request starts with.
    ///
    /// It is written only on the very first time that a request memory is
    /// initialised. A request that is used again may start with whatever its
    /// last use has left.
    pub fn init() -> (request: Request)
        ensures
            request@ == RequestView::initial(),
            request@.waiting is None,
            request@.length == 0,
    {
        Request::default()
    }

    /// The callback of a send that did not complete in place: hands out the
    /// waker of the task that waits, to be woken.
    pub fn sent(&mut self) -> (waker: Option<Waker>)
        ensures
            final(self)@ == old(self)@.sent(),
            final(self)@.waiting is None,
            final(self)@.length == old(self)@.length,
            crate::wake::wakes(waker, old(self)@.waiting),
            crate::wake::wakes(waker, old(self)@.woken()),
    {
        take_waker(&mut self.waker)
    }

    /// The callback of a receive that did not complete in place: keeps the
    /// number of bytes, and only then hands out the waker of the task that
    /// waits, to be woken.
    pub fn received(&mut self, length: u64) -> (waker: Option<Waker>)
        ensures
            final(self)@ == old(self)@.received(length),
            final(self)@.waiting is None,
            final(self)@.length == length as usize,
            crate::wake::wakes(waker, old(self)@.waiting),
            crate::wake::wakes(waker, old(self)@.woken()),
    {
        self.length = #[verifier::truncate] (length as usize);
        take_waker(&mut self.waker)
    }

    /// The number of bytes that the last receive reported.
    pub fn len(&self) -> (length: usize)
        ensures
            length == self@.length,
    {
        self.length
    }

    /// Lets the completion of the request wake the task of `waker`.
    pub fn register_waker(&mut self, waker: &Waker)
        ensures
            final(self)@ == old(self)@.registered(crate::wake::task_of(*waker)),
            final(self)@.waiting == Some(crate::wake::task_of(*waker)),
            final(self)@.length == old(self)@.length,
    {
        register(&mut self.waker, waker);
    }

    /// One look at the status of the request. A poll starts at
    /// [`PollStage::First`] and goes on until the step is
    /// [`PollStep::Ready`] or [`PollStep::Pending`].
    pub fn poll(&self, stage: PollStage, status: Status) -> (step: PollStep)
        ensures
            step == self@.poll(stage, status),
            status.code != UCS_INPROGRESS ==> step == PollStep::Ready(self@.length),
            status.code == UCS_INPROGRESS && stage is First ==> step == PollStep::Register(
                PollStage::Again,
            ),
            status.code == UCS_INPROGRESS && stage is Again ==> step == PollStep::Pending,
    {
        if status.is_completed() {
            return PollStep::Ready(self.len());
        }
        match stage {
            PollStage::First => PollStep::Register(PollStage::Again),
            PollStage::Again => PollStep::Pending,
        }
    }
}

/// A request that a non-blocking call returned, by its address.
#[derive(Debug, Clone, Copy, PartialEq, Eq, Structural)]
pub struct RequestHandle {
    pub address: usize,
}

impl RequestHandle {
    /// The request at which a status pointer points, which is never null.
    pub fn from(status_ptr: StatusPtr) -> (handle: RequestHandle)
        requires
            status_ptr.is_ptr(),
        ensures
            handle.address == status_ptr.address,
            handle.address != 0,
    {
        RequestHandle { address: status_ptr.address }
    }
}

/// When the pieces of a completion fall in between the steps of a poll.
///
/// The steps are the first look at the status, the registration of the waker
/// and the second look, in this order and numbered from zero. A piece that
/// falls at `n` comes before step `n` and after the step before it.
pub struct Completion {
    /// The number of bytes that the receive callback reports.
    pub length: u64,
    /// The status that the request ends with.
    pub status: Status,
    /// When the callback keeps the length in the request.
    pub kept_at: int,
    /// When the status becomes visible.
    pub visible_at: int,
    /// When the callback takes the waker out of the request.
    pub woken_at: int,
}

impl Completion {
    /// A look that sees the status finds the length in place.
    pub open spec fn length_is_in_time(self) -> bool {
        &&& self.visible_at <= 0 ==> self.kept_at <= 0
        &&& self.visible_at <= 2 ==> self.kept_at <= 2
    }

    /// The waker is taken before the task is registered, and yet the status
    /// becomes visible only after the last look.
    pub open spec fn slips_past(self) -> bool {
        self.woken_at <= 1 && self.visible_at > 2
    }

    /// The status that a look at `step` sees.
    pub open spec fn status_at(self, step: int) -> Status {
        if self.visible_at <= step {
            self.status
        } else {
            Status { code: UCS_INPROGRESS }
        }
    }

    /// The request as a look at `step` sees it. It started as `request`.
    pub open spec fn request_at(self, request: RequestView, step: int) -> RequestView {
        if self.kept_at <= step {
            RequestView { length: self.length as usize, ..request }
        } else {
            request
        }
    }

    /// The request on which the callback takes the waker. It started as
    /// `request` and the poll registers `task`.
    pub open spec fn request_at_wakeup(self, request: RequestView, task: nat) -> RequestView {
        if self.woken_at <= 1 {
            request
        } else {
            request.registered(task)
        }
    }

    /// Where the first look at `request` leads to.
    pub open spec fn first_look(self, request: RequestView) -> PollStep {
        self.request_at(request, 0).poll(PollStage::First, self.status_at(0))
    }

    /// Where the second look at `request` leads to.
    pub open spec fn second_look(self, request: RequestView) -> PollStep {
        self.request_at(request, 2).poll(PollStage::Again, self.status_at(2))
    }
}

/// No wakeup is lost: wherever a completion falls in a poll that it does not
/// slip past, if the poll ends pending then the callback of the completion, be
/// it of a send or of a receive, hands out the waker of the task that polled.
pub proof fn pending_poll_is_woken(request: RequestView, task: nat, completion: Completion)
    requires
        completion.status.is_completed(),
        !completion.slips_past(),
    ensures
        completion.second_look(request) == PollStep::Pending ==> completion.request_at_wakeup(
            request,
            task,
        ).woken() == Some(task),
{
}

/// A completion whose status is visible by the time the waker is taken slips
/// past no poll.
pub proof fn visible_completion_slips_past_no_poll(completion: Completion)
    requires
        completion.visible_at <= completion.woken_at,
    ensures
        !completion.slips_past(),
{
}

/// A poll that finds the request completed is ready with the length of that
/// completion, at whichever look it does, and no other poll is ready.
pub proof fn ready_poll_has_the_length_of_the_completion(
    request: RequestView,
    completion: Completion,
)
    requires
        completion.status.is_completed(),
        completion.length_is_in_time(),
    ensures
        ({
            let ready = PollStep::Ready(completion.length as usize);
            let register = PollStep::Register(PollStage::Again);
            &&& completion.visible_at <= 0 ==> completion.first_look(request) == ready
            &&& completion.visible_at > 0 ==> completion.first_look(request) == register
            &&& completion.visible_at <= 2 ==> completion.second_look(request) == ready
            &&& completion.visible_at > 2 ==> completion.second_look(request) == PollStep::Pending
        }),
{
}

/// A length that is kept before the status becomes visible is in time.
pub proof fn length_kept_first_is_in_time(completion: Completion)
    requires
        completion.kept_at <= completion.visible_at,
    ensures
        completion.length_is_in_time(),
{
}

/// Of several polls, the task of the last one is woken.
pub proof fn last_task_to_wait_is_woken(request: RequestView, earlier: nat, last: nat)
    ensures
        request.registered(earlier).registered(last).woken() == Some(last),
{
}

/// A task is woken once for each time that it comes to wait: a callback leaves
/// nobody behind for the next one to wake.
pub proof fn callback_wakes_once(request: RequestView, length: u64)
    ensures
        request.sent().woken() is None,
        request.received(length).woken() is None,
{
}

/// A poll ends the wait for every status but the one code for being under way,
/// an error too, and at either look, with the length that the request holds.
/// While the request is under way the first look goes on to register and the
/// second gives up.
pub proof fn poll_ends_with_every_code_but_in_progress(
    request: RequestView,
    stage: PollStage,
    status: Status,
)
    ensures
        request.poll(stage, status) is Ready <==> status.code != 1,
        request.poll(stage, status) matches PollStep::Ready(length) ==> length == request.length,
        request.poll(stage, status) is Register <==> status.code == 1 && stage is First,
        request.poll(stage, status) is Pending <==> status.code == 1 && stage is Again,
        request.poll(stage, status) matches PollStep::Register(next) ==> next is Again,
{
}

/// What each thing that happens to a request does to the task that waits and to
/// the length. Coming to wait and sending leave the length alone, receiving
/// sets it, and whoever waits is the one to be woken.
pub proof fn request_keeps_its_last_task_and_length(request: RequestView, task: nat, length: u64)
    ensures
        RequestView::initial().waiting == None::<nat>,
        RequestView::initial().length == 0,
        request.woken() == request.waiting,
        request.registered(task).waiting == Some(task),
        request.registered(task).length == request.length,
        request.sent().waiting == None::<nat>,
        request.sent().length == request.length,
        request.received(length).waiting == None::<nat>,
        request.received(length).length == length as usize,
{
}

/// A poll looks at the status twice at most: the first look does not give up
/// and the second does not ask for a third.
pub proof fn poll_looks_twice_at_most(request: RequestView, status: Status)
    ensures
        request.poll(PollStage::First, status) != PollStep::Pending,
        request.poll(PollStage::Again, status) == PollStep::Pending || request.poll(
            PollStage::Again,
            status,
        ) == PollStep::Ready(request.length),
{
}

/// A poll is ready exactly when the status it looks at says that the request is
/// completed.
pub proof fn poll_is_ready_iff_completed(request: RequestView, stage: PollStage, status: Status)
    ensures
        status.is_completed() <==> request.poll(stage, status) is Ready,
{
}

/// A receive reports its own length, whatever an earlier use has left in the
/// request, and still does when tasks have come to wait since.
pub proof fn receive_overrides_earlier_use(
    left: RequestView,
    length: u64,
    task: nat,
    stage: PollStage,
    status: Status,
)
    requires
        status.is_completed(),
    ensures
        left.received(length).poll(stage, status) == PollStep::Ready(length as usize),
        left.received(length).registered(task).poll(stage, status) == PollStep::Ready(
            length as usize,
        ),
{
}

} // verus!
