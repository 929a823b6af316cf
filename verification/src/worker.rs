//! Workers: they progress communication, and endpoints and listeners are
//! created on them.

use crate::context::Context;
use crate::endpoint::Endpoint;
use crate::listener::Listener;
use crate::queue::QueueView;
use crate::status::{Status, UCS_ERR_BUSY, UCS_OK};
use std::sync::Arc;
use vstd::prelude::*;

verus! {

/// The field `thread_mode` of the parameters of a worker is valid.
pub const UCP_WORKER_PARAM_FIELD_THREAD_MODE: u64 = 1;

/// The field `thread_mode` of the attributes of a worker is asked for.
pub const UCP_WORKER_ATTR_FIELD_THREAD_MODE: u64 = 1;

/// Only one thread uses the worker.
pub const UCS_THREAD_MODE_SINGLE: u32 = 0;

/// Several threads use the worker, but only one at a time.
pub const UCS_THREAD_MODE_SERIALIZED: u32 = 1;

/// Several threads use the worker at a time.
pub const UCS_THREAD_MODE_MULTI: u32 = 2;

/// How threads may use a worker.
#[derive(Debug, Clone, Copy, PartialEq, Eq, Structural)]
pub struct ThreadMode {
    pub mode: u32,
}

/// A worker. It keeps its context alive.
///
/// `H` owns an object of UCX: dropping it releases the object.
#[derive(Debug)]
pub struct Worker<H> {
    handle: H,
    context: Arc<Context<H>>,
}

/// A worker whose thread mode is not confirmed yet.
#[derive(Debug)]
pub struct NewWorker<H> {
    worker: Worker<H>,
}

/// Why a new worker cannot be used.
#[derive(Debug, Clone, Copy, PartialEq, Eq, Structural)]
pub enum WorkerError {
    /// Its attributes could not be queried.
    Query(Status),
    /// It got a thread mode other than the one that was asked for.
    Mode(ThreadMode),
}

/// What is handed to `ucp_worker_create`, besides the user data.
#[derive(Debug, Clone, Copy)]
pub struct WorkerParams {
    pub field_mask: u64,
    pub thread_mode: ThreadMode,
    pub cpu_mask: [u64; 16],
    pub events: u32,
    pub event_fd: i32,
}

/// What is handed to `ucp_worker_set_am_handler`, besides the callback.
#[derive(Debug)]
pub struct AmHandler<'a, H> {
    pub worker: &'a H,
    pub id: u16,
    pub arg: usize,
    pub flags: u32,
}

/// The address of a worker, which other processes can reach it by.
///
/// `A` owns the memory of the address: dropping it gives the memory back.
#[derive(Debug)]
pub struct WorkerAddress<'a, H, A> {
    handle: A,
    length: usize,
    worker: &'a Worker<H>,
}

impl<H> View for Worker<H> {
    type V = H;

    closed spec fn view(&self) -> H {
        self.handle
    }
}

impl<H> View for NewWorker<H> {
    type V = H;

    closed spec fn view(&self) -> H {
        self.worker@
    }
}

impl<H> NewWorker<H> {
    /// The context in which the worker was created.
    pub closed spec fn context(&self) -> Context<H> {
        self.worker.context()
    }

    /// The object that this worker owns.
    pub fn handle(&self) -> (handle: &H)
        ensures
            *handle == self@,
    {
        self.worker.handle()
    }

    /// Confirms the worker by what the query for its thread mode has returned:
    /// only a worker that several threads may use at a time is fit for use.
    pub fn confirm(self, status: Status, thread_mode: ThreadMode) -> (result: Result<
        Arc<Worker<H>>,
        WorkerError,
    >)
        ensures
            match result {
                Ok(worker) => {
                    &&& status.code == UCS_OK
                    &&& thread_mode.mode == UCS_THREAD_MODE_MULTI
                    &&& worker@ == self@
                    &&& worker.context() == self.context()
                },
                Err(WorkerError::Query(error)) => status.code != UCS_OK && error == status,
                Err(WorkerError::Mode(mode)) => {
                    &&& status.code == UCS_OK
                    &&& thread_mode.mode != UCS_THREAD_MODE_MULTI
                    &&& mode == thread_mode
                },
            },
    {
        match status.check() {
            Ok(()) => {
                if thread_mode.mode == UCS_THREAD_MODE_MULTI {
                    Ok(Arc::new(self.worker))
                } else {
                    Err(WorkerError::Mode(thread_mode))
                }
            },
            Err(error) => Err(WorkerError::Query(error)),
        }
    }
}

impl<H> Worker<H> {
    /// The context in which the worker was created.
    pub closed spec fn context(&self) -> Context<H> {
        *self.context
    }

    /// The parameters of every worker: several threads use it at a time.
    pub fn params() -> (params: WorkerParams)
        ensures
            params.field_mask == 0b1,
            params.thread_mode.mode == UCS_THREAD_MODE_MULTI,
            params.cpu_mask@ == Seq::new(16, |i: int| 0u64),
            params.events == 0,
            params.event_fd == 0,
    {
        let cpu_mask: [u64; 16] = [0; 16];
        assert(cpu_mask@ =~= Seq::new(16, |i: int| 0u64));
        WorkerParams {
            field_mask: UCP_WORKER_PARAM_FIELD_THREAD_MODE,
            thread_mode: ThreadMode { mode: UCS_THREAD_MODE_MULTI },
            cpu_mask,
            events: 0,
            event_fd: 0,
        }
    }

    pub(crate) fn new<R, F: FnOnce(R) -> H>(
        context: &Arc<Context<H>>,
        status: Status,
        raw: R,
        own: F,
    ) -> (result: Result<NewWorker<H>, Status>)
        requires
            own.requires((raw,)),
        ensures
            match result {
                Ok(worker) => {
                    &&& status.code == UCS_OK
                    &&& own.ensures((raw,), worker@)
                    &&& worker.context() == **context
                },
                Err(error) => status.code != UCS_OK && error == status,
            },
    {
        match status.adopt(raw, own) {
            Ok(handle) => Ok(NewWorker { worker: Worker { handle, context: context.clone() } }),
            Err(error) => Err(error),
        }
    }

    /// The object that this worker owns.
    pub fn handle(&self) -> (handle: &H)
        ensures
            *handle == self@,
    {
        &self.handle
    }

    /// The field mask of the query for the thread mode of a worker.
    pub fn thread_mode_query() -> (field_mask: u64)
        ensures
            field_mask == 0b1,
    {
        UCP_WORKER_ATTR_FIELD_THREAD_MODE
    }

    /// The address that `ucp_worker_get_address` has left in `raw`, with its
    /// length, or the status with which it failed.
    pub fn address<'a, R, A, F: FnOnce(R) -> A>(
        &'a self,
        status: Status,
        raw: R,
        length: u64,
        own: F,
    ) -> (result: Result<WorkerAddress<'a, H, A>, Status>)
        requires
            own.requires((raw,)),
        ensures
            match result {
                Ok(address) => {
                    &&& status.code == UCS_OK
                    &&& own.ensures((raw,), address@)
                    &&& address.length() == length as usize
                    &&& address.worker() == *self
                },
                Err(error) => status.code != UCS_OK && error == status,
            },
    {
        match status.adopt(raw, own) {
            Ok(handle) => Ok(
                WorkerAddress {
                    handle,
                    length: #[verifier::truncate] (length as usize),
                    worker: self,
                },
            ),
            Err(error) => Err(error),
        }
    }

    /// A listener on this worker, before `ucp_listener_create` is called.
    pub fn create_listener<W>(self: &Arc<Self>) -> (listener: Listener<H, W>)
        ensures
            listener.wf(),
            listener.handle() is None,
            listener.worker() == **self,
            listener.incomings() == QueueView::<Arc<Endpoint<H>>, W>::empty(),
    {
        Listener::new(self)
    }

    /// The endpoint that `ucp_ep_create` has left in `raw`, or the status with
    /// which it failed.
    pub fn create_endpoint<R, F: FnOnce(R) -> H>(
        self: &Arc<Self>,
        status: Status,
        raw: R,
        own: F,
    ) -> (result: Result<Arc<Endpoint<H>>, Status>)
        requires
            own.requires((raw,)),
        ensures
            match result {
                Ok(endpoint) => {
                    &&& status.code == UCS_OK
                    &&& own.ensures((raw,), endpoint@)
                    &&& endpoint.worker() == **self
                },
                Err(error) => status.code != UCS_OK && error == status,
            },
    {
        Endpoint::new(self, status, raw, own)
    }

    /// What waiting for an event comes to: success, or the failure.
    pub fn wait(status: Status) -> (result: Result<(), Status>)
        ensures
            status.code == UCS_OK ==> result == Ok::<(), Status>(()),
            status.code != UCS_OK ==> result == Err::<(), Status>(status),
    {
        status.check()
    }

    /// Returns `true` if one can wait for events (sleep mode), and `false` if
    /// there are events left to progress. Any other status is a failure.
    pub fn arm(status: Status) -> (result: Result<bool, Status>)
        ensures
            status.code == UCS_OK ==> result == Ok::<bool, Status>(true),
            status.code == UCS_ERR_BUSY ==> result == Ok::<bool, Status>(false),
            status.code != UCS_OK && status.code != UCS_ERR_BUSY ==> result == Err::<bool, Status>(
                status,
            ),
    {
        if status.code == UCS_OK {
            Ok(true)
        } else if status.code == UCS_ERR_BUSY {
            Ok(false)
        } else {
            Err(status)
        }
    }

    /// The file descriptor that `ucp_worker_get_efd` has left in `fd`, or the
    /// status with which it failed.
    pub fn event_fd(status: Status, fd: i32) -> (result: Result<i32, Status>)
        ensures
            status.code == UCS_OK ==> result == Ok::<i32, Status>(fd),
            status.code != UCS_OK ==> result == Err::<i32, Status>(status),
    {
        match status.check() {
            Ok(()) => Ok(fd),
            Err(error) => Err(error),
        }
    }

    /// Installing a callback to handle incoming Active Messages with a specific
    /// id.
    pub fn set_am_handler(&self, id: u16, arg: usize) -> (call: AmHandler<'_, H>)
        ensures
            *call.worker == self@,
            call.id == id,
            call.arg == arg,
            call.flags == 0,
    {
        AmHandler { worker: &self.handle, id, arg, flags: 0 }
    }

    /// What the callback for Active Messages answers: the message is consumed.
    pub fn active_message() -> (status: Status)
        ensures
            status.code == UCS_OK,
    {
        Status { code: UCS_OK }
    }

    /// What flushing all outstanding AMO and RMA communications on the worker
    /// comes to: success, or the failure.
    pub fn flush(status: Status) -> (result: Result<(), Status>)
        ensures
            status.code == UCS_OK ==> result == Ok::<(), Status>(()),
            status.code != UCS_OK ==> result == Err::<(), Status>(status),
    {
        status.check()
    }
}

/// The thread modes have the numbers that UCX gives them.
pub proof fn thread_modes_are_those_of_ucx()
    ensures
        UCS_THREAD_MODE_SINGLE == 0,
        UCS_THREAD_MODE_SERIALIZED == 1,
        UCS_THREAD_MODE_MULTI == 2,
{
}

impl<'a, H, A> View for WorkerAddress<'a, H, A> {
    type V = A;

    closed spec fn view(&self) -> A {
        self.handle
    }
}

impl<'a, H, A> WorkerAddress<'a, H, A> {
    /// The length of the address in bytes.
    pub closed spec fn length(&self) -> usize {
        self.length
    }

    /// The worker that the address is of.
    pub closed spec fn worker(&self) -> Worker<H> {
        *self.worker
    }

    /// The memory of the address and the number of its bytes.
    pub fn parts(&self) -> (parts: (&A, usize))
        ensures
            *parts.0 == self@,
            parts.1 == self.length(),
    {
        (&self.handle, self.length)
    }
}

} // verus!
