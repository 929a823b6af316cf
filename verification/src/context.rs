//! Contexts: the root of everything that UCP creates.

use crate::request::Request;
use crate::status::{Status, UCS_OK};
use crate::worker::{NewWorker, Worker};
use std::sync::Arc;
use vstd::prelude::*;

verus! {

/// The field `features` is valid.
pub const UCP_PARAM_FIELD_FEATURES: u64 = 1;

/// The field `request_size` is valid.
pub const UCP_PARAM_FIELD_REQUEST_SIZE: u64 = 2;

/// The field `request_init` is valid.
pub const UCP_PARAM_FIELD_REQUEST_INIT: u64 = 4;

/// The field `request_cleanup` is valid.
pub const UCP_PARAM_FIELD_REQUEST_CLEANUP: u64 = 8;

/// The field `mt_workers_shared` is valid.
pub const UCP_PARAM_FIELD_MT_WORKERS_SHARED: u64 = 32;

/// Remote memory access.
pub const UCP_FEATURE_RMA: u64 = 2;

/// Waiting for events.
pub const UCP_FEATURE_WAKEUP: u64 = 16;

/// Streams.
pub const UCP_FEATURE_STREAM: u64 = 32;

/// A context.
///
/// `H` owns an object of UCX: dropping it releases the object.
#[derive(Debug)]
pub struct Context<H> {
    handle: H,
}

/// What is handed to `ucp_init_version`, besides the two callbacks on requests:
/// [`Request::init`] and the drop of a [`Request`].
#[derive(Debug, Clone, Copy, PartialEq, Eq, Structural)]
pub struct ContextParams {
    pub field_mask: u64,
    pub features: u64,
    pub request_size: u64,
    pub tag_sender_mask: u64,
    pub mt_workers_shared: i32,
    pub estimated_num_eps: u64,
    pub estimated_num_ppn: u64,
}

impl<H> View for Context<H> {
    type V = H;

    closed spec fn view(&self) -> H {
        self.handle
    }
}

impl<H> Context<H> {
    /// The parameters of every context: remote memory access, streams and
    /// waiting, workers that threads share, and room for a [`Request`] in every
    /// request of UCX.
    pub fn params() -> (params: ContextParams)
        ensures
            params.field_mask == 0b10_1111,
            params.field_mask & UCP_PARAM_FIELD_REQUEST_SIZE != 0,
            params.field_mask & UCP_PARAM_FIELD_REQUEST_INIT != 0,
            params.field_mask & UCP_PARAM_FIELD_REQUEST_CLEANUP != 0,
            params.features == 0b11_0010,
            params.request_size == vstd::layout::size_of::<Request>(),
            params.tag_sender_mask == 0,
            params.mt_workers_shared == 1,
            params.estimated_num_eps == 0,
            params.estimated_num_ppn == 0,
    {
        assert(1u64 | 2u64 | 4u64 | 8u64 | 32u64 == 0b10_1111u64) by (bit_vector);
        assert(0b10_1111u64 & 2u64 != 0 && 0b10_1111u64 & 4u64 != 0 && 0b10_1111u64 & 8u64 != 0)
            by (bit_vector);
        assert(2u64 | 32u64 | 16u64 == 0b11_0010u64) by (bit_vector);
        ContextParams {
            field_mask: UCP_PARAM_FIELD_FEATURES | UCP_PARAM_FIELD_REQUEST_SIZE
                | UCP_PARAM_FIELD_REQUEST_INIT | UCP_PARAM_FIELD_REQUEST_CLEANUP
                | UCP_PARAM_FIELD_MT_WORKERS_SHARED,
            features: UCP_FEATURE_RMA | UCP_FEATURE_STREAM | UCP_FEATURE_WAKEUP,
            request_size: std::mem::size_of::<Request>() as u64,
            tag_sender_mask: 0,
            mt_workers_shared: 1,
            estimated_num_eps: 0,
            estimated_num_ppn: 0,
        }
    }

    /// The context that `ucp_init_version` has left in `raw`, or the status with
    /// which it failed.
    pub fn new<R, F: FnOnce(R) -> H>(status: Status, raw: R, own: F) -> (result: Result<
        Arc<Context<H>>,
        Status,
    >)
        requires
            own.requires((raw,)),
        ensures
            match result {
                Ok(context) => status.code == UCS_OK && own.ensures((raw,), context@),
                Err(error) => status.code != UCS_OK && error == status,
            },
    {
        match status.adopt(raw, own) {
            Ok(handle) => Ok(Arc::new(Context { handle })),
            Err(error) => Err(error),
        }
    }

    /// The object that this context owns.
    pub fn handle(&self) -> (handle: &H)
        ensures
            *handle == self@,
    {
        &self.handle
    }

    /// The worker that `ucp_worker_create` has left in `raw`, or the status with
    /// which it failed. What thread mode the worker got is yet to be confirmed.
    pub fn create_worker<R, F: FnOnce(R) -> H>(
        self: &Arc<Self>,
        status: Status,
        raw: R,
        own: F,
    ) -> (result: Result<NewWorker<H>, Status>)
        requires
            own.requires((raw,)),
        ensures
            match result {
                Ok(worker) => {
                    &&& status.code == UCS_OK
                    &&& own.ensures((raw,), worker@)
                    &&& worker.context() == **self
                },
                Err(error) => status.code != UCS_OK && error == status,
            },
    {
        Worker::new(self, status, raw, own)
    }
}

} // verus!
