//! Endpoints: connections on which data is sent and received.

use crate::request::{PollStage, PollStep, RequestHandle, RequestView};
use crate::sockaddr::{self, encode, SocketAddress};
use crate::status::{Posted, Status, StatusPtr, UCS_OK};
use crate::worker::Worker;
use os_socketaddr::OsSocketAddr;
use std::sync::Arc;
use vstd::prelude::*;

verus! {

/// The field `sockaddr` of the parameters of an endpoint is valid.
pub const UCP_EP_PARAM_FIELD_SOCK_ADDR: u64 = 16;

/// The field `flags` of the parameters of an endpoint is valid.
pub const UCP_EP_PARAM_FIELD_FLAGS: u64 = 32;

/// The endpoint is made by connecting to the socket address of a listener.
pub const UCP_EP_PARAMS_FLAGS_CLIENT_SERVER: u32 = 1;

/// Errors of the peer are not handled.
pub const UCP_ERR_HANDLING_MODE_NONE: u32 = 0;

/// The number of bits of a datatype that hold its class.
pub const UCP_DATATYPE_SHIFT: u64 = 3;

/// The class of contiguous datatypes.
pub const UCP_DATATYPE_CONTIG: u64 = 0;

/// An endpoint. It keeps its worker alive.
///
/// `H` owns an object of UCX: dropping it releases the object.
#[derive(Debug)]
pub struct Endpoint<H> {
    handle: H,
    worker: Arc<Worker<H>>,
}

/// What is handed to `ucp_ep_create`, besides pointers that are all null.
#[derive(Debug)]
pub struct EndpointParams {
    pub field_mask: u64,
    pub flags: u32,
    pub sockaddr: OsSocketAddr,
    pub addrlen: u32,
    pub err_mode: u32,
}

/// What is handed to `ucp_stream_send_nb` and `ucp_stream_recv_nb`, besides the
/// buffer and the callback.
#[derive(Debug)]
pub struct StreamCall<'a, H> {
    pub endpoint: &'a H,
    pub count: usize,
    pub datatype: u64,
    pub flags: u32,
}

/// What is handed to `ucp_ep_flush_nb`, besides the callback.
#[derive(Debug)]
pub struct FlushCall<'a, H> {
    pub endpoint: &'a H,
    pub flags: u32,
}

/// A send of `length` bytes.
#[derive(Debug, Clone, Copy, PartialEq, Eq, Structural)]
pub struct StreamSend {
    pub length: usize,
}

/// What follows from posting a send.
#[derive(Debug, Clone, Copy, PartialEq, Eq, Structural)]
pub enum SendStep {
    /// The send is done and this many bytes were sent.
    Done(usize),
    /// The send is done when this request is completed.
    Wait(RequestHandle),
    /// The send failed.
    Failed(Status),
}

/// A receive.
#[derive(Debug, Clone, Copy, PartialEq, Eq, Structural)]
pub struct StreamRecv;

/// What follows from posting a receive.
#[derive(Debug, Clone, Copy, PartialEq, Eq, Structural)]
pub enum RecvStep {
    /// The receive is done and its length is in the out parameter of the call.
    ReadLength,
    /// The receive is done when this request is completed.
    Wait(RequestHandle),
    /// The receive failed.
    Failed(Status),
}

/// The datatype of contiguous elements of `elem_size` bytes.
pub fn ucp_dt_make_contig(elem_size: usize) -> (datatype: u64)
    ensures
        datatype == (elem_size * 8) % 0x1_0000_0000_0000_0000,
{
    let size: u64 = elem_size as u64;
    let datatype: u64 = (size << UCP_DATATYPE_SHIFT) | UCP_DATATYPE_CONTIG;
    assert((size << 3u64) | 0u64 == (size * 8) % 0x1_0000_0000_0000_0000) by (bit_vector);
    datatype
}

impl StreamSend {
    /// What follows from the reply to the posted send.
    pub open spec fn spec_posted(self, reply: StatusPtr) -> SendStep {
        match reply.spec_posted() {
            Posted::Complete => SendStep::Done(self.length),
            Posted::Wait(request) => SendStep::Wait(request),
            Posted::Failed(status) => SendStep::Failed(status),
        }
    }

    /// The number of bytes that a send reports once its request is completed.
    pub open spec fn spec_completed(self, request_length: usize) -> usize {
        self.length
    }

    /// What follows from the reply to the posted send.
    pub fn posted(&self, reply: StatusPtr) -> (step: SendStep)
        ensures
            step == self.spec_posted(reply),
            reply.address == 0 ==> step == SendStep::Done(self.length),
            0 < reply.address < usize::MAX - 99 ==> step == SendStep::Wait(
                (RequestHandle { address: reply.address }),
            ),
            usize::MAX - 99 <= reply.address ==> step is Failed && step->Failed_0.code
                == reply.address - usize::MAX - 1,
    {
        match reply.posted() {
            Posted::Complete => SendStep::Done(self.length),
            Posted::Wait(request) => SendStep::Wait(request),
            Posted::Failed(status) => SendStep::Failed(status),
        }
    }

    /// The number of bytes that were sent, once the request of the send is
    /// completed: all of them, whatever length the request holds.
    pub fn completed(&self, request_length: usize) -> (sent: usize)
        ensures
            sent == self.spec_completed(request_length),
            sent == self.length,
    {
        self.length
    }
}

impl StreamRecv {
    /// What follows from the reply to the posted receive.
    pub open spec fn spec_posted(self, reply: StatusPtr) -> RecvStep {
        match reply.spec_posted() {
            Posted::Complete => RecvStep::ReadLength,
            Posted::Wait(request) => RecvStep::Wait(request),
            Posted::Failed(status) => RecvStep::Failed(status),
        }
    }

    /// The number of bytes that a receive reports which completed in place.
    pub open spec fn spec_in_place(self, length: u64) -> usize {
        length as usize
    }

    /// The number of bytes that a receive reports once its request is completed.
    pub open spec fn spec_completed(self, request_length: usize) -> usize {
        request_length
    }

    /// What follows from the reply to the posted receive.
    pub fn posted(&self, reply: StatusPtr) -> (step: RecvStep)
        ensures
            step == self.spec_posted(reply),
            reply.address == 0 ==> step == RecvStep::ReadLength,
            0 < reply.address < usize::MAX - 99 ==> step == RecvStep::Wait(
                (RequestHandle { address: reply.address }),
            ),
            usize::MAX - 99 <= reply.address ==> step is Failed && step->Failed_0.code
                == reply.address - usize::MAX - 1,
    {
        match reply.posted() {
            Posted::Complete => RecvStep::ReadLength,
            Posted::Wait(request) => RecvStep::Wait(request),
            Posted::Failed(status) => RecvStep::Failed(status),
        }
    }

    /// The number of bytes that were received in place.
    pub fn in_place(&self, length: u64) -> (received: usize)
        ensures
            received == self.spec_in_place(length),
            received == length as usize,
    {
        #[verifier::truncate] (length as usize)
    }

    /// The number of bytes that were received, once the request of the receive
    /// is completed.
    pub fn completed(&self, request_length: usize) -> (received: usize)
        ensures
            received == self.spec_completed(request_length),
            received == request_length,
    {
        request_length
    }
}

impl<H> View for Endpoint<H> {
    type V = H;

    closed spec fn view(&self) -> H {
        self.handle
    }
}

impl<H> Endpoint<H> {
    /// The worker on which the endpoint was created.
    pub closed spec fn worker(&self) -> Worker<H> {
        *self.worker
    }

    /// The parameters of an endpoint that connects to `address`.
    pub fn params(address: SocketAddress) -> (params: EndpointParams)
        ensures
            params.field_mask == 0b11_0000,
            params.flags == UCP_EP_PARAMS_FLAGS_CLIENT_SERVER,
            params.flags == 1,
            sockaddr::decoded(sockaddr::address_bytes(params.sockaddr)) == Some(address),
            sockaddr::stands_in(address, sockaddr::address_bytes(params.sockaddr)),
            params.addrlen == match address {
                SocketAddress::V4 { .. } => 16,
                SocketAddress::V6 { .. } => sockaddr::address_bytes(params.sockaddr).len(),
            },
            params.addrlen <= sockaddr::address_bytes(params.sockaddr).len(),
            params.err_mode == UCP_ERR_HANDLING_MODE_NONE,
            params.err_mode == 0,
    {
        assert(32u64 | 16u64 == 0b11_0000u64) by (bit_vector);
        let sockaddr: OsSocketAddr = encode(address);
        EndpointParams {
            field_mask: UCP_EP_PARAM_FIELD_FLAGS | UCP_EP_PARAM_FIELD_SOCK_ADDR,
            flags: UCP_EP_PARAMS_FLAGS_CLIENT_SERVER,
            sockaddr,
            addrlen: sockaddr.len(),
            // Any other mode would rule out TCP.
            err_mode: UCP_ERR_HANDLING_MODE_NONE,
        }
    }

    pub(crate) fn new<R, F: FnOnce(R) -> H>(
        worker: &Arc<Worker<H>>,
        status: Status,
        raw: R,
        own: F,
    ) -> (result: Result<Arc<Endpoint<H>>, Status>)
        requires
            own.requires((raw,)),
        ensures
            match result {
                Ok(endpoint) => {
                    &&& status.code == UCS_OK
                    &&& own.ensures((raw,), endpoint@)
                    &&& endpoint.worker() == **worker
                },
                Err(error) => status.code != UCS_OK && error == status,
            },
    {
        match status.adopt(raw, own) {
            Ok(handle) => Ok(Endpoint::accepted(worker, handle)),
            Err(error) => Err(error),
        }
    }

    /// The endpoint of a connection that a listener on `worker` was handed.
    pub(crate) fn accepted(worker: &Arc<Worker<H>>, handle: H) -> (endpoint: Arc<Endpoint<H>>)
        ensures
            endpoint@ == handle,
            endpoint.worker() == **worker,
    {
        Arc::new(Endpoint { handle, worker: worker.clone() })
    }

    /// The object that this endpoint owns.
    pub fn handle(&self) -> (handle: &H)
        ensures
            *handle == self@,
    {
        &self.handle
    }

    /// The worker on which the endpoint was created.
    pub fn get_worker(&self) -> (worker: &Arc<Worker<H>>)
        ensures
            **worker == self.worker(),
    {
        &self.worker
    }

    /// Sending a buffer of `length` bytes.
    pub fn stream_send(&self, length: usize) -> (result: (StreamCall<'_, H>, StreamSend))
        ensures
            *result.0.endpoint == self@,
            result.0.count == length,
            result.0.datatype == 8,
            result.0.flags == 0,
            result.1 == (StreamSend { length }),
    {
        let call: StreamCall<'_, H> = StreamCall {
            endpoint: &self.handle,
            count: length,
            datatype: ucp_dt_make_contig(1),
            flags: 0,
        };
        (call, StreamSend { length })
    }

    /// Receiving into a buffer of `length` bytes.
    pub fn stream_recv(&self, length: usize) -> (result: (StreamCall<'_, H>, StreamRecv))
        ensures
            *result.0.endpoint == self@,
            result.0.count == length,
            result.0.datatype == 8,
            result.0.flags == 0,
    {
        let call: StreamCall<'_, H> = StreamCall {
            endpoint: &self.handle,
            count: length,
            datatype: ucp_dt_make_contig(1),
            flags: 0,
        };
        (call, StreamRecv)
    }

    /// What flushing all outstanding AMO and RMA communications on the endpoint
    /// comes to: success, or the failure.
    pub fn flush(status: Status) -> (result: Result<(), Status>)
        ensures
            status.code == UCS_OK ==> result == Ok::<(), Status>(()),
            status.code != UCS_OK ==> result == Err::<(), Status>(status),
    {
        status.check()
    }

    /// Flushing all outstanding AMO and RMA communications on the endpoint
    /// without waiting for it.
    pub fn flush_begin(&self) -> (call: FlushCall<'_, H>)
        ensures
            *call.endpoint == self@,
            call.flags == 0,
    {
        FlushCall { endpoint: &self.handle, flags: 0 }
    }
}

/// A posted send follows its reply to the letter: null is done with the whole
/// buffer, the address of a request is waited for at that very address, and an
/// error fails with the code that lies as far below zero as the address lies
/// below the end of the address space.
pub proof fn send_follows_its_reply(send: StreamSend, reply: StatusPtr)
    ensures
        match send.spec_posted(reply) {
            SendStep::Done(sent) => reply.address == 0 && sent == send.length,
            SendStep::Wait(request) => {
                &&& 0 < reply.address <= usize::MAX - 100
                &&& request.address == reply.address
            },
            SendStep::Failed(status) => {
                &&& usize::MAX - 99 <= reply.address
                &&& reply.address - status.code == usize::MAX + 1
            },
        },
{
}

/// A posted receive follows its reply to the letter: null has its length in the
/// out parameter, the address of a request is waited for at that very address,
/// and an error fails with the code that lies as far below zero as the address
/// lies below the end of the address space.
pub proof fn receive_follows_its_reply(recv: StreamRecv, reply: StatusPtr)
    ensures
        match recv.spec_posted(reply) {
            RecvStep::ReadLength => reply.address == 0,
            RecvStep::Wait(request) => {
                &&& 0 < reply.address <= usize::MAX - 100
                &&& request.address == reply.address
            },
            RecvStep::Failed(status) => {
                &&& usize::MAX - 99 <= reply.address
                &&& reply.address - status.code == usize::MAX + 1
            },
        },
{
}

/// Two transfers that wait on one request were given one reply.
pub proof fn transfers_of_different_replies_wait_apart(
    send: StreamSend,
    recv: StreamRecv,
    a: StatusPtr,
    b: StatusPtr,
)
    requires
        a.address != b.address,
    ensures
        send.spec_posted(a) is Wait && send.spec_posted(b) is Wait ==> send.spec_posted(a)
            != send.spec_posted(b),
        recv.spec_posted(a) is Wait && recv.spec_posted(b) is Wait ==> recv.spec_posted(a)
            != recv.spec_posted(b),
        send.spec_posted(a) is Wait && recv.spec_posted(b) is Wait ==> send.spec_posted(a)->Wait_0
            != recv.spec_posted(b)->Wait_0,
{
}

/// What a transfer reports in the end: a send the length of its buffer, whatever
/// its request holds, and a receive the number that it was told, on either way.
pub proof fn transfer_reports_its_number(
    send: StreamSend,
    recv: StreamRecv,
    request_length: usize,
    length: u64,
)
    ensures
        send.spec_completed(request_length) == send.length,
        recv.spec_completed(request_length) == request_length,
        recv.spec_in_place(length) == length as usize,
{
}

/// A send that does not fail reports its whole buffer, be it done in place or
/// by a request, and whatever length the request holds.
pub proof fn send_reports_whole_buffer(send: StreamSend, reply: StatusPtr, request: RequestView)
    ensures
        match send.spec_posted(reply) {
            SendStep::Done(sent) => sent == send.length,
            SendStep::Wait(_) => send.spec_completed(request.sent().length) == send.length,
            SendStep::Failed(_) => reply.is_err(),
        },
{
}

/// A receive that does not fail reports the number of bytes that UCX has
/// received, be it told by the out parameter of the call or by the callback of
/// the request, and whatever the request held before.
pub proof fn receive_reports_received_bytes(
    recv: StreamRecv,
    reply: StatusPtr,
    request: RequestView,
    stage: PollStage,
    status: Status,
    length: u64,
)
    requires
        status.is_completed(),
    ensures
        match recv.spec_posted(reply) {
            RecvStep::ReadLength => recv.spec_in_place(length) == length as usize,
            RecvStep::Wait(_) => match request.received(length).poll(stage, status) {
                PollStep::Ready(request_length) => recv.spec_completed(request_length)
                    == length as usize,
                _ => false,
            },
            RecvStep::Failed(_) => reply.is_err(),
        },
{
}

/// A send and a receive fail on the same replies, those that are errors, and
/// wait on the same replies, those that are requests.
pub proof fn transfer_waits_on_requests_and_fails_on_errors(
    send: StreamSend,
    recv: StreamRecv,
    reply: StatusPtr,
)
    ensures
        reply.is_err() <==> send.spec_posted(reply) is Failed,
        reply.is_err() <==> recv.spec_posted(reply) is Failed,
        reply.is_ptr() <==> send.spec_posted(reply) is Wait,
        reply.is_ptr() <==> recv.spec_posted(reply) is Wait,
{
}

} // verus!
