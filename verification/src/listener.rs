//! Listeners: they are handed the endpoints of incoming connections, which are
//! then accepted one by one.

use crate::endpoint::Endpoint;
use crate::queue::{Poll, Queue, QueueView};
use crate::sockaddr::{self, decode, encode, from_prefix, SocketAddress};
use crate::status::{Status, UCS_OK};
use crate::worker::Worker;
use os_socketaddr::OsSocketAddr;
use std::sync::Arc;
use vstd::prelude::*;

verus! {

/// The field `sockaddr` of the parameters of a listener is valid.
pub const UCP_LISTENER_PARAM_FIELD_SOCK_ADDR: u64 = 1;

/// The field `accept_handler` of the parameters of a listener is valid.
pub const UCP_LISTENER_PARAM_FIELD_ACCEPT_HANDLER: u64 = 2;

/// The field `sockaddr` of the attributes of a listener is asked for.
pub const UCP_LISTENER_ATTR_FIELD_SOCKADDR: u64 = 1;

/// The number of bytes of a socket address that are read back: the family, the
/// port and an IPv4 address.
pub const SOCKADDR_BYTES: usize = 8;

/// A listener. It keeps its worker alive.
///
/// `H` owns an object of UCX: dropping it releases the object. `W` wakes a task
/// that waits for a connection.
#[derive(Debug)]
pub struct Listener<H, W> {
    handle: Option<H>,
    incomings: Queue<Arc<Endpoint<H>>, W>,
    worker: Arc<Worker<H>>,
}

/// What is handed to `ucp_listener_create`, besides the callback that calls
/// [`Listener::accept_handler`].
#[derive(Debug)]
pub struct ListenerParams {
    pub field_mask: u64,
    pub sockaddr: OsSocketAddr,
    pub addrlen: u32,
}

/// Why the socket address of a listener cannot be told.
#[derive(Debug, Clone, Copy, PartialEq, Eq, Structural)]
pub enum SocketAddrError {
    /// Its attributes could not be queried.
    Query(Status),
    /// It is not an IP address.
    Family,
}

impl<H, W> Listener<H, W> {
    /// The object that the listener owns, once there is one.
    pub closed spec fn handle(&self) -> Option<H> {
        self.handle
    }

    /// The connections that wait to be accepted and the tasks that wait for
    /// one.
    pub closed spec fn incomings(&self) -> QueueView<Arc<Endpoint<H>>, W> {
        self.incomings@
    }

    /// The worker on which the listener was created.
    pub closed spec fn worker(&self) -> Worker<H> {
        *self.worker
    }

    /// Whatever waits to be accepted belongs to the worker of the listener, and
    /// no task waits while there is something to accept.
    pub open spec fn wf(&self) -> bool {
        &&& self.incomings().wf()
        &&& forall|i: int|
            0 <= i < self.incomings().items.len() ==> (#[trigger] self.incomings().items[i]).worker()
                == self.worker()
    }

    /// The parameters of a listener on `address`.
    pub fn params(address: SocketAddress) -> (params: ListenerParams)
        ensures
            params.field_mask == 0b11,
            sockaddr::decoded(sockaddr::address_bytes(params.sockaddr)) == Some(address),
            sockaddr::stands_in(address, sockaddr::address_bytes(params.sockaddr)),
            params.addrlen == match address {
                SocketAddress::V4 { .. } => 16,
                SocketAddress::V6 { .. } => sockaddr::address_bytes(params.sockaddr).len(),
            },
            params.addrlen <= sockaddr::address_bytes(params.sockaddr).len(),
    {
        assert(1u64 | 2u64 == 0b11u64) by (bit_vector);
        let sockaddr: OsSocketAddr = encode(address);
        ListenerParams {
            field_mask: UCP_LISTENER_PARAM_FIELD_SOCK_ADDR
                | UCP_LISTENER_PARAM_FIELD_ACCEPT_HANDLER,
            sockaddr,
            addrlen: sockaddr.len(),
        }
    }

    pub(crate) fn new(worker: &Arc<Worker<H>>) -> (listener: Listener<H, W>)
        ensures
            listener.wf(),
            listener.handle() is None,
            listener.worker() == **worker,
            listener.incomings() == QueueView::<Arc<Endpoint<H>>, W>::empty(),
    {
        Listener { handle: None, incomings: Queue::default(), worker: worker.clone() }
    }

    /// Takes over the listener that `ucp_listener_create` has left in `raw`, or
    /// returns the status with which it failed.
    pub fn created<R, F: FnOnce(R) -> H>(&mut self, status: Status, raw: R, own: F) -> (result:
        Result<(), Status>)
        requires
            old(self).wf(),
            own.requires((raw,)),
        ensures
            final(self).wf(),
            final(self).worker() == old(self).worker(),
            final(self).incomings() == old(self).incomings(),
            match result {
                Ok(()) => {
                    &&& status.code == UCS_OK
                    &&& final(self).handle() is Some
                    &&& own.ensures((raw,), final(self).handle()->0)
                },
                Err(error) => {
                    &&& status.code != UCS_OK
                    &&& error == status
                    &&& final(self).handle() == old(self).handle()
                },
            },
    {
        match status.adopt(raw, own) {
            Ok(handle) => {
                self.handle = Some(handle);
                Ok(())
            },
            Err(error) => Err(error),
        }
    }

    /// The object that this listener owns, once there is one.
    pub fn get_handle(&self) -> (handle: Option<&H>)
        ensures
            match handle {
                Some(handle) => self.handle() == Some(*handle),
                None => self.handle() is None,
            },
    {
        self.handle.as_ref()
    }

    /// The callback for an incoming connection: queues its endpoint, which
    /// belongs to the worker of the listener, and hands out the wakers of all
    /// tasks that waited.
    pub fn accept_handler(&mut self, connection: H) -> (wakers: Vec<W>)
        requires
            old(self).wf(),
        ensures
            final(self).wf(),
            final(self).handle() == old(self).handle(),
            final(self).worker() == old(self).worker(),
            exists|endpoint: Arc<Endpoint<H>>|
                #![trigger old(self).incomings().arrived(endpoint)]
                {
                    &&& final(self).incomings() == old(self).incomings().arrived(endpoint)
                    &&& endpoint@ == connection
                    &&& endpoint.worker() == old(self).worker()
                },
            final(self).incomings().items.len() == old(self).incomings().items.len() + 1,
            final(self).incomings().items.drop_last() == old(self).incomings().items,
            final(self).incomings().items.last()@ == connection,
            final(self).incomings().items.last().worker() == old(self).worker(),
            final(self).incomings().wakers.len() == 0,
            wakers@ == old(self).incomings().wakers,
    {
        let endpoint: Arc<Endpoint<H>> = Endpoint::accepted(&self.worker, connection);
        let wakers: Vec<W> = self.incomings.arrive(endpoint);
        assert(self.incomings() == old(self).incomings().arrived(endpoint));
        wakers
    }

    /// Accepts the oldest connection that waits. Where there is none, keeps a
    /// clone of `waker`, which the next connection hands out.
    pub fn accept(&mut self, waker: &W) -> (result: Poll<Arc<Endpoint<H>>>) where W: Clone
        requires
            old(self).wf(),
        ensures
            final(self).wf(),
            final(self).handle() == old(self).handle(),
            final(self).worker() == old(self).worker(),
            match result {
                Poll::Ready(endpoint) => {
                    &&& old(self).incomings().items.len() > 0
                    &&& endpoint == old(self).incomings().items[0]
                    &&& endpoint.worker() == old(self).worker()
                    &&& final(self).incomings() == old(self).incomings().taken()
                    &&& final(self).incomings().items == old(self).incomings().items.skip(1)
                    &&& final(self).incomings().wakers == old(self).incomings().wakers
                },
                Poll::Pending => {
                    &&& old(self).incomings().items.len() == 0
                    &&& exists|kept: W| #[trigger]
                        cloned(*waker, kept) && final(self).incomings() == old(
                            self,
                        ).incomings().parked(kept) && final(self).incomings().wakers == old(
                            self,
                        ).incomings().wakers.push(kept)
                    &&& final(self).incomings().items == old(self).incomings().items
                },
            },
    {
        self.incomings.poll(waker)
    }

    /// The field mask of the query for the socket address of a listener.
    pub fn socket_addr_query() -> (field_mask: u64)
        ensures
            field_mask == 0b1,
    {
        UCP_LISTENER_ATTR_FIELD_SOCKADDR
    }

    /// The socket address that `ucp_listener_query` has left in `storage`, or
    /// why there is none. Only the first bytes are read, which an IPv4 address
    /// does not reach beyond: it is read back as it was. Of an IPv6 address the
    /// port and the flow information are read back, and its IP address and its
    /// scope read as zero.
    pub fn socket_addr(status: Status, storage: &[u8]) -> (result: Result<
        SocketAddress,
        SocketAddrError,
    >)
        requires
            storage@.len() >= SOCKADDR_BYTES,
        ensures
            match result {
                Err(SocketAddrError::Query(error)) => status.code != UCS_OK && error == status,
                _ => {
                    &&& status.code == UCS_OK
                    &&& exists|read: OsSocketAddr| #[trigger]
                        sockaddr::holds_prefix(read, storage@, 8) && sockaddr::decoded(sockaddr::address_bytes(read))
                            == result.ok()
                    &&& forall|whole: OsSocketAddr|
                        #![trigger sockaddr::decoded(sockaddr::address_bytes(whole))]
                        sockaddr::starts_alike(sockaddr::address_bytes(whole), storage@) ==> sockaddr::reads_alike(
                            result.ok(),
                            sockaddr::decoded(sockaddr::address_bytes(whole)),
                        )
                },
            },
            match result {
                Ok(SocketAddress::V4 { ip, port }) => {
                    &&& port == storage@[2] * 256 + storage@[3]
                    &&& ip@ == storage@.subrange(4, 8)
                },
                Ok(SocketAddress::V6 { ip, port, flowinfo, scope_id }) => {
                    &&& port == storage@[2] * 256 + storage@[3]
                    &&& sockaddr::holds_number(storage@, 4, flowinfo)
                    &&& ip@ == Seq::new(16, |i: int| 0u8)
                    &&& scope_id == 0
                },
                Err(_) => true,
            },
    {
        match status.check() {
            Ok(()) => {
                let read: OsSocketAddr = from_prefix(storage, SOCKADDR_BYTES);
                assert(sockaddr::address_bytes(read).subrange(0, 8) =~= storage@.subrange(0, 8));
                assert(sockaddr::address_bytes(read).subrange(4, 8) =~= storage@.subrange(4, 8));
                assert(sockaddr::address_bytes(read).subrange(8, 24) =~= Seq::new(16, |i: int| 0u8));
                match decode(read) {
                    Some(address) => Ok(address),
                    None => Err(SocketAddrError::Family),
                }
            },
            Err(error) => Err(SocketAddrError::Query(error)),
        }
    }
}

} // verus!
