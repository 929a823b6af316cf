use os_socketaddr::OsSocketAddr;
use std::sync::atomic::{AtomicUsize, Ordering};
use std::sync::Arc;
use std::task::{Wake, Waker};
use ucp::status::{UCS_ERR_BUSY, UCS_OK};
use ucp::worker::{UCS_THREAD_MODE_MULTI, UCS_THREAD_MODE_SERIALIZED};
use ucp::{
    Config, Context, Endpoint, Listener, Poll, RecvStep, Request, RequestHandle, SendStep,
    SocketAddrError, SocketAddress, Status, StatusPtr, ThreadMode, Worker, WorkerError,
};

const OK: Status = Status { code: UCS_OK };
const FAILED: Status = Status { code: -3 };
const MULTI: ThreadMode = ThreadMode { mode: UCS_THREAD_MODE_MULTI };

/// Notes when it is dropped.
#[derive(Debug)]
struct Object {
    name: &'static str,
    dropped: Arc<std::sync::Mutex<Vec<&'static str>>>,
}

impl Drop for Object {
    fn drop(&mut self) {
        self.dropped.lock().unwrap().push(self.name);
    }
}

struct Task {
    wakeups: AtomicUsize,
}

impl Wake for Task {
    fn wake(self: Arc<Self>) {
        self.wakeups.fetch_add(1, Ordering::SeqCst);
    }
}

fn worker() -> Arc<Worker<&'static str>> {
    let context = Context::new(OK, "context", |raw| raw).unwrap();
    let worker = context.create_worker(OK, "worker", |raw| raw).unwrap();
    assert_eq!(*worker.handle(), "worker");
    worker.confirm(OK, MULTI).unwrap()
}

/// The bytes of an address, followed by zeros.
fn storage(address: &OsSocketAddr) -> Vec<u8> {
    let mut storage = address.as_ref().to_vec();
    storage.resize(128, 0);
    storage
}

fn socket_addr(storage: &[u8]) -> Result<SocketAddress, SocketAddrError> {
    Listener::<(), ()>::socket_addr(OK, storage)
}

/// The address that a listener on `address` is created with.
fn encoded(address: SocketAddress) -> OsSocketAddr {
    Listener::<(), ()>::params(address).sockaddr
}

fn v4(ip: [u8; 4], port: u16) -> SocketAddress {
    SocketAddress::V4 { ip, port }
}

#[test]
fn new() {
    let config = Config::new(OK, "config", |raw| raw).unwrap();
    assert_eq!(*config.handle(), "config");
    let context = Context::new(OK, "context", |raw| raw).unwrap();
    let worker1 = context.create_worker(OK, "worker1", |raw| raw).unwrap().confirm(OK, MULTI).unwrap();
    let params = Listener::<&str, Waker>::params(v4([0, 0, 0, 0], 0));
    assert_eq!(params.sockaddr.into_addr().unwrap().to_string(), "0.0.0.0:0");
    let mut listener: Listener<&str, Waker> = worker1.create_listener();
    assert!(listener.get_handle().is_none());
    listener.created(OK, "listener", |raw| raw).unwrap();
    assert_eq!(listener.get_handle(), Some(&"listener"));

    let bound: OsSocketAddr = "0.0.0.0:40123".parse().unwrap();
    let listen_port = match socket_addr(&storage(&bound)) {
        Ok(SocketAddress::V4 { ip, port }) => {
            assert_eq!(ip, [0, 0, 0, 0]);
            port
        }
        other => panic!("{:?}", other),
    };
    assert_eq!(listen_port, 40123);

    let task = Arc::new(Task { wakeups: AtomicUsize::new(0) });
    let waker = Waker::from(task.clone());
    assert!(matches!(listener.accept(&waker), Poll::Pending));

    let worker2 = context.create_worker(OK, "worker2", |raw| raw).unwrap().confirm(OK, MULTI).unwrap();
    let mut addr = v4([127, 0, 0, 1], 0);
    assert_eq!(encoded(addr).into_addr().unwrap().to_string(), "127.0.0.1:0");
    if let SocketAddress::V4 { port, .. } = &mut addr {
        *port = listen_port;
    }
    let params = Endpoint::<&str>::params(addr);
    assert_eq!(params.sockaddr.into_addr().unwrap().to_string(), "127.0.0.1:40123");
    let connected = worker2.create_endpoint(OK, "connected", |raw| raw).unwrap();
    assert_eq!(*connected.get_worker().handle(), "worker2");

    for waker in listener.accept_handler("accepted") {
        waker.wake();
    }
    assert_eq!(task.wakeups.load(Ordering::SeqCst), 1);
    match listener.accept(&waker) {
        Poll::Ready(endpoint) => {
            assert_eq!(*endpoint.handle(), "accepted");
            assert_eq!(*endpoint.get_worker().handle(), "worker1");
        }
        Poll::Pending => panic!("the connection is not accepted"),
    }
    assert!(matches!(listener.accept(&waker), Poll::Pending));
}

#[test]
fn failed_creation_returns_the_status() {
    assert_eq!(Config::new(FAILED, 1u8, |raw| raw).err(), Some(FAILED));
    assert_eq!(Context::new(FAILED, 1u8, |raw| raw).err(), Some(FAILED));
    let context = Context::new(OK, 1u8, |raw| raw).unwrap();
    assert_eq!(*context.handle(), 1);
    assert_eq!(context.create_worker(FAILED, 1u8, |raw| raw).err(), Some(FAILED));
    let worker = worker();
    assert_eq!(worker.create_endpoint(FAILED, "", |raw| raw).err(), Some(FAILED));
    assert_eq!(worker.address(FAILED, 0u8, 8, |raw| raw).err(), Some(FAILED));
    let mut listener: Listener<&str, ()> = worker.create_listener();
    assert_eq!(listener.created(FAILED, "", |raw| raw), Err(FAILED));
    assert!(listener.get_handle().is_none());
}

#[test]
fn worker_is_confirmed_by_its_thread_mode() {
    let context = Context::new(OK, 1u8, |raw| raw).unwrap();
    let serialized = ThreadMode { mode: UCS_THREAD_MODE_SERIALIZED };
    let worker = context.create_worker(OK, 2u8, |raw| raw).unwrap();
    assert_eq!(worker.confirm(OK, serialized).err(), Some(WorkerError::Mode(serialized)));
    let worker = context.create_worker(OK, 2u8, |raw| raw).unwrap();
    assert_eq!(worker.confirm(FAILED, MULTI).err(), Some(WorkerError::Query(FAILED)));
    let worker = context.create_worker(OK, 2u8, |raw| raw).unwrap();
    assert_eq!(*worker.confirm(OK, MULTI).unwrap().handle(), 2);
}

#[test]
fn objects_are_dropped_before_what_they_were_created_in() {
    let dropped = Arc::new(std::sync::Mutex::new(Vec::new()));
    let own = |name: &'static str| Object { name, dropped: dropped.clone() };
    let context = Context::new(OK, "context", own).unwrap();
    let worker = context.create_worker(OK, "worker", own).unwrap().confirm(OK, MULTI).unwrap();
    drop(context);
    let endpoint = worker.create_endpoint(OK, "endpoint", own).unwrap();
    let mut listener: Listener<Object, ()> = worker.create_listener();
    listener.created(OK, "listener", own).unwrap();
    assert!(listener.accept_handler(own("incoming")).is_empty());
    drop(worker);
    assert!(dropped.lock().unwrap().is_empty());
    drop(endpoint);
    drop(listener);
    assert_eq!(*dropped.lock().unwrap(), ["endpoint", "listener", "incoming", "worker", "context"]);
}

#[test]
fn config_is_printed_in_full() {
    let config = Config::new(OK, 5u8, |raw| raw).unwrap();
    let call = config.print_to_stderr();
    assert_eq!(*call.config, 5);
    assert_eq!(call.title, "UCP Configuration");
    assert_eq!(call.flags, 15);
}

#[test]
fn context_params() {
    let params = Context::<()>::params();
    assert_eq!(params.field_mask, 47);
    assert_eq!(params.features, 50);
    assert_eq!(params.request_size, std::mem::size_of::<Request>() as u64);
    assert_eq!(params.tag_sender_mask, 0);
    assert_eq!(params.mt_workers_shared, 1);
    assert_eq!(params.estimated_num_eps, 0);
    assert_eq!(params.estimated_num_ppn, 0);
}

#[test]
fn worker_params() {
    let params = Worker::<()>::params();
    assert_eq!(params.field_mask, 1);
    assert_eq!(params.thread_mode, MULTI);
    assert_eq!(params.cpu_mask, [0; 16]);
    assert_eq!(params.events, 0);
    assert_eq!(params.event_fd, 0);
    assert_eq!(Worker::<()>::thread_mode_query(), 1);
}

#[test]
fn worker_address() {
    let worker = worker();
    let address = worker.address(OK, 0x1000usize, 24, |raw| raw + 1).unwrap();
    assert_eq!(address.parts(), (&0x1001, 24));
}

#[test]
fn arm_tells_sleep_from_events() {
    assert_eq!(Worker::<()>::arm(OK), Ok(true));
    assert_eq!(Worker::<()>::arm(Status { code: UCS_ERR_BUSY }), Ok(false));
    assert_eq!(Worker::<()>::arm(FAILED), Err(FAILED));
}

#[test]
fn plain_calls_on_a_worker() {
    assert_eq!(Worker::<()>::wait(OK), Ok(()));
    assert_eq!(Worker::<()>::wait(FAILED), Err(FAILED));
    assert_eq!(Worker::<()>::flush(OK), Ok(()));
    assert_eq!(Worker::<()>::flush(FAILED), Err(FAILED));
    assert_eq!(Worker::<()>::event_fd(OK, 9), Ok(9));
    assert_eq!(Worker::<()>::event_fd(FAILED, 9), Err(FAILED));
    let worker = worker();
    let call = worker.set_am_handler(3, 77);
    assert_eq!((*call.worker, call.id, call.arg, call.flags), ("worker", 3, 77, 0));
    assert_eq!(Worker::<()>::active_message(), OK);
}

#[test]
fn listener_and_endpoint_params() {
    let params = Listener::<(), ()>::params(v4([12, 34, 56, 78], 4242));
    assert_eq!(params.field_mask, 3);
    assert_eq!(params.addrlen, 16);
    assert_eq!(params.addrlen as usize, params.sockaddr.as_ref().len());
    assert_eq!(params.sockaddr.into_addr().unwrap().to_string(), "12.34.56.78:4242");
    let ip = [0xfe, 0x80, 0, 0, 0, 0, 0, 0, 0, 0, 0, 0, 0, 0, 0, 1];
    let v6 = SocketAddress::V6 { ip, port: 4242, flowinfo: 0, scope_id: 3 };
    let mut params = Endpoint::<()>::params(v6);
    assert_eq!(params.field_mask, 48);
    assert_eq!(params.flags, 1);
    assert_eq!(params.err_mode, 0);
    assert_eq!(params.addrlen as usize, params.sockaddr.as_ref().len());
    let buffer: &mut [u8] = params.sockaddr.as_mut();
    assert_eq!(params.addrlen as usize, buffer.len());
    assert_eq!(params.sockaddr.into_addr().unwrap().to_string(), "[fe80::1%3]:4242");
}

#[test]
fn encoded_bytes_are_in_network_order() {
    let v4 = encoded(v4([12, 34, 56, 78], 0x1234));
    assert_eq!(v4.as_ref()[2..8], [0x12, 0x34, 12, 34, 56, 78]);
    let ip = [7, 8, 9, 10, 11, 12, 13, 14, 15, 16, 17, 18, 19, 20, 21, 22];
    let v6 = encoded(SocketAddress::V6 { ip, port: 0x1234, flowinfo: 0x0102_0304, scope_id: 6 });
    assert_eq!(v6.as_ref()[4..8], 0x0102_0304u32.to_ne_bytes());
    assert_eq!(v6.as_ref()[24..28], 6u32.to_ne_bytes());
    assert_eq!(v6.as_ref()[2..4], [0x12, 0x34]);
    assert_eq!(v6.as_ref()[8..24], ip);
}

#[test]
fn socket_addr_reads_an_ipv4_address_back() {
    assert_eq!(Listener::<(), ()>::socket_addr_query(), 1);
    for address in [v4([0, 0, 0, 0], 0), v4([12, 34, 56, 78], 4242), v4([255; 4], u16::MAX)] {
        let mut raw = storage(&encoded(address));
        assert_eq!(socket_addr(&raw), Ok(address));
        for byte in raw.iter_mut().skip(8) {
            *byte = 0xff;
        }
        assert_eq!(socket_addr(&raw), Ok(address));
        assert_eq!(socket_addr(&raw[..8]), Ok(address));
    }
}

#[test]
fn socket_addr_keeps_the_port_and_flow_of_an_ipv6_address() {
    let v6 = SocketAddress::V6 { ip: [9; 16], port: 4242, flowinfo: 0x1122_3344, scope_id: 5 };
    let read = SocketAddress::V6 { ip: [0; 16], port: 4242, flowinfo: 0x1122_3344, scope_id: 0 };
    assert_eq!(socket_addr(&storage(&encoded(v6))), Ok(read));
}

#[test]
fn socket_addr_that_cannot_be_told() {
    assert_eq!(socket_addr(&[0; 128]), Err(SocketAddrError::Family));
    let failed = Listener::<(), ()>::socket_addr(FAILED, &[0; 128]);
    assert_eq!(failed, Err(SocketAddrError::Query(FAILED)));
}

#[test]
fn send_reports_its_buffer() {
    let worker = worker();
    let endpoint = worker.create_endpoint(OK, "endpoint", |raw| raw).unwrap();
    let (call, send) = endpoint.stream_send(300);
    assert_eq!((*call.endpoint, call.count, call.datatype, call.flags), ("endpoint", 300, 8, 0));
    assert_eq!(send.posted(StatusPtr { address: 0 }), SendStep::Done(300));
    assert_eq!(
        send.posted(StatusPtr { address: 64 }),
        SendStep::Wait(RequestHandle { address: 64 })
    );
    assert_eq!(send.completed(12), 300);
    assert_eq!(
        send.posted(StatusPtr { address: usize::MAX - 2 }),
        SendStep::Failed(Status { code: -3 })
    );
}

#[test]
fn receive_reports_what_came() {
    let worker = worker();
    let endpoint = worker.create_endpoint(OK, "endpoint", |raw| raw).unwrap();
    let (call, recv) = endpoint.stream_recv(300);
    assert_eq!((*call.endpoint, call.count, call.datatype, call.flags), ("endpoint", 300, 8, 0));
    assert_eq!(recv.posted(StatusPtr { address: 0 }), RecvStep::ReadLength);
    assert_eq!(recv.in_place(17), 17);
    assert_eq!(
        recv.posted(StatusPtr { address: 64 }),
        RecvStep::Wait(RequestHandle { address: 64 })
    );
    assert_eq!(recv.completed(18), 18);
    assert_eq!(
        recv.posted(StatusPtr { address: usize::MAX - 2 }),
        RecvStep::Failed(Status { code: -3 })
    );
}

#[test]
fn flushing_an_endpoint() {
    assert_eq!(Endpoint::<()>::flush(OK), Ok(()));
    assert_eq!(Endpoint::<()>::flush(FAILED), Err(FAILED));
    let worker = worker();
    let endpoint = worker.create_endpoint(OK, "endpoint", |raw| raw).unwrap();
    let call = endpoint.flush_begin();
    assert_eq!((*call.endpoint, call.flags), ("endpoint", 0));
}

#[test]
fn contiguous_datatypes() {
    assert_eq!(ucp::endpoint::ucp_dt_make_contig(1), 8);
    assert_eq!(ucp::endpoint::ucp_dt_make_contig(4), 32);
    assert_eq!(ucp::endpoint::ucp_dt_make_contig(0), 0);
}
