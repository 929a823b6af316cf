//! The decisions of an asynchronous binding to UCP, the protocol layer of UCX.
//!
//! The foreign calls themselves are made elsewhere. This crate says what is
//! handed to each of them, what follows from each reply, and how the objects
//! that the calls create depend on one another.

pub mod config;
pub mod context;
pub mod endpoint;
pub mod listener;
pub mod queue;
pub mod request;
pub mod sockaddr;
pub mod status;
pub mod wake;
pub mod worker;

pub use crate::config::{Config, ConfigPrint};
pub use crate::context::{Context, ContextParams};
pub use crate::endpoint::{
    Endpoint, EndpointParams, FlushCall, RecvStep, SendStep, StreamCall, StreamRecv, StreamSend,
};
pub use crate::listener::{Listener, ListenerParams, SocketAddrError};
pub use crate::queue::{Poll, Queue};
pub use crate::request::{PollStage, PollStep, Request, RequestHandle};
pub use crate::sockaddr::SocketAddress;
pub use crate::status::{Posted, Status, StatusPtr};
pub use crate::worker::{
    AmHandler, NewWorker, ThreadMode, Worker, WorkerAddress, WorkerError, WorkerParams,
};
