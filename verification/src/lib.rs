//! Verified core of a multi-threaded FUSE session.

pub mod async_fs;
pub mod async_session;
pub mod async_session_laws;
pub mod channel;
pub mod kernel_config;
pub mod ll;
pub mod operation;
pub mod operation_laws;
pub mod owned_request;
pub mod platform;
pub mod reply;
pub mod session;
pub mod uring_session;
pub mod uring_session_laws;
pub mod wire;
