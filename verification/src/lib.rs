pub mod backend;
pub mod client;
pub mod client_stream;
pub mod connection;
pub mod device_info;
pub mod event_loop;
pub mod frame;
pub mod handle;
pub mod interest;
pub mod message_stream;
pub mod messages;
pub mod rpc;
pub mod server;
pub mod shm;
pub mod thread_priority;
