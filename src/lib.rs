pub mod backoff;
pub mod client;
pub mod config;
pub mod err;
pub mod future;
pub mod heartbeat;
pub mod magic;
pub mod rw;
pub mod server;
pub mod stream;
pub mod util;
