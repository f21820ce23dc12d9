//! A backend on the mutable file system of an IPFS node.

pub mod backend;
pub mod builder;
pub mod channel;
pub mod dir_stream;
pub mod request_writer;
pub mod transport;

pub use backend::Backend;
pub use builder::Builder;
