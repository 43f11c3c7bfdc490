//! Verified logic of a no-heap firmware updater that fetches files over a
//! host file interface into fixed buffers.

pub mod path;
pub mod fetch;
pub mod semihost;
pub mod checksum;
