//! A WebAssembly function host's core: each HTTP request is dispatched
//! into a sandboxed guest module, which reads its request context and
//! writes its response through a fixed host ABI, works on files inside
//! one preopened directory under a capability rights model and a write
//! quota, and may run one-shot outbound TLS exchanges. This library holds
//! the verified rules of those three surfaces — the ABI's
//! length-then-copy memory handshake, the sandbox filesystem's rights,
//! path-containment and quota decisions, and the TLS response queue —
//! while the HTTP server, the guest runtime and the host's file and
//! network I/O stay outside and hand plain values in.

pub mod buffer;
pub mod cli;
pub mod context;
pub mod driver;
pub mod guest_mem;
pub mod rights;
pub mod strutil;
pub mod tls;
pub mod vfs;
pub mod vpath;
pub mod wasi;

use vstd::prelude::*;

verus! {

/// Upper bound, in bytes, on the size any one sandboxed file may reach
/// through guest writes.
pub const FILE_WRITE_LIMIT: u64 = 300 * 1024 * 1024;

pub fn file_write_limit() -> (r: u64)
    ensures
        r == FILE_WRITE_LIMIT,
{
    FILE_WRITE_LIMIT
}

} // verus!
