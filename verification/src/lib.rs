//! A minimal static-file HTTP server core: a fixed-size worker thread pool
//! with a shared FIFO job queue, and the request-line / response-framing
//! logic of the file-serving collaborator.
//!
//! The pool's control logic (construction, submission, dispatch, shutdown)
//! is modelled and verified here; an embedding supplies the actual OS
//! threads and channel and drives these decision functions.

use vstd::prelude::*;

pub mod http;
pub mod pool;

pub use http::HTTP_RESPONSE_CODE;
pub use pool::ThreadPool;
pub use pool::Worker;

verus! {

/// The default TCP port the server binds to when none is given.
pub const DEFAULT_PORT: u16 = 8383;

} // verus!
