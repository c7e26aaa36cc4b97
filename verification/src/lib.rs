//! Host-side bookkeeping for an OpenCL context.
//!
//! The crate never talks to a driver. It decides which platform and which
//! devices a context is made of, keeps the handles the driver gave out, and
//! picks the device a queue or program is built for. The caller performs the
//! driver calls and hands their results in as plain values.

pub mod context;
pub mod error;
pub mod handle;
pub mod setup;
