//! A minimal harness for executing a single GPU compute dispatch and reading
//! the result back on the host.
//!
//! The harness selects an adapter according to a configurable backend and
//! power preference, compiles a compute program, uploads input bytes into a
//! device-resident storage buffer, dispatches a fixed grid of workgroups,
//! copies the result into a host-visible staging buffer, and drives the
//! asynchronous mapping protocol so that the caller only ever sees the bytes
//! after the device has finished writing them.

pub mod config;
pub mod context;
pub mod shader;
pub mod buffers;
pub mod dispatch;
pub mod words;
