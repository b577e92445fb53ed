//! Supervision of a development server that a desktop shell starts as a child
//! process: the slot that owns the child's handle, the readiness prober that
//! gates startup, and the decisions taken at setup and when the window goes.
//!
//! Nothing here performs I/O. Spawning, connecting, sleeping and killing are
//! left to the caller, which hands the results back as plain values.

pub mod slot;
pub mod prober;
pub mod timing;
pub mod startup;
pub mod shutdown;
