//! A bridge between a multi-threaded native scheduler and a single-threaded
//! cooperative foreign event loop: a Future emulation with a monotonic state
//! machine, a fast-path awaitable, and a coroutine-stepping trampoline.
//!
//! Foreign objects appear here as handles. Each operation that must reach the
//! foreign loop is returned as a value for the host to perform.
pub mod awaitable;
pub mod cancel;
pub mod future;
pub mod future_laws;
pub mod handle;
pub mod result_cell;
pub mod scheduler;
pub mod stepper;
