//! Core logic of a desktop assistant shell: a global pointer-gesture
//! interceptor, a foreground-application context resolver, a synthetic input
//! injector, and a window placement calculator, together with the
//! process-wide slots that tie them together.
//!
//! Everything here is plain computation over plain values; the operating
//! system calls that feed these functions (hook installation, cursor probes,
//! input synthesis) live with the host program.

pub mod agent;
pub mod config;
pub mod injector;
pub mod interceptor;
pub mod placement;
pub mod platform;
pub mod resolver;
pub mod slots;
pub mod stream;
pub mod system_api;
