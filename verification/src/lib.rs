//! Core of a background service that simulates pointer clicks at a
//! human-plausible cadence.
//!
//! The library holds the two pieces with real algorithmic content, both
//! verified: the activation state machine, which turns a stream of key press
//! and release events into start and stop decisions, and the click scheduler,
//! which spaces the simulated clicks so that each one-second window spends a
//! freshly sampled click quota instead of ticking at a flat rate. Around them
//! stand the profile data model and the control-plane request handling.
//!
//! Time and randomness enter through arguments or through the one narrow
//! trusted sampler in `sampling`; floating-point draws, device input, the
//! pointer sink and the control socket live outside the library and hand it
//! plain integers.

pub mod activation;
pub mod control;
pub mod profile;
pub mod runtime;
pub mod sampling;
pub mod scheduler;

pub use activation::KeyEvent;
pub use control::IpcRequest;
pub use control::IpcResponse;
pub use runtime::RuntimeState;
pub use profile::Cps;
pub use profile::Profile;
pub use scheduler::Scheduler;
