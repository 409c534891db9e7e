//! A library for doing live-reloading application development.
//!
//! The host program owns a [`Reloadable`]: a handle to dynamically loaded
//! application logic together with the opaque state buffer that survives a
//! code swap.  The engine sequences the lifecycle entry points of the loaded
//! artifact (`init`, `reload`, `update`, `unload`, `deinit`), watches the
//! artifact's directory for changes, and reloads the artifact when its file
//! is rewritten, carrying the state buffer across the swap.
//!
//! The orchestrator never interprets the bytes of the state buffer; they are
//! meaningful only to the loaded artifact, which reinterprets them as its
//! private state structure.  The [`demo`] module shows a complete artifact
//! written against the [`api::ReloadApi`] table, storing a counter in the
//! first word of the buffer.

pub mod api;
pub mod buffer;
pub mod demo;
pub mod events;
pub mod ext;
pub mod monitor;
pub mod orchestrator;

pub use api::Error;
pub use api::LifecycleCall;
pub use api::Loader;
pub use api::ReloadApi;
pub use api::ShouldQuit;
pub use buffer::StateBuffer;
pub use events::WatchEvent;
pub use monitor::WatchMonitor;
pub use orchestrator::App;
pub use orchestrator::Reloadable;
