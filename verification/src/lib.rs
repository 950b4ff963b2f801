//! In-process interception of fatal signals: the crash-context data model,
//! the registry of attached handlers and the dispatch chain.

pub mod signal;
pub mod stack;
pub mod wire;
pub mod context;
pub mod event;
pub mod error;
pub mod registry;

pub use context::{CrashContext, SigInfo};
pub use error::Error;
pub use event::{make_crash_event, CrashEvent};
pub use registry::{ExceptionHandler, HandlerRegistry};
pub use signal::Signal;
