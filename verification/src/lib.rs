//! A serialised gateway to a native linking backend that is not safe to
//! run twice at once, and a driver for linking through the host toolchain.
//!
//! Two ways to link are offered. [`lld_main`] runs the embedded backend
//! with an access of the lock that the whole process shares.
//! [`KclvmLinker::link_all_libs`]
//! hands the link to an external command and reports how it ended.
//! Neither touches the machine itself or waits: the native entry point,
//! the process runner and the answer of the lock are handed in by the
//! caller.

pub mod argv;
pub mod backend;
pub mod dispatch;
pub mod lock;
pub mod native_string;
pub mod protocol;
pub mod request;
pub mod toolchain;

pub use argv::ArgumentVector;
pub use backend::{Backend, DispatchOutcome};
pub use dispatch::lld_main;
pub use lock::{BackendAccess, BackendLock, LockError};
pub use native_string::{NativeString, NulError};
pub use request::{LinkRequest, RequestError, UndefinedSymbols};
pub use toolchain::{KclvmLinker, LinkResult, ProcessOutcome};
