//! Management of a vendor driver-settings registry ("DRS"): named profiles,
//! the applications bound to them, and the numeric feature-toggle setting that
//! marks an application as blacklisted.
//!
//! The native registry is reached through the [`backend::DrsBackend`] trait,
//! an abstract capability interface with one method per backend operation.
//! All decision logic — session lifecycle, profile and application
//! enumeration, the blacklist/unblacklist workflow — is verified against the
//! trait's contracts. [`memory::MemoryBackend`] is a verified in-memory
//! implementation of the trait; an adapter over the real native library lives
//! outside the verified boundary.

pub mod applications;
pub mod backend;
pub mod error;
pub mod focus;
pub mod memory;
pub mod model;
pub mod processes;
pub mod profiles;
pub mod session;
pub mod settings;
pub mod types;
pub mod wire;

pub use error::NvApiError;
