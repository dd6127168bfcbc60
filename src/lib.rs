//! Query service for reading one attribute of a DID account as of a ledger snapshot.
//!
//! The library resolves the snapshot to query, translates what the runtime's
//! read capability returned into a transport-safe attribute, and maps a runtime
//! failure onto a stable service error.
use vstd::prelude::*;

pub mod attribute;
pub mod error;
pub mod service;
pub mod laws;

pub use attribute::{Attribute, RPCAttribute};
pub use error::{Error, ServiceError};
pub use service::{resolve_at, translate_outcome, PeaqDID};
