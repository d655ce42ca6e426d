//! The error taxonomy of the server: startup failures, per-request failures,
//! and the per-entry failure that a listing tolerates.
use vstd::prelude::*;

verus! {

/// Everything that can go wrong while configuring the server or serving one
/// connection.
#[derive(Clone, Copy, PartialEq, Eq, Structural, Debug)]
pub enum ServeError {
    /// Startup was given an invalid worker-pool size or port; fatal.
    ConfigError,
    /// The listening address could not be bound; fatal.
    BindError,
    /// A selector names no existing path; recovered locally by serving the
    /// root listing instead.
    NotFound,
    /// A selector tries to escape the root directory; no filesystem access
    /// is made for it.
    Forbidden,
    /// Reading the request or writing the response failed mid-connection;
    /// that connection is abandoned, the worker continues.
    IoError,
    /// One directory child's metadata could not be read; that entry alone is
    /// omitted from the listing.
    PerEntryMetadataError,
}

} // verus!
