//! Resolved application configuration: the server address parts and the
//! base filesystem path for generated SBOM artifacts.  Loading from file
//! and environment is the embedding program's business; the library only
//! consumes the resolved values.

use vstd::prelude::*;

verus! {

/// Where the server listens.
#[derive(Debug)]
pub struct Server {
    pub host: String,
    pub port: u16,
}

/// The application's resolved configuration.
#[derive(Debug)]
pub struct VenomConfig {
    pub server: Server,
    pub sboms_path: String,
}

} // verus!
