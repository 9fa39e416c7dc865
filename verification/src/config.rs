//! Runtime configuration of the process hosting the service.

use vstd::prelude::*;

verus! {

/// The settings the process starts with: the address to listen on and
/// the location of the metadata store. Loaded from the environment by
/// the boundary layer; the core only carries the values.
pub struct Config {
    pub host: String,
    pub port: i32,
    pub database_url: String,
}

} // verus!
