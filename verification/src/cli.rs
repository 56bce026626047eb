//! The host's configuration, as plain values. Command-line parsing
//! happens outside the library and fills this in.

use vstd::prelude::*;

verus! {

/// What one host process runs with: the sandbox directory, the name of
/// the optional environment file inside it, the flow identity, the guest
/// module's path, and the local port to serve on.
#[derive(Clone, Debug)]
pub struct Cli {
    pub work_dir: String,
    pub env_file: String,
    pub flow: String,
    pub wasm: String,
    pub port: u16,
}

} // verus!
