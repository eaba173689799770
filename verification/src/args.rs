//! The command-line surface: what the operator may configure. Argument
//! parsing itself happens outside; the gateway's rules read these plain
//! fields.

use vstd::prelude::*;

verus! {

/// The gateway's command-line arguments: exactly one of `listen_addr`
/// (persistent mode) and `socket_name` (socket-activated mode) must be set,
/// and `root_path` names the directory scripts are resolved under.
pub struct CgiDArgs {
    /// The address to listen on in persistent server mode.
    pub listen_addr: Option<String>,
    /// The inherited-socket name for single-connection mode.
    pub socket_name: Option<String>,
    /// The base directory in which to locate scripts.
    pub root_path: String,
}

} // verus!
