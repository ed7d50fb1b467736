//! Service configuration, as plain values.

use vstd::prelude::*;

verus! {

/// Where the service listens and where it finds the command line tool and its credentials.
#[derive(Clone)]
pub struct Config {
    /// The address to bind to, in its textual form.
    pub host: String,
    pub port: u16,
    /// The installation directory of the command line tool, when given.
    pub gemini_cli_path: Option<String>,
    /// The credentials file of the command line tool, when given.
    pub auth_file: Option<String>,
}

} // verus!
