//! Client-side configuration: the daemon socket, the request timeout and
//! the output format, with their defaults. Loading and saving the file is
//! the embedding application's.

use vstd::prelude::*;

verus! {

/// The client configuration.
pub struct CliConfig {
    pub socket: String,
    pub timeout: u64,
    pub format: OutputFormat,
}

/// How the client renders results.
pub enum OutputFormat {
    Table,
    Json,
}

/// Default daemon socket path.
pub fn default_socket() -> (r: String)
    ensures
        r@ == "/var/run/katana/daemon.sock"@,
{
    "/var/run/katana/daemon.sock".to_owned()
}

/// Default request timeout in seconds.
pub fn default_timeout() -> (r: u64)
    ensures
        r == 30,
{
    30
}

/// Default output format.
pub fn default_format() -> (r: OutputFormat)
    ensures
        r is Table,
{
    OutputFormat::Table
}

impl Default for CliConfig {
    /// The default configuration: the standard socket, a 30 second timeout,
    /// table output.
    fn default() -> (r: Self)
        ensures
            r.socket@ == "/var/run/katana/daemon.sock"@,
            r.timeout == 30,
            r.format is Table,
    {
        CliConfig { socket: default_socket(), timeout: default_timeout(), format: default_format() }
    }
}

} // verus!
