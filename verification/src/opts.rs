use vstd::prelude::*;

verus! {

/// Command-line options: an optional loopback port and an optional alias
/// naming which stored app credentials to use.
pub struct Opts {
    /// An optional port to listen for responses from GitHub on (defaults to 4567)
    pub port: Option<u16>,
    /// Alias for name of GitHub app to store on keychain (defaults to "default")
    pub alias: Option<String>,
}

/// The port the listener binds when none was given on the command line.
pub const DEFAULT_PORT: u16 = 4567;

impl Opts {
    /// The port to bind: the one given, or the default.
    pub fn effective_port(&self) -> (p: u16)
        ensures
            p == match self.port {
                Some(q) => q,
                None => DEFAULT_PORT,
            },
    {
        match self.port {
            Some(q) => q,
            None => DEFAULT_PORT,
        }
    }

    /// The credential alias to use: the one given, or "default".
    pub fn effective_alias(&self) -> (a: String)
        ensures
            match self.alias {
                Some(s) => a@ == s@,
                None => a@ == "default"@,
            },
    {
        match &self.alias {
            Some(s) => s.clone(),
            None => "default".to_owned(),
        }
    }
}

} // verus!
