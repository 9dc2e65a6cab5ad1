use vstd::prelude::*;

verus! {

/// The options form of the configuration.
#[derive(Clone, Copy, Debug)]
pub struct Options {
    pub is_server: bool,
}

/// The configuration of the pass: a plain flag, or an options record.
#[derive(Clone, Copy, Debug)]
pub enum Config {
    All(bool),
    WithOptions(Options),
}

/// Whether a configuration selects the server compilation: the options record says so
/// itself; a plain flag always selects it.
pub open spec fn config_is_server(config: Config) -> bool {
    match config {
        Config::WithOptions(o) => o.is_server,
        Config::All(_) => true,
    }
}

impl Config {
    /// Whether the configuration switches the pass on: a plain flag says so itself, an
    /// options record always does.
    pub fn truthy(&self) -> (r: bool)
        ensures
            r == match self {
                Config::All(b) => *b,
                Config::WithOptions(_) => true,
            },
    {
        match self {
            Config::All(b) => *b,
            Config::WithOptions(_) => true,
        }
    }
}

} // verus!
