//! The resolved configuration value and the error taxonomy.

use vstd::prelude::*;

verus! {

/// Where the listener will bind: exactly one of a network address/port
/// pair or a local interprocess socket path.
#[derive(Debug)]
pub enum BindTarget {
    Network { host: String, port: u16 },
    UnixSocket { path: String },
}

/// A fully resolved configuration: the genesis file path (defaulted when
/// absent) and exactly one binding strategy.  Illegal combinations are
/// unrepresentable: there is never "both" or "neither" bind form.
#[derive(Debug)]
pub struct Config {
    pub genesis: String,
    pub bind: BindTarget,
}

/// Why resolution failed.  All variants are terminal; none is retried
/// or recovered internally.
#[derive(Debug)]
pub enum ConfigError {
    /// The token stream itself could not be parsed into options.
    Malformed,
    /// Both a host and a socket path were explicitly supplied.
    ConflictingBindOptions,
    /// Neither a port nor a socket path was supplied.
    MissingBindTarget,
    /// The supplied port text (carried here) is not an unsigned
    /// 16-bit integer.
    InvalidPort(String),
}

/// Mathematical model of a bind target: strings become char sequences.
pub enum BindView {
    Network { host: Seq<char>, port: u16 },
    UnixSocket { path: Seq<char> },
}

/// Mathematical model of a resolved configuration.
pub struct ConfigView {
    pub genesis: Seq<char>,
    pub bind: BindView,
}

/// Mathematical model of a resolution error.
pub enum ErrorView {
    Malformed,
    ConflictingBindOptions,
    MissingBindTarget,
    InvalidPort(Seq<char>),
}

impl View for BindTarget {
    type V = BindView;

    open spec fn view(&self) -> BindView {
        match self {
            BindTarget::Network { host, port } => BindView::Network { host: host@, port: *port },
            BindTarget::UnixSocket { path } => BindView::UnixSocket { path: path@ },
        }
    }
}

impl View for Config {
    type V = ConfigView;

    open spec fn view(&self) -> ConfigView {
        ConfigView { genesis: self.genesis@, bind: self.bind@ }
    }
}

impl View for ConfigError {
    type V = ErrorView;

    open spec fn view(&self) -> ErrorView {
        match self {
            ConfigError::Malformed => ErrorView::Malformed,
            ConfigError::ConflictingBindOptions => ErrorView::ConflictingBindOptions,
            ConfigError::MissingBindTarget => ErrorView::MissingBindTarget,
            ConfigError::InvalidPort(text) => ErrorView::InvalidPort(text@),
        }
    }
}

/// The human-readable message each error kind carries.
pub open spec fn error_message(e: ErrorView) -> Seq<char> {
    match e {
        ErrorView::Malformed => "Malformed arguments"@,
        ErrorView::ConflictingBindOptions => "Cannot specify both host and socket"@,
        ErrorView::MissingBindTarget => "Port number or socket must be specified"@,
        ErrorView::InvalidPort(_) => "Invalid port number"@,
    }
}

impl ConfigError {
    /// The message the invoking entry point reports for this error.
    pub fn message(&self) -> (r: String)
        ensures
            r@ == error_message(self@),
    {
        match self {
            ConfigError::Malformed => String::from_str("Malformed arguments"),
            ConfigError::ConflictingBindOptions => String::from_str(
                "Cannot specify both host and socket",
            ),
            ConfigError::MissingBindTarget => String::from_str(
                "Port number or socket must be specified",
            ),
            ConfigError::InvalidPort(_) => String::from_str("Invalid port number"),
        }
    }
}

impl PartialEq for BindTarget {
    fn eq(&self, other: &BindTarget) -> (r: bool) {
        match (self, other) {
            (
                BindTarget::Network { host: h1, port: p1 },
                BindTarget::Network { host: h2, port: p2 },
            ) => *h1 == *h2 && *p1 == *p2,
            (
                BindTarget::UnixSocket { path: path1 },
                BindTarget::UnixSocket { path: path2 },
            ) => *path1 == *path2,
            _ => false,
        }
    }
}

impl vstd::std_specs::cmp::PartialEqSpecImpl for BindTarget {
    open spec fn obeys_eq_spec() -> bool {
        true
    }

    open spec fn eq_spec(&self, other: &BindTarget) -> bool {
        self@ == other@
    }
}

impl PartialEq for Config {
    fn eq(&self, other: &Config) -> (r: bool) {
        self.genesis == other.genesis && self.bind == other.bind
    }
}

impl vstd::std_specs::cmp::PartialEqSpecImpl for Config {
    open spec fn obeys_eq_spec() -> bool {
        true
    }

    open spec fn eq_spec(&self, other: &Config) -> bool {
        self@ == other@
    }
}

impl PartialEq for ConfigError {
    fn eq(&self, other: &ConfigError) -> (r: bool) {
        match (self, other) {
            (ConfigError::Malformed, ConfigError::Malformed) => true,
            (ConfigError::ConflictingBindOptions, ConfigError::ConflictingBindOptions) => true,
            (ConfigError::MissingBindTarget, ConfigError::MissingBindTarget) => true,
            (ConfigError::InvalidPort(t1), ConfigError::InvalidPort(t2)) => *t1 == *t2,
            _ => false,
        }
    }
}

impl vstd::std_specs::cmp::PartialEqSpecImpl for ConfigError {
    open spec fn obeys_eq_spec() -> bool {
        true
    }

    open spec fn eq_spec(&self, other: &ConfigError) -> bool {
        self@ == other@
    }
}

} // verus!
