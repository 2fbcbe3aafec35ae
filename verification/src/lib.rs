//! Configuration resolver for a ledger proxy front-end.
//!
//! The resolver reads a list of command-line tokens, applies defaults,
//! enforces the mutual exclusion between the two binding strategies
//! (a network host/port pair versus a local socket path), and yields
//! either a fully validated [`Config`] or a [`ConfigError`].

pub mod config;
pub mod options;
pub mod port;
pub mod resolve;

pub use config::BindTarget;
pub use config::BindView;
pub use config::Config;
pub use config::ConfigError;
pub use config::ConfigView;
pub use config::ErrorView;
pub use options::OptionsView;
pub use options::RawOptions;
pub use options::parse_args;
pub use port::parse_port;
pub use resolve::resolve;
