//! Resolution: defaults, cross-option validation, and construction of
//! the final configuration.

use crate::config::BindTarget;
use crate::config::BindView;
use crate::config::Config;
use crate::config::ConfigError;
use crate::config::ConfigView;
use crate::config::ErrorView;
use crate::options::OptionsView;
use crate::options::parse_args;
use crate::options::parse_spec;
use crate::port::is_valid_port_text;
use crate::port::parse_port;
use crate::port::port_number;
use vstd::prelude::*;

verus! {

/// The genesis path used when `-g` is absent.
pub open spec fn default_genesis() -> Seq<char> {
    "genesis.txn"@
}

/// The bind host used when `-h` is absent in network mode.
pub open spec fn default_host() -> Seq<char> {
    "0.0.0.0"@
}

/// The genesis path `o` resolves to: the supplied value or the default.
pub open spec fn genesis_of(o: OptionsView) -> Seq<char> {
    if o.genesis is Some {
        o.genesis->0
    } else {
        default_genesis()
    }
}

/// The host a network bind resolves to: the supplied value or the
/// default.
pub open spec fn host_of(o: OptionsView) -> Seq<char> {
    if o.host is Some {
        o.host->0
    } else {
        default_host()
    }
}

/// Validate the parsed options and build the configuration:
/// - an explicit host together with a socket is a conflict;
/// - neither a port nor a socket leaves no bind target;
/// - a supplied port whose text is not an unsigned 16-bit integer is
///   rejected even when a socket wins the bind choice;
/// - otherwise a socket, when supplied, takes the bind (a redundant
///   port is silently ignored), and a network bind takes the supplied
///   or default host.
pub open spec fn resolve_opts(o: OptionsView) -> Result<ConfigView, ErrorView> {
    if o.socket is Some && o.host is Some {
        Err(ErrorView::ConflictingBindOptions)
    } else if o.socket is None && o.port is None {
        Err(ErrorView::MissingBindTarget)
    } else if o.port is Some && !is_valid_port_text(o.port->0) {
        Err(ErrorView::InvalidPort(o.port->0))
    } else if o.socket is Some {
        Ok(ConfigView { genesis: genesis_of(o), bind: BindView::UnixSocket { path: o.socket->0 } })
    } else {
        Ok(
            ConfigView {
                genesis: genesis_of(o),
                bind: BindView::Network { host: host_of(o), port: port_number(o.port->0) },
            },
        )
    }
}

/// What a whole argument list resolves to.
pub open spec fn resolve_spec(args: Seq<Seq<char>>) -> Result<ConfigView, ErrorView> {
    match parse_spec(args) {
        Some(o) => resolve_opts(o),
        None => Err(ErrorView::Malformed),
    }
}

/// Does the executable outcome `r` denote the mathematical outcome `o`?
pub open spec fn outcome_is(r: Result<Config, ConfigError>, o: Result<ConfigView, ErrorView>) -> bool {
    match r {
        Ok(c) => o matches Ok(cv) && c@ == cv,
        Err(e) => o matches Err(ev) && e@ == ev,
    }
}

/// Resolve the argument tokens into a configuration, or the error that
/// rules them out.
pub fn resolve(args: &Vec<String>) -> (r: Result<Config, ConfigError>)
    ensures
        outcome_is(r, resolve_spec(args.deep_view())),
{
    let opts = match parse_args(args) {
        Ok(o) => o,
        Err(e) => {
            return Err(e);
        },
    };
    if opts.socket.is_some() {
        if opts.host.is_some() {
            return Err(ConfigError::ConflictingBindOptions);
        }
    } else {
        if opts.port.is_none() {
            return Err(ConfigError::MissingBindTarget);
        }
    }
    let port: Option<u16> = match &opts.port {
        Some(text) => match parse_port(text.as_str()) {
            Some(p) => Some(p),
            None => {
                return Err(ConfigError::InvalidPort(text.clone()));
            },
        },
        None => None,
    };
    let genesis = match opts.genesis {
        Some(g) => g,
        None => String::from_str("genesis.txn"),
    };
    match opts.socket {
        Some(path) => Ok(Config { genesis, bind: BindTarget::UnixSocket { path } }),
        None => {
            let host = match opts.host {
                Some(h) => h,
                None => String::from_str("0.0.0.0"),
            };
            let p = port.unwrap();
            Ok(Config { genesis, bind: BindTarget::Network { host, port: p } })
        },
    }
}

/// A port with no socket resolves to a network bind with the parsed
/// port and the supplied or default host, whatever the other options,
/// provided the port text is valid.
pub proof fn lemma_port_without_socket_binds_network(args: Seq<Seq<char>>, o: OptionsView)
    requires
        parse_spec(args) == Some(o),
        o.socket is None,
        o.port is Some,
        is_valid_port_text(o.port->0),
    ensures
        resolve_spec(args) == Ok::<ConfigView, ErrorView>(
            (ConfigView {
                genesis: genesis_of(o),
                bind: (BindView::Network { host: host_of(o), port: port_number(o.port->0) }),
            }),
        ),
{
}

/// A socket with no explicit host resolves to a socket bind with the
/// given path, whether or not a port was also supplied, provided any
/// supplied port text is valid.
pub proof fn lemma_socket_without_host_binds_socket(args: Seq<Seq<char>>, o: OptionsView)
    requires
        parse_spec(args) == Some(o),
        o.socket is Some,
        o.host is None,
        o.port is Some ==> is_valid_port_text(o.port->0),
    ensures
        resolve_spec(args) == Ok::<ConfigView, ErrorView>(
            (ConfigView {
                genesis: genesis_of(o),
                bind: (BindView::UnixSocket { path: o.socket->0 }),
            }),
        ),
{
}

/// An explicit host together with a socket always conflicts, for every
/// combination of the other options.
pub proof fn lemma_host_and_socket_conflict(args: Seq<Seq<char>>, o: OptionsView)
    requires
        parse_spec(args) == Some(o),
        o.socket is Some,
        o.host is Some,
    ensures
        resolve_spec(args) == Err::<ConfigView, ErrorView>(ErrorView::ConflictingBindOptions),
{
}

/// Neither a port nor a socket always leaves no bind target, for every
/// combination of the other options.
pub proof fn lemma_no_bind_target(args: Seq<Seq<char>>, o: OptionsView)
    requires
        parse_spec(args) == Some(o),
        o.socket is None,
        o.port is None,
    ensures
        resolve_spec(args) == Err::<ConfigView, ErrorView>(ErrorView::MissingBindTarget),
{
}

/// No flags at all parse cleanly, default the genesis and host, and
/// still leave no bind target.
pub proof fn lemma_empty_args_missing_bind(args: Seq<Seq<char>>)
    requires
        args.len() == 0,
    ensures
        resolve_spec(args) == Err::<ConfigView, ErrorView>(ErrorView::MissingBindTarget),
{
}

/// Resolution is a pure function of the argument list: equal argument
/// lists always resolve to equal outcomes, with no hidden state.
pub proof fn lemma_resolve_deterministic(args1: Seq<Seq<char>>, args2: Seq<Seq<char>>)
    requires
        args1 == args2,
    ensures
        resolve_spec(args1) == resolve_spec(args2),
{
}

} // verus!
