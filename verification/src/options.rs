//! Parsing the raw argument tokens into per-option values.
//!
//! Four options are recognized, each by a short identifier and each
//! taking a value: `-g` (genesis path), `-h` (bind host), `-p` (bind
//! port), `-s` (socket path).  Each may appear at most once.  An
//! unrecognized token, an option with no following token, or a repeated
//! option is a parse failure.

use crate::config::ConfigError;
use crate::config::ErrorView;
use vstd::prelude::*;

verus! {

/// The outcome of token parsing, before defaults or validation: for
/// each option, the explicitly supplied value, or `None` when the
/// option did not occur.  A supplied value may be the empty string and
/// still counts as an explicit occurrence.
#[derive(Debug)]
pub struct RawOptions {
    pub genesis: Option<String>,
    pub host: Option<String>,
    pub port: Option<String>,
    pub socket: Option<String>,
}

/// Mathematical model of `RawOptions`.
pub struct OptionsView {
    pub genesis: Option<Seq<char>>,
    pub host: Option<Seq<char>>,
    pub port: Option<Seq<char>>,
    pub socket: Option<Seq<char>>,
}

impl View for RawOptions {
    type V = OptionsView;

    open spec fn view(&self) -> OptionsView {
        OptionsView {
            genesis: self.genesis.deep_view(),
            host: self.host.deep_view(),
            port: self.port.deep_view(),
            socket: self.socket.deep_view(),
        }
    }
}

/// The state before any option occurred.
pub open spec fn no_options() -> OptionsView {
    OptionsView { genesis: None, host: None, port: None, socket: None }
}

/// Parse the remaining tokens `args`, the options seen so far being
/// `acc`: each step consumes one recognized, not yet seen option
/// identifier together with the following token as its value.  `None`
/// is a parse failure.
pub open spec fn parse_from(args: Seq<Seq<char>>, acc: OptionsView) -> Option<OptionsView>
    decreases args.len(),
{
    if args.len() == 0 {
        Some(acc)
    } else if args.len() == 1 {
        // One trailing token: either an option missing its value or an
        // unrecognized token.
        None
    } else {
        let flag = args[0];
        let value = args[1];
        let rest = args.skip(2);
        if flag == "-g"@ {
            if acc.genesis is Some {
                None
            } else {
                parse_from(rest, OptionsView { genesis: Some(value), ..acc })
            }
        } else if flag == "-h"@ {
            if acc.host is Some {
                None
            } else {
                parse_from(rest, OptionsView { host: Some(value), ..acc })
            }
        } else if flag == "-p"@ {
            if acc.port is Some {
                None
            } else {
                parse_from(rest, OptionsView { port: Some(value), ..acc })
            }
        } else if flag == "-s"@ {
            if acc.socket is Some {
                None
            } else {
                parse_from(rest, OptionsView { socket: Some(value), ..acc })
            }
        } else {
            None
        }
    }
}

/// Parse a whole token list into per-option values.
pub open spec fn parse_spec(args: Seq<Seq<char>>) -> Option<OptionsView> {
    parse_from(args, no_options())
}

/// Parse the argument tokens: `Ok` with the per-option values exactly
/// when the token list is well formed, `Err(Malformed)` otherwise.
pub fn parse_args(args: &Vec<String>) -> (r: Result<RawOptions, ConfigError>)
    ensures
        match r {
            Ok(o) => parse_spec(args.deep_view()) == Some(o@),
            Err(e) => e@ == ErrorView::Malformed && parse_spec(args.deep_view()) is None,
        },
{
    let flag_genesis = String::from_str("-g");
    let flag_host = String::from_str("-h");
    let flag_port = String::from_str("-p");
    let flag_socket = String::from_str("-s");
    let mut opts = RawOptions { genesis: None, host: None, port: None, socket: None };
    let mut i: usize = 0;
    assert(args.deep_view().skip(0) =~= args.deep_view());
    assert(opts@ == no_options());
    while i < args.len()
        invariant
            i <= args@.len(),
            flag_genesis@ == "-g"@,
            flag_host@ == "-h"@,
            flag_port@ == "-p"@,
            flag_socket@ == "-s"@,
            parse_from(args.deep_view().skip(i as int), opts@) == parse_spec(args.deep_view()),
        decreases args@.len() - i,
    {
        let ghost rest = args.deep_view().skip(i as int);
        assert(rest[0] == args.deep_view()[i as int]);
        if i + 1 >= args.len() {
            // A lone trailing token never parses.
            return Err(ConfigError::Malformed);
        }
        assert(rest[1] == args.deep_view()[i + 1]);
        assert(rest.skip(2) =~= args.deep_view().skip(i + 2));
        let tok = &args[i];
        let val = args[i + 1].clone();
        if *tok == flag_genesis {
            if opts.genesis.is_some() {
                return Err(ConfigError::Malformed);
            }
            opts.genesis = Some(val);
        } else if *tok == flag_host {
            if opts.host.is_some() {
                return Err(ConfigError::Malformed);
            }
            opts.host = Some(val);
        } else if *tok == flag_port {
            if opts.port.is_some() {
                return Err(ConfigError::Malformed);
            }
            opts.port = Some(val);
        } else if *tok == flag_socket {
            if opts.socket.is_some() {
                return Err(ConfigError::Malformed);
            }
            opts.socket = Some(val);
        } else {
            // Unrecognized token.
            return Err(ConfigError::Malformed);
        }
        i = i + 2;
    }
    assert(args.deep_view().skip(i as int) =~= Seq::<Seq<char>>::empty());
    Ok(opts)
}

} // verus!
