use indy_vdr_proxy::BindTarget;
use indy_vdr_proxy::ConfigError;
use indy_vdr_proxy::parse_args;
use indy_vdr_proxy::parse_port;
use indy_vdr_proxy::resolve;

fn args_of(tokens: &[&str]) -> Vec<String> {
    tokens.iter().map(|t| t.to_string()).collect()
}

#[test]
fn port_only_uses_defaults() {
    let r = resolve(&args_of(&["-p", "8080"])).unwrap();
    assert_eq!(r.genesis, "genesis.txn");
    match r.bind {
        BindTarget::Network { host, port } => {
            assert_eq!(host, "0.0.0.0");
            assert_eq!(port, 8080);
        }
        _ => panic!("expected a network bind"),
    }
}

#[test]
fn socket_only_uses_default_genesis() {
    let r = resolve(&args_of(&["-s", "/tmp/x.sock"])).unwrap();
    assert_eq!(r.genesis, "genesis.txn");
    match r.bind {
        BindTarget::UnixSocket { path } => assert_eq!(path, "/tmp/x.sock"),
        _ => panic!("expected a socket bind"),
    }
}

#[test]
fn explicit_host_and_port() {
    let r = resolve(&args_of(&["-h", "127.0.0.1", "-p", "80"])).unwrap();
    assert_eq!(r.genesis, "genesis.txn");
    match r.bind {
        BindTarget::Network { host, port } => {
            assert_eq!(host, "127.0.0.1");
            assert_eq!(port, 80);
        }
        _ => panic!("expected a network bind"),
    }
}

#[test]
fn explicit_genesis_is_kept() {
    let r = resolve(&args_of(&["-g", "custom.txn", "-p", "1"])).unwrap();
    assert_eq!(r.genesis, "custom.txn");
}

#[test]
fn socket_with_port_ignores_port() {
    let r = resolve(&args_of(&["-s", "/run/a.sock", "-p", "9"])).unwrap();
    match r.bind {
        BindTarget::UnixSocket { path } => assert_eq!(path, "/run/a.sock"),
        _ => panic!("expected a socket bind"),
    }
}

#[test]
fn host_and_socket_conflict() {
    let r = resolve(&args_of(&["-h", "127.0.0.1", "-s", "/tmp/x.sock"]));
    assert_eq!(r, Err(ConfigError::ConflictingBindOptions));
}

#[test]
fn conflict_wins_over_other_flags() {
    let r = resolve(&args_of(&["-g", "g.txn", "-h", "h", "-p", "abc", "-s", "/s"]));
    assert_eq!(r, Err(ConfigError::ConflictingBindOptions));
}

#[test]
fn empty_host_value_is_still_explicit() {
    let r = resolve(&args_of(&["-h", "", "-s", "/s"]));
    assert_eq!(r, Err(ConfigError::ConflictingBindOptions));
}

#[test]
fn no_flags_missing_bind_target() {
    let r = resolve(&args_of(&[]));
    assert_eq!(r, Err(ConfigError::MissingBindTarget));
}

#[test]
fn host_without_port_missing_bind_target() {
    let r = resolve(&args_of(&["-h", "127.0.0.1"]));
    assert_eq!(r, Err(ConfigError::MissingBindTarget));
}

#[test]
fn genesis_only_missing_bind_target() {
    let r = resolve(&args_of(&["-g", "x.txn"]));
    assert_eq!(r, Err(ConfigError::MissingBindTarget));
}

#[test]
fn invalid_port_text() {
    let r = resolve(&args_of(&["-p", "abc"]));
    assert_eq!(r, Err(ConfigError::InvalidPort("abc".to_string())));
}

#[test]
fn invalid_port_even_in_socket_mode() {
    let r = resolve(&args_of(&["-s", "/s", "-p", "abc"]));
    assert_eq!(r, Err(ConfigError::InvalidPort("abc".to_string())));
}

#[test]
fn port_out_of_range() {
    let r = resolve(&args_of(&["-p", "65536"]));
    assert_eq!(r, Err(ConfigError::InvalidPort("65536".to_string())));
}

#[test]
fn port_at_upper_bound() {
    let r = resolve(&args_of(&["-p", "65535"])).unwrap();
    match r.bind {
        BindTarget::Network { port, .. } => assert_eq!(port, 65535),
        _ => panic!("expected a network bind"),
    }
}

#[test]
fn port_with_leading_plus() {
    let r = resolve(&args_of(&["-p", "+8080"])).unwrap();
    match r.bind {
        BindTarget::Network { port, .. } => assert_eq!(port, 8080),
        _ => panic!("expected a network bind"),
    }
}

#[test]
fn port_with_leading_zeros() {
    let r = resolve(&args_of(&["-p", "0008080"])).unwrap();
    match r.bind {
        BindTarget::Network { port, .. } => assert_eq!(port, 8080),
        _ => panic!("expected a network bind"),
    }
}

#[test]
fn empty_port_value_is_invalid() {
    let r = resolve(&args_of(&["-p", ""]));
    assert_eq!(r, Err(ConfigError::InvalidPort("".to_string())));
}

#[test]
fn negative_port_is_invalid() {
    let r = resolve(&args_of(&["-p", "-1"]));
    assert_eq!(r, Err(ConfigError::InvalidPort("-1".to_string())));
}

#[test]
fn unrecognized_token_is_malformed() {
    let r = resolve(&args_of(&["-x", "1"]));
    assert_eq!(r, Err(ConfigError::Malformed));
}

#[test]
fn trailing_flag_without_value_is_malformed() {
    let r = resolve(&args_of(&["-p"]));
    assert_eq!(r, Err(ConfigError::Malformed));
}

#[test]
fn bare_value_is_malformed() {
    let r = resolve(&args_of(&["8080"]));
    assert_eq!(r, Err(ConfigError::Malformed));
}

#[test]
fn repeated_flag_is_malformed() {
    let r = resolve(&args_of(&["-p", "1", "-p", "2"]));
    assert_eq!(r, Err(ConfigError::Malformed));
}

#[test]
fn resolving_twice_gives_equal_configs() {
    let args = args_of(&["-g", "a.txn", "-h", "10.0.0.1", "-p", "443"]);
    let first = resolve(&args).unwrap();
    let second = resolve(&args).unwrap();
    assert_eq!(first, second);
}

#[test]
fn resolving_twice_gives_equal_errors() {
    let args = args_of(&["-h", "h", "-s", "/s"]);
    assert_eq!(resolve(&args), resolve(&args));
}

#[test]
fn error_messages_match_expected_text() {
    assert_eq!(
        ConfigError::ConflictingBindOptions.message(),
        "Cannot specify both host and socket"
    );
    assert_eq!(
        ConfigError::MissingBindTarget.message(),
        "Port number or socket must be specified"
    );
    assert_eq!(
        ConfigError::InvalidPort("abc".to_string()).message(),
        "Invalid port number"
    );
    assert_eq!(ConfigError::Malformed.message(), "Malformed arguments");
}

#[test]
fn parse_args_tracks_explicit_occurrences() {
    let o = parse_args(&args_of(&["-s", "/s", "-g", "g.txn"])).unwrap();
    assert_eq!(o.genesis, Some("g.txn".to_string()));
    assert_eq!(o.host, None);
    assert_eq!(o.port, None);
    assert_eq!(o.socket, Some("/s".to_string()));
}

#[test]
fn parse_port_accepts_and_rejects() {
    assert_eq!(parse_port("0"), Some(0));
    assert_eq!(parse_port("8080"), Some(8080));
    assert_eq!(parse_port("65535"), Some(65535));
    assert_eq!(parse_port("65536"), None);
    assert_eq!(parse_port("99999999999999999999"), None);
    assert_eq!(parse_port(""), None);
    assert_eq!(parse_port("+"), None);
    assert_eq!(parse_port("+12"), Some(12));
    assert_eq!(parse_port("1 2"), None);
    assert_eq!(parse_port("12a"), None);
}
