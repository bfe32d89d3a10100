use std::str::FromStr;

use rgb_lightning_node::args::{
    check_auth_args, config_file_error, config_read_error, hex_str_to_compressed_pubkey,
    resolve_user_args, startup_config_source, validate_vss_url, AppError, BitcoinNetwork, CliArgs,
    ConfigSource, NetworkSetting, TomlApi, TomlAuth, TomlChannels, TomlConfig, TomlLsp, TomlNode,
    TomlVss, UserArgs, DEFAULT_DAEMON_LISTENING_PORT, DEFAULT_LDK_PEER_LISTENING_PORT,
    DEFAULT_MAX_MEDIA_UPLOAD_SIZE_MB, DEFAULT_NETWORK,
};

const PUBKEY: &str = "02eec7245d6b7d2ccb30380bfbe2a3648cd7a942653f5aa340edcea1f283686619";
const ED25519_KEY: &str = "5866666666666666666666666666666666666666666666666666666666666666";

/// `rln /tmp/storage --disable-authentication`.
fn base() -> CliArgs {
    CliArgs {
        storage_directory_path: "/tmp/storage".to_string(),
        config: None,
        daemon_listening_port: DEFAULT_DAEMON_LISTENING_PORT,
        daemon_listening_port_from_cli: false,
        ldk_peer_listening_port: DEFAULT_LDK_PEER_LISTENING_PORT,
        ldk_peer_listening_port_from_cli: false,
        network: DEFAULT_NETWORK,
        network_from_cli: false,
        max_media_upload_size_mb: DEFAULT_MAX_MEDIA_UPLOAD_SIZE_MB,
        max_media_upload_size_mb_from_cli: false,
        root_public_key: None,
        disable_authentication: true,
        enable_virtual_channels_v0: false,
        virtual_peer_pubkeys: vec![],
        lsp_base_url: None,
        lsp_bearer_token: None,
        vss_url: None,
        vss_allow_http: false,
        vss_allow_empty_restore: false,
        vss_accept_inconsistent_restore: false,
        reuse_addresses: false,
    }
}

fn empty_toml() -> TomlConfig {
    TomlConfig { node: None, auth: None, channels: None, lsp: None, vss: None, api: None }
}

fn node(network: Option<(&str, Option<BitcoinNetwork>)>, daemon: Option<u16>, ldk: Option<u16>) -> TomlNode {
    TomlNode {
        network: network.map(|(name, parsed)| NetworkSetting { name: name.to_string(), parsed }),
        daemon_listening_port: daemon,
        ldk_peer_listening_port: ldk,
        reuse_addresses: None,
    }
}

fn vss(url: &str, allow_http: Option<bool>) -> TomlVss {
    TomlVss { url: Some(url.to_string()), allow_http, allow_empty_restore: None, accept_inconsistent_restore: None }
}

fn ok(r: Result<UserArgs, AppError>) -> UserArgs {
    match r {
        Ok(ua) => ua,
        Err(e) => panic!("unexpected {e:?}"),
    }
}

#[test]
fn defaults_without_file_or_flags() {
    let ua = ok(resolve_user_args(base(), empty_toml()));
    assert_eq!(ua.daemon_listening_port, 3001);
    assert_eq!(ua.ldk_peer_listening_port, 9735);
    assert_eq!(ua.network, BitcoinNetwork::Testnet);
    assert_eq!(ua.max_media_upload_size_mb, 5);
    assert!(!ua.enable_virtual_channels_v0);
    assert!(ua.virtual_peer_pubkeys.is_empty());
    assert!(ua.lsp_base_url.is_none());
    assert!(ua.vss_url.is_none());
    assert!(!ua.vss_allow_empty_restore);
    assert!(!ua.vss_accept_inconsistent_restore);
    assert!(!ua.reuse_addresses);
    assert_eq!(ua.storage_dir_path, "/tmp/storage");
}

#[test]
fn file_overrides_defaults() {
    let mut toml = empty_toml();
    let mut n = node(Some(("regtest", Some(BitcoinNetwork::Regtest))), Some(8888), Some(9999));
    n.reuse_addresses = Some(true);
    toml.node = Some(n);
    toml.api = Some(TomlApi { max_media_upload_size_mb: Some(10) });
    let ua = ok(resolve_user_args(base(), toml));
    assert_eq!(ua.network, BitcoinNetwork::Regtest);
    assert_eq!(ua.daemon_listening_port, 8888);
    assert_eq!(ua.ldk_peer_listening_port, 9999);
    assert!(ua.reuse_addresses);
    assert_eq!(ua.max_media_upload_size_mb, 10);
}

#[test]
fn cli_overrides_file() {
    let mut args = base();
    args.daemon_listening_port = 9999;
    args.daemon_listening_port_from_cli = true;
    args.network = BitcoinNetwork::Signet;
    args.network_from_cli = true;
    let mut toml = empty_toml();
    toml.node = Some(node(Some(("regtest", Some(BitcoinNetwork::Regtest))), Some(8888), None));
    let ua = ok(resolve_user_args(args, toml));
    assert_eq!(ua.daemon_listening_port, 9999);
    assert_eq!(ua.network, BitcoinNetwork::Signet);
}

#[test]
fn invalid_network_in_file_rejected() {
    let mut toml = empty_toml();
    toml.node = Some(node(Some(("bogus", None)), None, None));
    match resolve_user_args(base(), toml) {
        Err(AppError::InvalidConfig(m)) => {
            assert!(m.contains("bogus"));
            assert_eq!(m, "invalid node.network: bogus");
        }
        other => panic!("unexpected {other:?}"),
    }
}

#[test]
fn cli_network_ignores_invalid_file_network() {
    let mut args = base();
    args.network = BitcoinNetwork::Signet;
    args.network_from_cli = true;
    let mut toml = empty_toml();
    toml.node = Some(node(Some(("bogus", None)), None, None));
    assert_eq!(ok(resolve_user_args(args, toml)).network, BitcoinNetwork::Signet);
}

#[test]
fn same_ports_rejected() {
    let mut toml = empty_toml();
    toml.node = Some(node(None, Some(4000), Some(4000)));
    match resolve_user_args(base(), toml) {
        Err(AppError::InvalidConfig(m)) => {
            assert_eq!(m, "daemon_listening_port and ldk_peer_listening_port cannot both be 4000")
        }
        other => panic!("unexpected {other:?}"),
    }
}

#[test]
fn auth_from_file() {
    let mut args = base();
    args.disable_authentication = false;
    let mut toml = empty_toml();
    toml.auth = Some(TomlAuth { disable_authentication: Some(true), root_public_key: None });
    let ua = ok(resolve_user_args(args, toml));
    assert!(ua.root_public_key.is_none());
}

#[test]
fn auth_conflict_rejected() {
    let mut toml = empty_toml();
    toml.auth = Some(TomlAuth { disable_authentication: None, root_public_key: Some(PUBKEY.to_string()) });
    assert!(matches!(resolve_user_args(base(), toml), Err(AppError::InvalidAuthenticationArgs)));
}

#[test]
fn missing_auth_rejected() {
    let mut args = base();
    args.disable_authentication = false;
    assert!(matches!(resolve_user_args(args, empty_toml()), Err(AppError::InvalidAuthenticationArgs)));
}

#[test]
fn root_key_parsed_when_authentication_enabled() {
    let mut args = base();
    args.disable_authentication = false;
    args.root_public_key = Some(ED25519_KEY.to_string());
    assert!(ok(resolve_user_args(args, empty_toml())).root_public_key.is_some());
    assert!(matches!(check_auth_args(false, Some("zz".to_string())), Err(AppError::InvalidRootKey)));
    assert!(matches!(check_auth_args(true, None), Ok(None)));
}

#[test]
fn vss_http_from_file_rejected_without_allow_http() {
    let mut toml = empty_toml();
    toml.vss = Some(vss("http://example.com/vss", None));
    assert!(matches!(resolve_user_args(base(), toml), Err(AppError::InvalidVssConfig(_))));
}

#[test]
fn vss_http_from_file_allowed_with_allow_http() {
    let mut toml = empty_toml();
    toml.vss = Some(TomlVss {
        url: Some("http://example.com/vss".to_string()),
        allow_http: Some(true),
        allow_empty_restore: Some(true),
        accept_inconsistent_restore: Some(true),
    });
    let ua = ok(resolve_user_args(base(), toml));
    assert_eq!(ua.vss_url.as_deref(), Some("http://example.com/vss"));
    assert!(ua.vss_allow_empty_restore);
    assert!(ua.vss_accept_inconsistent_restore);
}

#[test]
fn vss_url_rules() {
    assert!(validate_vss_url("https://example.com/vss", false).is_ok());
    assert!(validate_vss_url("http://localhost:8081/vss", false).is_ok());
    assert!(validate_vss_url("http://127.0.0.1/vss", false).is_ok());
    assert!(validate_vss_url("http://[::1]:8081/vss", false).is_ok());
    assert!(validate_vss_url("http://example.com/vss", true).is_ok());
    assert!(matches!(validate_vss_url("http://localhost.evil.com/vss", false), Err(AppError::InvalidVssConfig(_))));
    assert!(matches!(validate_vss_url("ftp://example.com", true), Err(AppError::InvalidVssConfig(_))));
}

#[test]
fn virtual_peers_from_file() {
    let mut toml = empty_toml();
    toml.channels = Some(TomlChannels {
        enable_virtual_channels_v0: Some(true),
        virtual_peer_pubkeys: Some(vec![PUBKEY.to_string()]),
    });
    let ua = ok(resolve_user_args(base(), toml));
    assert!(ua.enable_virtual_channels_v0);
    assert_eq!(ua.virtual_peer_pubkeys.len(), 1);
}

#[test]
fn invalid_virtual_peer_in_file_rejected() {
    let mut toml = empty_toml();
    toml.channels = Some(TomlChannels {
        enable_virtual_channels_v0: None,
        virtual_peer_pubkeys: Some(vec!["nothex".to_string()]),
    });
    match resolve_user_args(base(), toml) {
        Err(AppError::InvalidVirtualPeerPubkey(k)) => assert_eq!(k, "nothex"),
        other => panic!("unexpected {other:?}"),
    }
}

#[test]
fn compressed_pubkeys_only() {
    assert!(hex_str_to_compressed_pubkey(PUBKEY).is_some());
    assert!(hex_str_to_compressed_pubkey("nothex").is_none());
    assert!(hex_str_to_compressed_pubkey(&PUBKEY[..64]).is_none());
}

#[test]
fn lsp_from_file_cli_wins() {
    let mut args = base();
    args.lsp_base_url = Some("https://cli.example.com".to_string());
    let mut toml = empty_toml();
    toml.lsp = Some(TomlLsp {
        base_url: Some("https://file.example.com".to_string()),
        bearer_token: Some("tok".to_string()),
    });
    let ua = ok(resolve_user_args(args, toml));
    assert_eq!(ua.lsp_base_url.as_deref(), Some("https://cli.example.com"));
    assert_eq!(ua.lsp_bearer_token.as_deref(), Some("tok"));
}

#[test]
fn config_source_and_errors() {
    assert_eq!(startup_config_source(Some("c.toml".to_string()), true), ConfigSource::Explicit("c.toml".to_string()));
    assert_eq!(startup_config_source(None, true), ConfigSource::DefaultFile);
    assert_eq!(startup_config_source(None, false), ConfigSource::Defaults);
    assert_eq!(
        config_read_error("/x/config.toml", "not found"),
        AppError::InvalidConfig("cannot read config file /x/config.toml: not found".to_string())
    );
    assert_eq!(
        config_file_error("/x/c.toml", AppError::InvalidConfig("bad".to_string())),
        AppError::InvalidConfig("/x/c.toml: bad".to_string())
    );
    assert_eq!(config_file_error("/x/c.toml", AppError::InvalidRootKey), AppError::InvalidRootKey);
}

#[test]
fn vss_loopback_means_loopback() {
    assert!(validate_vss_url("http://127.0.0.1:8081/vss", false).is_ok());
    assert!(validate_vss_url("http://127.1.2.3/vss", false).is_ok());
    assert!(validate_vss_url("http://127.255.255.255", false).is_ok());
    for url in [
        "http://127.evil.com/vss",
        "http://127.0.0.1@evil.com/vss",
        "http://user@localhost/vss",
        "http://127.256.0.1/vss",
        "http://127.0.0/vss",
        "http://127.0.0.1.2/vss",
        "http://127.01.0.1/vss",
        "http://127.0.0.x/vss",
        "http://128.0.0.1/vss",
    ] {
        assert!(matches!(validate_vss_url(url, false), Err(AppError::InvalidVssConfig(_))), "{url}");
    }
    assert!(validate_vss_url("http://127.evil.com/vss", true).is_ok());
}

#[test]
fn resolved_keys_are_the_parsed_texts() {
    let cli_key = biscuit_auth::KeyPair::new().public().to_bytes_hex();
    let file_key = biscuit_auth::KeyPair::new().public().to_bytes_hex();
    let generator = "0279be667ef9dcbbac55a06295ce870b07029bfcdb2dce28d959f2815b16f81798";
    let mut args = base();
    args.disable_authentication = false;
    args.root_public_key = Some(cli_key.clone());
    args.virtual_peer_pubkeys = vec![PUBKEY.to_string(), generator.to_string()];
    let mut toml = empty_toml();
    toml.auth = Some(TomlAuth { disable_authentication: None, root_public_key: Some(file_key) });
    let ua = ok(resolve_user_args(args, toml));
    let expected_root = biscuit_auth::PublicKey::from_bytes_hex(&cli_key, biscuit_auth::Algorithm::Ed25519).unwrap();
    assert_eq!(ua.root_public_key, Some(expected_root));
    assert_eq!(
        ua.virtual_peer_pubkeys,
        vec![
            bitcoin::secp256k1::PublicKey::from_str(PUBKEY).unwrap(),
            bitcoin::secp256k1::PublicKey::from_str(generator).unwrap(),
        ]
    );
    assert_eq!(
        hex_str_to_compressed_pubkey(generator),
        Some(bitcoin::secp256k1::PublicKey::from_str(generator).unwrap())
    );
}
