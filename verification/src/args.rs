//! Resolution of the node's start-up settings from three layers: built-in
//! defaults, then the TOML configuration file, then explicit command-line
//! options. Reading the command line and the file is the caller's: it hands
//! over the parsed values and which options were given on the command line.
use vstd::prelude::*;

use crate::decimal::{decimal, spec_decimal};
use crate::text::{
    index_of_char, lemma_prefix_before, prefix_before, starts_with, str_equals, str_starts_with,
};

verus! {

/// Default listening port of the daemon.
pub const DEFAULT_DAEMON_LISTENING_PORT: u16 = 3001;

/// Default listening port for LN peers.
pub const DEFAULT_LDK_PEER_LISTENING_PORT: u16 = 9735;

/// Default max allowed media size for upload (in MB).
pub const DEFAULT_MAX_MEDIA_UPLOAD_SIZE_MB: u16 = 5;

/// The Bitcoin networks the node runs on.
#[derive(Debug, Clone, Copy, PartialEq, Eq, Structural)]
pub enum BitcoinNetwork {
    Mainnet,
    Testnet,
    Testnet4,
    Signet,
    Regtest,
}

/// The default network.
pub const DEFAULT_NETWORK: BitcoinNetwork = BitcoinNetwork::Testnet;

/// Errors of start-up configuration.
#[derive(Debug, Clone, PartialEq, Eq)]
pub enum AppError {
    InvalidConfig(String),
    InvalidAuthenticationArgs,
    InvalidRootKey,
    InvalidVirtualPeerPubkey(String),
    InvalidVssConfig(String),
}

/// `biscuit_auth::PublicKey`, carried as it is.
#[verifier::external_type_specification]
#[verifier::external_body]
pub struct ExBiscuitPublicKey(biscuit_auth::PublicKey);

/// `bitcoin::secp256k1::PublicKey`, carried as it is.
#[verifier::external_type_specification]
#[verifier::external_body]
pub struct ExSecpPublicKey(bitcoin::secp256k1::PublicKey);

/// Whether `biscuit_auth::PublicKey::from_bytes_hex` accepts the text as an
/// Ed25519 key.
pub uninterp spec fn root_key_parses(hex: Seq<char>) -> bool;

/// Whether `bitcoin::secp256k1::PublicKey::from_str` accepts the text.
pub uninterp spec fn secp_pubkey_parses(hex: Seq<char>) -> bool;

/// The key `biscuit_auth::PublicKey::from_bytes_hex` makes of the text as an
/// Ed25519 key, where it accepts it.
pub uninterp spec fn root_key_of(hex: Seq<char>) -> biscuit_auth::PublicKey;

/// The key `bitcoin::secp256k1::PublicKey::from_str` makes of the text,
/// where it accepts it.
pub uninterp spec fn secp_pubkey_of(hex: Seq<char>) -> bitcoin::secp256k1::PublicKey;

/// Parses a biscuit root public key from hex with
/// `biscuit_auth::PublicKey::from_bytes_hex(hex, Algorithm::Ed25519)`: whether
/// a key comes back is named `root_key_parses`, and the key `root_key_of`;
/// both depend on the text alone.
#[verifier::external_body]
fn parse_root_public_key(hex: &str) -> (r: Option<biscuit_auth::PublicKey>)
    ensures
        r is Some == root_key_parses(hex@),
        r matches Some(k) ==> k == root_key_of(hex@),
{
    biscuit_auth::PublicKey::from_bytes_hex(hex, biscuit_auth::Algorithm::Ed25519).ok()
}

/// Parses a secp256k1 public key from hex with
/// `<bitcoin::secp256k1::PublicKey as FromStr>::from_str`: whether a key
/// comes back is named `secp_pubkey_parses`, and the key `secp_pubkey_of`;
/// both depend on the text alone.
#[verifier::external_body]
fn parse_secp_pubkey(hex: &str) -> (r: Option<bitcoin::secp256k1::PublicKey>)
    ensures
        r is Some == secp_pubkey_parses(hex@),
        r matches Some(k) ==> k == secp_pubkey_of(hex@),
{
    hex.parse::<bitcoin::secp256k1::PublicKey>().ok()
}

/// The text is a compressed public key: 66 characters of hex that parse.
pub open spec fn compressed_pubkey_ok(hex: Seq<char>) -> bool {
    hex.len() == 66 && secp_pubkey_parses(hex)
}

/// Parses a hex-encoded compressed (33-byte) secp256k1 public key.
pub fn hex_str_to_compressed_pubkey(hex: &str) -> (r: Option<bitcoin::secp256k1::PublicKey>)
    ensures
        r is Some == compressed_pubkey_ok(hex@),
        r matches Some(k) ==> k == secp_pubkey_of(hex@),
{
    if hex.unicode_len() != 66 {
        return None;
    }
    parse_secp_pubkey(hex)
}

/// The authentication settings are consistent: authentication is disabled
/// and no root key is given, or it is enabled with a root key that parses.
pub open spec fn auth_args_ok(disable_authentication: bool, root_public_key: Option<Seq<char>>) -> bool {
    if disable_authentication {
        root_public_key is None
    } else {
        root_public_key matches Some(k) && root_key_parses(k)
    }
}

pub open spec fn opt_view(s: Option<String>) -> Option<Seq<char>> {
    match s {
        Some(t) => Some(t@),
        None => None,
    }
}

/// Checks the authentication settings and parses the root key. A root key
/// together with disabled authentication, and neither of them, are both
/// refused.
pub fn check_auth_args(disable_authentication: bool, root_public_key: Option<String>) -> (r: Result<Option<biscuit_auth::PublicKey>, AppError>)
    ensures
        disable_authentication ==> match root_public_key {
            Some(_) => r == Err::<Option<biscuit_auth::PublicKey>, AppError>(AppError::InvalidAuthenticationArgs),
            None => r == Ok::<Option<biscuit_auth::PublicKey>, AppError>(None),
        },
        !disable_authentication ==> match root_public_key {
            None => r == Err::<Option<biscuit_auth::PublicKey>, AppError>(AppError::InvalidAuthenticationArgs),
            Some(k) => if root_key_parses(k@) {
                r == Ok::<Option<biscuit_auth::PublicKey>, AppError>(Some(root_key_of(k@)))
            } else {
                r == Err::<Option<biscuit_auth::PublicKey>, AppError>(AppError::InvalidRootKey)
            },
        },
{
    if disable_authentication {
        match root_public_key {
            Some(_) => Err(AppError::InvalidAuthenticationArgs),
            None => Ok(None),
        }
    } else {
        match root_public_key {
            None => Err(AppError::InvalidAuthenticationArgs),
            Some(k) => match parse_root_public_key(k.as_str()) {
                Some(pk) => Ok(Some(pk)),
                None => Err(AppError::InvalidRootKey),
            },
        }
    }
}


/// The authority of an `http://` URL: what follows the scheme, up to the
/// first `/`.
pub open spec fn http_authority(url: Seq<char>) -> Seq<char> {
    prefix_before(url.skip(7), '/')
}

/// The host of an `http://` URL: the authority without a port; a bracketed
/// IPv6 host keeps its brackets.
pub open spec fn http_host(url: Seq<char>) -> Seq<char> {
    let authority = http_authority(url);
    if authority.len() > 0 && authority[0] == '[' {
        prefix_before(authority, ']') + seq![']']
    } else {
        prefix_before(authority, ':')
    }
}

/// A decimal digit.
pub open spec fn is_digit(c: char) -> bool {
    '0' <= c && c <= '9'
}

/// The value of a string of decimal digits.
pub open spec fn digits_value(s: Seq<char>) -> int
    decreases s.len(),
{
    if s.len() == 0 {
        0
    } else {
        digits_value(s.drop_last()) * 10 + (s.last() as int - '0' as int)
    }
}

/// One part of a dotted IPv4 address: one to three digits without a leading
/// zero, at most 255.
pub open spec fn is_octet(s: Seq<char>) -> bool {
    &&& 1 <= s.len() <= 3
    &&& forall|i: int| 0 <= i < s.len() ==> is_digit(#[trigger] s[i])
    &&& (s.len() > 1 ==> s[0] != '0')
    &&& digits_value(s) <= 255
}

/// `s` is `n` octets separated by dots.
pub open spec fn dotted_octets(s: Seq<char>, n: nat) -> bool
    decreases n,
{
    if n == 0 {
        false
    } else if n == 1 {
        is_octet(s)
    } else {
        let seg = prefix_before(s, '.');
        seg.len() < s.len() && is_octet(seg) && dotted_octets(s.skip((seg.len() + 1) as int), (n - 1) as nat)
    }
}

/// A loopback host: `localhost`, `[::1]` or an IPv4 address in
/// `127.0.0.0/8` written as four dotted decimal octets.
pub open spec fn is_loopback_host(host: Seq<char>) -> bool {
    ||| host == "localhost"@
    ||| host == "[::1]"@
    ||| starts_with(host, "127."@) && dotted_octets(host.skip(4), 3)
}

/// VSS URLs must use HTTPS, unless plain HTTP is explicitly allowed or the
/// URL names a loopback host (with no user information in its authority).
pub open spec fn vss_url_ok(url: Seq<char>, allow_http: bool) -> bool {
    ||| starts_with(url, "https://"@)
    ||| starts_with(url, "http://"@) && (allow_http || (!http_authority(url).contains('@')
        && is_loopback_host(http_host(url))))
}

fn authority_of_http_url(url: &str) -> (authority: &str)
    requires
        starts_with(url@, "http://"@),
    ensures
        authority@ == http_authority(url@),
{
    proof {
        reveal_strlit("http://");
    }
    let n = url.unicode_len();
    let rest = url.substring_char(7, n);
    let rn = n - 7;
    let a = index_of_char(rest, '/', 0, rn);
    proof {
        lemma_prefix_before(rest@, '/', a as int);
    }
    assert(rest@ =~= url@.skip(7));
    rest.substring_char(0, a)
}

fn host_of_authority(authority: &str) -> (host: String)
    ensures
        host@ == (if authority@.len() > 0 && authority@[0] == '[' {
            prefix_before(authority@, ']') + seq![']']
        } else {
            prefix_before(authority@, ':')
        }),
{
    let a = authority.unicode_len();
    if a > 0 && authority.get_char(0) == '[' {
        let b = index_of_char(authority, ']', 0, a);
        proof {
            lemma_prefix_before(authority@, ']', b as int);
            reveal_strlit("]");
        }
        let mut host = authority.substring_char(0, b).to_owned();
        host.append("]");
        assert(host@ =~= authority@.take(b as int) + seq![']']);
        host
    } else {
        let b = index_of_char(authority, ':', 0, a);
        proof {
            lemma_prefix_before(authority@, ':', b as int);
        }
        authority.substring_char(0, b).to_owned()
    }
}

fn octet_ok(s: &str) -> (r: bool)
    ensures
        r == is_octet(s@),
{
    let n = s.unicode_len();
    if n < 1 || n > 3 {
        return false;
    }
    let mut value: u32 = 0;
    let mut i: usize = 0;
    while i < n
        invariant
            n == s@.len(),
            1 <= n <= 3,
            i <= n,
            value == digits_value(s@.take(i as int)),
            i == 0 ==> value == 0,
            i == 1 ==> value < 10,
            i == 2 ==> value < 100,
            i == 3 ==> value < 1000,
            forall|k: int| 0 <= k < i ==> is_digit(#[trigger] s@[k]),
        decreases n - i,
    {
        let c = s.get_char(i);
        if !('0' <= c && c <= '9') {
            assert(!is_digit(s@[i as int]));
            return false;
        }
        let d = (c as u32) - ('0' as u32);
        assert(s@.take(i + 1).drop_last() =~= s@.take(i as int));
        assert(s@.take(i + 1).last() == c);
        value = value * 10 + d;
        i = i + 1;
    }
    assert(s@.take(n as int) =~= s@);
    if n > 1 && s.get_char(0) == '0' {
        return false;
    }
    value <= 255
}

fn dotted_octets_ok(s: &str, n: u64) -> (r: bool)
    ensures
        r == dotted_octets(s@, n as nat),
    decreases n,
{
    if n == 0 {
        return false;
    }
    if n == 1 {
        return octet_ok(s);
    }
    let len = s.unicode_len();
    let i = index_of_char(s, '.', 0, len);
    proof {
        lemma_prefix_before(s@, '.', i as int);
    }
    if i >= len {
        return false;
    }
    let seg = s.substring_char(0, i);
    if !octet_ok(seg) {
        return false;
    }
    let rest = s.substring_char(i + 1, len);
    assert(rest@ =~= s@.skip(i + 1));
    dotted_octets_ok(rest, n - 1)
}

fn is_loopback(host: &str) -> (r: bool)
    ensures
        r == is_loopback_host(host@),
{
    proof {
        reveal_strlit("localhost");
        reveal_strlit("[::1]");
        reveal_strlit("127.");
    }
    if str_equals(host, "localhost") || str_equals(host, "[::1]") {
        return true;
    }
    if !str_starts_with(host, "127.") {
        return false;
    }
    let n = host.unicode_len();
    let rest = host.substring_char(4, n);
    assert(rest@ =~= host@.skip(4));
    dotted_octets_ok(rest, 3)
}

/// Checks a VSS URL: `https://` is accepted; `http://` only when plain HTTP is
/// explicitly allowed or to a loopback host named without user information.
pub fn validate_vss_url(url: &str, allow_http: bool) -> (r: Result<(), AppError>)
    ensures
        r is Ok == vss_url_ok(url@, allow_http),
        r matches Err(e) ==> e matches AppError::InvalidVssConfig(_),
{
    proof {
        reveal_strlit("https://");
        reveal_strlit("http://");
    }
    if str_starts_with(url, "https://") {
        return Ok(());
    }
    if !str_starts_with(url, "http://") {
        let mut m = String::from_str("VSS URL must use https://: ");
        m.append(url);
        return Err(AppError::InvalidVssConfig(m));
    }
    if allow_http {
        return Ok(());
    }
    let authority = authority_of_http_url(url);
    let a = authority.unicode_len();
    let at = index_of_char(authority, '@', 0, a);
    let host = host_of_authority(authority);
    if at == a && is_loopback(host.as_str()) {
        assert(!authority@.contains('@'));
        Ok(())
    } else {
        proof {
            if at < a {
                assert(authority@[at as int] == '@');
                assert(authority@.contains('@'));
            }
        }
        let mut m = String::from_str(
            "VSS URL must use https:// for non-loopback hosts (set allow_http to override): ",
        );
        m.append(url);
        Err(AppError::InvalidVssConfig(m))
    }
}

/// The command-line options, with whether each defaulted option was given
/// explicitly (rather than taking its built-in default).
#[derive(Debug, Clone, PartialEq, Eq)]
pub struct CliArgs {
    pub storage_directory_path: String,
    pub config: Option<String>,
    pub daemon_listening_port: u16,
    pub daemon_listening_port_from_cli: bool,
    pub ldk_peer_listening_port: u16,
    pub ldk_peer_listening_port_from_cli: bool,
    pub network: BitcoinNetwork,
    pub network_from_cli: bool,
    pub max_media_upload_size_mb: u16,
    pub max_media_upload_size_mb_from_cli: bool,
    pub root_public_key: Option<String>,
    pub disable_authentication: bool,
    pub enable_virtual_channels_v0: bool,
    pub virtual_peer_pubkeys: Vec<String>,
    pub lsp_base_url: Option<String>,
    pub lsp_bearer_token: Option<String>,
    pub vss_url: Option<String>,
    pub vss_allow_http: bool,
    pub vss_allow_empty_restore: bool,
    pub vss_accept_inconsistent_restore: bool,
    pub reuse_addresses: bool,
}

/// The network named in the configuration file: the text as written, and
/// the network it names, if any.
#[derive(Debug, Clone, PartialEq, Eq)]
pub struct NetworkSetting {
    pub name: String,
    pub parsed: Option<BitcoinNetwork>,
}

/// `[node]` of the configuration file.
#[derive(Debug, Clone, PartialEq, Eq)]
pub struct TomlNode {
    pub network: Option<NetworkSetting>,
    pub daemon_listening_port: Option<u16>,
    pub ldk_peer_listening_port: Option<u16>,
    pub reuse_addresses: Option<bool>,
}

/// `[auth]` of the configuration file.
#[derive(Debug, Clone, PartialEq, Eq)]
pub struct TomlAuth {
    pub disable_authentication: Option<bool>,
    pub root_public_key: Option<String>,
}

/// `[channels]` of the configuration file.
#[derive(Debug, Clone, PartialEq, Eq)]
pub struct TomlChannels {
    pub enable_virtual_channels_v0: Option<bool>,
    pub virtual_peer_pubkeys: Option<Vec<String>>,
}

/// `[lsp]` of the configuration file.
#[derive(Debug, Clone, PartialEq, Eq)]
pub struct TomlLsp {
    pub base_url: Option<String>,
    pub bearer_token: Option<String>,
}

/// `[vss]` of the configuration file.
#[derive(Debug, Clone, PartialEq, Eq)]
pub struct TomlVss {
    pub url: Option<String>,
    pub allow_http: Option<bool>,
    pub allow_empty_restore: Option<bool>,
    pub accept_inconsistent_restore: Option<bool>,
}

/// `[api]` of the configuration file.
#[derive(Debug, Clone, PartialEq, Eq)]
pub struct TomlApi {
    pub max_media_upload_size_mb: Option<u16>,
}

/// The settings of the configuration file that start-up resolves. Every
/// field is optional: absent keys keep the built-in defaults.
#[derive(Debug, Clone, PartialEq, Eq)]
pub struct TomlConfig {
    pub node: Option<TomlNode>,
    pub auth: Option<TomlAuth>,
    pub channels: Option<TomlChannels>,
    pub lsp: Option<TomlLsp>,
    pub vss: Option<TomlVss>,
    pub api: Option<TomlApi>,
}

/// The resolved start-up settings.
#[derive(Debug, Clone)]
pub struct UserArgs {
    pub storage_dir_path: String,
    pub daemon_listening_port: u16,
    pub ldk_peer_listening_port: u16,
    pub network: BitcoinNetwork,
    pub max_media_upload_size_mb: u16,
    pub root_public_key: Option<biscuit_auth::PublicKey>,
    pub enable_virtual_channels_v0: bool,
    pub virtual_peer_pubkeys: Vec<bitcoin::secp256k1::PublicKey>,
    pub lsp_base_url: Option<String>,
    pub lsp_bearer_token: Option<String>,
    pub vss_url: Option<String>,
    pub vss_allow_empty_restore: bool,
    pub vss_accept_inconsistent_restore: bool,
    pub reuse_addresses: bool,
}

pub open spec fn flag(b: Option<bool>) -> bool {
    b == Some(true)
}

pub open spec fn or_view(first: Option<String>, second: Option<String>) -> Option<Seq<char>> {
    match first {
        Some(a) => Some(a@),
        None => opt_view(second),
    }
}

impl TomlConfig {
    pub open spec fn node_network(self) -> Option<NetworkSetting> {
        match self.node {
            Some(n) => n.network,
            None => None,
        }
    }

    pub open spec fn node_daemon_port(self) -> Option<u16> {
        match self.node {
            Some(n) => n.daemon_listening_port,
            None => None,
        }
    }

    pub open spec fn node_ldk_port(self) -> Option<u16> {
        match self.node {
            Some(n) => n.ldk_peer_listening_port,
            None => None,
        }
    }

    pub open spec fn node_reuse_addresses(self) -> bool {
        match self.node {
            Some(n) => flag(n.reuse_addresses),
            None => false,
        }
    }

    pub open spec fn auth_disable(self) -> bool {
        match self.auth {
            Some(a) => flag(a.disable_authentication),
            None => false,
        }
    }

    pub open spec fn auth_root_key(self) -> Option<String> {
        match self.auth {
            Some(a) => a.root_public_key,
            None => None,
        }
    }

    pub open spec fn channels_enable_virtual(self) -> bool {
        match self.channels {
            Some(c) => flag(c.enable_virtual_channels_v0),
            None => false,
        }
    }

    pub open spec fn channels_virtual_peers(self) -> Seq<String> {
        match self.channels {
            Some(c) => match c.virtual_peer_pubkeys {
                Some(v) => v@,
                None => Seq::empty(),
            },
            None => Seq::empty(),
        }
    }

    pub open spec fn lsp_base_url(self) -> Option<String> {
        match self.lsp {
            Some(l) => l.base_url,
            None => None,
        }
    }

    pub open spec fn lsp_bearer_token(self) -> Option<String> {
        match self.lsp {
            Some(l) => l.bearer_token,
            None => None,
        }
    }

    pub open spec fn vss_url(self) -> Option<String> {
        match self.vss {
            Some(v) => v.url,
            None => None,
        }
    }

    pub open spec fn vss_allow_http(self) -> bool {
        match self.vss {
            Some(v) => flag(v.allow_http),
            None => false,
        }
    }

    pub open spec fn vss_allow_empty_restore(self) -> bool {
        match self.vss {
            Some(v) => flag(v.allow_empty_restore),
            None => false,
        }
    }

    pub open spec fn vss_accept_inconsistent_restore(self) -> bool {
        match self.vss {
            Some(v) => flag(v.accept_inconsistent_restore),
            None => false,
        }
    }

    pub open spec fn api_max_media(self) -> Option<u16> {
        match self.api {
            Some(a) => a.max_media_upload_size_mb,
            None => None,
        }
    }
}

/// The file's network is used: it is set and `--network` was not given.
pub open spec fn uses_file_network(a: CliArgs, t: TomlConfig) -> bool {
    t.node_network() is Some && !a.network_from_cli
}

/// The resolved network; `None` when the file's network is used and names
/// no network.
pub open spec fn resolved_network(a: CliArgs, t: TomlConfig) -> Option<BitcoinNetwork> {
    if uses_file_network(a, t) {
        t.node_network()->Some_0.parsed
    } else {
        Some(a.network)
    }
}

/// An explicit command-line value wins; otherwise the file's, otherwise the
/// default.
pub open spec fn layered(cli: u16, from_cli: bool, file: Option<u16>) -> u16 {
    if from_cli {
        cli
    } else {
        match file {
            Some(v) => v,
            None => cli,
        }
    }
}

pub open spec fn resolved_daemon_port(a: CliArgs, t: TomlConfig) -> u16 {
    layered(a.daemon_listening_port, a.daemon_listening_port_from_cli, t.node_daemon_port())
}

pub open spec fn resolved_ldk_port(a: CliArgs, t: TomlConfig) -> u16 {
    layered(a.ldk_peer_listening_port, a.ldk_peer_listening_port_from_cli, t.node_ldk_port())
}

pub open spec fn resolved_max_media(a: CliArgs, t: TomlConfig) -> u16 {
    layered(a.max_media_upload_size_mb, a.max_media_upload_size_mb_from_cli, t.api_max_media())
}

pub open spec fn resolved_disable_auth(a: CliArgs, t: TomlConfig) -> bool {
    a.disable_authentication || t.auth_disable()
}

pub open spec fn resolved_root_key(a: CliArgs, t: TomlConfig) -> Option<Seq<char>> {
    or_view(a.root_public_key, t.auth_root_key())
}

/// The virtual peer keys: the command line's when it gives any, else the
/// file's.
pub open spec fn raw_virtual_peers(a: CliArgs, t: TomlConfig) -> Seq<String> {
    if a.virtual_peer_pubkeys@.len() > 0 {
        a.virtual_peer_pubkeys@
    } else {
        t.channels_virtual_peers()
    }
}

pub open spec fn resolved_vss_url(a: CliArgs, t: TomlConfig) -> Option<Seq<char>> {
    or_view(a.vss_url, t.vss_url())
}

pub open spec fn resolved_vss_allow_http(a: CliArgs, t: TomlConfig) -> bool {
    a.vss_allow_http || t.vss_allow_http()
}

/// The VSS URL check passes: there is no URL, or it is acceptable.
pub open spec fn vss_ok(a: CliArgs, t: TomlConfig) -> bool {
    match resolved_vss_url(a, t) {
        Some(u) => vss_url_ok(u, resolved_vss_allow_http(a, t)),
        None => true,
    }
}

pub open spec fn all_peers_ok(raw: Seq<String>) -> bool {
    forall|i: int| 0 <= i < raw.len() ==> compressed_pubkey_ok(raw[i]@)
}

/// The message for a file network that names no network.
pub open spec fn invalid_network_message(name: Seq<char>) -> Seq<char> {
    "invalid node.network: "@ + name
}

/// The message for equal listening ports.
pub open spec fn same_ports_message(port: u16) -> Seq<char> {
    "daemon_listening_port and ldk_peer_listening_port cannot both be "@ + spec_decimal(port as nat)
}

/// The network and port checks pass.
pub open spec fn network_and_ports_ok(a: CliArgs, t: TomlConfig) -> bool {
    resolved_network(a, t) is Some && resolved_daemon_port(a, t) != resolved_ldk_port(a, t)
}

/// An explicit command-line option wins over the configuration file: a
/// port, size or network given on the command line is the one resolved, and
/// so is a VSS URL, LSP setting or root key given there; a non-empty list of
/// virtual peer keys on the command line replaces the file's list.
pub proof fn lemma_command_line_wins(a: CliArgs, t: TomlConfig)
    ensures
        a.network_from_cli ==> resolved_network(a, t) == Some(a.network),
        a.daemon_listening_port_from_cli ==> resolved_daemon_port(a, t) == a.daemon_listening_port,
        a.ldk_peer_listening_port_from_cli ==> resolved_ldk_port(a, t) == a.ldk_peer_listening_port,
        a.max_media_upload_size_mb_from_cli ==> resolved_max_media(a, t) == a.max_media_upload_size_mb,
        a.vss_url matches Some(u) ==> resolved_vss_url(a, t) == Some(u@),
        a.root_public_key matches Some(k) ==> resolved_root_key(a, t) == Some(k@),
        a.virtual_peer_pubkeys@.len() > 0 ==> raw_virtual_peers(a, t) == a.virtual_peer_pubkeys@,
{
}

/// Where the command line is silent, the configuration file's setting is
/// used, and where the file is silent too, the built-in default stays.
pub proof fn lemma_file_fills_unset_options(a: CliArgs, t: TomlConfig)
    ensures
        !a.network_from_cli ==> (t.node_network() matches Some(s) ==> resolved_network(a, t) == s.parsed),
        !a.network_from_cli && t.node_network() is None ==> resolved_network(a, t) == Some(a.network),
        !a.daemon_listening_port_from_cli ==> (t.node_daemon_port() matches Some(p) ==> resolved_daemon_port(a, t) == p),
        !a.daemon_listening_port_from_cli && t.node_daemon_port() is None ==> resolved_daemon_port(a, t)
            == a.daemon_listening_port,
        !a.ldk_peer_listening_port_from_cli ==> (t.node_ldk_port() matches Some(p) ==> resolved_ldk_port(a, t) == p),
        !a.ldk_peer_listening_port_from_cli && t.node_ldk_port() is None ==> resolved_ldk_port(a, t)
            == a.ldk_peer_listening_port,
        !a.max_media_upload_size_mb_from_cli ==> (t.api_max_media() matches Some(m) ==> resolved_max_media(a, t) == m),
        !a.max_media_upload_size_mb_from_cli && t.api_max_media() is None ==> resolved_max_media(a, t)
            == a.max_media_upload_size_mb,
        a.vss_url is None ==> resolved_vss_url(a, t) == opt_view(t.vss_url()),
        a.root_public_key is None ==> resolved_root_key(a, t) == opt_view(t.auth_root_key()),
        a.virtual_peer_pubkeys@.len() == 0 ==> raw_virtual_peers(a, t) == t.channels_virtual_peers(),
{
}

/// Every check before the virtual peers passes.
pub open spec fn checks_before_peers_ok(a: CliArgs, t: TomlConfig) -> bool {
    network_and_ports_ok(a, t) && auth_args_ok(resolved_disable_auth(a, t), resolved_root_key(a, t))
}

fn clone_opt(s: &Option<String>) -> (r: Option<String>)
    ensures
        opt_view(r) == opt_view(*s),
{
    match s {
        Some(t) => Some(t.clone()),
        None => None,
    }
}

fn or_else(first: Option<String>, second: Option<String>) -> (r: Option<String>)
    ensures
        opt_view(r) == or_view(first, second),
{
    match first {
        Some(a) => Some(a),
        None => second,
    }
}

fn is_set(b: Option<bool>) -> (r: bool)
    ensures
        r == flag(b),
{
    match b {
        Some(v) => v,
        None => false,
    }
}

/// Merges the three configuration layers: built-in defaults (the values of
/// options not given on the command line), then the configuration file, then
/// explicit command-line options. Switches are on when either the command
/// line or the file sets them. Refuses, in this order: a file network that
/// names no network, equal listening ports, inconsistent authentication
/// settings, a virtual peer key that is not a compressed public key, and an
/// insecure VSS URL.
#[verifier::loop_isolation(false)]
#[verifier::rlimit(40)]
pub fn resolve_user_args(args: CliArgs, toml: TomlConfig) -> (r: Result<UserArgs, AppError>)
    ensures
        resolved_network(args, toml) is None ==> {
            &&& r matches Err(AppError::InvalidConfig(m))
            &&& m@ == invalid_network_message(toml.node_network()->Some_0.name@)
        },
        resolved_network(args, toml) is Some && resolved_daemon_port(args, toml) == resolved_ldk_port(
            args,
            toml,
        ) ==> {
            &&& r matches Err(AppError::InvalidConfig(m))
            &&& m@ == same_ports_message(resolved_daemon_port(args, toml))
        },
        network_and_ports_ok(args, toml) && !auth_args_ok(
            resolved_disable_auth(args, toml),
            resolved_root_key(args, toml),
        ) ==> r == Err::<UserArgs, AppError>(
            if resolved_disable_auth(args, toml) == (resolved_root_key(args, toml) is Some) {
                AppError::InvalidAuthenticationArgs
            } else {
                AppError::InvalidRootKey
            },
        ),
        checks_before_peers_ok(args, toml) && !all_peers_ok(raw_virtual_peers(args, toml)) ==> {
            &&& r matches Err(AppError::InvalidVirtualPeerPubkey(bad))
            &&& exists|i: int|
                0 <= i < raw_virtual_peers(args, toml).len() && raw_virtual_peers(args, toml)[i]@
                    == bad@ && !compressed_pubkey_ok(#[trigger] raw_virtual_peers(args, toml)[i]@)
                    && all_peers_ok(raw_virtual_peers(args, toml).take(i))
        },
        checks_before_peers_ok(args, toml) && all_peers_ok(raw_virtual_peers(args, toml)) && !vss_ok(
            args,
            toml,
        ) ==> r matches Err(AppError::InvalidVssConfig(_)),
        r is Ok <==> checks_before_peers_ok(args, toml) && all_peers_ok(raw_virtual_peers(args, toml))
            && vss_ok(args, toml),
        r matches Ok(ua) ==> {
            &&& ua.storage_dir_path@ == args.storage_directory_path@
            &&& ua.daemon_listening_port == resolved_daemon_port(args, toml)
            &&& ua.ldk_peer_listening_port == resolved_ldk_port(args, toml)
            &&& Some(ua.network) == resolved_network(args, toml)
            &&& ua.max_media_upload_size_mb == resolved_max_media(args, toml)
            &&& ua.root_public_key == if resolved_disable_auth(args, toml) {
                None::<biscuit_auth::PublicKey>
            } else {
                Some(root_key_of(resolved_root_key(args, toml)->Some_0))
            }
            &&& ua.enable_virtual_channels_v0 == (args.enable_virtual_channels_v0
                || toml.channels_enable_virtual())
            &&& ua.virtual_peer_pubkeys@.len() == raw_virtual_peers(args, toml).len()
            &&& forall|i: int|
                0 <= i < ua.virtual_peer_pubkeys@.len() ==> #[trigger] ua.virtual_peer_pubkeys@[i]
                    == secp_pubkey_of(raw_virtual_peers(args, toml)[i]@)
            &&& opt_view(ua.lsp_base_url) == or_view(args.lsp_base_url, toml.lsp_base_url())
            &&& opt_view(ua.lsp_bearer_token) == or_view(
                args.lsp_bearer_token,
                toml.lsp_bearer_token(),
            )
            &&& opt_view(ua.vss_url) == resolved_vss_url(args, toml)
            &&& ua.vss_allow_empty_restore == (args.vss_allow_empty_restore
                || toml.vss_allow_empty_restore())
            &&& ua.vss_accept_inconsistent_restore == (args.vss_accept_inconsistent_restore
                || toml.vss_accept_inconsistent_restore())
            &&& ua.reuse_addresses == (args.reuse_addresses || toml.node_reuse_addresses())
        },
        r matches Ok(ua) ==> {
            &&& args.network_from_cli ==> ua.network == args.network
            &&& !args.network_from_cli && toml.node_network() is None ==> ua.network == args.network
            &&& !args.network_from_cli ==> (toml.node_network() matches Some(s) ==> Some(ua.network)
                == s.parsed)
            &&& args.daemon_listening_port_from_cli ==> ua.daemon_listening_port
                == args.daemon_listening_port
            &&& !args.daemon_listening_port_from_cli ==> (toml.node_daemon_port() matches Some(p)
                ==> ua.daemon_listening_port == p)
            &&& !args.daemon_listening_port_from_cli && toml.node_daemon_port() is None
                ==> ua.daemon_listening_port == args.daemon_listening_port
            &&& args.ldk_peer_listening_port_from_cli ==> ua.ldk_peer_listening_port
                == args.ldk_peer_listening_port
            &&& !args.ldk_peer_listening_port_from_cli ==> (toml.node_ldk_port() matches Some(p)
                ==> ua.ldk_peer_listening_port == p)
            &&& !args.ldk_peer_listening_port_from_cli && toml.node_ldk_port() is None
                ==> ua.ldk_peer_listening_port == args.ldk_peer_listening_port
            &&& args.max_media_upload_size_mb_from_cli ==> ua.max_media_upload_size_mb
                == args.max_media_upload_size_mb
            &&& !args.max_media_upload_size_mb_from_cli ==> (toml.api_max_media() matches Some(m)
                ==> ua.max_media_upload_size_mb == m)
            &&& !args.max_media_upload_size_mb_from_cli && toml.api_max_media() is None
                ==> ua.max_media_upload_size_mb == args.max_media_upload_size_mb
            &&& args.vss_url matches Some(u) ==> ua.vss_url matches Some(v) && v@ == u@
            &&& args.vss_url is None ==> opt_view(ua.vss_url) == opt_view(toml.vss_url())
            &&& args.lsp_base_url matches Some(u) ==> ua.lsp_base_url matches Some(v) && v@ == u@
            &&& args.lsp_base_url is None ==> opt_view(ua.lsp_base_url) == opt_view(
                toml.lsp_base_url(),
            )
            &&& args.lsp_bearer_token matches Some(u) ==> ua.lsp_bearer_token matches Some(v) && v@
                == u@
            &&& args.lsp_bearer_token is None ==> opt_view(ua.lsp_bearer_token) == opt_view(
                toml.lsp_bearer_token(),
            )
            &&& !args.disable_authentication && !toml.auth_disable() ==> (args.root_public_key matches Some(k)
                ==> ua.root_public_key == Some(root_key_of(k@)))
            &&& !args.disable_authentication && !toml.auth_disable() && args.root_public_key is None
                ==> (toml.auth_root_key() matches Some(k) ==> ua.root_public_key == Some(
                root_key_of(k@),
            ))
            &&& args.disable_authentication || toml.auth_disable() ==> ua.root_public_key is None
            &&& args.virtual_peer_pubkeys@.len() > 0 ==> {
                &&& ua.virtual_peer_pubkeys@.len() == args.virtual_peer_pubkeys@.len()
                &&& forall|i: int|
                    0 <= i < ua.virtual_peer_pubkeys@.len() ==> #[trigger] ua.virtual_peer_pubkeys@[i]
                        == secp_pubkey_of(args.virtual_peer_pubkeys@[i]@)
            }
            &&& args.virtual_peer_pubkeys@.len() == 0 ==> {
                &&& ua.virtual_peer_pubkeys@.len() == toml.channels_virtual_peers().len()
                &&& forall|i: int|
                    0 <= i < ua.virtual_peer_pubkeys@.len() ==> #[trigger] ua.virtual_peer_pubkeys@[i]
                        == secp_pubkey_of(toml.channels_virtual_peers()[i]@)
            }
        },
{
    let ghost a = args;
    let ghost t = toml;
    let TomlConfig { node, auth, channels, lsp, vss, api } = toml;
    let (node_network, node_daemon_port, node_ldk_port, node_reuse) = match node {
        Some(n) => (n.network, n.daemon_listening_port, n.ldk_peer_listening_port, is_set(n.reuse_addresses)),
        None => (None, None, None, false),
    };
    let (auth_disable, auth_root_key) = match auth {
        Some(x) => (is_set(x.disable_authentication), x.root_public_key),
        None => (false, None),
    };
    let (channels_enable, channels_peers) = match channels {
        Some(c) => (is_set(c.enable_virtual_channels_v0), c.virtual_peer_pubkeys),
        None => (false, None),
    };
    let (lsp_base_url, lsp_bearer_token) = match lsp {
        Some(l) => (l.base_url, l.bearer_token),
        None => (None, None),
    };
    let (vss_url, vss_allow_http, vss_allow_empty_restore, vss_accept_inconsistent_restore) = match vss {
        Some(v) => (v.url, is_set(v.allow_http), is_set(v.allow_empty_restore), is_set(v.accept_inconsistent_restore)),
        None => (None, false, false, false),
    };
    let api_max_media = match api {
        Some(x) => x.max_media_upload_size_mb,
        None => None,
    };

    let network = match node_network {
        Some(setting) if !args.network_from_cli => match setting.parsed {
            Some(n) => n,
            None => {
                let mut m = String::from_str("invalid node.network: ");
                m.append(setting.name.as_str());
                return Err(AppError::InvalidConfig(m));
            },
        },
        _ => args.network,
    };

    let daemon_listening_port = if args.daemon_listening_port_from_cli {
        args.daemon_listening_port
    } else {
        match node_daemon_port {
            Some(p) => p,
            None => args.daemon_listening_port,
        }
    };
    let ldk_peer_listening_port = if args.ldk_peer_listening_port_from_cli {
        args.ldk_peer_listening_port
    } else {
        match node_ldk_port {
            Some(p) => p,
            None => args.ldk_peer_listening_port,
        }
    };
    if daemon_listening_port == ldk_peer_listening_port {
        let mut m = String::from_str("daemon_listening_port and ldk_peer_listening_port cannot both be ");
        let digits = decimal(daemon_listening_port as u64);
        m.append(digits.as_str());
        return Err(AppError::InvalidConfig(m));
    }

    let max_media_upload_size_mb = if args.max_media_upload_size_mb_from_cli {
        args.max_media_upload_size_mb
    } else {
        match api_max_media {
            Some(v) => v,
            None => args.max_media_upload_size_mb,
        }
    };

    let disable_authentication = args.disable_authentication || auth_disable;
    let root_public_key_hex = or_else(args.root_public_key, auth_root_key);
    let root_public_key = match check_auth_args(disable_authentication, root_public_key_hex) {
        Ok(k) => k,
        Err(e) => return Err(e),
    };

    let enable_virtual_channels_v0 = args.enable_virtual_channels_v0 || channels_enable;
    let raw_virtual_peer_pubkeys = if args.virtual_peer_pubkeys.len() > 0 {
        args.virtual_peer_pubkeys
    } else {
        match channels_peers {
            Some(v) => v,
            None => Vec::new(),
        }
    };
    let ghost raw = raw_virtual_peer_pubkeys@;
    assert(raw == raw_virtual_peers(a, t));
    assert(checks_before_peers_ok(a, t));
    let mut virtual_peer_pubkeys: Vec<bitcoin::secp256k1::PublicKey> = Vec::new();
    let mut i: usize = 0;
    while i < raw_virtual_peer_pubkeys.len()
        invariant
            checks_before_peers_ok(a, t),
            raw == raw_virtual_peers(a, t),
            raw == raw_virtual_peer_pubkeys@,
            i <= raw.len(),
            virtual_peer_pubkeys@.len() == i,
            forall|j: int|
                0 <= j < i ==> #[trigger] virtual_peer_pubkeys@[j] == secp_pubkey_of(raw[j]@),
            all_peers_ok(raw.take(i as int)),
        decreases raw.len() - i,
    {
        let pubkey = &raw_virtual_peer_pubkeys[i];
        match hex_str_to_compressed_pubkey(pubkey.as_str()) {
            Some(parsed) => virtual_peer_pubkeys.push(parsed),
            None => {
                assert(!compressed_pubkey_ok(raw[i as int]@));
                return Err(AppError::InvalidVirtualPeerPubkey(pubkey.clone()));
            },
        }
        assert forall|k: int| 0 <= k < i + 1 implies compressed_pubkey_ok(#[trigger] raw.take(i + 1)[k]@) by {
            if k < i {
                assert(raw.take(i + 1)[k] == raw.take(i as int)[k]);
            }
        }
        i = i + 1;
    }
    assert(raw.take(raw.len() as int) =~= raw);

    let vss_url = or_else(args.vss_url, vss_url);
    let vss_allow_http = args.vss_allow_http || vss_allow_http;
    let vss_allow_empty_restore = args.vss_allow_empty_restore || vss_allow_empty_restore;
    let vss_accept_inconsistent_restore = args.vss_accept_inconsistent_restore
        || vss_accept_inconsistent_restore;
    match &vss_url {
        Some(url) => {
            match validate_vss_url(url.as_str(), vss_allow_http) {
                Ok(()) => {},
                Err(e) => return Err(e),
            }
        },
        None => {},
    }

    let reuse_addresses = args.reuse_addresses || node_reuse;
    proof {
        lemma_command_line_wins(a, t);
        lemma_file_fills_unset_options(a, t);
    }

    Ok(UserArgs {
        storage_dir_path: args.storage_directory_path,
        daemon_listening_port,
        ldk_peer_listening_port,
        network,
        max_media_upload_size_mb,
        root_public_key,
        enable_virtual_channels_v0,
        virtual_peer_pubkeys,
        lsp_base_url: or_else(args.lsp_base_url, lsp_base_url),
        lsp_bearer_token: or_else(args.lsp_bearer_token, lsp_bearer_token),
        vss_url,
        vss_allow_empty_restore,
        vss_accept_inconsistent_restore,
        reuse_addresses,
    })
}

/// Where the start-up configuration comes from.
#[derive(Debug, Clone, PartialEq, Eq)]
pub enum ConfigSource {
    /// The file given with `--config`.
    Explicit(String),
    /// `config.toml` in the storage directory.
    DefaultFile,
    /// No file: built-in defaults only.
    Defaults,
}

/// An explicit `--config` file is loaded; otherwise `config.toml` in the
/// storage directory when it exists; otherwise the defaults apply.
pub fn startup_config_source(config: Option<String>, default_file_exists: bool) -> (r: ConfigSource)
    ensures
        match config {
            Some(p) => r matches ConfigSource::Explicit(q) && q@ == p@,
            None => r == if default_file_exists {
                ConfigSource::DefaultFile
            } else {
                ConfigSource::Defaults
            },
        },
{
    match config {
        Some(p) => ConfigSource::Explicit(p),
        None => {
            if default_file_exists {
                ConfigSource::DefaultFile
            } else {
                ConfigSource::Defaults
            }
        },
    }
}

/// The error for a configuration file that cannot be read.
pub fn config_read_error(path: &str, reason: &str) -> (e: AppError)
    ensures
        e matches AppError::InvalidConfig(m) && m@ == "cannot read config file "@ + path@ + ": "@
            + reason@,
{
    let mut m = String::from_str("cannot read config file ");
    m.append(path);
    m.append(": ");
    m.append(reason);
    AppError::InvalidConfig(m)
}

/// A configuration error from a file names the file.
pub fn config_file_error(path: &str, error: AppError) -> (e: AppError)
    ensures
        match error {
            AppError::InvalidConfig(m) => e matches AppError::InvalidConfig(m2) && m2@ == path@
                + ": "@ + m@,
            _ => e == error,
        },
{
    match error {
        AppError::InvalidConfig(m) => {
            let mut m2 = String::from_str(path);
            m2.append(": ");
            m2.append(m.as_str());
            AppError::InvalidConfig(m2)
        },
        other => other,
    }
}

} // verus!
