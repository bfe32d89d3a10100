use std::sync::Arc;

use rgb_lightning_node::channel_peers::{deleted_peers, persisted_peers};
use rgb_lightning_node::decimal::decimal;
use rgb_lightning_node::logger::log_line;
use rgb_lightning_node::mnemonic::{mnemonic_write, MnemonicRow, MnemonicWrite};
use rgb_lightning_node::node::{NodeHandle, UniffiRegistry};

#[test]
fn peer_file_replaces_peer_line() {
    let existing = "02aa@1.2.3.4:9735\n  03bb@5.6.7.8:9735 \n";
    assert_eq!(persisted_peers(Some(existing), "02aa", "9.9.9.9:1"), "03bb@5.6.7.8:9735\n02aa@9.9.9.9:1");
    assert_eq!(persisted_peers(None, "02aa", "9.9.9.9:1"), "02aa@9.9.9.9:1");
    assert_eq!(persisted_peers(Some("02aa@x\n"), "02aa", "y"), "02aa@y");
    assert_eq!(deleted_peers(existing, "03bb"), "02aa@1.2.3.4:9735");
    assert_eq!(deleted_peers("a@1\r\nb@2\nc@3", "b"), "a@1\nc@3");
}

#[test]
fn mnemonic_update_keeps_creation_time() {
    assert_eq!(
        mnemonic_write(true, "enc".to_string(), 42),
        MnemonicWrite::Update(MnemonicRow { id: 1, encrypted_mnemonic: "enc".to_string(), created_at: None, updated_at: 42 })
    );
    assert_eq!(
        mnemonic_write(false, "enc".to_string(), 42),
        MnemonicWrite::Insert(MnemonicRow { id: 1, encrypted_mnemonic: "enc".to_string(), created_at: Some(42), updated_at: 42 })
    );
}

#[test]
fn log_lines_pad_level() {
    assert_eq!(
        log_line("2024-01-01 00:00:00.000", "INFO", "lightning::ln", 12, "hello"),
        "2024-01-01 00:00:00.000 INFO  [lightning::ln:12] hello\n"
    );
    assert_eq!(log_line("t", "GOSSIP", "m", 0, "x"), "t GOSSIP [m:0] x\n");
}

#[test]
fn decimal_digits() {
    assert_eq!(decimal(0), "0");
    assert_eq!(decimal(9735), "9735");
    assert_eq!(decimal(u64::MAX), u64::MAX.to_string());
}

#[test]
fn node_handle_registration() {
    let handle = NodeHandle::from_app_state(Arc::new(5u32));
    assert_eq!(*handle.app_state(), 5);
    let other = handle.clone_handle();
    assert!(Arc::ptr_eq(&handle.app_state(), &other.app_state()));
    let mut registry = UniffiRegistry::new();
    assert!(registry.current().is_none());
    handle.register_for_uniffi(&mut registry);
    assert_eq!(registry.current().map(|s| *s), Some(5));
    handle.unregister_for_uniffi(&mut registry);
    assert!(registry.current().is_none());
}
