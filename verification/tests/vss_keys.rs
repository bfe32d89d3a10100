use rgb_lightning_node::vss_keys::{parse_vss_key, strip_prefix, vss_key, vss_key_prefix};

fn triple(p: &str, s: &str, k: &str) -> Option<(String, String, String)> {
    Some((p.to_string(), s.to_string(), k.to_string()))
}

#[test]
fn vss_key_replaces_empty_namespaces() {
    assert_eq!(vss_key("", "", "manager"), "_/_/manager");
    assert_eq!(vss_key("monitors", "", "abc_1"), "monitors/_/abc_1");
    assert_eq!(vss_key("p", "s", "k"), "p/s/k");
}

#[test]
fn vss_key_prefix_matches_keys() {
    assert_eq!(vss_key_prefix("", ""), "_/_/");
    assert_eq!(vss_key_prefix("monitors", "x"), "monitors/x/");
    let key = vss_key("monitors", "x", "item");
    assert_eq!(strip_prefix(&key, &vss_key_prefix("monitors", "x")), Some("item".to_string()));
}

#[test]
fn parse_vss_key_decodes_placeholders() {
    assert_eq!(parse_vss_key("_/_/manager"), triple("", "", "manager"));
    assert_eq!(parse_vss_key("monitors/_/abc"), triple("monitors", "", "abc"));
    assert_eq!(parse_vss_key("a/b/c/d"), triple("a", "b", "c/d"));
}

#[test]
fn parse_vss_key_rejects_other_shapes() {
    assert_eq!(parse_vss_key("a/b/"), None);
    assert_eq!(parse_vss_key("a/b"), None);
    assert_eq!(parse_vss_key("abc"), None);
    assert_eq!(parse_vss_key(""), None);
}

#[test]
fn parse_inverts_vss_key_round_trip() {
    for (p, s, k) in [("", "", "manager"), ("monitors", "", "x"), ("a", "b", "c/d"), ("", "sec", "ü")] {
        let key = vss_key(p, s, k);
        assert_eq!(parse_vss_key(&key), triple(p, s, k));
    }
}

#[test]
fn placeholder_namespace_does_not_round_trip() {
    let key = vss_key("_", "", "k");
    assert_eq!(parse_vss_key(&key), triple("", "", "k"));
}

#[test]
fn strip_prefix_requires_prefix() {
    assert_eq!(strip_prefix("abc", "abcd"), None);
    assert_eq!(strip_prefix("abc", "b"), None);
    assert_eq!(strip_prefix("abc", ""), Some("abc".to_string()));
    assert_eq!(strip_prefix("abc", "abc"), Some(String::new()));
}

#[test]
fn distinct_triples_get_distinct_keys() {
    let triples = [("", "", "a"), ("a", "", ""), ("", "a", "b"), ("a", "b", "c"), ("a", "", "b/c"), ("a", "b", "c/")];
    for (i, (p1, s1, k1)) in triples.iter().enumerate() {
        for (j, (p2, s2, k2)) in triples.iter().enumerate() {
            if i != j && !k1.is_empty() && !k2.is_empty() {
                assert_ne!(vss_key(p1, s1, k1), vss_key(p2, s2, k2));
            }
        }
    }
}
