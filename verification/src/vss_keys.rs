use vstd::prelude::*;

use crate::text::index_of_char;

verus! {

/// The placeholder that stands for an empty namespace inside a VSS key.
pub open spec fn encode_namespace(ns: Seq<char>) -> Seq<char> {
    if ns.len() == 0 {
        seq!['_']
    } else {
        ns
    }
}

/// `{primary}/{secondary}/{key}`, with empty namespaces written as `_`.
pub open spec fn spec_vss_key(primary: Seq<char>, secondary: Seq<char>, key: Seq<char>) -> Seq<char> {
    encode_namespace(primary) + seq!['/'] + encode_namespace(secondary) + seq!['/'] + key
}

/// `{primary}/{secondary}/`, with empty namespaces written as `_`.
pub open spec fn spec_vss_key_prefix(primary: Seq<char>, secondary: Seq<char>) -> Seq<char> {
    encode_namespace(primary) + seq!['/'] + encode_namespace(secondary) + seq!['/']
}

fn namespace_part(ns: &str) -> (r: &str)
    ensures
        r@ == encode_namespace(ns@),
{
    if ns.is_empty() {
        let u = "_";
        proof {
            reveal_strlit("_");
        }
        u
    } else {
        ns
    }
}

/// Maps LDK's `(primary_namespace, secondary_namespace, key)` to a single VSS
/// key: `{primary_ns}/{secondary_ns}/{key}` where empty namespaces become `_`.
pub fn vss_key(primary_namespace: &str, secondary_namespace: &str, key: &str) -> (r: String)
    ensures
        r@ == spec_vss_key(primary_namespace@, secondary_namespace@, key@),
{
    let slash = "/";
    proof {
        reveal_strlit("/");
    }
    let mut r = String::from_str(namespace_part(primary_namespace));
    r.append(slash);
    r.append(namespace_part(secondary_namespace));
    r.append(slash);
    r.append(key);
    r
}


/// Returns the VSS key prefix under which every key of a namespace pair is
/// stored: `{primary_ns}/{secondary_ns}/`.
pub fn vss_key_prefix(primary_namespace: &str, secondary_namespace: &str) -> (r: String)
    ensures
        r@ == spec_vss_key_prefix(primary_namespace@, secondary_namespace@),
{
    let slash = "/";
    proof {
        reveal_strlit("/");
    }
    let mut r = String::from_str(namespace_part(primary_namespace));
    r.append(slash);
    r.append(namespace_part(secondary_namespace));
    r.append(slash);
    r
}

/// No character of `s` is a slash.
pub open spec fn no_slash(s: Seq<char>) -> bool {
    forall|i: int| 0 <= i < s.len() ==> s[i] != '/'
}

/// The inverse of `encode_namespace`: the placeholder `_` stands for the empty namespace.
pub open spec fn decode_namespace(ns: Seq<char>) -> Seq<char> {
    if ns == seq!['_'] {
        Seq::empty()
    } else {
        ns
    }
}

/// `s` splits at its first two slashes into `first`, `second` and `rest`.
pub open spec fn splits_as(s: Seq<char>, first: Seq<char>, second: Seq<char>, rest: Seq<char>) -> bool {
    &&& no_slash(first)
    &&& no_slash(second)
    &&& s == first + seq!['/'] + second + seq!['/'] + rest
}

/// What a VSS key stands for: the two parts before its first two slashes,
/// decoded, and the non-empty rest as the key; `None` for any other shape.
pub open spec fn spec_parse_vss_key(s: Seq<char>) -> Option<(Seq<char>, Seq<char>, Seq<char>)> {
    if exists|a: Seq<char>, b: Seq<char>, r: Seq<char>| #[trigger] splits_as(s, a, b, r) && r.len() > 0 {
        let (a, b, r) = choose|a: Seq<char>, b: Seq<char>, r: Seq<char>|
            #[trigger] splits_as(s, a, b, r) && r.len() > 0;
        Some((decode_namespace(a), decode_namespace(b), r))
    } else {
        None
    }
}

proof fn lemma_split_positions(s: Seq<char>, a: Seq<char>, b: Seq<char>, r: Seq<char>)
    requires
        splits_as(s, a, b, r),
    ensures
        s.len() == a.len() + b.len() + r.len() + 2,
        s[a.len() as int] == '/',
        s[(a.len() + 1 + b.len()) as int] == '/',
        forall|k: int| 0 <= k < a.len() ==> s[k] != '/',
        forall|k: int| a.len() < k < a.len() + 1 + b.len() ==> s[k] != '/',
        a == s.subrange(0, a.len() as int),
        b == s.subrange((a.len() + 1) as int, (a.len() + 1 + b.len()) as int),
        r == s.subrange((a.len() + b.len() + 2) as int, s.len() as int),
{
    let ab = a + seq!['/'] + b + seq!['/'];
    assert(s == ab + r);
    assert forall|k: int| 0 <= k < a.len() implies s[k] != '/' by {
        assert(s[k] == a[k]);
    }
    assert forall|k: int| a.len() < k < a.len() + 1 + b.len() implies s[k] != '/' by {
        assert(s[k] == b[k - a.len() - 1]);
    }
    assert(a =~= s.subrange(0, a.len() as int));
    assert(b =~= s.subrange((a.len() + 1) as int, (a.len() + 1 + b.len()) as int));
    assert(r =~= s.subrange((a.len() + b.len() + 2) as int, s.len() as int));
}

/// A VSS key splits at its first two slashes in at most one way.
proof fn lemma_split_unique(
    s: Seq<char>,
    a: Seq<char>,
    b: Seq<char>,
    r: Seq<char>,
    a2: Seq<char>,
    b2: Seq<char>,
    r2: Seq<char>,
)
    requires
        splits_as(s, a, b, r),
        splits_as(s, a2, b2, r2),
    ensures
        a == a2,
        b == b2,
        r == r2,
{
    lemma_split_positions(s, a, b, r);
    lemma_split_positions(s, a2, b2, r2);
    if a.len() < a2.len() {
        assert(s[a.len() as int] != '/');
    }
    if a2.len() < a.len() {
        assert(s[a2.len() as int] != '/');
    }
    if b.len() < b2.len() {
        assert(s[(a.len() + 1 + b.len()) as int] != '/');
    }
    if b2.len() < b.len() {
        assert(s[(a.len() + 1 + b2.len()) as int] != '/');
    }
}

fn decode_part(part: &str) -> (r: String)
    ensures
        r@ == decode_namespace(part@),
{
    if part.unicode_len() == 1 && part.get_char(0) == '_' {
        assert(part@ =~= seq!['_']);
        String::new()
    } else {
        assert(part@ != seq!['_']);
        part.to_owned()
    }
}

/// Parses a VSS key back into `(primary_namespace, secondary_namespace, key)`.
///
/// Returns `None` if the key doesn't match the expected format.
pub fn parse_vss_key(vss_key: &str) -> (r: Option<(String, String, String)>)
    ensures
        match r {
            Some((p, s, k)) => spec_parse_vss_key(vss_key@) == Some((p@, s@, k@)),
            None => spec_parse_vss_key(vss_key@) is None,
        },
{
    let ghost s = vss_key@;
    let n = vss_key.unicode_len();
    let i = index_of_char(vss_key, '/', 0, n);
    if i == n {
        assert forall|a: Seq<char>, b: Seq<char>, r: Seq<char>| !splits_as(s, a, b, r) by {
            if splits_as(s, a, b, r) {
                lemma_split_positions(s, a, b, r);
            }
        }
        return None;
    }
    let j = index_of_char(vss_key, '/', i + 1, n);
    if j == n {
        assert forall|a: Seq<char>, b: Seq<char>, r: Seq<char>| !splits_as(s, a, b, r) by {
            if splits_as(s, a, b, r) {
                lemma_split_positions(s, a, b, r);
                if a.len() > i {
                    assert(s[i as int] != '/');
                }
                assert(a.len() == i);
                assert(s[(a.len() + 1 + b.len()) as int] == '/');
            }
        }
        return None;
    }
    let ghost a = s.subrange(0, i as int);
    let ghost b = s.subrange(i + 1, j as int);
    let ghost r = s.subrange(j + 1, n as int);
    assert(s =~= a + seq!['/'] + b + seq!['/'] + r);
    assert(splits_as(s, a, b, r));
    if j + 1 == n {
        assert forall|a2: Seq<char>, b2: Seq<char>, r2: Seq<char>|
            #[trigger] splits_as(s, a2, b2, r2) implies r2.len() == 0 by {
            lemma_split_unique(s, a, b, r, a2, b2, r2);
        }
        return None;
    }
    let primary = decode_part(vss_key.substring_char(0, i));
    let secondary = decode_part(vss_key.substring_char(i + 1, j));
    let key = vss_key.substring_char(j + 1, n).to_owned();
    proof {
        let (a2, b2, r2) = choose|a2: Seq<char>, b2: Seq<char>, r2: Seq<char>|
            #[trigger] splits_as(s, a2, b2, r2) && r2.len() > 0;
        lemma_split_unique(s, a, b, r, a2, b2, r2);
    }
    Some((primary, secondary, key))
}


/// Parsing undoes the key mapping: for namespaces that hold no slash and are
/// not the placeholder `_` itself, and a non-empty key, parsing the VSS key
/// gives back the triple it was made from (empty namespaces included).
pub proof fn lemma_parse_vss_key_inverts_vss_key(primary: Seq<char>, secondary: Seq<char>, key: Seq<char>)
    requires
        no_slash(primary),
        no_slash(secondary),
        primary != seq!['_'],
        secondary != seq!['_'],
        key.len() > 0,
    ensures
        spec_parse_vss_key(spec_vss_key(primary, secondary, key)) == Some((primary, secondary, key)),
{
    let s = spec_vss_key(primary, secondary, key);
    let a = encode_namespace(primary);
    let b = encode_namespace(secondary);
    assert(no_slash(a));
    assert(no_slash(b));
    assert(splits_as(s, a, b, key));
    let (a2, b2, r2) = choose|a2: Seq<char>, b2: Seq<char>, r2: Seq<char>|
        #[trigger] splits_as(s, a2, b2, r2) && r2.len() > 0;
    lemma_split_unique(s, a, b, key, a2, b2, r2);
    assert(decode_namespace(a) == primary);
    assert(decode_namespace(b) == secondary);
}

/// Distinct triples map to distinct VSS keys (for namespaces without slashes
/// that are not the placeholder itself, and non-empty keys).
pub proof fn lemma_vss_key_injective(
    p1: Seq<char>,
    s1: Seq<char>,
    k1: Seq<char>,
    p2: Seq<char>,
    s2: Seq<char>,
    k2: Seq<char>,
)
    requires
        no_slash(p1),
        no_slash(s1),
        p1 != seq!['_'],
        s1 != seq!['_'],
        k1.len() > 0,
        no_slash(p2),
        no_slash(s2),
        p2 != seq!['_'],
        s2 != seq!['_'],
        k2.len() > 0,
        spec_vss_key(p1, s1, k1) == spec_vss_key(p2, s2, k2),
    ensures
        p1 == p2 && s1 == s2 && k1 == k2,
{
    lemma_parse_vss_key_inverts_vss_key(p1, s1, k1);
    lemma_parse_vss_key_inverts_vss_key(p2, s2, k2);
}

/// Every VSS key of a namespace pair starts with that pair's prefix, and the
/// rest of it is the key.
pub proof fn lemma_vss_key_extends_prefix(primary: Seq<char>, secondary: Seq<char>, key: Seq<char>)
    ensures
        spec_vss_key(primary, secondary, key) == spec_vss_key_prefix(primary, secondary) + key,
{
    assert(spec_vss_key(primary, secondary, key) =~= spec_vss_key_prefix(primary, secondary) + key);
}

/// What `s` is with `prefix` cut off its front, if `s` starts with it.
pub open spec fn spec_strip_prefix(s: Seq<char>, prefix: Seq<char>) -> Option<Seq<char>> {
    if prefix.len() <= s.len() && s.subrange(0, prefix.len() as int) == prefix {
        Some(s.subrange(prefix.len() as int, s.len() as int))
    } else {
        None
    }
}

/// Cuts `prefix` off the front of `s`, if `s` starts with it.
pub fn strip_prefix(s: &str, prefix: &str) -> (r: Option<String>)
    ensures
        match r {
            Some(rest) => spec_strip_prefix(s@, prefix@) == Some(rest@),
            None => spec_strip_prefix(s@, prefix@) is None,
        },
{
    let n = s.unicode_len();
    let m = prefix.unicode_len();
    if m > n {
        return None;
    }
    let mut i: usize = 0;
    while i < m
        invariant
            n == s@.len(),
            m == prefix@.len(),
            m <= n,
            i <= m,
            forall|k: int| 0 <= k < i ==> s@[k] == prefix@[k],
        decreases m - i,
    {
        if s.get_char(i) != prefix.get_char(i) {
            assert(s@.subrange(0, m as int)[i as int] != prefix@[i as int]);
            return None;
        }
        i = i + 1;
    }
    assert(s@.subrange(0, m as int) =~= prefix@);
    Some(s.substring_char(m, n).to_owned())
}

/// Listing by prefix finds the key again: stripping a namespace pair's prefix
/// from one of its VSS keys gives back the key.
pub proof fn lemma_strip_prefix_recovers_key(primary: Seq<char>, secondary: Seq<char>, key: Seq<char>)
    ensures
        spec_strip_prefix(spec_vss_key(primary, secondary, key), spec_vss_key_prefix(primary, secondary))
            == Some(key),
{
    let pre = spec_vss_key_prefix(primary, secondary);
    let s = spec_vss_key(primary, secondary, key);
    lemma_vss_key_extends_prefix(primary, secondary, key);
    assert(s.subrange(0, pre.len() as int) =~= pre);
    assert(s.subrange(pre.len() as int, s.len() as int) =~= key);
}

} // verus!
