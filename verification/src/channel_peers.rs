//! The channel-peer file: one `pubkey@address` line per peer. Reading and
//! writing the file is the caller's; this module computes its new contents.
use vstd::prelude::*;

use crate::text::{prefix_before, starts_with, str_starts_with};

verus! {

/// A line as `str::lines` gives it: without its `\n` and, where the `\n`
/// followed a `\r`, without that `\r` either.
pub open spec fn strip_line_end(raw: Seq<char>) -> Seq<char> {
    if raw.len() > 0 && raw.last() == '\r' {
        raw.drop_last()
    } else {
        raw
    }
}

/// The lines of a text as `str::lines` splits them: at each `\n` (with a
/// preceding `\r` removed); the text after the last `\n`, if any, is the last
/// line as it stands; an empty text has no lines.
pub open spec fn std_lines(s: Seq<char>) -> Seq<Seq<char>>
    decreases s.len(),
{
    if s.len() == 0 {
        Seq::empty()
    } else {
        let raw = prefix_before(s, '\n');
        if raw.len() >= s.len() {
            seq![s]
        } else {
            seq![strip_line_end(raw)] + std_lines(s.skip((raw.len() + 1) as int))
        }
    }
}

/// Unicode `White_Space`, as `char::is_whitespace` defines it.
pub open spec fn is_unicode_whitespace(c: char) -> bool {
    let u = c as u32;
    ||| 0x09 <= u <= 0x0D
    ||| u == 0x20
    ||| u == 0x85
    ||| u == 0xA0
    ||| u == 0x1680
    ||| 0x2000 <= u <= 0x200A
    ||| u == 0x2028
    ||| u == 0x2029
    ||| u == 0x202F
    ||| u == 0x205F
    ||| u == 0x3000
}

/// `s` without its leading whitespace.
pub open spec fn trim_start(s: Seq<char>) -> Seq<char>
    decreases s.len(),
{
    if s.len() > 0 && is_unicode_whitespace(s[0]) {
        trim_start(s.drop_first())
    } else {
        s
    }
}

/// `s` without its trailing whitespace.
pub open spec fn trim_end(s: Seq<char>) -> Seq<char>
    decreases s.len(),
{
    if s.len() > 0 && is_unicode_whitespace(s.last()) {
        trim_end(s.drop_last())
    } else {
        s
    }
}

/// A text with leading and trailing whitespace removed, as `str::trim` does it.
pub open spec fn std_trim(s: Seq<char>) -> Seq<char> {
    trim_end(trim_start(s))
}

/// Splits a text into lines with `str::lines`, which std documents as
/// splitting at `\n` or `\r\n`, with an optional final line ending.
#[verifier::external_body]
fn lines_of(s: &str) -> (r: Vec<String>)
    ensures
        r@.map_values(|l: String| l@) == std_lines(s@),
{
    s.lines().map(|l| l.to_string()).collect()
}

/// Removes leading and trailing whitespace with `str::trim`, which std
/// documents as removing the Unicode `White_Space` characters at both ends.
#[verifier::external_body]
fn trim(s: &str) -> (r: &str)
    ensures
        r@ == std_trim(s@),
{
    s.trim()
}

/// The lines that stay when a peer's line is replaced or removed: every
/// line whose trimmed text does not start with `pubkey`, trimmed.
pub open spec fn kept_lines(lines: Seq<Seq<char>>, pubkey: Seq<char>) -> Seq<Seq<char>>
    decreases lines.len(),
{
    if lines.len() == 0 {
        Seq::empty()
    } else {
        let p = kept_lines(lines.drop_last(), pubkey);
        if starts_with(std_trim(lines.last()), pubkey) {
            p
        } else {
            p.push(std_trim(lines.last()))
        }
    }
}

/// Lines joined with `\n`.
pub open spec fn join_lines(lines: Seq<Seq<char>>) -> Seq<char>
    decreases lines.len(),
{
    if lines.len() == 0 {
        Seq::empty()
    } else if lines.len() == 1 {
        lines[0]
    } else {
        join_lines(lines.drop_last()) + seq!['\n'] + lines.last()
    }
}

/// A peer's line: `pubkey@address`.
pub open spec fn peer_entry(pubkey: Seq<char>, address: Seq<char>) -> Seq<char> {
    pubkey + seq!['@'] + address
}

/// The peer file after recording a peer: the other peers' lines (trimmed),
/// then the peer's line last. `existing` is the file's text, `None` when
/// there is no file yet.
pub open spec fn spec_persisted_peers(existing: Option<Seq<char>>, pubkey: Seq<char>, address: Seq<char>) -> Seq<char> {
    match existing {
        None => peer_entry(pubkey, address),
        Some(c) => {
            let kept = join_lines(kept_lines(std_lines(c), pubkey));
            if kept.len() == 0 {
                peer_entry(pubkey, address)
            } else {
                kept + seq!['\n'] + peer_entry(pubkey, address)
            }
        },
    }
}

/// The peer file after forgetting a peer.
pub open spec fn spec_deleted_peers(existing: Seq<char>, pubkey: Seq<char>) -> Seq<char> {
    join_lines(kept_lines(std_lines(existing), pubkey))
}

fn kept(existing: &str, pubkey: &str) -> (r: String)
    ensures
        r@ == join_lines(kept_lines(std_lines(existing@), pubkey@)),
{
    let lines = lines_of(existing);
    let ghost lv = lines@.map_values(|l: String| l@);
    let mut out = String::new();
    let mut count: usize = 0;
    let mut i: usize = 0;
    proof {
        reveal_strlit("\n");
    }
    while i < lines.len()
        invariant
            lv == lines@.map_values(|l: String| l@),
            lv == std_lines(existing@),
            i <= lines@.len(),
            count == kept_lines(lv.take(i as int), pubkey@).len(),
            count <= i,
            out@ == join_lines(kept_lines(lv.take(i as int), pubkey@)),
        decreases lines@.len() - i,
    {
        let ghost before = lv.take(i as int);
        assert(lv.take(i + 1).drop_last() =~= before);
        assert(lv.take(i + 1).last() == lines@[i as int]@);
        let t = trim(lines[i].as_str());
        if !str_starts_with(t, pubkey) {
            let ghost ks = kept_lines(before, pubkey@);
            assert(kept_lines(lv.take(i + 1), pubkey@) == ks.push(t@));
            assert(ks.push(t@).drop_last() =~= ks);
            proof {
                reveal_strlit("\n");
            }
            let ghost old_out = out@;
            if count > 0 {
                out.append("\n");
            }
            out.append(t);
            if count == 0 {
                assert(ks.len() == 0);
                assert(ks.push(t@).len() == 1);
                assert(out@ =~= t@);
            } else {
                assert(ks.push(t@).len() >= 2);
                assert(join_lines(ks.push(t@)) == join_lines(ks) + seq!['\n'] + t@);
                assert(out@ =~= old_out + seq!['\n'] + t@);
            }
            count = count + 1;
        }
        i = i + 1;
    }
    assert(lv.take(lines@.len() as int) =~= lv);
    out
}

/// The peer file's text after recording `pubkey` at `address`: any earlier
/// line for the peer is replaced by the new one, which comes last.
pub fn persisted_peers(existing: Option<&str>, pubkey: &str, address: &str) -> (r: String)
    ensures
        r@ == spec_persisted_peers(
            match existing {
                Some(c) => Some(c@),
                None => None,
            },
            pubkey@,
            address@,
        ),
{
    proof {
        reveal_strlit("@");
        reveal_strlit("\n");
    }
    let mut entry = String::from_str(pubkey);
    entry.append("@");
    entry.append(address);
    match existing {
        None => entry,
        Some(c) => {
            let mut out = kept(c, pubkey);
            if out.as_str().is_empty() {
                entry
            } else {
                out.append("\n");
                out.append(entry.as_str());
                out
            }
        },
    }
}

/// The peer file's text after forgetting `pubkey`.
pub fn deleted_peers(existing: &str, pubkey: &str) -> (r: String)
    ensures
        r@ == spec_deleted_peers(existing@, pubkey@),
{
    kept(existing, pubkey)
}

/// After recording a peer, the file ends with the peer's line, and no other
/// line kept from before starts with the peer's key: a peer is recorded once.
pub proof fn lemma_persisted_peer_is_last_and_unique(existing: Seq<char>, pubkey: Seq<char>, address: Seq<char>)
    ensures
        ({
            let r = spec_persisted_peers(Some(existing), pubkey, address);
            let e = peer_entry(pubkey, address);
            &&& r.len() >= e.len()
            &&& r.skip(r.len() - e.len()) == e
        }),
        forall|i: int|
            0 <= i < kept_lines(std_lines(existing), pubkey).len() ==> !starts_with(
                #[trigger] kept_lines(std_lines(existing), pubkey)[i],
                pubkey,
            ),
{
    let r = spec_persisted_peers(Some(existing), pubkey, address);
    let e = peer_entry(pubkey, address);
    let kept = join_lines(kept_lines(std_lines(existing), pubkey));
    if kept.len() == 0 {
        assert(r.skip(0) =~= e);
    } else {
        assert(r.skip(r.len() - e.len()) =~= e);
    }
    lemma_kept_lines_exclude(std_lines(existing), pubkey);
}

proof fn lemma_kept_lines_exclude(lines: Seq<Seq<char>>, pubkey: Seq<char>)
    ensures
        forall|i: int|
            0 <= i < kept_lines(lines, pubkey).len() ==> !starts_with(
                #[trigger] kept_lines(lines, pubkey)[i],
                pubkey,
            ),
    decreases lines.len(),
{
    if lines.len() > 0 {
        lemma_kept_lines_exclude(lines.drop_last(), pubkey);
        let p = kept_lines(lines.drop_last(), pubkey);
        let k = kept_lines(lines, pubkey);
        assert forall|i: int| 0 <= i < k.len() implies !starts_with(#[trigger] k[i], pubkey) by {
            if i < p.len() {
                assert(k[i] == p[i]);
            }
        }
    }
}

} // verus!
