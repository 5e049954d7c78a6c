//! Checking a game's signed log: each entry names the SHA-256 (in
//! hexadecimal) of the JSON encoding of the entry before it, so the log is a
//! hash chain that a changed or removed entry breaks.

use vstd::prelude::*;
use vstd::utf8::encode_utf8;

use crate::crypto::{sha256, sha256_digest};
use crate::encoding::{hex_encode, hex_lower};
use crate::text::{decimal, u64_to_decimal};

verus! {

/// What the chain check reads of a log entry: its sequence number, the hash
/// it names for the entry before it, and its own JSON encoding.
#[derive(Debug, PartialEq, Eq)]
pub struct ChainEntry {
    pub seq: u64,
    pub prev_hash: String,
    pub encoded: String,
}

/// The outcome of checking a game's log.
#[derive(Debug, PartialEq, Eq)]
pub struct AuditReport {
    pub game_id: String,
    pub entries: usize,
    pub valid: bool,
    pub errors: Vec<String>,
}

/// The hash by which the next entry names an entry: lowercase hexadecimal
/// SHA-256 of the UTF-8 of its JSON encoding.
pub open spec fn entry_digest(encoded: Seq<char>) -> Seq<char> {
    hex_lower(sha256(encode_utf8(encoded)))
}

/// Entry `i` names the hash of entry `i - 1`.
pub open spec fn link_holds(entries: Seq<ChainEntry>, i: int) -> bool {
    entries[i].prev_hash@ == entry_digest(entries[i - 1].encoded@)
}

/// The sequence numbers of the entries among the first `upto` whose link to
/// the entry before them is broken, in log order.
pub open spec fn broken_seqs(entries: Seq<ChainEntry>, upto: int) -> Seq<u64>
    decreases upto,
{
    if upto <= 1 {
        Seq::empty()
    } else if link_holds(entries, upto - 1) {
        broken_seqs(entries, upto - 1)
    } else {
        broken_seqs(entries, upto - 1).push(entries[upto - 1].seq)
    }
}

/// The error reported for a broken link.
pub open spec fn broken_text(seq: u64) -> Seq<char> {
    "hash chain broken at seq "@ + decimal(seq as nat)
}

/// The sequence numbers of the entries among the first `upto` whose named
/// hash differs from the given digest of the entry before them, in log
/// order.
pub open spec fn mismatched_seqs(entries: Seq<ChainEntry>, digests: Seq<Seq<char>>, upto: int) -> Seq<
    u64,
>
    decreases upto,
{
    if upto <= 1 {
        Seq::empty()
    } else if entries[upto - 1].prev_hash@ == digests[upto - 2] {
        mismatched_seqs(entries, digests, upto - 1)
    } else {
        mismatched_seqs(entries, digests, upto - 1).push(entries[upto - 1].seq)
    }
}

/// The report on a log whose entries (but the last) have the given digests:
/// one error per entry after the first whose named hash is not the digest of
/// the entry before it; the log is valid when there is none.
pub fn check_links(game_id: &str, entries: &Vec<ChainEntry>, digests: &Vec<String>) -> (r:
    AuditReport)
    requires
        digests.len() + 1 >= entries.len(),
    ensures
        r.game_id@ == game_id@,
        r.entries == entries.len(),
        r.errors@.len() == mismatched_seqs(entries@, digests@.map_values(|d: String| d@), entries.len() as int).len(),
        forall|k: int|
            0 <= k < r.errors@.len() ==> #[trigger] r.errors@[k]@ == broken_text(
                mismatched_seqs(entries@, digests@.map_values(|d: String| d@), entries.len() as int)[k],
            ),
        r.valid == (mismatched_seqs(entries@, digests@.map_values(|d: String| d@), entries.len() as int).len() == 0),
{
    let ghost ds = digests@.map_values(|d: String| d@);
    let mut errors: Vec<String> = Vec::new();
    let n = entries.len();
    let mut i: usize = 1;
    while i < n
        invariant
            n == entries.len(),
            digests.len() + 1 >= n,
            ds == digests@.map_values(|d: String| d@),
            1 <= i,
            i <= n || (n == 0 && i == 1),
            errors@.len() == mismatched_seqs(entries@, ds, i as int).len(),
            forall|k: int|
                0 <= k < errors@.len() ==> #[trigger] errors@[k]@ == broken_text(
                    mismatched_seqs(entries@, ds, i as int)[k],
                ),
        decreases n - i,
    {
        assert(ds[i - 1] == digests@[i - 1]@);
        if entries[i].prev_hash != digests[i - 1] {
            let mut m = String::from_str("hash chain broken at seq ");
            let number = u64_to_decimal(entries[i].seq);
            m.append(number.as_str());
            errors.push(m);
        }
        i = i + 1;
    }
    assert(mismatched_seqs(entries@, ds, i as int) =~= mismatched_seqs(entries@, ds, n as int));
    let valid = errors.len() == 0;
    AuditReport { game_id: String::from_str(game_id), entries: n, valid, errors }
}

/// With the true digests, the mismatches are exactly the broken links.
proof fn lemma_mismatches_are_broken_links(
    entries: Seq<ChainEntry>,
    ds: Seq<Seq<char>>,
    upto: int,
)
    requires
        upto <= entries.len(),
        ds.len() + 1 >= entries.len(),
        forall|j: int| 0 <= j < ds.len() ==> #[trigger] ds[j] == entry_digest(entries[j].encoded@),
    ensures
        mismatched_seqs(entries, ds, upto) == broken_seqs(entries, upto),
    decreases upto,
{
    if upto > 1 {
        lemma_mismatches_are_broken_links(entries, ds, upto - 1);
        assert(ds[upto - 2] == entry_digest(entries[upto - 2].encoded@));
    }
}

/// Checks the hash chain of a game's log: one error per entry (after the
/// first) whose named hash is not the hash of the entry before it; the log is
/// valid when there is none.
pub fn audit_chain(game_id: &str, entries: &Vec<ChainEntry>) -> (r: AuditReport)
    ensures
        r.game_id@ == game_id@,
        r.entries == entries.len(),
        r.errors@.len() == broken_seqs(entries@, entries.len() as int).len(),
        forall|k: int|
            0 <= k < r.errors@.len() ==> #[trigger] r.errors@[k]@ == broken_text(
                broken_seqs(entries@, entries.len() as int)[k],
            ),
        r.valid == (broken_seqs(entries@, entries.len() as int).len() == 0),
{
    let mut digests: Vec<String> = Vec::new();
    let n = entries.len();
    let mut i: usize = 0;
    while i + 1 < n
        invariant
            n == entries.len(),
            i + 1 <= n || n == 0,
            i == 0 || i < n,
            digests.len() == i,
            forall|j: int| 0 <= j < i ==> #[trigger] digests@[j]@ == entry_digest(entries@[j].encoded@),
        decreases n - i,
    {
        let digest = sha256_digest(entries[i].encoded.as_str().as_bytes());
        digests.push(hex_encode(digest.as_slice()));
        i = i + 1;
    }
    let ghost ds = digests@.map_values(|d: String| d@);
    proof {
        assert forall|j: int| 0 <= j < ds.len() implies #[trigger] ds[j] == entry_digest(entries@[j].encoded@) by {
            assert(digests@[j]@ == entry_digest(entries@[j].encoded@));
        }
        lemma_mismatches_are_broken_links(entries@, ds, entries.len() as int);
    }
    check_links(game_id, entries, &digests)
}

/// A log is valid exactly when every entry after the first names the hash
/// of the entry before it.
pub proof fn lemma_valid_iff_linked(entries: Seq<ChainEntry>, upto: int)
    requires
        upto <= entries.len(),
    ensures
        broken_seqs(entries, upto).len() == 0 <==> forall|i: int|
            1 <= i < upto ==> #[trigger] link_holds(entries, i),
    decreases upto,
{
    if upto > 1 {
        lemma_valid_iff_linked(entries, upto - 1);
        if link_holds(entries, upto - 1) {
            if broken_seqs(entries, upto).len() == 0 {
                assert forall|i: int| 1 <= i < upto implies #[trigger] link_holds(entries, i) by {
                    if i < upto - 1 {
                        assert(link_holds(entries, i));
                    }
                }
            }
        } else {
            assert(broken_seqs(entries, upto).len() > 0);
        }
    }
}

/// Appending an entry that names the hash of the last one keeps a valid log
/// valid.
pub proof fn lemma_linked_append(entries: Seq<ChainEntry>, next: ChainEntry)
    requires
        entries.len() > 0,
        broken_seqs(entries, entries.len() as int).len() == 0,
        next.prev_hash@ == entry_digest(entries.last().encoded@),
    ensures
        broken_seqs(entries.push(next), entries.len() + 1int).len() == 0,
{
    let longer = entries.push(next);
    lemma_valid_iff_linked(entries, entries.len() as int);
    assert forall|i: int| 1 <= i < entries.len() + 1 implies #[trigger] link_holds(longer, i) by {
        if i < entries.len() {
            assert(link_holds(entries, i));
        }
    }
    lemma_valid_iff_linked(longer, entries.len() + 1int);
}

} // verus!
