//! The versioned-output protocol: a fingerprint computed over the ordered
//! `(relative path, chunk id)` pairs of a generated document, and the
//! update evaluator that compares two fingerprints in O(1).

use vstd::prelude::*;
use vstd::utf8::encode_utf8;

use crate::chunk::{ChunkPathEntry, ChunkPathEntryView};
use crate::hash::{encode_hex, spec_hex_u64, xxh3_hash64, xxh3_hash64_of};

verus! {

/// The bytes one entry feeds to the fingerprint hash: the UTF-8 bytes of
/// its relative path followed by those of its chunk id. No separators are
/// needed: hash state and order are carried across the whole sequence.
pub open spec fn spec_entry_bytes(e: ChunkPathEntryView) -> Seq<u8> {
    encode_utf8(e.relative_path) + encode_utf8(e.chunk_id)
}

/// The bytes an ordered entry sequence feeds to the fingerprint hash.
pub open spec fn spec_entries_bytes(entries: Seq<ChunkPathEntryView>) -> Seq<u8>
    decreases entries.len(),
{
    if entries.len() == 0 {
        Seq::empty()
    } else {
        spec_entries_bytes(entries.drop_last()) + spec_entry_bytes(entries.last())
    }
}

/// The version fingerprint of an ordered entry sequence: the 64-bit fast
/// hash of its bytes, hex encoded. A pure function of the sequence alone —
/// never of time, iteration order or process identity.
pub open spec fn spec_fingerprint(entries: Seq<ChunkPathEntryView>) -> Seq<char> {
    spec_hex_u64(xxh3_hash64_of(spec_entries_bytes(entries)))
}

/// The version of a generated HTML document: the entry sequence the
/// document was generated from, fingerprinted on demand.
pub struct DevHtmlAssetVersion {
    pub chunk_paths: Vec<ChunkPathEntry>,
}

impl DevHtmlAssetVersion {
    /// The version's identity: the fingerprint of its entry sequence,
    /// recomputed in full from the whole sequence on every call.
    pub fn id(&self) -> (r: String)
        ensures
            r@ == spec_fingerprint(self.chunk_paths.deep_view()),
            r@.len() == 16,
    {
        let ghost entries = self.chunk_paths.deep_view();
        let mut buf: Vec<u8> = Vec::new();
        let mut i: usize = 0;
        while i < self.chunk_paths.len()
            invariant
                i <= self.chunk_paths@.len(),
                entries == self.chunk_paths.deep_view(),
                entries.len() == self.chunk_paths@.len(),
                buf@ == spec_entries_bytes(entries.take(i as int)),
            decreases self.chunk_paths@.len() - i,
        {
            let entry = &self.chunk_paths[i];
            let mut path_bytes = entry.relative_path.as_str().as_bytes_vec();
            let mut id_bytes = entry.chunk_id.as_str().as_bytes_vec();
            buf.append(&mut path_bytes);
            buf.append(&mut id_bytes);
            proof {
                let taken = entries.take(i + 1);
                assert(taken.drop_last() =~= entries.take(i as int));
                assert(taken.last() == entries[i as int]);
                assert(buf@ =~= spec_entries_bytes(taken));
            }
            i += 1;
        }
        proof {
            assert(entries.take(entries.len() as int) =~= entries);
        }
        let h = xxh3_hash64(&buf);
        encode_hex(h)
    }
}

/// The outcome of comparing a previously served output's version with the
/// current one. There is deliberately no "applied diff" outcome:
/// structural updates of the HTML shell are unsupported by design.
#[derive(Debug)]
pub enum UpdateResult {
    /// The fingerprints are equal: the served output is still valid.
    NoChange,
    /// The fingerprints differ: the chunk set changed between versions,
    /// which this protocol does not update in place. Both fingerprints are
    /// carried for diagnostics.
    Unsupported { from_version: String, to_version: String },
}

impl UpdateResult {
    /// The diagnostic message for an unsupported update; `None` when the
    /// comparison found no change.
    pub fn reason(&self) -> (r: Option<&'static str>)
        ensures
            r is Some <==> self is Unsupported,
    {
        match self {
            UpdateResult::NoChange => None,
            UpdateResult::Unsupported { .. } => Some(
                "the chunk set changed between versions; structural HTML updates are not supported",
            ),
        }
    }
}

/// Compares two version fingerprints. Equality of the fingerprint strings
/// is the sole criterion, so the check is O(1) in the number of chunks:
/// the underlying entry sequences are never inspected.
pub fn diff(from: &String, to: &String) -> (r: UpdateResult)
    ensures
        r is NoChange <==> from@ == to@,
        r matches UpdateResult::Unsupported { from_version, to_version } ==> from@ != to@
            && from_version@ == from@ && to_version@ == to@,
{
    if from.eq(to) {
        UpdateResult::NoChange
    } else {
        UpdateResult::Unsupported { from_version: from.clone(), to_version: to.clone() }
    }
}

/// Law: two fingerprints are equal exactly when the underlying 64-bit
/// digests of the sequences' hash bytes are equal — the hex encoding
/// neither collides nor distinguishes beyond the digest.
pub proof fn lemma_fingerprint_eq_iff_digest_eq(
    a: Seq<ChunkPathEntryView>,
    b: Seq<ChunkPathEntryView>,
)
    ensures
        spec_fingerprint(a) == spec_fingerprint(b) <==> xxh3_hash64_of(spec_entries_bytes(a))
            == xxh3_hash64_of(spec_entries_bytes(b)),
{
    if spec_fingerprint(a) == spec_fingerprint(b) {
        crate::hash::lemma_hex_u64_injective(
            xxh3_hash64_of(spec_entries_bytes(a)),
            xxh3_hash64_of(spec_entries_bytes(b)),
        );
    }
}

/// Law: the fingerprint is a pure function of the ordered entry sequence.
/// Two sequences with the same entries in the same order — the same
/// relative-path and chunk-id character content — always fingerprint
/// identically.
pub proof fn lemma_fingerprint_respects_equality(
    a: Seq<ChunkPathEntryView>,
    b: Seq<ChunkPathEntryView>,
)
    requires
        a.len() == b.len(),
        forall|i: int|
            0 <= i < a.len() ==> a[i].relative_path =~= b[i].relative_path
                && a[i].chunk_id =~= b[i].chunk_id,
    ensures
        spec_fingerprint(a) == spec_fingerprint(b),
{
    assert forall|i: int| 0 <= i < a.len() implies a[i] == b[i] by {
        assert(a[i] =~= b[i]);
    }
    assert(a =~= b);
}

} // verus!
