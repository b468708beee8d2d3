//! What is precomputed from a signature before a scan: the pattern lanes and
//! the match table.

use crate::lanes::{byte_or_zero, load_lane, NEON_REGISTER_LENGTH};
use crate::signature::{lemma_anchor_is_concrete, leading_wildcards, SimdPatternScanData};
use vstd::prelude::*;

verus! {

/// The byte that position `at` of the signature asks for; zero at a wildcard
/// and past the end.
pub open spec fn pattern_byte(tokens: Seq<Option<u8>>, at: int) -> u8 {
    if 0 <= at < tokens.len() {
        match tokens[at] {
            Some(b) => b,
            None => 0u8,
        }
    } else {
        0u8
    }
}

/// Number of lanes that hold the positions behind the first concrete byte.
pub open spec fn lane_count(tokens: Seq<Option<u8>>) -> int {
    (tokens.len() - leading_wildcards(tokens) - 1 + 15) / 16
}

/// Whether `lanes` are the pattern lanes of the signature: the positions behind
/// the first concrete byte, sixteen to a lane, the last lane filled with zeros.
pub open spec fn is_pattern_lanes(tokens: Seq<Option<u8>>, lanes: Seq<[u8; 16]>) -> bool {
    &&& lanes.len() == lane_count(tokens)
    &&& forall|l: int, o: int|
        0 <= l < lanes.len() && 0 <= o < 16 ==> (#[trigger] lanes[l]@[o]) == pattern_byte(
            tokens,
            leading_wildcards(tokens) + 1 + 16 * l + o,
        )
}

/// Distance of a table entry's position from the one behind the first concrete
/// byte.
pub open spec fn entry_distance(entry: (usize, usize)) -> int {
    entry.0 * 16 + entry.1
}

/// Position in the signature that a table entry stands for.
pub open spec fn entry_position(tokens: Seq<Option<u8>>, entry: (usize, usize)) -> int {
    leading_wildcards(tokens) + 1 + entry_distance(entry)
}

/// Whether `table` is the match table of the signature: one entry, as lane
/// index and offset within the lane, for each concrete byte behind the first
/// concrete byte, in the order of the signature.
pub open spec fn is_match_table(tokens: Seq<Option<u8>>, table: Seq<(usize, usize)>) -> bool {
    &&& forall|j: int|
        0 <= j < table.len() ==> (#[trigger] table[j]).1 < 16 && entry_position(tokens, table[j])
            < tokens.len() && tokens[entry_position(tokens, table[j])] is Some
    &&& forall|i: int, j: int|
        0 <= i < j < table.len() ==> entry_distance(#[trigger] table[i]) < entry_distance(
            #[trigger] table[j],
        )
    &&& forall|t: int|
        leading_wildcards(tokens) < t < tokens.len() && (#[trigger] tokens[t]) is Some
            ==> exists|j: int|
            0 <= j < table.len() && entry_position(tokens, #[trigger] table[j]) == t
}

/// Splits the signature behind its first concrete byte into lanes.
pub fn pattern_to_vec(cb_pattern: &SimdPatternScanData) -> (lanes: Vec<[u8; 16]>)
    requires
        cb_pattern.wf(),
    ensures
        is_pattern_lanes(cb_pattern@, lanes@),
{
    proof {
        lemma_anchor_is_concrete(cb_pattern@);
        assert(cb_pattern@.len() == cb_pattern.bytes@.len());
    }
    let total: usize = cb_pattern.bytes.len();
    let first: usize = cb_pattern.leading_ignore_count + 1;
    let pattern_len: usize = total - first;
    let vector_count: usize = pattern_len / NEON_REGISTER_LENGTH + (if pattern_len
        % NEON_REGISTER_LENGTH != 0 {
        1usize
    } else {
        0usize
    });
    let mut pattern_vecs: Vec<[u8; 16]> = Vec::with_capacity(vector_count);
    let mut i: usize = 0;
    while i < vector_count
        invariant
            cb_pattern.wf(),
            first == leading_wildcards(cb_pattern@) + 1,
            first + pattern_len == total,
            total == cb_pattern.bytes@.len(),
            vector_count == lane_count(cb_pattern@),
            vector_count == (pattern_len + 15) / 16,
            i <= vector_count,
            pattern_vecs@.len() == i,
            forall|l: int, o: int|
                0 <= l < i && 0 <= o < 16 ==> (#[trigger] pattern_vecs@[l]@[o]) == pattern_byte(
                    cb_pattern@,
                    first + 16 * l + o,
                ),
        decreases vector_count - i,
    {
        assert(16 * i < pattern_len) by {
            assert(16 * vector_count <= pattern_len + 15);
        }
        let lane = load_lane(cb_pattern.bytes.as_slice(), first + i * NEON_REGISTER_LENGTH);
        proof {
            assert forall|o: int| 0 <= o < 16 implies (#[trigger] lane@[o]) == pattern_byte(
                cb_pattern@,
                first + 16 * i + o,
            ) by {
                let at = first + 16 * i + o;
                assert(lane@[o] == byte_or_zero(cb_pattern.bytes@, at));
                if at < cb_pattern.bytes@.len() {
                    assert(cb_pattern.mask@[at] == 0 || cb_pattern.mask@[at] == 1);
                }
            }
        }
        pattern_vecs.push(lane);
        i += 1;
    }
    pattern_vecs
}

/// Lists, in the order of the signature, the concrete bytes behind the first
/// concrete byte, each as the index of its lane and its offset within it.
pub fn build_match_indexes(scan_pattern: &SimdPatternScanData) -> (table: Vec<(usize, usize)>)
    requires
        scan_pattern.wf(),
    ensures
        is_match_table(scan_pattern@, table@),
{
    proof {
        lemma_anchor_is_concrete(scan_pattern@);
    }
    let mask_length: usize = scan_pattern.mask.len();
    let first: usize = scan_pattern.leading_ignore_count + 1;
    let mut table: Vec<(usize, usize)> = Vec::new();
    let mut i: usize = first;
    while i < mask_length
        invariant
            scan_pattern.wf(),
            mask_length == scan_pattern@.len(),
            first == leading_wildcards(scan_pattern@) + 1,
            first <= i <= mask_length,
            forall|j: int|
                0 <= j < table@.len() ==> (#[trigger] table@[j]).1 < 16 && entry_position(
                    scan_pattern@,
                    table@[j],
                ) < i && scan_pattern@[entry_position(scan_pattern@, table@[j])] is Some,
            forall|a: int, b: int|
                0 <= a < b < table@.len() ==> entry_distance(#[trigger] table@[a])
                    < entry_distance(#[trigger] table@[b]),
            forall|t: int|
                first <= t < i && (#[trigger] scan_pattern@[t]) is Some ==> exists|j: int|
                    0 <= j < table@.len() && entry_position(scan_pattern@, #[trigger] table@[j])
                        == t,
        decreases mask_length - i,
    {
        if scan_pattern.mask[i] == 1 {
            let distance: usize = i - first;
            let entry: (usize, usize) = (
                distance / NEON_REGISTER_LENGTH,
                distance % NEON_REGISTER_LENGTH,
            );
            let ghost before = table@;
            table.push(entry);
            proof {
                assert(entry_position(scan_pattern@, entry) == i);
                assert forall|t: int|
                    first <= t < i + 1 && (#[trigger] scan_pattern@[t]) is Some implies exists|
                    j: int,
                |
                    0 <= j < table@.len() && entry_position(scan_pattern@, #[trigger] table@[j])
                        == t by {
                    if t < i {
                        let j = choose|j: int|
                            0 <= j < before.len() && entry_position(
                                scan_pattern@,
                                #[trigger] before[j],
                            ) == t;
                        assert(table@[j] == before[j]);
                    } else {
                        assert(table@[before.len() as int] == entry);
                    }
                }
            }
        }
        i += 1;
    }
    table
}

} // verus!
