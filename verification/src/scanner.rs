//! The scan: a quick pass for the first concrete byte of a signature, lane by
//! lane, and the verification of each candidate against the match table.

use crate::lanes::{
    _mm_movemask_aarch64, bit_is_set, byte_or_zero, compare_lanes, load_lane, lowest_set_bit,
    splat, NEON_REGISTER_LENGTH,
};
use crate::signature::{
    has_concrete, lemma_anchor_is_concrete, leading_wildcards, SimdPatternScanData,
};
use crate::table::{
    build_match_indexes, entry_distance, entry_position, is_match_table, is_pattern_lanes,
    lane_count, pattern_byte, pattern_to_vec,
};
use vstd::prelude::*;

verus! {

/// Whether the signature is embedded in `haystack` at `at`: it lies within the
/// haystack there, and each concrete byte equals the byte under it.
pub open spec fn matches_at(haystack: Seq<u8>, tokens: Seq<Option<u8>>, at: int) -> bool {
    &&& 0 <= at
    &&& at + tokens.len() <= haystack.len()
    &&& forall|t: int|
        0 <= t < tokens.len() && (#[trigger] tokens[t]) is Some ==> haystack[at + t]
            == tokens[t]->Some_0
}

/// The first concrete byte of the signature.
pub open spec fn anchor_byte(tokens: Seq<Option<u8>>) -> u8 {
    pattern_byte(tokens, leading_wildcards(tokens) as int)
}

/// Where the windows of the quick pass stop: no window starts at or behind this
/// position.
pub open spec fn search_bound(haystack: Seq<u8>, tokens: Seq<Option<u8>>) -> int {
    if tokens.len() > 16 {
        haystack.len() - tokens.len()
    } else {
        haystack.len() - 16
    }
}

/// The first position in `from..to` that holds `anchor`, or `to` if none does.
pub open spec fn next_anchor(haystack: Seq<u8>, anchor: u8, from: int, to: int) -> int
    decreases to - from,
{
    if from >= to {
        to
    } else if 0 <= from < haystack.len() && haystack[from] == anchor {
        from
    } else {
        next_anchor(haystack, anchor, from + 1, to)
    }
}

/// `next_anchor` lies in `from..=to`, holds `anchor` unless it is `to`, and no
/// position in front of it does.
pub proof fn lemma_next_anchor(haystack: Seq<u8>, anchor: u8, from: int, to: int)
    requires
        0 <= from <= to <= haystack.len(),
    ensures
        from <= next_anchor(haystack, anchor, from, to) <= to,
        next_anchor(haystack, anchor, from, to) < to ==> haystack[next_anchor(
            haystack,
            anchor,
            from,
            to,
        )] == anchor,
        forall|j: int|
            from <= j < next_anchor(haystack, anchor, from, to) ==> #[trigger] haystack[j]
                != anchor,
    decreases to - from,
{
    if from < to && haystack[from] != anchor {
        lemma_next_anchor(haystack, anchor, from + 1, to);
    }
}

/// What the scan that starts its next window at `window` returns. A window
/// without the first concrete byte moves the scan on by fifteen positions.
/// Otherwise the first such byte in the window gives the candidate, which is
/// returned if the signature is embedded there; if not, the next window starts
/// one position behind that byte.
pub open spec fn scan_from(haystack: Seq<u8>, tokens: Seq<Option<u8>>, window: int) -> Option<int>
    decreases haystack.len() - window,
{
    if window < 0 || window >= search_bound(haystack, tokens) {
        None
    } else {
        let anchor = next_anchor(haystack, anchor_byte(tokens), window, window + 16);
        proof {
            lemma_next_anchor(haystack, anchor_byte(tokens), window, window + 16);
        }
        if anchor >= window + 16 {
            scan_from(haystack, tokens, window + 15)
        } else if matches_at(haystack, tokens, anchor - leading_wildcards(tokens)) {
            Some(anchor - leading_wildcards(tokens))
        } else {
            scan_from(haystack, tokens, anchor + 1)
        }
    }
}

/// What a scan of `haystack` for the signature returns.
pub open spec fn scan_result(haystack: Seq<u8>, tokens: Seq<Option<u8>>) -> Option<int> {
    scan_from(haystack, tokens, 0)
}

/// Whether the signature is embedded at `at` and nowhere in front of it.
pub open spec fn is_first_embedding(haystack: Seq<u8>, tokens: Seq<Option<u8>>, at: int) -> bool {
    &&& matches_at(haystack, tokens, at)
    &&& forall|earlier: int| #[trigger] matches_at(haystack, tokens, earlier) ==> at <= earlier
}

/// A scan that starts its windows at `window`, in front of which no embedding
/// has its first concrete byte, returns the first embedding if it returns one,
/// and returns none only if every embedding has its first concrete byte at or
/// behind the search bound.
pub proof fn lemma_scan_from(haystack: Seq<u8>, tokens: Seq<Option<u8>>, window: int)
    requires
        has_concrete(tokens),
        0 <= window,
        forall|at: int| #[trigger]
            matches_at(haystack, tokens, at) ==> at + leading_wildcards(tokens) >= window,
    ensures
        match scan_from(haystack, tokens, window) {
            Some(found) => is_first_embedding(haystack, tokens, found),
            None => forall|at: int| #[trigger]
                matches_at(haystack, tokens, at) ==> at + leading_wildcards(tokens)
                    >= search_bound(haystack, tokens),
        },
    decreases haystack.len() - window,
{
    lemma_anchor_is_concrete(tokens);
    let lead = leading_wildcards(tokens) as int;
    if window < search_bound(haystack, tokens) {
        let anchor = next_anchor(haystack, anchor_byte(tokens), window, window + 16);
        lemma_next_anchor(haystack, anchor_byte(tokens), window, window + 16);
        assert forall|at: int| #[trigger] matches_at(haystack, tokens, at) implies at + lead
            >= anchor by {
            assert(tokens[lead] is Some);
            assert(haystack[at + lead] == anchor_byte(tokens));
        }
        if anchor >= window + 16 {
            lemma_scan_from(haystack, tokens, window + 15);
        } else if !matches_at(haystack, tokens, anchor - lead) {
            lemma_scan_from(haystack, tokens, anchor + 1);
        }
    }
}

/// Whether the windows of a scan that go on from `window` come to take the
/// byte at `target` for the first concrete byte of a candidate, as long as no
/// candidate in front of it is an embedding: whether `target` is the first
/// such byte of one of the windows.
pub open spec fn reaches(
    haystack: Seq<u8>,
    tokens: Seq<Option<u8>>,
    window: int,
    target: int,
) -> bool
    decreases haystack.len() - window,
{
    if window < 0 || window >= search_bound(haystack, tokens) || target < window {
        false
    } else {
        let anchor = next_anchor(haystack, anchor_byte(tokens), window, window + 16);
        proof {
            lemma_next_anchor(haystack, anchor_byte(tokens), window, window + 16);
        }
        if anchor >= window + 16 {
            reaches(haystack, tokens, window + 15, target)
        } else if anchor == target {
            true
        } else {
            reaches(haystack, tokens, anchor + 1, target)
        }
    }
}

/// A first concrete byte in front of the search bound is reached.
pub proof fn lemma_reaches_in_front_of_bound(
    haystack: Seq<u8>,
    tokens: Seq<Option<u8>>,
    window: int,
    target: int,
)
    requires
        0 <= window <= target < search_bound(haystack, tokens),
        haystack[target] == anchor_byte(tokens),
    ensures
        reaches(haystack, tokens, window, target),
    decreases haystack.len() - window,
{
    let anchor = next_anchor(haystack, anchor_byte(tokens), window, window + 16);
    lemma_next_anchor(haystack, anchor_byte(tokens), window, window + 16);
    if anchor >= window + 16 {
        lemma_reaches_in_front_of_bound(haystack, tokens, window + 15, target);
    } else if anchor != target {
        lemma_reaches_in_front_of_bound(haystack, tokens, anchor + 1, target);
    }
}

/// With the first embedding at `at`, and its first concrete byte not in front
/// of `window`, the scan that goes on from `window` returns `at` if its windows
/// reach that byte, and nothing if they do not.
pub proof fn lemma_scan_from_reaches(
    haystack: Seq<u8>,
    tokens: Seq<Option<u8>>,
    window: int,
    at: int,
)
    requires
        has_concrete(tokens),
        is_first_embedding(haystack, tokens, at),
        0 <= window <= at + leading_wildcards(tokens),
    ensures
        scan_from(haystack, tokens, window) == (if reaches(
            haystack,
            tokens,
            window,
            at + leading_wildcards(tokens),
        ) {
            Some(at)
        } else {
            None
        }),
    decreases haystack.len() - window,
{
    lemma_anchor_is_concrete(tokens);
    let lead = leading_wildcards(tokens) as int;
    let target = at + lead;
    assert(tokens[lead] is Some);
    assert(haystack[target] == anchor_byte(tokens));
    if window < search_bound(haystack, tokens) {
        let anchor = next_anchor(haystack, anchor_byte(tokens), window, window + 16);
        lemma_next_anchor(haystack, anchor_byte(tokens), window, window + 16);
        if anchor >= window + 16 {
            lemma_scan_from_reaches(haystack, tokens, window + 15, at);
        } else if anchor != target {
            if matches_at(haystack, tokens, anchor - lead) {
                assert(at <= anchor - lead);
            }
            lemma_scan_from_reaches(haystack, tokens, anchor + 1, at);
        }
    }
}

/// Where the signature is embedded at `at` and nowhere in front of it, the scan
/// returns `at` if its windows reach the first concrete byte of that embedding,
/// and nothing if they do not.
pub proof fn law_first_embedding_is_found_where_reached(
    haystack: Seq<u8>,
    tokens: Seq<Option<u8>>,
    at: int,
)
    requires
        has_concrete(tokens),
        is_first_embedding(haystack, tokens, at),
    ensures
        reaches(haystack, tokens, 0, at + leading_wildcards(tokens)) ==> scan_result(
            haystack,
            tokens,
        ) == Some(at),
        !reaches(haystack, tokens, 0, at + leading_wildcards(tokens)) ==> scan_result(
            haystack,
            tokens,
        ) is None,
{
    lemma_scan_from_reaches(haystack, tokens, 0, at);
}

/// Where the signature is embedded at `at` and nowhere in front of it, and the
/// first concrete byte of that embedding lies in front of the search bound,
/// the scan returns `at`.
pub proof fn law_first_embedding_is_found(haystack: Seq<u8>, tokens: Seq<Option<u8>>, at: int)
    requires
        has_concrete(tokens),
        is_first_embedding(haystack, tokens, at),
        at + leading_wildcards(tokens) < search_bound(haystack, tokens),
    ensures
        scan_result(haystack, tokens) == Some(at),
{
    lemma_anchor_is_concrete(tokens);
    let lead = leading_wildcards(tokens) as int;
    assert(tokens[lead] is Some);
    lemma_reaches_in_front_of_bound(haystack, tokens, 0, at + lead);
    lemma_scan_from_reaches(haystack, tokens, 0, at);
}

/// What the scan returns is the first embedding of the signature.
pub proof fn law_result_is_first_embedding(haystack: Seq<u8>, tokens: Seq<Option<u8>>)
    requires
        has_concrete(tokens),
        scan_result(haystack, tokens) is Some,
    ensures
        is_first_embedding(haystack, tokens, scan_result(haystack, tokens)->Some_0),
{
    lemma_scan_from(haystack, tokens, 0);
}

/// Where the signature is embedded nowhere in the haystack, the scan finds
/// nothing.
pub proof fn law_absent_is_not_found(haystack: Seq<u8>, tokens: Seq<Option<u8>>)
    requires
        has_concrete(tokens),
        forall|at: int| !#[trigger] matches_at(haystack, tokens, at),
    ensures
        scan_result(haystack, tokens) is None,
{
    lemma_scan_from(haystack, tokens, 0);
    if scan_result(haystack, tokens) is Some {
        assert(matches_at(haystack, tokens, scan_result(haystack, tokens)->Some_0));
    }
}

/// Whether `second` is `first` with other bytes under wildcards of the
/// embedding at `at`, and the same bytes everywhere else.
pub open spec fn differs_under_wildcards(
    first: Seq<u8>,
    second: Seq<u8>,
    tokens: Seq<Option<u8>>,
    at: int,
) -> bool {
    &&& first.len() == second.len()
    &&& forall|i: int|
        0 <= i < first.len() && #[trigger] first[i] != second[i] ==> at <= i < at + tokens.len()
            && tokens[i - at] is None
}

/// An embedding stays one when the bytes under its wildcards change.
pub proof fn law_wildcards_match_any_byte(
    first: Seq<u8>,
    second: Seq<u8>,
    tokens: Seq<Option<u8>>,
    at: int,
)
    requires
        matches_at(first, tokens, at),
        differs_under_wildcards(first, second, tokens, at),
    ensures
        matches_at(second, tokens, at),
{
    assert forall|t: int| 0 <= t < tokens.len() && (#[trigger] tokens[t]) is Some implies second[at
        + t] == tokens[t]->Some_0 by {
        if first[at + t] != second[at + t] {
            assert(tokens[(at + t) - at] is None);
        }
    }
}

/// Other bytes under the wildcards of the embedding that a scan returned leave
/// the result as it was, as long as they bring no embedding in front of it and
/// the windows still reach its first concrete byte.
pub proof fn law_wildcard_bytes_keep_result(
    first: Seq<u8>,
    second: Seq<u8>,
    tokens: Seq<Option<u8>>,
    at: int,
)
    requires
        has_concrete(tokens),
        scan_result(first, tokens) == Some(at),
        differs_under_wildcards(first, second, tokens, at),
        forall|earlier: int| earlier < at ==> !#[trigger] matches_at(second, tokens, earlier),
        reaches(second, tokens, 0, at + leading_wildcards(tokens)),
    ensures
        scan_result(second, tokens) == Some(at),
{
    law_result_is_first_embedding(first, tokens);
    law_wildcards_match_any_byte(first, second, tokens, at);
    lemma_scan_from_reaches(second, tokens, 0, at);
}

/// Other bytes under the wildcards of the first embedding, whose first
/// concrete byte lies in front of the search bound, leave the result of the
/// scan as it was, as long as they bring no embedding in front of it.
pub proof fn law_wildcard_bytes_keep_result_in_front_of_bound(
    first: Seq<u8>,
    second: Seq<u8>,
    tokens: Seq<Option<u8>>,
    at: int,
)
    requires
        has_concrete(tokens),
        is_first_embedding(first, tokens, at),
        at + leading_wildcards(tokens) < search_bound(first, tokens),
        differs_under_wildcards(first, second, tokens, at),
        forall|earlier: int| earlier < at ==> !#[trigger] matches_at(second, tokens, earlier),
    ensures
        scan_result(first, tokens) == Some(at),
        scan_result(second, tokens) == Some(at),
{
    law_wildcards_match_any_byte(first, second, tokens, at);
    law_first_embedding_is_found(first, tokens, at);
    law_first_embedding_is_found(second, tokens, at);
}

/// Checks the candidate whose first concrete byte lies at `anchor_at` against
/// every entry of the match table, lane by lane.
fn verify_candidate(
    haystack: &[u8],
    anchor_at: usize,
    signature: &SimdPatternScanData,
    lanes: &Vec<[u8; 16]>,
    table: &Vec<(usize, usize)>,
) -> (r: bool)
    requires
        signature.wf(),
        is_pattern_lanes(signature@, lanes@),
        is_match_table(signature@, table@),
        anchor_at >= signature.leading_ignore_count,
        anchor_at - signature.leading_ignore_count + signature@.len() <= haystack@.len(),
        anchor_at < haystack@.len(),
        haystack@[anchor_at as int] == anchor_byte(signature@),
    ensures
        r == matches_at(haystack@, signature@, anchor_at - signature.leading_ignore_count),
{
    let ghost tokens = signature@;
    let ghost lead = leading_wildcards(tokens) as int;
    let ghost start = anchor_at - lead;
    proof {
        lemma_anchor_is_concrete(tokens);
    }
    let haystack_len: usize = haystack.len();
    let mut match_table_index: usize = 0;
    let mut i: usize = 0;
    while i < lanes.len()
        invariant
            haystack_len == haystack@.len(),
            signature.wf(),
            tokens == signature@,
            lead == leading_wildcards(tokens),
            lead < tokens.len(),
            start == anchor_at - lead,
            0 <= start,
            start + tokens.len() <= haystack@.len(),
            is_pattern_lanes(tokens, lanes@),
            is_match_table(tokens, table@),
            i <= lanes@.len(),
            match_table_index <= table@.len(),
            match_table_index < table@.len() ==> table@[match_table_index as int].0 >= i,
            forall|j: int|
                0 <= j < match_table_index ==> haystack@[start + entry_position(
                    tokens,
                    #[trigger] table@[j],
                )] == tokens[entry_position(tokens, table@[j])]->Some_0,
        decreases lanes@.len() - i,
    {
        assert(16 * i < tokens.len() - lead - 1) by {
            assert(16 * lane_count(tokens) <= tokens.len() - lead - 1 + 15);
        }
        let register_byte_offs: usize = i * NEON_REGISTER_LENGTH;
        let next_byte: usize = anchor_at + register_byte_offs + 1;
        let rhs_2 = load_lane(haystack, next_byte);
        let compare_result = _mm_movemask_aarch64(compare_lanes(&lanes[i], &rhs_2));
        while match_table_index < table.len() && table[match_table_index].0 == i
            invariant
                signature.wf(),
                tokens == signature@,
                lead == leading_wildcards(tokens),
                start == anchor_at - lead,
                0 <= start,
                start + tokens.len() <= haystack@.len(),
                is_pattern_lanes(tokens, lanes@),
                is_match_table(tokens, table@),
                i < lanes@.len(),
                next_byte == anchor_at + 16 * i + 1,
                match_table_index <= table@.len(),
                match_table_index < table@.len() ==> table@[match_table_index as int].0 >= i,
                forall|o: u32|
                    o < 16 ==> (#[trigger] bit_is_set(compare_result, o) <==> lanes@[i as int]@[o
                        as int] == byte_or_zero(haystack@, next_byte + o)),
                forall|j: int|
                    0 <= j < match_table_index ==> haystack@[start + entry_position(
                        tokens,
                        #[trigger] table@[j],
                    )] == tokens[entry_position(tokens, table@[j])]->Some_0,
            decreases table@.len() - match_table_index,
        {
            let entry: (usize, usize) = table[match_table_index];
            let match_index: u32 = entry.1 as u32;
            let ghost position = entry_position(tokens, entry);
            proof {
                assert(table@[match_table_index as int] == entry);
                assert(position == lead + 1 + 16 * i + entry.1);
                assert(tokens[position] is Some);
                assert(lanes@[i as int]@[entry.1 as int] == pattern_byte(tokens, position));
                assert(start + position == next_byte + match_index);
                assert(bit_is_set(compare_result, match_index) <==> haystack@[start + position]
                    == tokens[position]->Some_0);
            }
            if ((compare_result >> match_index) & 1) != 1 {
                return false;
            }
            proof {
                if match_table_index + 1 < table@.len() {
                    assert(entry_distance(table@[match_table_index as int]) < entry_distance(
                        table@[match_table_index + 1],
                    ));
                }
            }
            match_table_index += 1;
        }
        i += 1;
    }
    proof {
        assert(match_table_index == table@.len()) by {
            if match_table_index < table@.len() {
                let entry = table@[match_table_index as int];
                assert(entry_position(tokens, entry) < tokens.len());
                assert(16 * lane_count(tokens) >= tokens.len() - lead - 1);
            }
        }
        assert forall|t: int|
            0 <= t < tokens.len() && (#[trigger] tokens[t]) is Some implies haystack@[start + t]
            == tokens[t]->Some_0 by {
            if t > lead {
                let j = choose|j: int|
                    0 <= j < table@.len() && entry_position(tokens, #[trigger] table@[j]) == t;
                assert(haystack@[start + entry_position(tokens, table@[j])]
                    == tokens[entry_position(tokens, table@[j])]->Some_0);
            }
        }
    }
    true
}

/// Scans `haystack` for the first place at which `signature` is embedded,
/// among the candidates whose first concrete byte a window of the quick pass
/// reaches.
pub fn scan(haystack: &[u8], signature: &SimdPatternScanData) -> (r: Option<usize>)
    requires
        signature.wf(),
    ensures
        match r {
            Some(at) => scan_result(haystack@, signature@) == Some(at as int),
            None => scan_result(haystack@, signature@) is None,
        },
        r is Some ==> is_first_embedding(haystack@, signature@, r->Some_0 as int),
        r is None ==> forall|at: int| #[trigger]
            matches_at(haystack@, signature@, at) ==> at + signature.leading_ignore_count
                >= search_bound(haystack@, signature@),
{
    let ghost tokens = signature@;
    proof {
        lemma_anchor_is_concrete(tokens);
        assert(tokens.len() == signature.bytes@.len());
        lemma_scan_from(haystack@, tokens, 0);
    }
    let pattern_len: usize = signature.bytes.len();
    let reach: usize = if pattern_len > NEON_REGISTER_LENGTH {
        pattern_len
    } else {
        NEON_REGISTER_LENGTH
    };
    if haystack.len() <= reach {
        return None;
    }
    let search_length: usize = haystack.len() - reach;
    let match_table = build_match_indexes(signature);
    let pattern_vecs = pattern_to_vec(signature);
    let leading_ignore_count: usize = signature.leading_ignore_count;
    let first_byte: u8 = signature.bytes[leading_ignore_count];
    let first_byte_vec = splat(first_byte);
    let haystack_len: usize = haystack.len();
    let mut position: usize = 0;
    while position < search_length
        invariant
            haystack_len == haystack@.len(),
            signature.wf(),
            tokens == signature@,
            tokens.len() == pattern_len,
            pattern_len <= haystack@.len(),
            leading_ignore_count == leading_wildcards(tokens),
            leading_ignore_count < pattern_len,
            first_byte == anchor_byte(tokens),
            search_length == search_bound(haystack@, tokens),
            search_length + 16 <= haystack@.len(),
            is_pattern_lanes(tokens, pattern_vecs@),
            is_match_table(tokens, match_table@),
            forall|i: int| 0 <= i < 16 ==> first_byte_vec@[i] == first_byte,
            scan_result(haystack@, tokens) == scan_from(haystack@, tokens, position as int),
        decreases haystack@.len() - position,
    {
        let rhs = load_lane(haystack, position);
        let equal = compare_lanes(&first_byte_vec, &rhs);
        let find_first_byte = _mm_movemask_aarch64(equal);
        if find_first_byte == 0 {
            proof {
                assert forall|j: int| position <= j < position + 16 implies #[trigger] haystack@[j]
                    != first_byte by {
                    assert(equal@[j - position] < 0x80);
                    assert(rhs@[j - position] == byte_or_zero(
                        haystack@,
                        position + (j - position),
                    ));
                }
                lemma_next_anchor(haystack@, first_byte, position as int, position + 16);
            }
            position += NEON_REGISTER_LENGTH - 1;
            continue ;
        }
        let found: u32 = lowest_set_bit(find_first_byte);
        let anchor_at: usize = position + found as usize;
        proof {
            assert(rhs@[found as int] == byte_or_zero(haystack@, position + found));
            assert(haystack@[anchor_at as int] == first_byte);
            assert forall|j: int| position <= j < anchor_at implies #[trigger] haystack@[j]
                != first_byte by {
                let o = (j - position) as u32;
                assert(!bit_is_set(find_first_byte, o));
                assert(rhs@[o as int] == byte_or_zero(haystack@, position + o));
            }
            lemma_next_anchor(haystack@, first_byte, position as int, position + 16);
            assert(next_anchor(haystack@, first_byte, position as int, position + 16) == anchor_at);
        }
        if anchor_at >= leading_ignore_count && anchor_at - leading_ignore_count <= haystack.len()
            - pattern_len {
            if verify_candidate(haystack, anchor_at, signature, &pattern_vecs, &match_table) {
                proof {
                    lemma_scan_from(haystack@, tokens, 0);
                }
                return Some(anchor_at - leading_ignore_count);
            }
        }
        position = anchor_at + 1;
    }
    proof {
        lemma_scan_from(haystack@, tokens, 0);
    }
    None
}

} // verus!
