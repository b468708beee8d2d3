use sigscan::error::OffsetError;
use sigscan::locate::{
    apply_displacement, find_pattern_neon, find_subsequence, get_offset, get_offset_neon,
    signature_text,
};
use sigscan::scanner::scan;
use sigscan::signature::{compile_signature, SimdPatternScanData};

fn compiled(text: &str) -> SimdPatternScanData {
    match SimdPatternScanData::new(text) {
        Ok(signature) => signature,
        Err(e) => panic!("{:?} for {:?}", e, text),
    }
}

fn embedded(len: usize, at: usize, bytes: &[u8]) -> Vec<u8> {
    let mut haystack = vec![0u8; len];
    haystack[at..at + bytes.len()].copy_from_slice(bytes);
    haystack
}

/// First embedding by the plainest search there is, to hold the scan against.
fn first_embedding(haystack: &[u8], signature: &SimdPatternScanData) -> Option<usize> {
    let n = signature.bytes.len();
    if haystack.len() < n {
        return None;
    }
    (0..=haystack.len() - n).find(|&at| {
        (0..n).all(|t| signature.mask[t] == 0 || haystack[at + t] == signature.bytes[t])
    })
}

fn next_random(state: &mut u64) -> u64 {
    *state = state.wrapping_mul(6364136223846793005).wrapping_add(1442695040888963407);
    *state >> 33
}

#[test]
fn finds_a_signature_with_a_wildcard() {
    let haystack = embedded(500, 137, &[0xAA, 0xBB, 0x42, 0xCC]);
    assert_eq!(scan(&haystack, &compiled("AA BB ?? CC")), Some(137));
    assert_eq!(find_pattern_neon(&haystack, "AA BB ?? CC"), Ok(137));
}

#[test]
fn the_byte_under_a_wildcard_does_not_matter() {
    let haystack = embedded(500, 137, &[0xAA, 0xBB, 0x00, 0xCC]);
    assert_eq!(scan(&haystack, &compiled("AA BB ?? CC")), Some(137));
    for filler in [0x01u8, 0x42, 0xAA, 0xBB, 0xCC, 0xFF] {
        let haystack = embedded(500, 137, &[0xAA, 0xBB, filler, 0xCC]);
        assert_eq!(find_pattern_neon(&haystack, "AA BB ?? CC"), Ok(137));
    }
}

#[test]
fn finds_nothing_where_the_signature_is_absent() {
    let haystack = vec![0u8; 500];
    assert_eq!(scan(&haystack, &compiled("AA BB ?? CC")), None);
    assert_eq!(find_pattern_neon(&haystack, "AA BB ?? CC"), Err(OffsetError::NotFound));
    let nearly = embedded(500, 137, &[0xAA, 0xBB, 0x42, 0xCD]);
    assert_eq!(find_pattern_neon(&nearly, "AA BB ?? CC"), Err(OffsetError::NotFound));
}

#[test]
fn a_malformed_signature_is_reported_before_any_scan() {
    let haystack = embedded(500, 137, &[0xAA, 0xBB, 0x42, 0xCC]);
    assert_eq!(find_pattern_neon(&haystack, "AA BB ?? C"), Err(OffsetError::MalformedSignature));
    assert_eq!(find_pattern_neon(&haystack, "?? ??"), Err(OffsetError::MalformedSignature));
}

#[test]
fn returns_the_first_of_several_embeddings() {
    let mut haystack = embedded(600, 300, &[0xAA, 0xBB, 0x42, 0xCC]);
    haystack[90..94].copy_from_slice(&[0xAA, 0xBB, 0x07, 0xCC]);
    haystack[400..404].copy_from_slice(&[0xAA, 0xBB, 0x09, 0xCC]);
    assert_eq!(find_pattern_neon(&haystack, "AA BB ?? CC"), Ok(90));
}

#[test]
fn finds_an_embedding_at_the_very_start() {
    let haystack = embedded(64, 0, &[0xAA, 0xBB, 0x42, 0xCC]);
    assert_eq!(find_pattern_neon(&haystack, "AA BB ?? CC"), Ok(0));
}

#[test]
fn does_not_skip_overlapping_candidates() {
    let haystack = embedded(100, 40, &[0xAA, 0xAA, 0xAA, 0xBB]);
    assert_eq!(find_pattern_neon(&haystack, "AA AA BB"), Ok(41));
    let haystack = embedded(100, 40, &[0xAA, 0x01, 0xAA, 0xAA, 0x01, 0xBB]);
    assert_eq!(find_pattern_neon(&haystack, "AA ?? BB"), Ok(43));
}

#[test]
fn compensates_for_leading_wildcards() {
    let haystack = embedded(200, 100, &[0x11, 0x22, 0xAA, 0xBB]);
    assert_eq!(find_pattern_neon(&haystack, "?? ?? AA BB"), Ok(100));
    assert_eq!(find_pattern_neon(&haystack, "?? 22 ?? BB"), Ok(100));
    assert_eq!(find_pattern_neon(&haystack, "?? ?? 11 22"), Ok(98));
    assert_eq!(find_pattern_neon(&haystack, "?? ?? ?? ?? ?? BB ??"), Ok(98));
}

#[test]
fn a_candidate_that_starts_in_front_of_the_haystack_is_passed_over() {
    let mut haystack = embedded(200, 1, &[0xAA, 0xBB]);
    haystack[120..122].copy_from_slice(&[0xAA, 0xBB]);
    assert_eq!(find_pattern_neon(&haystack, "?? ?? AA BB"), Ok(118));
    let haystack = embedded(200, 2, &[0xAA, 0xBB]);
    assert_eq!(find_pattern_neon(&haystack, "?? ?? AA BB"), Ok(0));
}

#[test]
fn finds_a_signature_longer_than_a_lane() {
    let bytes: Vec<u8> = (1..=40).collect();
    let haystack = embedded(1000, 613, &bytes);
    let mut text = String::new();
    for (i, b) in bytes.iter().enumerate() {
        if i == 5 || i == 17 || i == 33 || i == 39 {
            text.push_str("?? ");
        } else {
            text.push_str(&format!("{:02X} ", b));
        }
    }
    assert_eq!(find_pattern_neon(&haystack, &text), Ok(613));
    let mut spoiled = haystack.clone();
    spoiled[613 + 34] = 0;
    assert_eq!(find_pattern_neon(&spoiled, &text), Err(OffsetError::NotFound));
    let mut filled = haystack.clone();
    filled[613 + 33] = 0xEE;
    assert_eq!(find_pattern_neon(&filled, &text), Ok(613));
}

#[test]
fn a_haystack_no_longer_than_the_reach_of_a_window_holds_nothing() {
    let signature = compiled("AA BB ?? CC");
    assert_eq!(scan(&[0xAA, 0xBB, 0x42, 0xCC], &signature), None);
    assert_eq!(scan(&[], &signature), None);
    let haystack = embedded(16, 0, &[0xAA, 0xBB, 0x42, 0xCC]);
    assert_eq!(scan(&haystack, &signature), None);
    let haystack = embedded(17, 0, &[0xAA, 0xBB, 0x42, 0xCC]);
    assert_eq!(scan(&haystack, &signature), Some(0));
}

#[test]
fn an_embedding_in_front_of_the_search_bound_is_always_found() {
    let signature = compiled("AA BB ?? CC");
    for len in [17usize, 33, 100, 257] {
        let bound = len - 16;
        for at in 0..bound {
            let haystack = embedded(len, at, &[0xAA, 0xBB, 0x42, 0xCC]);
            assert_eq!(scan(&haystack, &signature), Some(at));
        }
    }
}

#[test]
fn behind_the_search_bound_the_windows_decide() {
    let signature = compiled("AA BB ?? CC");
    // The only window starts at 0 and reaches the byte at 12.
    let haystack = embedded(17, 12, &[0xAA, 0xBB, 0x42, 0xCC]);
    assert_eq!(scan(&haystack, &signature), Some(12));
    // The windows start at 0 and 15 and end in front of 31; the next would
    // start at 30, the bound.
    let haystack = embedded(46, 31, &[0xAA, 0xBB, 0x42, 0xCC]);
    assert_eq!(scan(&haystack, &signature), None);
    // A first byte at 20 moves the next window to 21, which reaches 31.
    let mut haystack = embedded(46, 31, &[0xAA, 0xBB, 0x42, 0xCC]);
    haystack[20] = 0xAA;
    assert_eq!(scan(&haystack, &signature), Some(31));
}

#[test]
fn an_embedding_cut_off_by_the_end_is_none() {
    let signature = compiled("AA 00 00 00");
    let mut haystack = vec![0x55u8; 40];
    // The first byte at 22 brings a window to 23, which reaches the one at 38.
    haystack[22] = 0xAA;
    haystack[38] = 0xAA;
    haystack[39] = 0x00;
    assert_eq!(scan(&haystack, &signature), None);
}

#[test]
fn agrees_with_a_plain_search_in_front_of_the_search_bound() {
    let mut state = 0x1234_5678_9ABC_DEF0u64;
    let texts = [
        "01",
        "01 02",
        "01 ?? 01",
        "?? 01 ?? 02",
        "02 01 ?? ?? 01 ??",
        "01 01 01",
        "?? ?? ?? 03 ?? ?? ?? ?? ?? ?? ?? ?? ?? ?? ?? ?? ?? ?? ?? 01 02",
        "01 02 ?? ?? ?? ?? ?? ?? ?? ?? ?? ?? ?? ?? ?? ?? ?? ?? 03 ?? ?? ?? ?? ?? ?? ?? ?? ?? ?? ?? ?? ?? ?? ?? 01",
    ];
    for text in texts {
        let signature = compiled(text);
        let lead = signature.leading_wildcard_count();
        let reach = signature.bytes.len().max(16);
        for _ in 0..300 {
            let len = 17 + (next_random(&mut state) % 120) as usize;
            let haystack: Vec<u8> = (0..len).map(|_| (next_random(&mut state) % 4) as u8).collect();
            let found = scan(&haystack, &signature);
            let first = first_embedding(&haystack, &signature);
            match found {
                Some(at) => assert_eq!(first, Some(at)),
                None => {
                    if let Some(at) = first {
                        assert!(at + lead + reach >= len);
                    }
                },
            }
            if let Some(at) = first {
                if at + lead + reach < len {
                    assert_eq!(found, Some(at));
                }
            }
        }
    }
}

#[test]
fn a_search_code_is_found_with_one_byte_behind_it() {
    let code = [0xf3u8, 0x03, 0x00, 0xaa, 0x1f, 0x01, 0x09, 0x6b];
    let haystack = embedded(300, 200, &code);
    assert_eq!(get_offset_neon(&haystack, (&code, 0)), Ok(200));
    assert_eq!(get_offset_neon(&haystack, (&code, 12)), Ok(212));
    assert_eq!(get_offset_neon(&haystack, (&code, -0x10)), Ok(184));
    assert_eq!(get_offset_neon(&haystack, (&code, -200)), Ok(0));
}

#[test]
fn the_text_of_a_search_code_ends_in_a_wildcard() {
    assert_eq!(signature_text(&[0xf3, 0x03, 0x00, 0xaa]), b"F3 03 00 AA ??".to_vec());
    assert_eq!(signature_text(&[0x0f, 0x9c, 0xff]), b"0F 9C FF ??".to_vec());
    assert_eq!(signature_text(&[]), b"??".to_vec());
    let all: Vec<u8> = (0..=255).collect();
    let text = signature_text(&all);
    let signature = match compile_signature(&text) {
        Ok(signature) => signature,
        Err(e) => panic!("{:?}", e),
    };
    let mut bytes = all.clone();
    bytes.push(0);
    let mut mask = vec![1u8; 256];
    mask.push(0);
    assert_eq!(signature.bytes, bytes);
    assert_eq!(signature.mask, mask);
    assert_eq!(signature.leading_ignore_count, 0);
    assert!(matches!(
        compile_signature(&signature_text(&[])),
        Err(OffsetError::MalformedSignature)
    ));
}

#[test]
fn a_search_code_that_is_absent_or_empty_gives_its_error() {
    let haystack = vec![0u8; 300];
    assert_eq!(get_offset_neon(&haystack, (&[0xf3, 0x03], 0)), Err(OffsetError::NotFound));
    assert_eq!(get_offset_neon(&haystack, (&[], 0)), Err(OffsetError::MalformedSignature));
}

#[test]
fn a_displacement_wraps_at_the_ends() {
    assert_eq!(apply_displacement(100, 28), 128);
    assert_eq!(apply_displacement(100, -28), 72);
    assert_eq!(apply_displacement(100, -100), 0);
    assert_eq!(apply_displacement(5, -7), usize::MAX - 1);
    assert_eq!(apply_displacement(usize::MAX, 1), 0);
    assert_eq!(apply_displacement(usize::MAX - 2, 10), 7);
    assert_eq!(apply_displacement(0, isize::MIN), (usize::MAX >> 1) + 1);
    assert_eq!(apply_displacement(usize::MAX, isize::MAX), (usize::MAX >> 1) - 1);
    assert_eq!(get_offset_neon(&embedded(64, 3, &[0xAB, 0xCD]), (&[0xAB, 0xCD], -4)), Ok(usize::MAX));
}

#[test]
fn a_plain_search_finds_the_first_occurrence() {
    let haystack = [1u8, 2, 3, 1, 2, 3, 4, 1, 2, 3, 4];
    assert_eq!(find_subsequence(&haystack, &[1, 2, 3, 4]), Some(3));
    assert_eq!(find_subsequence(&haystack, &[1]), Some(0));
    assert_eq!(find_subsequence(&haystack, &[3, 4]), Some(5));
    assert_eq!(find_subsequence(&haystack, &[2, 3, 4, 1, 2, 3, 4]), Some(4));
    assert_eq!(find_subsequence(&haystack, &haystack), Some(0));
    assert_eq!(find_subsequence(&haystack, &[4, 4]), None);
    assert_eq!(find_subsequence(&haystack, &[1, 2, 3, 4, 1, 2, 3, 4, 1, 2, 3, 4]), None);
    assert_eq!(find_subsequence(&[], &[1]), None);
}

#[test]
fn a_plain_search_reaches_the_end_of_the_haystack() {
    let haystack = embedded(20, 16, &[0xAA, 0xBB, 0x42, 0xCC]);
    assert_eq!(find_subsequence(&haystack, &[0xAA, 0xBB, 0x42, 0xCC]), Some(16));
    assert_eq!(get_offset(&haystack, (&[0xAA, 0xBB, 0x42, 0xCC], 4)), Ok(20));
    assert_eq!(get_offset(&haystack, (&[0xAA, 0xBB, 0x42, 0xCC], -0x10)), Ok(0));
    assert_eq!(get_offset(&haystack, (&[0xAA, 0xCC], 0)), Err(OffsetError::NotFound));
}

#[test]
fn another_byte_under_a_wildcard_may_bring_an_earlier_embedding() {
    let mut haystack = vec![0u8; 100];
    haystack[49] = 0xAA;
    haystack[50] = 0xAA;
    haystack[52] = 0xAA;
    assert_eq!(find_pattern_neon(&haystack, "AA ?? AA"), Ok(50));
    haystack[51] = 0x7F;
    assert_eq!(find_pattern_neon(&haystack, "AA ?? AA"), Ok(50));
    // With the first concrete byte under the wildcard, the signature is
    // embedded one position earlier as well.
    haystack[51] = 0xAA;
    assert_eq!(find_pattern_neon(&haystack, "AA ?? AA"), Ok(49));
}
