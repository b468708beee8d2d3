//! Offsets from search codes: a run of bytes to find in the image, and the
//! distance from where it is found to what it stands for.

use crate::error::OffsetError;
use crate::scanner::{scan, scan_result};
use crate::signature::{
    compile, compile_signature, has_concrete, hex_digit, parse_tokens, strip_prefix, token_tail,
    token_value, SimdPatternScanData,
};
use vstd::prelude::*;
use vstd::string::StringSliceAdditionalSpecFns;

verus! {

/// The signature of a search code: each of its bytes concrete, and one
/// wildcard behind them.
pub open spec fn code_signature(code: Seq<u8>) -> Seq<Option<u8>> {
    Seq::new(
        code.len() + 1,
        |i: int|
            if i < code.len() {
                Some(code[i])
            } else {
                None
            },
    )
}

/// The offset `shift` away from `at`, wrapping at the ends of `usize`.
pub open spec fn displaced(at: int, shift: int) -> int {
    let sum = at + shift;
    if sum < 0 {
        sum + usize::MAX + 1
    } else if sum > usize::MAX {
        sum - usize::MAX - 1
    } else {
        sum
    }
}

/// Whether `needle` lies in `haystack` at `at`.
pub open spec fn occurs_at(haystack: Seq<u8>, needle: Seq<u8>, at: int) -> bool {
    &&& 0 <= at
    &&& at + needle.len() <= haystack.len()
    &&& haystack.subrange(at, at + needle.len()) == needle
}

/// Moves an offset by a signed distance, wrapping at the ends of `usize`.
pub fn apply_displacement(at: usize, shift: isize) -> (r: usize)
    ensures
        r == displaced(at as int, shift as int),
{
    let sum: i128 = at as i128 + shift as i128;
    if sum < 0 {
        (sum + usize::MAX as i128 + 1) as usize
    } else if sum > usize::MAX as i128 {
        (sum - usize::MAX as i128 - 1) as usize
    } else {
        sum as usize
    }
}

/// The character that stands for a hexadecimal digit, in upper case.
pub open spec fn hex_char(digit: int) -> u8 {
    if digit < 10 {
        (0x30 + digit) as u8
    } else {
        (0x41 + digit - 10) as u8
    }
}

/// The textual signature of a search code: each byte as two hexadecimal
/// digits and a space, and the wildcard `??` behind them.
pub open spec fn code_text(code: Seq<u8>) -> Seq<u8> {
    Seq::new(
        3 * code.len() + 2,
        |j: int|
            if j >= 3 * code.len() {
                0x3Fu8
            } else if j % 3 == 0 {
                hex_char(code[j / 3] as int / 16)
            } else if j % 3 == 1 {
                hex_char(code[j / 3] as int % 16)
            } else {
                0x20u8
            },
    )
}

proof fn lemma_code_text_tokens(code: Seq<u8>, i: int)
    requires
        code.len() > 0,
        0 <= i <= code.len(),
    ensures
        parse_tokens(code_text(code), 3 * i) == Some(code_signature(code).skip(i)),
    decreases code.len() - i,
{
    let text = code_text(code);
    let n = code.len() as int;
    let at = 3 * i;
    assert(text[at - 1] == 0x20u8 || i == 0);
    assert(token_tail(text, at + 1) == 0);
    assert(token_tail(text, at) == 1);
    let token = text.subrange(at, at + 2);
    assert(token[0] == text[at] && token[1] == text[at + 1]);
    assert(strip_prefix(token) == token);
    assert(parse_tokens(text, at + 1) == parse_tokens(text, at + 2));
    if i == n {
        assert(token_value(token) == Some(None::<u8>));
        assert(parse_tokens(text, at + 2) == Some(Seq::<Option<u8>>::empty()));
        assert(seq![None::<u8>] + Seq::<Option<u8>>::empty() =~= code_signature(code).skip(i));
    } else {
        let b = code[i] as int;
        assert(text[at] == hex_char(b / 16));
        assert(text[at + 1] == hex_char(b % 16));
        assert(hex_digit(hex_char(b / 16)) == Some((b / 16) as u8));
        assert(hex_digit(hex_char(b % 16)) == Some((b % 16) as u8));
        assert(token_value(token) == Some(Some(code[i])));
        assert(text[at + 2] == 0x20u8);
        assert(parse_tokens(text, at + 2) == parse_tokens(text, at + 3));
        lemma_code_text_tokens(code, i + 1);
        assert(seq![Some(code[i])] + code_signature(code).skip(i + 1) =~= code_signature(
            code,
        ).skip(i));
    }
}

/// The textual signature of a search code compiles to the signature of that
/// code: every byte concrete, and one wildcard behind them.
pub proof fn law_code_text_compiles(code: Seq<u8>)
    requires
        code.len() > 0,
    ensures
        compile(code_text(code)) == Some(code_signature(code)),
{
    lemma_code_text_tokens(code, 0);
    assert(code_signature(code).skip(0) =~= code_signature(code));
    assert(code_signature(code)[0] is Some);
}

/// The textual signature of an empty search code has no concrete byte.
pub proof fn law_empty_code_is_malformed(code: Seq<u8>)
    requires
        code.len() == 0,
    ensures
        compile(code_text(code)) is None,
{
    let text = code_text(code);
    assert(token_tail(text, 1) == 0);
    assert(token_tail(text, 0) == 1);
    let token = text.subrange(0, 2);
    assert(token[0] == text[0] && token[1] == text[1]);
    assert(strip_prefix(token) == token);
    assert(token_value(token) == Some(None::<u8>));
    assert(parse_tokens(text, 1) == parse_tokens(text, 2));
    assert(parse_tokens(text, 2) == Some(Seq::<Option<u8>>::empty()));
    let tokens = seq![None::<u8>] + Seq::<Option<u8>>::empty();
    assert(parse_tokens(text, 0) == Some(tokens));
    assert(!has_concrete(tokens));
}

fn hex_char_of(digit: u8) -> (r: u8)
    requires
        digit < 16,
    ensures
        r == hex_char(digit as int),
{
    if digit < 10 {
        0x30 + digit
    } else {
        0x41 + (digit - 10)
    }
}

/// Writes the textual signature of a search code.
pub fn signature_text(code: &[u8]) -> (text: Vec<u8>)
    ensures
        text@ == code_text(code@),
{
    let mut text: Vec<u8> = Vec::new();
    let mut i: usize = 0;
    while i < code.len()
        invariant
            i <= code@.len(),
            text@.len() == 3 * i,
            forall|j: int| 0 <= j < 3 * i ==> text@[j] == code_text(code@)[j],
        decreases code@.len() - i,
    {
        text.push(hex_char_of(code[i] / 16));
        text.push(hex_char_of(code[i] % 16));
        text.push(0x20);
        i += 1;
    }
    text.push(0x3F);
    text.push(0x3F);
    proof {
        assert(text@ =~= code_text(code@));
    }
    text
}

/// Finds the search code `pattern.0` in `data`: writes its textual signature,
/// compiles and scans for it, and returns the offset `pattern.1` away from
/// where it was found.
pub fn get_offset_neon(data: &[u8], pattern: (&[u8], isize)) -> (r: Result<usize, OffsetError>)
    ensures
        pattern.0@.len() == 0 ==> r == Err::<usize, OffsetError>(OffsetError::MalformedSignature),
        pattern.0@.len() > 0 ==> match scan_result(data@, code_signature(pattern.0@)) {
            Some(at) => r is Ok && r->Ok_0 == displaced(at, pattern.1 as int),
            None => r == Err::<usize, OffsetError>(OffsetError::NotFound),
        },
{
    proof {
        if pattern.0@.len() > 0 {
            law_code_text_compiles(pattern.0@);
        } else {
            law_empty_code_is_malformed(pattern.0@);
        }
    }
    let text: Vec<u8> = signature_text(pattern.0);
    match compile_signature(text.as_slice()) {
        Err(e) => Err(e),
        Ok(signature) => match scan(data, &signature) {
            Some(at) => Ok(apply_displacement(at, pattern.1)),
            None => Err(OffsetError::NotFound),
        },
    }
}

/// Compiles the textual signature `pattern` and scans `data` for it.
pub fn find_pattern_neon(data: &[u8], pattern: &str) -> (r: Result<usize, OffsetError>)
    ensures
        match compile(pattern.spec_bytes()) {
            None => r == Err::<usize, OffsetError>(OffsetError::MalformedSignature),
            Some(tokens) => match scan_result(data@, tokens) {
                Some(at) => r == Ok::<usize, OffsetError>(at as usize) && at <= usize::MAX,
                None => r == Err::<usize, OffsetError>(OffsetError::NotFound),
            },
        },
{
    match SimdPatternScanData::new(pattern) {
        Err(e) => Err(e),
        Ok(signature) => match scan(data, &signature) {
            Some(at) => Ok(at),
            None => Err(OffsetError::NotFound),
        },
    }
}

/// Finds the first place at which `needle` lies in `haystack`, byte by byte.
pub fn find_subsequence(haystack: &[u8], needle: &[u8]) -> (r: Option<usize>)
    requires
        needle@.len() > 0,
    ensures
        match r {
            Some(at) => occurs_at(haystack@, needle@, at as int) && forall|earlier: int|
                0 <= earlier < at ==> !occurs_at(haystack@, needle@, earlier),
            None => forall|at: int| !occurs_at(haystack@, needle@, at),
        },
{
    if haystack.len() < needle.len() {
        return None;
    }
    let last: usize = haystack.len() - needle.len();
    let mut at: usize = 0;
    while at <= last
        invariant
            needle@.len() > 0,
            last + needle@.len() == haystack@.len(),
            haystack@.len() <= usize::MAX,
            at <= last + 1,
            forall|earlier: int| 0 <= earlier < at ==> !occurs_at(haystack@, needle@, earlier),
        decreases last + 1 - at,
    {
        let mut i: usize = 0;
        while i < needle.len() && haystack[at + i] == needle[i]
            invariant
                at <= last,
                last + needle@.len() == haystack@.len(),
                haystack@.len() <= usize::MAX,
                i <= needle@.len(),
                forall|j: int| 0 <= j < i ==> haystack@[at + j] == needle@[j],
            decreases needle@.len() - i,
        {
            i += 1;
        }
        if i == needle.len() {
            proof {
                assert(haystack@.subrange(at as int, at + needle@.len()) =~= needle@);
            }
            return Some(at);
        }
        proof {
            assert(haystack@.subrange(at as int, at + needle@.len())[i as int] == haystack@[at
                + i]);
        }
        at += 1;
    }
    None
}

/// Finds the search code `search_code.0` in `haystack` byte by byte, and
/// returns the offset `search_code.1` away from where it lies.
pub fn get_offset(haystack: &[u8], search_code: (&[u8], isize)) -> (r: Result<usize, OffsetError>)
    requires
        search_code.0@.len() > 0,
    ensures
        match r {
            Ok(offset) => exists|at: int|
                0 <= at <= usize::MAX && #[trigger] occurs_at(haystack@, search_code.0@, at)
                    && (forall|earlier: int|
                    0 <= earlier < at ==> !occurs_at(haystack@, search_code.0@, earlier))
                    && offset == displaced(at, search_code.1 as int),
            Err(e) => e == OffsetError::NotFound && forall|at: int|
                !occurs_at(haystack@, search_code.0@, at),
        },
{
    match find_subsequence(haystack, search_code.0) {
        Some(at) => Ok(apply_displacement(at, search_code.1)),
        None => Err(OffsetError::NotFound),
    }
}

} // verus!
