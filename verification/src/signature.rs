//! Byte signatures with wildcard positions, and their textual form.

use crate::error::OffsetError;
use vstd::prelude::*;
use vstd::string::StringSliceAdditionalSpecFns;

verus! {

/// A compiled signature. Position `i` is concrete when `mask[i]` is one and
/// then has to equal `bytes[i]`; it is a wildcard when `mask[i]` is zero.
pub struct SimdPatternScanData {
    pub bytes: Vec<u8>,
    pub mask: Vec<u8>,
    pub leading_ignore_count: usize,
}

/// Whether some token of the signature is a concrete byte.
pub open spec fn has_concrete(tokens: Seq<Option<u8>>) -> bool {
    exists|i: int| 0 <= i < tokens.len() && (#[trigger] tokens[i]) is Some
}

/// Number of wildcards in front of the first concrete byte.
pub open spec fn leading_wildcards(tokens: Seq<Option<u8>>) -> nat
    decreases tokens.len(),
{
    if tokens.len() == 0 || tokens[0] is Some {
        0
    } else {
        1 + leading_wildcards(tokens.skip(1))
    }
}

/// Number of concrete bytes.
pub open spec fn concrete_count(tokens: Seq<Option<u8>>) -> nat
    decreases tokens.len(),
{
    if tokens.len() == 0 {
        0
    } else {
        concrete_count(tokens.drop_last()) + (if tokens.last() is Some {
            1nat
        } else {
            0nat
        })
    }
}

/// The first `n` tokens are wildcards and token `n` is concrete: then `n`
/// wildcards lead the signature.
pub proof fn lemma_leading_wildcards(tokens: Seq<Option<u8>>, n: int)
    requires
        0 <= n < tokens.len(),
        tokens[n] is Some,
        forall|i: int| 0 <= i < n ==> (#[trigger] tokens[i]) is None,
    ensures
        leading_wildcards(tokens) == n,
    decreases n,
{
    if n > 0 {
        let rest = tokens.skip(1);
        assert(tokens[0] is None);
        assert forall|i: int| 0 <= i < n - 1 implies (#[trigger] rest[i]) is None by {
            assert(rest[i] == tokens[i + 1]);
        }
        lemma_leading_wildcards(rest, n - 1);
    }
}

/// A signature with a concrete byte has its first one at `leading_wildcards`.
pub proof fn lemma_anchor_is_concrete(tokens: Seq<Option<u8>>)
    requires
        has_concrete(tokens),
    ensures
        leading_wildcards(tokens) < tokens.len(),
        tokens[leading_wildcards(tokens) as int] is Some,
        forall|i: int| 0 <= i < leading_wildcards(tokens) ==> (#[trigger] tokens[i]) is None,
    decreases tokens.len(),
{
    let w = choose|i: int| 0 <= i < tokens.len() && (#[trigger] tokens[i]) is Some;
    if tokens[0] is None {
        let rest = tokens.skip(1);
        assert(rest[w - 1] == tokens[w]);
        lemma_anchor_is_concrete(rest);
        let n = leading_wildcards(rest) as int;
        assert(rest[n] == tokens[n + 1]);
        assert forall|i: int| 0 <= i < n + 1 implies (#[trigger] tokens[i]) is None by {
            if i > 0 {
                assert(rest[i - 1] == tokens[i]);
            }
        }
    }
}

/// A signature has a concrete byte exactly when its count of them is positive.
pub proof fn lemma_concrete_count_positive(tokens: Seq<Option<u8>>)
    ensures
        has_concrete(tokens) <==> concrete_count(tokens) >= 1,
    decreases tokens.len(),
{
    if tokens.len() > 0 {
        let front = tokens.drop_last();
        lemma_concrete_count_positive(front);
        if has_concrete(tokens) {
            let w = choose|i: int| 0 <= i < tokens.len() && (#[trigger] tokens[i]) is Some;
            if w < tokens.len() - 1 {
                assert(front[w] is Some);
            }
        }
        if has_concrete(front) {
            let w = choose|i: int| 0 <= i < front.len() && (#[trigger] front[i]) is Some;
            assert(tokens[w] is Some);
        }
        if tokens.last() is Some {
            assert(tokens[tokens.len() - 1] is Some);
        }
    }
}

/// Whether `b` separates tokens: space, tab, line feed, form feed or carriage
/// return.
pub open spec fn is_space(b: u8) -> bool {
    b == 0x20 || b == 0x09 || b == 0x0A || b == 0x0C || b == 0x0D
}

/// Number of bytes that follow `text[start]` before the next separator or the
/// end of the text.
pub open spec fn token_tail(text: Seq<u8>, start: int) -> nat
    decreases text.len() - start,
{
    if start + 1 >= text.len() || is_space(text[start + 1]) {
        0
    } else {
        1 + token_tail(text, start + 1)
    }
}

/// Length of the token that starts at `start`, where `text[start]` is no
/// separator: the run of bytes up to the next separator or the end.
pub open spec fn token_len(text: Seq<u8>, start: int) -> nat {
    1 + token_tail(text, start)
}

/// The token without the `0x` prefixes in front of it.
pub open spec fn strip_prefix(token: Seq<u8>) -> Seq<u8>
    decreases token.len(),
{
    if token.len() >= 2 && token[0] == 0x30 && token[1] == 0x78 {
        strip_prefix(token.skip(2))
    } else {
        token
    }
}

/// Value of a hexadecimal digit, in either case.
pub open spec fn hex_digit(d: u8) -> Option<u8> {
    if 0x30 <= d <= 0x39 {
        Some((d - 0x30) as u8)
    } else if 0x41 <= d <= 0x46 {
        Some((d - 0x41 + 10) as u8)
    } else if 0x61 <= d <= 0x66 {
        Some((d - 0x61 + 10) as u8)
    } else {
        None
    }
}

/// Meaning of one token: `Some(None)` for the wildcard `??`, `Some(Some(b))`
/// for two hexadecimal digits, `None` for anything else.
pub open spec fn token_value(token: Seq<u8>) -> Option<Option<u8>> {
    let t = strip_prefix(token);
    if t.len() != 2 {
        None
    } else if t[0] == 0x3F && t[1] == 0x3F {
        Some(None)
    } else {
        match (hex_digit(t[0]), hex_digit(t[1])) {
            (Some(high), Some(low)) => Some(Some((high * 16 + low) as u8)),
            _ => None,
        }
    }
}

/// A text that compiles has a concrete byte: one whose tokens are all
/// wildcards is refused.
pub proof fn law_compiled_has_concrete_byte(text: Seq<u8>)
    ensures
        compile(text) is Some ==> concrete_count(compile(text)->Some_0) >= 1,
        parse_tokens(text, 0) is Some && concrete_count(parse_tokens(text, 0)->Some_0) == 0
            ==> compile(text) is None,
{
    if parse_tokens(text, 0) is Some {
        lemma_concrete_count_positive(parse_tokens(text, 0)->Some_0);
    }
}

/// `done` in front of what is still to be parsed.
pub open spec fn prepend(done: Seq<Option<u8>>, rest: Option<Seq<Option<u8>>>) -> Option<
    Seq<Option<u8>>,
> {
    match rest {
        Some(tokens) => Some(done + tokens),
        None => None,
    }
}

/// Whether a token starts at `at`: the byte there is no separator, and the
/// byte in front of it, if any, is one.
pub open spec fn starts_token(text: Seq<u8>, at: int) -> bool {
    0 <= at < text.len() && !is_space(text[at]) && (at == 0 || is_space(text[at - 1]))
}

/// The values of the tokens that start at `from` or later, in order, or `None`
/// when one of them is malformed.
pub open spec fn parse_tokens(text: Seq<u8>, from: int) -> Option<Seq<Option<u8>>>
    decreases text.len() - from,
{
    if from < 0 || from >= text.len() {
        Some(Seq::empty())
    } else if starts_token(text, from) {
        match token_value(text.subrange(from, from + token_len(text, from))) {
            Some(first) => prepend(seq![first], parse_tokens(text, from + 1)),
            None => None,
        }
    } else {
        parse_tokens(text, from + 1)
    }
}

/// The signature that `text` denotes: its tokens in order, provided that each
/// is well formed and one of them is a concrete byte.
pub open spec fn compile(text: Seq<u8>) -> Option<Seq<Option<u8>>> {
    match parse_tokens(text, 0) {
        Some(tokens) => if has_concrete(tokens) {
            Some(tokens)
        } else {
            None
        },
        None => None,
    }
}

fn is_separator(b: u8) -> (r: bool)
    ensures
        r == is_space(b),
{
    b == 0x20 || b == 0x09 || b == 0x0A || b == 0x0C || b == 0x0D
}

fn hex_digit_value(d: u8) -> (r: Option<u8>)
    ensures
        r == hex_digit(d),
{
    if 0x30 <= d && d <= 0x39 {
        Some(d - 0x30)
    } else if 0x41 <= d && d <= 0x46 {
        Some(d - 0x41 + 10)
    } else if 0x61 <= d && d <= 0x66 {
        Some(d - 0x61 + 10)
    } else {
        None
    }
}

/// Reads the token `text[start..end]`.
fn read_token(text: &[u8], start: usize, end: usize) -> (r: Option<Option<u8>>)
    requires
        start <= end <= text@.len(),
    ensures
        r == token_value(text@.subrange(start as int, end as int)),
{
    let mut p: usize = start;
    while end - p >= 2 && text[p] == 0x30 && text[p + 1] == 0x78
        invariant
            start <= p <= end <= text@.len(),
            strip_prefix(text@.subrange(start as int, end as int)) == strip_prefix(
                text@.subrange(p as int, end as int),
            ),
        decreases end - p,
    {
        proof {
            assert(text@.subrange(p as int, end as int).skip(2) =~= text@.subrange(
                p + 2,
                end as int,
            ));
        }
        p += 2;
    }
    let ghost t = text@.subrange(p as int, end as int);
    assert(strip_prefix(t) == t);
    if end - p != 2 {
        return None;
    }
    assert(t[0] == text@[p as int] && t[1] == text@[p + 1]);
    if text[p] == 0x3F && text[p + 1] == 0x3F {
        return Some(None);
    }
    match (hex_digit_value(text[p]), hex_digit_value(text[p + 1])) {
        (Some(high), Some(low)) => Some(Some(high * 16 + low)),
        _ => None,
    }
}

/// Compiles the textual form of a signature, given as bytes.
pub fn compile_signature(text: &[u8]) -> (r: Result<SimdPatternScanData, OffsetError>)
    ensures
        match compile(text@) {
            Some(tokens) => r is Ok && r->Ok_0.wf() && r->Ok_0@ == tokens,
            None => r == Err::<SimdPatternScanData, OffsetError>(OffsetError::MalformedSignature),
        },
{
    let mut bytes: Vec<u8> = Vec::new();
    let mut mask: Vec<u8> = Vec::new();
    let mut leading_ignore_count: usize = 0;
    let mut found_non_ignore = false;
    let ghost mut done: Seq<Option<u8>> = Seq::empty();
    let mut i: usize = 0;
    proof {
        assert(done + parse_tokens(text@, 0)->Some_0 =~= parse_tokens(text@, 0)->Some_0);
    }
    while i < text.len()
        invariant
            i <= text@.len(),
            parse_tokens(text@, 0) == prepend(done, parse_tokens(text@, i as int)),
            bytes@.len() == done.len(),
            mask@.len() == done.len(),
            done.len() <= i,
            forall|j: int|
                0 <= j < done.len() ==> (#[trigger] done[j]) == (if mask@[j] == 1 {
                    Some(bytes@[j])
                } else {
                    None
                }),
            forall|j: int| 0 <= j < mask@.len() ==> (#[trigger] mask@[j]) == 0 || mask@[j] == 1,
            forall|j: int| 0 <= j < mask@.len() && (#[trigger] mask@[j]) == 0 ==> bytes@[j] == 0,
            leading_ignore_count <= done.len(),
            forall|j: int| 0 <= j < leading_ignore_count ==> (#[trigger] done[j]) is None,
            found_non_ignore ==> leading_ignore_count < done.len()
                && done[leading_ignore_count as int] is Some,
            !found_non_ignore ==> leading_ignore_count == done.len(),
            i == 0 || i >= text@.len() || is_space(text@[i - 1]) || is_space(text@[i as int]),
        decreases text@.len() - i,
    {
        if is_separator(text[i]) {
            i += 1;
            continue ;
        }
        let mut end: usize = i + 1;
        while end < text.len() && !is_separator(text[end])
            invariant
                i < end <= text@.len(),
                token_tail(text@, i as int) == (end - 1 - i) + token_tail(text@, end - 1),
                forall|j: int| i <= j < end ==> !is_space(#[trigger] text@[j]),
                parse_tokens(text@, i + 1) == parse_tokens(text@, end as int),
            decreases text@.len() - end,
        {
            end += 1;
        }
        assert(token_len(text@, i as int) == end - i);
        let ghost rest = parse_tokens(text@, end as int);
        match read_token(text, i, end) {
            None => {
                return Err(OffsetError::MalformedSignature);
            },
            Some(Some(b)) => {
                bytes.push(b);
                mask.push(1);
                found_non_ignore = true;
                proof {
                    if rest is Some {
                        assert(done + (seq![Some(b)] + rest->Some_0) =~= done.push(Some(b))
                            + rest->Some_0);
                    }
                    done = done.push(Some(b));
                }
            },
            Some(None) => {
                bytes.push(0);
                mask.push(0);
                if !found_non_ignore {
                    leading_ignore_count += 1;
                }
                proof {
                    if rest is Some {
                        assert(done + (seq![None::<u8>] + rest->Some_0) =~= done.push(None)
                            + rest->Some_0);
                    }
                    done = done.push(None);
                }
            },
        }
        i = end;
    }
    proof {
        assert(done + Seq::<Option<u8>>::empty() =~= done);
    }
    let signature = SimdPatternScanData { bytes, mask, leading_ignore_count };
    proof {
        assert(signature@ =~= done);
    }
    if !found_non_ignore {
        proof {
            assert(!has_concrete(done));
        }
        return Err(OffsetError::MalformedSignature);
    }
    proof {
        lemma_leading_wildcards(done, leading_ignore_count as int);
    }
    Ok(signature)
}

impl View for SimdPatternScanData {
    type V = Seq<Option<u8>>;

    open spec fn view(&self) -> Seq<Option<u8>> {
        Seq::new(
            self.bytes@.len(),
            |i: int|
                if self.mask@[i] == 1 {
                    Some(self.bytes@[i])
                } else {
                    None
                },
        )
    }
}

impl SimdPatternScanData {
    /// The fields describe a signature with at least one concrete byte:
    /// `bytes` and `mask` run in parallel, wildcard positions hold a zero byte,
    /// and `leading_ignore_count` is the index of the first concrete byte.
    pub open spec fn wf(&self) -> bool {
        &&& self.bytes@.len() == self.mask@.len()
        &&& forall|i: int|
            0 <= i < self.mask@.len() ==> (#[trigger] self.mask@[i]) == 0 || self.mask@[i] == 1
        &&& forall|i: int|
            0 <= i < self.mask@.len() && (#[trigger] self.mask@[i]) == 0 ==> self.bytes@[i] == 0
        &&& has_concrete(self@)
        &&& self.leading_ignore_count == leading_wildcards(self@)
    }

    /// Compiles the textual form of a signature: tokens separated by white
    /// space, each a byte written as two hexadecimal digits or the wildcard
    /// `??`, either one after any number of `0x` prefixes. The text is refused
    /// when a token is neither, or when no token is a concrete byte.
    pub fn new(pattern: &str) -> (r: Result<Self, OffsetError>)
        ensures
            match compile(pattern.spec_bytes()) {
                Some(tokens) => r is Ok && r->Ok_0.wf() && r->Ok_0@ == tokens,
                None => r == Err::<SimdPatternScanData, OffsetError>(
                    OffsetError::MalformedSignature,
                ),
            },
            r is Ok ==> concrete_count(r->Ok_0@) >= 1,
    {
        proof {
            law_compiled_has_concrete_byte(pattern.spec_bytes());
        }
        compile_signature(pattern.as_bytes())
    }

    /// Checks that the fields describe a signature.
    pub fn is_well_formed(&self) -> (r: bool)
        ensures
            r == self.wf(),
    {
        if self.bytes.len() != self.mask.len() {
            return false;
        }
        let ghost tokens = self@;
        let mut first: usize = self.mask.len();
        let mut i: usize = 0;
        while i < self.mask.len()
            invariant
                self.bytes@.len() == self.mask@.len(),
                tokens == self@,
                i <= self.mask@.len(),
                first <= self.mask@.len(),
                first < self.mask@.len() ==> first < i && tokens[first as int] is Some,
                forall|j: int| 0 <= j < i && j < first ==> (#[trigger] tokens[j]) is None,
                forall|j: int|
                    0 <= j < i ==> (#[trigger] self.mask@[j]) == 0 || self.mask@[j] == 1,
                forall|j: int|
                    0 <= j < i && (#[trigger] self.mask@[j]) == 0 ==> self.bytes@[j] == 0,
            decreases self.mask@.len() - i,
        {
            if self.mask[i] == 1 {
                if first == self.mask.len() {
                    first = i;
                }
            } else if self.mask[i] != 0 || self.bytes[i] != 0 {
                return false;
            }
            i += 1;
        }
        if first == self.mask.len() {
            return false;
        }
        proof {
            lemma_leading_wildcards(tokens, first as int);
        }
        first == self.leading_ignore_count
    }

    /// Number of wildcards in front of the first concrete byte.
    pub fn leading_wildcard_count(&self) -> (n: usize)
        ensures
            n == self.leading_ignore_count,
    {
        self.leading_ignore_count
    }

    /// Number of concrete bytes.
    pub fn concrete_count(&self) -> (n: usize)
        requires
            self.bytes@.len() == self.mask@.len(),
        ensures
            n == concrete_count(self@),
    {
        let mut n: usize = 0;
        let mut i: usize = 0;
        while i < self.mask.len()
            invariant
                i <= self.mask@.len(),
                self.bytes@.len() == self.mask@.len(),
                n <= i,
                n == concrete_count(self@.take(i as int)),
            decreases self.mask@.len() - i,
        {
            proof {
                assert(self@.take(i + 1).drop_last() =~= self@.take(i as int));
            }
            if self.mask[i] == 1 {
                n += 1;
            }
            i += 1;
        }
        proof {
            assert(self@.take(i as int) =~= self@);
        }
        n
    }
}

} // verus!
