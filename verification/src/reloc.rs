//! Decoding of the position-independent references of the image: the page
//! that a page-relative instruction names, and the byte offset that a load or
//! store adds to it. No field is checked against an instruction class: a word
//! of another form decodes to a wrong offset without notice.

use vstd::prelude::*;

verus! {

/// Size of the pages that page-relative addressing counts in.
pub const PAGE_SIZE: usize = 4096;

/// Lowest bit of the high part of a page-relative immediate.
pub const PAGE_HIGH_SHIFT: u32 = 5;

/// The nineteen bits of the high part, once shifted down.
pub const PAGE_HIGH_MASK: u32 = 0x7FFFF;

/// Lowest bit of the low part of a page-relative immediate.
pub const PAGE_LOW_SHIFT: u32 = 29;

/// The two bits of the low part, once shifted down.
pub const PAGE_LOW_MASK: u32 = 0x3;

/// Lowest bit of the immediate of a load or store with unsigned offset.
pub const IMMEDIATE_SHIFT: u32 = 10;

/// The twelve bits of that immediate, once shifted down.
pub const IMMEDIATE_MASK: u32 = 0xFFF;

/// Lowest bit of the size field of a load or store, which reaches to the top
/// of the word.
pub const SCALE_SHIFT: u32 = 30;

/// Bits of a word that hold the page-relative immediate.
pub const PAGE_FIELDS: u32 = 0x60FF_FFE0;

/// Bits of a word that hold size and immediate of a load or store.
pub const OFFSET_FIELDS: u32 = 0xC03F_FC00;

/// The word stored at `at`, lowest byte first.
pub open spec fn word_at(image: Seq<u8>, at: int) -> int {
    image[at] + 0x100 * image[at + 1] + 0x1_0000 * image[at + 2] + 0x100_0000 * image[at + 3]
}

/// High part of the page-relative immediate of `word`.
pub open spec fn page_high(word: u32) -> u32 {
    (word >> PAGE_HIGH_SHIFT) & PAGE_HIGH_MASK
}

/// Low part of the page-relative immediate of `word`.
pub open spec fn page_low(word: u32) -> u32 {
    (word >> PAGE_LOW_SHIFT) & PAGE_LOW_MASK
}

/// Number of pages, signed, that `word` names: its two immediate parts joined
/// and read as a number of twenty-one bits in two's complement.
pub open spec fn page_count(word: u32) -> int {
    let joined = page_high(word) * 4 + page_low(word);
    if joined >= 0x10_0000 {
        joined - 0x20_0000
    } else {
        joined
    }
}

/// Displacement in bytes that `word` names.
pub open spec fn page_displacement(word: u32) -> int {
    page_count(word) * 4096
}

/// Start of the page that holds `offset`.
pub open spec fn page_base(offset: int) -> int {
    offset - offset % 4096
}

/// Immediate of a load or store with unsigned offset.
pub open spec fn immediate_field(word: u32) -> u32 {
    (word >> IMMEDIATE_SHIFT) & IMMEDIATE_MASK
}

/// Size field of a load or store.
pub open spec fn scale_field(word: u32) -> u32 {
    word >> SCALE_SHIFT
}

/// `immediate` shifted left by `scale`.
pub open spec fn scaled(immediate: int, scale: int) -> int {
    if scale == 0 {
        immediate
    } else if scale == 1 {
        immediate * 2
    } else if scale == 2 {
        immediate * 4
    } else {
        immediate * 8
    }
}

/// A page-relative word: `rest` with the immediate for `pages` in its fields.
pub open spec fn page_word(rest: u32, pages: int) -> u32 {
    let joined: u32 = (if pages < 0 {
        pages + 0x20_0000
    } else {
        pages
    }) as u32;
    rest | ((joined & 3) << 29) | ((joined >> 2) << 5)
}

/// A load or store word: `rest` with `scale` and `immediate` in its fields.
pub open spec fn offset_word(rest: u32, scale: u32, immediate: u32) -> u32 {
    rest | (scale << 30) | (immediate << 10)
}

proof fn lemma_field_bounds(word: u32)
    by (bit_vector)
    ensures
        (word >> 5) & 0x7FFFF <= 0x7FFFF,
        (word >> 29) & 0x3 <= 3,
        (word >> 10) & 0xFFF <= 0xFFF,
        word >> 30 <= 3,
{
}

proof fn lemma_shift_scales(immediate: u32, scale: u32)
    by (bit_vector)
    requires
        immediate <= 0xFFF,
        scale <= 3,
    ensures
        scale == 0 ==> immediate << scale == immediate,
        scale == 1 ==> immediate << scale == immediate * 2,
        scale == 2 ==> immediate << scale == immediate * 4,
        scale == 3 ==> immediate << scale == immediate * 8,
{
}

proof fn lemma_page_word_fields(rest: u32, joined: u32)
    by (bit_vector)
    requires
        rest & 0x60FF_FFE0 == 0,
        joined < 0x20_0000,
    ensures
        ((rest | ((joined & 3) << 29) | ((joined >> 2) << 5)) >> 5) & 0x7FFFF == joined >> 2,
        ((rest | ((joined & 3) << 29) | ((joined >> 2) << 5)) >> 29) & 0x3 == joined & 3,
        (joined >> 2) * 4 + (joined & 3) == joined,
{
}

proof fn lemma_offset_word_fields(rest: u32, scale: u32, immediate: u32)
    by (bit_vector)
    requires
        rest & 0xC03F_FC00 == 0,
        scale <= 3,
        immediate <= 0xFFF,
    ensures
        ((rest | (scale << 30) | (immediate << 10)) >> 10) & 0xFFF == immediate,
        (rest | (scale << 30) | (immediate << 10)) >> 30 == scale,
{
}

/// Reads the word at `at`, lowest byte first, if the image holds four bytes
/// there.
pub fn read_word(image: &[u8], at: usize) -> (r: Option<u32>)
    ensures
        at + 4 <= image@.len() ==> r is Some && r->Some_0 == word_at(image@, at as int),
        at + 4 > image@.len() ==> r is None,
{
    if image.len() < 4 || at > image.len() - 4 {
        return None;
    }
    let b0: u32 = image[at] as u32;
    let b1: u32 = image[at + 1] as u32;
    let b2: u32 = image[at + 2] as u32;
    let b3: u32 = image[at + 3] as u32;
    Some(b0 + 0x100 * b1 + 0x1_0000 * b2 + 0x100_0000 * b3)
}

/// Decodes the signed displacement, in bytes, of a page-relative word.
pub fn decode_page_displacement(word: u32) -> (r: i64)
    ensures
        r == page_displacement(word),
        -0x1_0000_0000 <= r < 0x1_0000_0000,
        r % 4096 == 0,
{
    proof {
        lemma_field_bounds(word);
    }
    let immhi: u32 = (word >> PAGE_HIGH_SHIFT) & PAGE_HIGH_MASK;
    let immlo: u32 = (word >> PAGE_LOW_SHIFT) & PAGE_LOW_MASK;
    let joined: i64 = (immhi * 4 + immlo) as i64;
    let pages: i64 = if joined >= 0x10_0000 {
        joined - 0x20_0000
    } else {
        joined
    };
    pages * 4096
}

/// Decodes the byte offset of a load or store whose immediate counts in units
/// of its access size: the immediate shifted left by the size field.
pub fn decode_scaled_immediate(word: u32) -> (r: u32)
    ensures
        r == immediate_field(word) << scale_field(word),
        r == scaled(immediate_field(word) as int, scale_field(word) as int),
{
    proof {
        lemma_field_bounds(word);
        lemma_shift_scales((word >> 10) & 0xFFF, word >> 30);
    }
    let size: u32 = word >> SCALE_SHIFT;
    let imm: u32 = (word >> IMMEDIATE_SHIFT) & IMMEDIATE_MASK;
    imm << size
}

/// Decodes the byte offset of a byte-wide load or store: the immediate as it
/// stands, whatever the size field holds.
pub fn decode_unscaled_immediate(word: u32) -> (r: u32)
    ensures
        r == immediate_field(word),
        r <= 0xFFF,
{
    proof {
        lemma_field_bounds(word);
    }
    (word >> IMMEDIATE_SHIFT) & IMMEDIATE_MASK
}

/// The page that the page-relative word `word`, located at `offset`, names:
/// the start of the page of `offset`, moved by the displacement of the word.
/// There is none where that lies outside of `usize`.
pub fn page_target(offset: usize, word: u32) -> (r: Option<usize>)
    ensures
        match r {
            Some(target) => target == page_base(offset as int) + page_displacement(word),
            None => page_base(offset as int) + page_displacement(word) < 0 || page_base(
                offset as int,
            ) + page_displacement(word) > usize::MAX,
        },
{
    let base: usize = offset - offset % PAGE_SIZE;
    let target: i128 = base as i128 + decode_page_displacement(word) as i128;
    if target < 0 || target > usize::MAX as i128 {
        None
    } else {
        Some(target as usize)
    }
}

/// The page named by the page-relative instruction at `adrp_offset` of the
/// image.
pub fn offset_from_adrp(image: &[u8], adrp_offset: usize) -> (r: Option<usize>)
    ensures
        r == resolved_page(image@, adrp_offset as int),
{
    match read_word(image, adrp_offset) {
        Some(word) => page_target(adrp_offset, word),
        None => None,
    }
}

/// The byte offset of the scaled load or store at `ldr_offset` of the image.
pub fn offset_from_ldr(image: &[u8], ldr_offset: usize) -> (r: Option<usize>)
    ensures
        r == resolved_scaled(image@, ldr_offset as int),
{
    match read_word(image, ldr_offset) {
        Some(word) => {
            proof {
                lemma_field_bounds(word);
            }
            Some(decode_scaled_immediate(word) as usize)
        },
        None => None,
    }
}

/// The byte offset of the byte-wide store at `strb_offset` of the image.
pub fn offset_from_strb_unsigned_immediate(image: &[u8], strb_offset: usize) -> (r: Option<usize>)
    ensures
        r == resolved_unscaled(image@, strb_offset as int),
{
    match read_word(image, strb_offset) {
        Some(word) => Some(decode_unscaled_immediate(word) as usize),
        None => None,
    }
}

/// What `offset_from_adrp` returns.
pub open spec fn resolved_page(image: Seq<u8>, at: int) -> Option<usize> {
    if 0 <= at && at + 4 <= image.len() {
        let target = page_base(at) + page_displacement(word_at(image, at) as u32);
        if 0 <= target <= usize::MAX {
            Some(target as usize)
        } else {
            None
        }
    } else {
        None
    }
}

/// What `offset_from_ldr` returns.
pub open spec fn resolved_scaled(image: Seq<u8>, at: int) -> Option<usize> {
    if 0 <= at && at + 4 <= image.len() {
        let word = word_at(image, at) as u32;
        Some(scaled(immediate_field(word) as int, scale_field(word) as int) as usize)
    } else {
        None
    }
}

/// What `offset_from_strb_unsigned_immediate` returns.
pub open spec fn resolved_unscaled(image: Seq<u8>, at: int) -> Option<usize> {
    if 0 <= at && at + 4 <= image.len() {
        Some(immediate_field(word_at(image, at) as u32) as usize)
    } else {
        None
    }
}

/// The address of `offset` in an image loaded at `base`, where it lies within
/// `usize`.
pub fn offset_to_addr(base: usize, offset: usize) -> (r: Option<usize>)
    ensures
        base + offset <= usize::MAX ==> r == Some((base + offset) as usize),
        base + offset > usize::MAX ==> r is None,
{
    base.checked_add(offset)
}

/// A load or store word with size field `scale` and immediate `immediate`
/// decodes, scaled, to the immediate shifted left by `scale`, and, unscaled,
/// to the immediate itself.
pub proof fn law_immediate_decoding(rest: u32, scale: u32, immediate: u32)
    requires
        rest & OFFSET_FIELDS == 0,
        scale <= 3,
        immediate <= 0xFFF,
    ensures
        immediate_field(offset_word(rest, scale, immediate)) == immediate,
        scale_field(offset_word(rest, scale, immediate)) == scale,
        immediate_field(offset_word(rest, scale, immediate)) << scale_field(
            offset_word(rest, scale, immediate),
        ) == immediate << scale,
        scaled(
            immediate_field(offset_word(rest, scale, immediate)) as int,
            scale_field(offset_word(rest, scale, immediate)) as int,
        ) == scaled(immediate as int, scale as int),
{
    lemma_offset_word_fields(rest, scale, immediate);
}

/// A page-relative word built for a number of pages that its immediate can
/// hold decodes to the displacement of exactly that many pages.
pub proof fn law_page_displacement(rest: u32, pages: int)
    requires
        rest & PAGE_FIELDS == 0,
        -0x10_0000 <= pages < 0x10_0000,
    ensures
        page_displacement(page_word(rest, pages)) == pages * 4096,
{
    let joined: u32 = (if pages < 0 {
        pages + 0x20_0000
    } else {
        pages
    }) as u32;
    lemma_page_word_fields(rest, joined);
}

} // verus!
