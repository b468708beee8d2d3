use sigscan::reloc::{
    decode_page_displacement, decode_scaled_immediate, decode_unscaled_immediate,
    offset_from_adrp, offset_from_ldr, offset_from_strb_unsigned_immediate, offset_to_addr,
    page_target, read_word, IMMEDIATE_MASK, IMMEDIATE_SHIFT, OFFSET_FIELDS, PAGE_FIELDS,
    PAGE_HIGH_MASK, PAGE_HIGH_SHIFT, PAGE_LOW_MASK, PAGE_LOW_SHIFT, PAGE_SIZE, SCALE_SHIFT,
};

/// A page-relative word for `pages` pages, with `rest` in its other bits.
fn page_word(rest: u32, pages: i32) -> u32 {
    let joined = (pages as u32) & 0x1F_FFFF;
    rest | ((joined & 3) << 29) | ((joined >> 2) << 5)
}

/// A load or store word, with `rest` in its other bits.
fn offset_word(rest: u32, scale: u32, immediate: u32) -> u32 {
    rest | (scale << 30) | (immediate << 10)
}

fn image_with(words: &[(usize, u32)], len: usize) -> Vec<u8> {
    let mut image = vec![0u8; len];
    for (at, word) in words {
        image[*at..*at + 4].copy_from_slice(&word.to_le_bytes());
    }
    image
}

#[test]
fn the_fields_lie_where_the_tables_say() {
    assert_eq!(PAGE_SIZE, 4096);
    assert_eq!(PAGE_HIGH_MASK << PAGE_HIGH_SHIFT | PAGE_LOW_MASK << PAGE_LOW_SHIFT, PAGE_FIELDS);
    assert_eq!(IMMEDIATE_MASK << IMMEDIATE_SHIFT | 3 << SCALE_SHIFT, OFFSET_FIELDS);
    assert_eq!(PAGE_FIELDS, 0x60FF_FFE0);
    assert_eq!(OFFSET_FIELDS, 0xC03F_FC00);
}

#[test]
fn a_page_word_resolves_to_its_page() {
    // immlo = 2, immhi = 4: eighteen pages, 0x12000 bytes.
    let word = 0x9000_0000u32 | (2 << 29) | (4 << 5);
    assert_eq!(decode_page_displacement(word), 0x12000);
    assert_eq!(page_target(0x4000, word), Some(0x16000));
    assert_eq!(page_target(0x4ABC, word), Some(0x16000));
    assert_eq!(page_target(0x4FFF, word), Some(0x16000));
    assert_eq!(page_target(0x5000, word), Some(0x17000));
}

#[test]
fn a_page_word_decodes_to_the_displacement_it_was_built_for() {
    let mut pages = -0x10_0000i32;
    while pages < 0x10_0000 {
        for rest in [0u32, 0x9000_0000, 0x9F00_001F, !0x60FF_FFE0] {
            let word = page_word(rest, pages);
            assert_eq!(decode_page_displacement(word), pages as i64 * 4096);
        }
        pages += 977;
    }
    for pages in [-0x10_0000i32, -1, 0, 1, 3, 4, 0xF_FFFF] {
        assert_eq!(decode_page_displacement(page_word(0x9000_0000, pages)), pages as i64 * 4096);
    }
    assert_eq!(decode_page_displacement(page_word(0, -1)), -4096);
    assert_eq!(decode_page_displacement(page_word(0, -0x10_0000)), -0x1_0000_0000);
    assert_eq!(decode_page_displacement(page_word(0, 0xF_FFFF)), 0xFFFF_F000);
}

#[test]
fn a_page_in_front_of_the_image_is_none() {
    assert_eq!(page_target(0x4000, page_word(0x9000_0000, -4)), Some(0));
    assert_eq!(page_target(0x4000, page_word(0x9000_0000, -5)), None);
    assert_eq!(page_target(0, page_word(0x9000_0000, -1)), None);
    assert_eq!(page_target(usize::MAX, page_word(0x9000_0000, 0)), Some(usize::MAX - 0xFFF));
    assert_eq!(page_target(usize::MAX, page_word(0x9000_0000, 1)), None);
}

#[test]
fn a_scaled_immediate_is_shifted_by_its_size() {
    for scale in 0..4u32 {
        for immediate in 0..4096u32 {
            for rest in [0u32, 0x3940_0000, !0xC03F_FC00] {
                let word = offset_word(rest, scale, immediate);
                assert_eq!(decode_scaled_immediate(word), immediate << scale);
                assert_eq!(decode_unscaled_immediate(word), immediate);
            }
        }
    }
    assert_eq!(decode_scaled_immediate(offset_word(0, 3, 0xFFF)), 0x7FF8);
    assert_eq!(decode_scaled_immediate(offset_word(0, 2, 0x123)), 0x48C);
    assert_eq!(decode_unscaled_immediate(offset_word(0, 3, 0x123)), 0x123);
}

#[test]
fn a_word_is_read_lowest_byte_first() {
    let image = [0x78u8, 0x56, 0x34, 0x12, 0xEF, 0xCD, 0xAB];
    assert_eq!(read_word(&image, 0), Some(0x1234_5678));
    assert_eq!(read_word(&image, 1), Some(0xEF12_3456));
    assert_eq!(read_word(&image, 3), Some(0xABCD_EF12));
    assert_eq!(read_word(&image, 4), None);
    assert_eq!(read_word(&image, 7), None);
    assert_eq!(read_word(&image, usize::MAX), None);
    assert_eq!(read_word(&[1, 2, 3], 0), None);
}

#[test]
fn references_are_followed_at_an_offset_of_the_image() {
    let adrp = page_word(0x9000_0008, 18);
    let ldr = offset_word(0x3940_0108, 3, 0x10);
    let strb = offset_word(0x3900_0108, 0, 0x321);
    let image = image_with(&[(0x4010, adrp), (0x4014, ldr), (0x4018, strb)], 0x5000);
    assert_eq!(offset_from_adrp(&image, 0x4010), Some(0x16000));
    assert_eq!(offset_from_ldr(&image, 0x4014), Some(0x80));
    assert_eq!(offset_from_strb_unsigned_immediate(&image, 0x4018), Some(0x321));
    assert_eq!(offset_from_strb_unsigned_immediate(&image, 0x4014), Some(0x10));
    assert_eq!(offset_from_adrp(&image, 0x4FFC), Some(0x4000));
    assert_eq!(offset_from_adrp(&image, 0x4FFD), None);
    assert_eq!(offset_from_ldr(&image, 0x5000), None);
    assert_eq!(offset_from_strb_unsigned_immediate(&image, usize::MAX - 1), None);
}

#[test]
fn an_offset_becomes_an_address_within_the_address_space() {
    assert_eq!(offset_to_addr(0x8004000, 0x3542660), Some(0xB546660));
    assert_eq!(offset_to_addr(0, 0), Some(0));
    assert_eq!(offset_to_addr(usize::MAX, 0), Some(usize::MAX));
    assert_eq!(offset_to_addr(usize::MAX, 1), None);
}
