use sigscan::codes::{
    CHANGE_COLOR_R_CODE, CHARA_SELECT_SCENE_DESTRUCTOR_SEARCH_CODE, CLEAR_INK_SEARCH_CODE,
    CSS_SET_SELECTED_CHARACTER_UI_SEARCH_CODE, ESHOPMANAGER_SHOW_SEARCH_CODE,
    FILESYSTEM_INFO_ADRP_SEARCH_CODE, GET_COLOR_NUM_SEARCH_CODE, GET_ECHO_FROM_HASH_SEARCH_CODE,
    GET_UI_CHARA_PATH_FROM_HASH_SEARCH, INFLATE_DIR_FILE_SEARCH_CODE, INFLATE_SEARCH_CODE,
    INITIAL_LOADING_SEARCH_CODE, INKLING_PATCH_SEARCH_CODE, IS_ONLINE_SEARCH_CODE,
    LOAD_CHARA_1_FOR_ALL_COSTUMES_SEARCH_CODE, LOAD_STOCK_ICON_FOR_PORTRAIT_MENU_SEARCH_CODE,
    LOAD_UI_FILE_SEARCH_CODE, LOOKUP_STREAM_HASH_SEARCH_CODE, LUA_MAGIC_CHECK_SEARCH_CODE,
    MEMCPY_1_SEARCH_CODE, MEMCPY_2_SEARCH_CODE, MEMCPY_3_SEARCH_CODE, MSBT_TEXT_SEARCH_CODE,
    PACKET_SEND_SEARCH_CODE, PARAMETERS_CACHE_SEARCH_CODE, RES_LOAD_LOOP_REFRESH_SEARCH_CODE,
    RES_LOAD_LOOP_START_SEARCH_CODE, RES_SERVICE_ADRP_SEARCH_CODE,
    SET_GLOBAL_COLOR_FOR_CLASSIC_MODE_SEARCH_CODE, SKIP_OPENING_SEARCH_CODE,
    TITLE_SCREEN_VERSION_SEARCH_CODE, TITLE_SCREEN_OPENING_SEARCH_CODE,
};
use sigscan::error::OffsetError;
use sigscan::registry::{
    add_page_reference, locate, resolution_of, resolve_symbol, Offsets, Registry, Resolution,
    Symbol,
};

const START: usize = 0x1000;
const GAP: usize = 0x1000;
const STEP: usize = 0x100;

/// The codes in the order in which the image holds them, `STEP` bytes apart
/// from `START` on; the last two lie behind a gap each.
fn codes() -> Vec<&'static [u8]> {
    vec![
        &LOOKUP_STREAM_HASH_SEARCH_CODE,
        &INFLATE_SEARCH_CODE,
        &MEMCPY_1_SEARCH_CODE,
        &MEMCPY_2_SEARCH_CODE,
        &MEMCPY_3_SEARCH_CODE,
        &INFLATE_DIR_FILE_SEARCH_CODE,
        &INITIAL_LOADING_SEARCH_CODE,
        &RES_LOAD_LOOP_START_SEARCH_CODE,
        &RES_LOAD_LOOP_REFRESH_SEARCH_CODE,
        &TITLE_SCREEN_VERSION_SEARCH_CODE,
        &ESHOPMANAGER_SHOW_SEARCH_CODE,
        &MSBT_TEXT_SEARCH_CODE,
        &SKIP_OPENING_SEARCH_CODE,
        &TITLE_SCREEN_OPENING_SEARCH_CODE,
        &FILESYSTEM_INFO_ADRP_SEARCH_CODE,
        &RES_SERVICE_ADRP_SEARCH_CODE,
        &PACKET_SEND_SEARCH_CODE,
        &LUA_MAGIC_CHECK_SEARCH_CODE,
        &INKLING_PATCH_SEARCH_CODE,
        &CLEAR_INK_SEARCH_CODE,
        &SET_GLOBAL_COLOR_FOR_CLASSIC_MODE_SEARCH_CODE,
        &LOAD_CHARA_1_FOR_ALL_COSTUMES_SEARCH_CODE,
        &LOAD_UI_FILE_SEARCH_CODE,
        &GET_UI_CHARA_PATH_FROM_HASH_SEARCH,
        &GET_COLOR_NUM_SEARCH_CODE,
        &GET_ECHO_FROM_HASH_SEARCH_CODE,
        &LOAD_STOCK_ICON_FOR_PORTRAIT_MENU_SEARCH_CODE,
        &CSS_SET_SELECTED_CHARACTER_UI_SEARCH_CODE,
        &CHARA_SELECT_SCENE_DESTRUCTOR_SEARCH_CODE,
        &CHANGE_COLOR_R_CODE,
        &PARAMETERS_CACHE_SEARCH_CODE,
        &IS_ONLINE_SEARCH_CODE,
    ]
}

fn place(index: usize) -> usize {
    match index {
        30 => START + 30 * STEP + GAP,
        31 => START + 31 * STEP + 2 * GAP,
        _ => START + index * STEP,
    }
}

fn put_word(image: &mut [u8], at: usize, word: u32) {
    image[at..at + 4].copy_from_slice(&word.to_le_bytes());
}

/// A page-relative instruction for `pages` pages.
fn adrp(pages: u32) -> u32 {
    0x9000_0008 | ((pages & 3) << 29) | ((pages >> 2) << 5)
}

/// An image that holds every code once, and behind the places that the codes
/// of the indirect symbols mark a page-relative instruction and a load or
/// store.
fn image() -> Vec<u8> {
    let mut image = vec![0xEEu8; place(31) + 0x400];
    for (index, code) in codes().iter().enumerate() {
        let at = place(index);
        image[at..at + code.len()].copy_from_slice(code);
    }
    // filesystem_info: 0x20 pages on, and a load of eight bytes at 0x10.
    put_word(&mut image, place(14) + 12, adrp(0x20));
    put_word(&mut image, place(14) + 16, 0xF940_0108 | (0x10 << 10));
    // res_service: one page on, and a load of four bytes at 0x3.
    put_word(&mut image, place(15) + 0x10, adrp(1));
    put_word(&mut image, place(15) + 0x14, 0xB940_0108 | (0x3 << 10));
    // parameters_cache: no page on, and a load of two bytes at 0xFFF.
    put_word(&mut image, place(30) - 0x158, adrp(0));
    put_word(&mut image, place(30) - 0x154, 0x7940_0108 | (0xFFF << 10));
    // is_online: 0x7 pages on, and a store of one byte at 0x321 in a word
    // whose size field is not zero.
    put_word(&mut image, place(31) - 0xAF4, adrp(0x7));
    put_word(&mut image, place(31) - 0xAF0, 0xB900_0108 | (0x321 << 10));
    image
}

fn page(at: usize) -> usize {
    at & !0xFFF
}

fn expected() -> Vec<(Symbol, usize)> {
    vec![
        (Symbol::LookupStreamHash, place(0)),
        (Symbol::Inflate, place(1)),
        (Symbol::Memcpy1, place(2) - 0x4),
        (Symbol::Memcpy2, place(3) - 0x4),
        (Symbol::Memcpy3, place(4) - 0x4),
        (Symbol::InflateDirFile, place(5)),
        (Symbol::InitialLoading, place(6)),
        (Symbol::ResLoadLoopStart, place(7)),
        (Symbol::ResLoadLoopRefresh, place(8)),
        (Symbol::TitleScreenVersion, place(9)),
        (Symbol::EshopButton, place(10) - 0x10),
        (Symbol::MsbtText, place(11) + 0xC0),
        (Symbol::SkipOpening, place(12) - 0x9F8),
        (Symbol::TitleScenePlayOpening, place(13) + 0x8),
        (Symbol::TitleSceneHowToPlay, place(13) + 0xC8),
        (Symbol::FilesystemInfo, page(place(14) + 12) + 0x20000 + 0x80),
        (Symbol::ResService, page(place(15) + 0x10) + 0x1000 + 0xC),
        (Symbol::PacketSend, place(16) + 0x10),
        (Symbol::LuaMagicCheck, place(17) + 0xB0),
        (Symbol::InklingPatch, place(18) + 0x74),
        (Symbol::ClearInkPatch, place(19) + 0x74),
        (Symbol::SetGlobalColorForClassicMode, place(20)),
        (Symbol::LoadChara1ForAllCostumes, place(21) - 0xA94),
        (Symbol::LoadUiFile, place(22) + 0x28),
        (Symbol::GetUiCharaPathFromHash, place(23)),
        (Symbol::GetColorNumFromHash, place(24) + 0x104),
        (Symbol::GetEchoFromHash, place(25) - 0x124),
        (Symbol::LoadStockIconForPortraitMenu, place(26) - 0x60),
        (Symbol::CssSetSelectedCharacterUi, place(27)),
        (Symbol::CharaSelectSceneDestructor, place(28) + 0xA80),
        (Symbol::ParametersCache, page(place(30) - 0x158) + 0x1FFE),
        (Symbol::IsOnline, page(place(31) - 0xAF4) + 0x7000 + 0x321),
        (Symbol::ChangeColorR, place(29) + 0x18),
        (Symbol::ChangeColorL, place(29) + 0x18 + 0x298),
    ]
}

fn registry(version: &str, offsets: Offsets) -> Registry {
    Registry { version: version.to_string(), offsets }
}

#[test]
fn every_symbol_resolves_to_its_offset() {
    let image = image();
    let offsets = Offsets::new(&image).expect("every symbol is in the image");
    let expected = expected();
    assert_eq!(expected.len(), 34);
    for (symbol, offset) in expected {
        assert_eq!(offsets.lookup(symbol), offset, "{:?}", symbol);
        assert_eq!(resolve_symbol(&image, symbol), Some(offset), "{:?}", symbol);
    }
    assert_eq!(offsets.lookup_stream_hash, 0x1000);
    assert_eq!(offsets.inflate, 0x1100);
    assert_eq!(offsets.memcpy_1, 0x11FC);
    assert_eq!(offsets.filesystem_info, 0x1000 + 0x20000 + 0x80);
    assert_eq!(offsets.res_service, 0x1000 + 0x1000 + 0xC);
    assert_eq!(offsets.parameters_cache, page(0x3E00 - 0x158) + 0x1FFE);
    assert_eq!(offsets.is_online, page(0x4F00 - 0xAF4) + 0x7321);
    assert_eq!(offsets.change_color_r, 0x2D18);
    assert_eq!(offsets.change_color_l, 0x2FB0);
}

#[test]
fn a_symbol_is_located_where_its_code_marks() {
    let image = image();
    assert_eq!(locate(&image, Symbol::FilesystemInfo), Some(place(14) + 12));
    assert_eq!(locate(&image, Symbol::IsOnline), Some(place(31) - 0xAF4));
    assert_eq!(locate(&image, Symbol::ChangeColorL), Some(place(29) + 0x18));
    assert_eq!(locate(&image, Symbol::ChangeColorR), Some(place(29) + 0x18));
    assert_eq!(locate(&vec![0u8; 0x1000], Symbol::Inflate), None);
}

#[test]
fn symbols_resolve_directly_or_through_a_reference() {
    assert_eq!(resolution_of(Symbol::Inflate), Resolution::Direct);
    assert_eq!(resolution_of(Symbol::ChangeColorR), Resolution::Direct);
    assert_eq!(resolution_of(Symbol::ChangeColorL), Resolution::Displaced);
    assert_eq!(resolution_of(Symbol::FilesystemInfo), Resolution::PageScaled);
    assert_eq!(resolution_of(Symbol::ResService), Resolution::PageScaled);
    assert_eq!(resolution_of(Symbol::ParametersCache), Resolution::PageScaled);
    assert_eq!(resolution_of(Symbol::IsOnline), Resolution::PageUnscaled);
}

#[test]
fn a_page_and_an_offset_add_up_within_the_address_space() {
    assert_eq!(add_page_reference(Some(0x16000), Some(0x80)), Some(0x16080));
    assert_eq!(add_page_reference(Some(usize::MAX - 1), Some(1)), Some(usize::MAX));
    assert_eq!(add_page_reference(Some(usize::MAX), Some(1)), None);
    assert_eq!(add_page_reference(None, Some(1)), None);
    assert_eq!(add_page_reference(Some(1), None), None);
}

#[test]
fn one_missing_symbol_leaves_no_offsets() {
    let mut image = image();
    let at = place(1);
    image[at + 3] ^= 0xFF;
    assert_eq!(resolve_symbol(&image, Symbol::Inflate), None);
    assert_eq!(resolve_symbol(&image, Symbol::LookupStreamHash), Some(place(0)));
    assert!(Offsets::new(&image).is_none());
    assert!(Offsets::new(&[]).is_none());
}

#[test]
fn a_reference_that_leaves_the_image_leaves_no_offsets() {
    let image = image();
    // Cut the image right behind the code of `is_online`: the code of
    // `is_online` is then no longer in front of the search bound.
    let cut = &image[..place(31) + IS_ONLINE_SEARCH_CODE.len()];
    assert_eq!(resolve_symbol(cut, Symbol::IsOnline), None);
    // A page in front of the image.
    let mut image = image.clone();
    put_word(&mut image, place(14) + 12, adrp(0x1F_FFFE));
    assert_eq!(resolve_symbol(&image, Symbol::FilesystemInfo), None);
    assert!(Offsets::new(&image).is_none());
}

#[test]
fn a_fresh_registry_is_computed_and_to_be_persisted() {
    let image = image();
    let fresh = Registry::initialize("3.0.0", None, &image).expect("every symbol resolves");
    assert!(fresh.persist);
    assert_eq!(fresh.registry.version, "3.0.0");
    for (symbol, offset) in expected() {
        assert_eq!(fresh.registry.offsets.lookup(symbol), offset);
    }
}

#[test]
fn a_persisted_registry_of_the_expected_version_is_taken_as_it_is() {
    let image = image();
    let fresh = Registry::initialize("3.0.0", None, &image).expect("every symbol resolves");
    let computed = fresh.registry.offsets;
    // No image is needed to take the persisted registry back.
    let reloaded = Registry::initialize("3.0.0", Some(fresh.registry), &[])
        .expect("the persisted registry is taken");
    assert!(!reloaded.persist);
    assert_eq!(reloaded.registry.version, "3.0.0");
    for (symbol, offset) in expected() {
        assert_eq!(reloaded.registry.offsets.lookup(symbol), offset);
        assert_eq!(reloaded.registry.offsets.lookup(symbol), computed.lookup(symbol));
    }
}

#[test]
fn a_persisted_registry_of_another_version_is_computed_anew() {
    let image = image();
    let mut stale = Offsets::new(&image).expect("every symbol resolves");
    stale.inflate = 7;
    let renewed = Registry::initialize("3.0.1", Some(registry("3.0.0", stale)), &image)
        .expect("every symbol resolves");
    assert!(renewed.persist);
    assert_eq!(renewed.registry.version, "3.0.1");
    assert_eq!(renewed.registry.offsets.inflate, place(1));
    let kept = Registry::initialize("3.0.0", Some(registry("3.0.0", stale)), &image)
        .expect("the persisted registry is taken");
    assert!(!kept.persist);
    assert_eq!(kept.registry.offsets.inflate, 7);
}

#[test]
fn a_persisted_registry_is_checked_against_the_expected_version() {
    let offsets = Offsets::new(&image()).expect("every symbol resolves");
    let taken = Registry::check_persisted("3.0.0", Some(registry("3.0.0", offsets)));
    assert_eq!(taken.expect("same version").offsets.inflate, place(1));
    let refused = Registry::check_persisted("3.0.0", Some(registry("3.0", offsets)));
    assert_eq!(refused.err(), Some(OffsetError::RegistryLoadFailure));
    assert_eq!(
        Registry::check_persisted("3.0.0", None).err(),
        Some(OffsetError::RegistryLoadFailure)
    );
}

#[test]
fn initialization_fails_where_a_symbol_does_not_resolve() {
    let image = vec![0u8; 0x4000];
    assert_eq!(
        Registry::initialize("3.0.0", None, &image).err(),
        Some(OffsetError::RegistryInitFailure)
    );
    let stale = Offsets::new(&self::image()).expect("every symbol resolves");
    assert_eq!(
        Registry::initialize("3.0.1", Some(registry("3.0.0", stale)), &image).err(),
        Some(OffsetError::RegistryInitFailure)
    );
}
