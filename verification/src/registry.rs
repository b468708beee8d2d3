//! The registry: every symbol of the image with the offset that it resolves
//! to, computed once from the image and kept with a version tag.

use crate::codes::{
    CHANGE_COLOR_R_CODE, CHANGE_COLOR_R_SHIFT, CHARA_SELECT_SCENE_DESTRUCTOR_SEARCH_CODE,
    CHARA_SELECT_SCENE_DESTRUCTOR_SEARCH_SHIFT, CLEAR_INK_SEARCH_CODE, CLEAR_INK_SEARCH_SHIFT,
    CSS_SET_SELECTED_CHARACTER_UI_SEARCH_CODE, CSS_SET_SELECTED_CHARACTER_UI_SEARCH_SHIFT,
    ESHOPMANAGER_SHOW_SEARCH_CODE, ESHOPMANAGER_SHOW_SEARCH_SHIFT,
    FILESYSTEM_INFO_ADRP_SEARCH_CODE, FILESYSTEM_INFO_ADRP_SEARCH_SHIFT,
    GET_COLOR_NUM_SEARCH_CODE, GET_COLOR_NUM_SEARCH_SHIFT, GET_ECHO_FROM_HASH_SEARCH_CODE,
    GET_ECHO_FROM_HASH_SEARCH_SHIFT, GET_UI_CHARA_PATH_FROM_HASH_SEARCH,
    GET_UI_CHARA_PATH_FROM_HASH_SEARCH_SHIFT, INFLATE_DIR_FILE_SEARCH_CODE,
    INFLATE_DIR_FILE_SEARCH_SHIFT, INFLATE_SEARCH_CODE, INFLATE_SEARCH_SHIFT,
    INITIAL_LOADING_SEARCH_CODE, INITIAL_LOADING_SEARCH_SHIFT, INKLING_PATCH_SEARCH_CODE,
    INKLING_PATCH_SEARCH_SHIFT, IS_ONLINE_SEARCH_CODE, IS_ONLINE_SEARCH_SHIFT,
    LOAD_CHARA_1_FOR_ALL_COSTUMES_SEARCH_CODE, LOAD_CHARA_1_FOR_ALL_COSTUMES_SEARCH_SHIFT,
    LOAD_STOCK_ICON_FOR_PORTRAIT_MENU_SEARCH_CODE,
    LOAD_STOCK_ICON_FOR_PORTRAIT_MENU_SEARCH_SHIFT, LOAD_UI_FILE_SEARCH_CODE,
    LOAD_UI_FILE_SEARCH_SHIFT, LOOKUP_STREAM_HASH_SEARCH_CODE, LOOKUP_STREAM_HASH_SEARCH_SHIFT,
    LUA_MAGIC_CHECK_SEARCH_CODE, LUA_MAGIC_CHECK_SEARCH_SHIFT, MEMCPY_1_SEARCH_CODE,
    MEMCPY_1_SEARCH_SHIFT, MEMCPY_2_SEARCH_CODE, MEMCPY_2_SEARCH_SHIFT, MEMCPY_3_SEARCH_CODE,
    MEMCPY_3_SEARCH_SHIFT, MSBT_TEXT_SEARCH_CODE, MSBT_TEXT_SEARCH_SHIFT,
    PACKET_SEND_SEARCH_CODE, PACKET_SEND_SEARCH_SHIFT, PARAMETERS_CACHE_SEARCH_CODE,
    PARAMETERS_CACHE_SEARCH_SHIFT, RES_LOAD_LOOP_REFRESH_SEARCH_CODE,
    RES_LOAD_LOOP_REFRESH_SEARCH_SHIFT, RES_LOAD_LOOP_START_SEARCH_CODE,
    RES_LOAD_LOOP_START_SEARCH_SHIFT, RES_SERVICE_ADRP_SEARCH_CODE,
    RES_SERVICE_ADRP_SEARCH_SHIFT, SET_GLOBAL_COLOR_FOR_CLASSIC_MODE_SEARCH_CODE,
    SET_GLOBAL_COLOR_FOR_CLASSIC_MODE_SEARCH_SHIFT, SKIP_OPENING_SEARCH_CODE,
    SKIP_OPENING_SEARCH_SHIFT, TITLE_SCENE_SHOW_HOW_TO_PLAY_SEARCH_CODE,
    TITLE_SCENE_SHOW_HOW_TO_PLAY_SEARCH_SHIFT, TITLE_SCREEN_OPENING_SEARCH_CODE,
    TITLE_SCREEN_OPENING_SEARCH_SHIFT, TITLE_SCREEN_VERSION_SEARCH_CODE,
    TITLE_SCREEN_VERSION_SEARCH_SHIFT,
};
use crate::error::OffsetError;
use crate::locate::{apply_displacement, code_signature, displaced, get_offset_neon};
use crate::reloc::{
    offset_from_adrp, offset_from_ldr, offset_from_strb_unsigned_immediate, resolved_page,
    resolved_scaled, resolved_unscaled,
};
use crate::scanner::scan_result;
use vstd::prelude::*;

verus! {

/// Distance from the offset of `change_color_r` to that of `change_color_l`.
pub const CHANGE_COLOR_L_DISTANCE: isize = 0x298;

/// Distance from a page-relative instruction to the load or store that
/// completes its reference.
pub const INSTRUCTION_SIZE: usize = 4;

/// The symbols that the registry resolves.
#[derive(Clone, Copy, Debug, PartialEq, Eq, Structural)]
pub enum Symbol {
    LookupStreamHash,
    Inflate,
    Memcpy1,
    Memcpy2,
    Memcpy3,
    InflateDirFile,
    InitialLoading,
    ResLoadLoopStart,
    ResLoadLoopRefresh,
    TitleScreenVersion,
    EshopButton,
    MsbtText,
    SkipOpening,
    TitleScenePlayOpening,
    TitleSceneHowToPlay,
    FilesystemInfo,
    ResService,
    PacketSend,
    LuaMagicCheck,
    InklingPatch,
    ClearInkPatch,
    SetGlobalColorForClassicMode,
    LoadChara1ForAllCostumes,
    LoadUiFile,
    GetUiCharaPathFromHash,
    GetColorNumFromHash,
    GetEchoFromHash,
    LoadStockIconForPortraitMenu,
    CssSetSelectedCharacterUi,
    CharaSelectSceneDestructor,
    ParametersCache,
    IsOnline,
    ChangeColorR,
    ChangeColorL,
}

/// How the place at which a search code was found becomes the offset of its
/// symbol.
#[derive(Clone, Copy, Debug, PartialEq, Eq, Structural)]
pub enum Resolution {
    /// The offset is the place itself.
    Direct,
    /// The offset lies a fixed distance behind the place.
    Displaced,
    /// The place holds a page-relative instruction and, behind it, a load
    /// whose immediate counts in units of its access size.
    PageScaled,
    /// The place holds a page-relative instruction and, behind it, a store of
    /// one byte.
    PageUnscaled,
}

/// The resolved offset of every symbol.
#[derive(Clone, Copy, Debug)]
pub struct Offsets {
    pub lookup_stream_hash: usize,
    pub inflate: usize,
    pub memcpy_1: usize,
    pub memcpy_2: usize,
    pub memcpy_3: usize,
    pub inflate_dir_file: usize,
    pub initial_loading: usize,
    pub res_load_loop_start: usize,
    pub res_load_loop_refresh: usize,
    pub title_screen_version: usize,
    pub eshop_button: usize,
    pub msbt_text: usize,
    pub skip_opening: usize,
    pub title_scene_play_opening: usize,
    pub title_scene_how_to_play: usize,
    pub filesystem_info: usize,
    pub res_service: usize,
    pub packet_send: usize,
    pub lua_magic_check: usize,
    pub inkling_patch: usize,
    pub clear_ink_patch: usize,
    pub set_global_color_for_classic_mode: usize,
    pub load_chara_1_for_all_costumes: usize,
    pub load_ui_file: usize,
    pub get_ui_chara_path_from_hash: usize,
    pub get_color_num_from_hash: usize,
    pub get_echo_from_hash: usize,
    pub load_stock_icon_for_portrait_menu: usize,
    pub css_set_selected_character_ui: usize,
    pub chara_select_scene_destructor: usize,
    pub parameters_cache: usize,
    pub is_online: usize,
    pub change_color_r: usize,
    pub change_color_l: usize,
}

/// The registry as it is persisted: the offsets and the version that they were
/// computed for.
#[derive(Debug)]
pub struct Registry {
    pub version: String,
    pub offsets: Offsets,
}

/// What initialization hands back: the registry, and whether it was computed
/// anew and has to be persisted.
#[derive(Debug)]
pub struct Initialized {
    pub registry: Registry,
    pub persist: bool,
}

/// The bytes that are searched for a symbol.
pub open spec fn search_code(symbol: Symbol) -> Seq<u8> {
    match symbol {
        Symbol::LookupStreamHash => LOOKUP_STREAM_HASH_SEARCH_CODE@,
        Symbol::Inflate => INFLATE_SEARCH_CODE@,
        Symbol::Memcpy1 => MEMCPY_1_SEARCH_CODE@,
        Symbol::Memcpy2 => MEMCPY_2_SEARCH_CODE@,
        Symbol::Memcpy3 => MEMCPY_3_SEARCH_CODE@,
        Symbol::InflateDirFile => INFLATE_DIR_FILE_SEARCH_CODE@,
        Symbol::InitialLoading => INITIAL_LOADING_SEARCH_CODE@,
        Symbol::ResLoadLoopStart => RES_LOAD_LOOP_START_SEARCH_CODE@,
        Symbol::ResLoadLoopRefresh => RES_LOAD_LOOP_REFRESH_SEARCH_CODE@,
        Symbol::TitleScreenVersion => TITLE_SCREEN_VERSION_SEARCH_CODE@,
        Symbol::EshopButton => ESHOPMANAGER_SHOW_SEARCH_CODE@,
        Symbol::MsbtText => MSBT_TEXT_SEARCH_CODE@,
        Symbol::SkipOpening => SKIP_OPENING_SEARCH_CODE@,
        Symbol::TitleScenePlayOpening => TITLE_SCREEN_OPENING_SEARCH_CODE@,
        Symbol::TitleSceneHowToPlay => TITLE_SCENE_SHOW_HOW_TO_PLAY_SEARCH_CODE@,
        Symbol::FilesystemInfo => FILESYSTEM_INFO_ADRP_SEARCH_CODE@,
        Symbol::ResService => RES_SERVICE_ADRP_SEARCH_CODE@,
        Symbol::PacketSend => PACKET_SEND_SEARCH_CODE@,
        Symbol::LuaMagicCheck => LUA_MAGIC_CHECK_SEARCH_CODE@,
        Symbol::InklingPatch => INKLING_PATCH_SEARCH_CODE@,
        Symbol::ClearInkPatch => CLEAR_INK_SEARCH_CODE@,
        Symbol::SetGlobalColorForClassicMode => SET_GLOBAL_COLOR_FOR_CLASSIC_MODE_SEARCH_CODE@,
        Symbol::LoadChara1ForAllCostumes => LOAD_CHARA_1_FOR_ALL_COSTUMES_SEARCH_CODE@,
        Symbol::LoadUiFile => LOAD_UI_FILE_SEARCH_CODE@,
        Symbol::GetUiCharaPathFromHash => GET_UI_CHARA_PATH_FROM_HASH_SEARCH@,
        Symbol::GetColorNumFromHash => GET_COLOR_NUM_SEARCH_CODE@,
        Symbol::GetEchoFromHash => GET_ECHO_FROM_HASH_SEARCH_CODE@,
        Symbol::LoadStockIconForPortraitMenu => LOAD_STOCK_ICON_FOR_PORTRAIT_MENU_SEARCH_CODE@,
        Symbol::CssSetSelectedCharacterUi => CSS_SET_SELECTED_CHARACTER_UI_SEARCH_CODE@,
        Symbol::CharaSelectSceneDestructor => CHARA_SELECT_SCENE_DESTRUCTOR_SEARCH_CODE@,
        Symbol::ParametersCache => PARAMETERS_CACHE_SEARCH_CODE@,
        Symbol::IsOnline => IS_ONLINE_SEARCH_CODE@,
        Symbol::ChangeColorR => CHANGE_COLOR_R_CODE@,
        Symbol::ChangeColorL => CHANGE_COLOR_R_CODE@,
    }
}

/// The distance from where the search code of a symbol lies to the place that
/// it marks.
pub open spec fn search_shift(symbol: Symbol) -> int {
    match symbol {
        Symbol::LookupStreamHash => LOOKUP_STREAM_HASH_SEARCH_SHIFT as int,
        Symbol::Inflate => INFLATE_SEARCH_SHIFT as int,
        Symbol::Memcpy1 => MEMCPY_1_SEARCH_SHIFT as int,
        Symbol::Memcpy2 => MEMCPY_2_SEARCH_SHIFT as int,
        Symbol::Memcpy3 => MEMCPY_3_SEARCH_SHIFT as int,
        Symbol::InflateDirFile => INFLATE_DIR_FILE_SEARCH_SHIFT as int,
        Symbol::InitialLoading => INITIAL_LOADING_SEARCH_SHIFT as int,
        Symbol::ResLoadLoopStart => RES_LOAD_LOOP_START_SEARCH_SHIFT as int,
        Symbol::ResLoadLoopRefresh => RES_LOAD_LOOP_REFRESH_SEARCH_SHIFT as int,
        Symbol::TitleScreenVersion => TITLE_SCREEN_VERSION_SEARCH_SHIFT as int,
        Symbol::EshopButton => ESHOPMANAGER_SHOW_SEARCH_SHIFT as int,
        Symbol::MsbtText => MSBT_TEXT_SEARCH_SHIFT as int,
        Symbol::SkipOpening => SKIP_OPENING_SEARCH_SHIFT as int,
        Symbol::TitleScenePlayOpening => TITLE_SCREEN_OPENING_SEARCH_SHIFT as int,
        Symbol::TitleSceneHowToPlay => TITLE_SCENE_SHOW_HOW_TO_PLAY_SEARCH_SHIFT as int,
        Symbol::FilesystemInfo => FILESYSTEM_INFO_ADRP_SEARCH_SHIFT as int,
        Symbol::ResService => RES_SERVICE_ADRP_SEARCH_SHIFT as int,
        Symbol::PacketSend => PACKET_SEND_SEARCH_SHIFT as int,
        Symbol::LuaMagicCheck => LUA_MAGIC_CHECK_SEARCH_SHIFT as int,
        Symbol::InklingPatch => INKLING_PATCH_SEARCH_SHIFT as int,
        Symbol::ClearInkPatch => CLEAR_INK_SEARCH_SHIFT as int,
        Symbol::SetGlobalColorForClassicMode => {
            SET_GLOBAL_COLOR_FOR_CLASSIC_MODE_SEARCH_SHIFT as int
        },
        Symbol::LoadChara1ForAllCostumes => LOAD_CHARA_1_FOR_ALL_COSTUMES_SEARCH_SHIFT as int,
        Symbol::LoadUiFile => LOAD_UI_FILE_SEARCH_SHIFT as int,
        Symbol::GetUiCharaPathFromHash => GET_UI_CHARA_PATH_FROM_HASH_SEARCH_SHIFT as int,
        Symbol::GetColorNumFromHash => GET_COLOR_NUM_SEARCH_SHIFT as int,
        Symbol::GetEchoFromHash => GET_ECHO_FROM_HASH_SEARCH_SHIFT as int,
        Symbol::LoadStockIconForPortraitMenu => {
            LOAD_STOCK_ICON_FOR_PORTRAIT_MENU_SEARCH_SHIFT as int
        },
        Symbol::CssSetSelectedCharacterUi => CSS_SET_SELECTED_CHARACTER_UI_SEARCH_SHIFT as int,
        Symbol::CharaSelectSceneDestructor => CHARA_SELECT_SCENE_DESTRUCTOR_SEARCH_SHIFT as int,
        Symbol::ParametersCache => PARAMETERS_CACHE_SEARCH_SHIFT as int,
        Symbol::IsOnline => IS_ONLINE_SEARCH_SHIFT as int,
        Symbol::ChangeColorR => CHANGE_COLOR_R_SHIFT as int,
        Symbol::ChangeColorL => CHANGE_COLOR_R_SHIFT as int,
    }
}

/// How the place found for a symbol becomes its offset.
pub open spec fn resolution(symbol: Symbol) -> Resolution {
    match symbol {
        Symbol::FilesystemInfo | Symbol::ResService | Symbol::ParametersCache => {
            Resolution::PageScaled
        },
        Symbol::IsOnline => Resolution::PageUnscaled,
        Symbol::ChangeColorL => Resolution::Displaced,
        _ => Resolution::Direct,
    }
}

/// The place that the search code of a symbol marks in the image, if a scan
/// finds the code.
pub open spec fn located(text: Seq<u8>, symbol: Symbol) -> Option<usize> {
    match scan_result(text, code_signature(search_code(symbol))) {
        Some(at) => Some(displaced(at, search_shift(symbol)) as usize),
        None => None,
    }
}

/// The sum of a page and a byte offset, where both are there and the sum lies
/// within `usize`.
pub open spec fn page_reference(page: Option<usize>, offset: Option<usize>) -> Option<usize> {
    match (page, offset) {
        (Some(p), Some(o)) => if p + o <= usize::MAX {
            Some((p + o) as usize)
        } else {
            None
        },
        _ => None,
    }
}

/// The offset that a symbol resolves to in the image, if it does.
#[verifier::opaque]
pub open spec fn symbol_offset(text: Seq<u8>, symbol: Symbol) -> Option<usize> {
    match located(text, symbol) {
        None => None,
        Some(found) => match resolution(symbol) {
            Resolution::Direct => Some(found),
            Resolution::Displaced => Some(
                displaced(found as int, CHANGE_COLOR_L_DISTANCE as int) as usize,
            ),
            Resolution::PageScaled => page_reference(
                resolved_page(text, found as int),
                resolved_scaled(text, found + INSTRUCTION_SIZE),
            ),
            Resolution::PageUnscaled => page_reference(
                resolved_page(text, found as int),
                resolved_unscaled(text, found + INSTRUCTION_SIZE),
            ),
        },
    }
}

/// Whether every symbol resolves in the image.
pub open spec fn resolvable(text: Seq<u8>) -> bool {
    forall|symbol: Symbol| (#[trigger] symbol_offset(text, symbol)) is Some
}

/// The offsets of the image: those of all its symbols, if every one resolves.
pub open spec fn offsets_for(text: Seq<u8>) -> Option<Offsets> {
    if resolvable(text) {
        Some(
            Offsets {
                lookup_stream_hash: symbol_offset(text, Symbol::LookupStreamHash)->Some_0,
                inflate: symbol_offset(text, Symbol::Inflate)->Some_0,
                memcpy_1: symbol_offset(text, Symbol::Memcpy1)->Some_0,
                memcpy_2: symbol_offset(text, Symbol::Memcpy2)->Some_0,
                memcpy_3: symbol_offset(text, Symbol::Memcpy3)->Some_0,
                inflate_dir_file: symbol_offset(text, Symbol::InflateDirFile)->Some_0,
                initial_loading: symbol_offset(text, Symbol::InitialLoading)->Some_0,
                res_load_loop_start: symbol_offset(text, Symbol::ResLoadLoopStart)->Some_0,
                res_load_loop_refresh: symbol_offset(text, Symbol::ResLoadLoopRefresh)->Some_0,
                title_screen_version: symbol_offset(text, Symbol::TitleScreenVersion)->Some_0,
                eshop_button: symbol_offset(text, Symbol::EshopButton)->Some_0,
                msbt_text: symbol_offset(text, Symbol::MsbtText)->Some_0,
                skip_opening: symbol_offset(text, Symbol::SkipOpening)->Some_0,
                title_scene_play_opening: symbol_offset(
                    text,
                    Symbol::TitleScenePlayOpening,
                )->Some_0,
                title_scene_how_to_play: symbol_offset(text, Symbol::TitleSceneHowToPlay)->Some_0,
                filesystem_info: symbol_offset(text, Symbol::FilesystemInfo)->Some_0,
                res_service: symbol_offset(text, Symbol::ResService)->Some_0,
                packet_send: symbol_offset(text, Symbol::PacketSend)->Some_0,
                lua_magic_check: symbol_offset(text, Symbol::LuaMagicCheck)->Some_0,
                inkling_patch: symbol_offset(text, Symbol::InklingPatch)->Some_0,
                clear_ink_patch: symbol_offset(text, Symbol::ClearInkPatch)->Some_0,
                set_global_color_for_classic_mode: symbol_offset(
                    text,
                    Symbol::SetGlobalColorForClassicMode,
                )->Some_0,
                load_chara_1_for_all_costumes: symbol_offset(
                    text,
                    Symbol::LoadChara1ForAllCostumes,
                )->Some_0,
                load_ui_file: symbol_offset(text, Symbol::LoadUiFile)->Some_0,
                get_ui_chara_path_from_hash: symbol_offset(
                    text,
                    Symbol::GetUiCharaPathFromHash,
                )->Some_0,
                get_color_num_from_hash: symbol_offset(text, Symbol::GetColorNumFromHash)->Some_0,
                get_echo_from_hash: symbol_offset(text, Symbol::GetEchoFromHash)->Some_0,
                load_stock_icon_for_portrait_menu: symbol_offset(
                    text,
                    Symbol::LoadStockIconForPortraitMenu,
                )->Some_0,
                css_set_selected_character_ui: symbol_offset(
                    text,
                    Symbol::CssSetSelectedCharacterUi,
                )->Some_0,
                chara_select_scene_destructor: symbol_offset(
                    text,
                    Symbol::CharaSelectSceneDestructor,
                )->Some_0,
                parameters_cache: symbol_offset(text, Symbol::ParametersCache)->Some_0,
                is_online: symbol_offset(text, Symbol::IsOnline)->Some_0,
                change_color_r: symbol_offset(text, Symbol::ChangeColorR)->Some_0,
                change_color_l: symbol_offset(text, Symbol::ChangeColorL)->Some_0,
            },
        )
    } else {
        None
    }
}

/// What initialization returns for a persisted registry, if there is one, and
/// the image: the persisted offsets where their version is the expected one,
/// those computed from the image otherwise, and whether they were computed.
pub open spec fn initialized(
    expected: Seq<char>,
    persisted: Option<(Seq<char>, Offsets)>,
    text: Seq<u8>,
) -> Result<(Offsets, bool), OffsetError> {
    if persisted is Some && persisted->Some_0.0 == expected {
        Ok((persisted->Some_0.1, false))
    } else {
        match offsets_for(text) {
            Some(offsets) => Ok((offsets, true)),
            None => Err(OffsetError::RegistryInitFailure),
        }
    }
}

impl View for Registry {
    type V = (Seq<char>, Offsets);

    open spec fn view(&self) -> (Seq<char>, Offsets) {
        (self.version@, self.offsets)
    }
}

fn locate_code<const N: usize>(text: &[u8], code: &[u8; N], shift: isize) -> (r: Option<usize>)
    ensures
        r == match scan_result(text@, code_signature(code@)) {
            Some(at) => if N > 0 {
                Some(displaced(at, shift as int) as usize)
            } else {
                None
            },
            None => None,
        },
{
    match get_offset_neon(text, (code.as_slice(), shift)) {
        Ok(offset) => Some(offset),
        Err(_) => None,
    }
}

/// Scans the image for the search code of a symbol and returns the place that
/// it marks.
pub fn locate(text: &[u8], symbol: Symbol) -> (r: Option<usize>)
    ensures
        r == located(text@, symbol),
{
    match symbol {
        Symbol::LookupStreamHash => locate_code(
            text,
            &LOOKUP_STREAM_HASH_SEARCH_CODE,
            LOOKUP_STREAM_HASH_SEARCH_SHIFT,
        ),
        Symbol::Inflate => locate_code(text, &INFLATE_SEARCH_CODE, INFLATE_SEARCH_SHIFT),
        Symbol::Memcpy1 => locate_code(text, &MEMCPY_1_SEARCH_CODE, MEMCPY_1_SEARCH_SHIFT),
        Symbol::Memcpy2 => locate_code(text, &MEMCPY_2_SEARCH_CODE, MEMCPY_2_SEARCH_SHIFT),
        Symbol::Memcpy3 => locate_code(text, &MEMCPY_3_SEARCH_CODE, MEMCPY_3_SEARCH_SHIFT),
        Symbol::InflateDirFile => locate_code(
            text,
            &INFLATE_DIR_FILE_SEARCH_CODE,
            INFLATE_DIR_FILE_SEARCH_SHIFT,
        ),
        Symbol::InitialLoading => locate_code(
            text,
            &INITIAL_LOADING_SEARCH_CODE,
            INITIAL_LOADING_SEARCH_SHIFT,
        ),
        Symbol::ResLoadLoopStart => locate_code(
            text,
            &RES_LOAD_LOOP_START_SEARCH_CODE,
            RES_LOAD_LOOP_START_SEARCH_SHIFT,
        ),
        Symbol::ResLoadLoopRefresh => locate_code(
            text,
            &RES_LOAD_LOOP_REFRESH_SEARCH_CODE,
            RES_LOAD_LOOP_REFRESH_SEARCH_SHIFT,
        ),
        Symbol::TitleScreenVersion => locate_code(
            text,
            &TITLE_SCREEN_VERSION_SEARCH_CODE,
            TITLE_SCREEN_VERSION_SEARCH_SHIFT,
        ),
        Symbol::EshopButton => locate_code(
            text,
            &ESHOPMANAGER_SHOW_SEARCH_CODE,
            ESHOPMANAGER_SHOW_SEARCH_SHIFT,
        ),
        Symbol::MsbtText => locate_code(text, &MSBT_TEXT_SEARCH_CODE, MSBT_TEXT_SEARCH_SHIFT),
        Symbol::SkipOpening => locate_code(
            text,
            &SKIP_OPENING_SEARCH_CODE,
            SKIP_OPENING_SEARCH_SHIFT,
        ),
        Symbol::TitleScenePlayOpening => locate_code(
            text,
            &TITLE_SCREEN_OPENING_SEARCH_CODE,
            TITLE_SCREEN_OPENING_SEARCH_SHIFT,
        ),
        Symbol::TitleSceneHowToPlay => locate_code(
            text,
            &TITLE_SCENE_SHOW_HOW_TO_PLAY_SEARCH_CODE,
            TITLE_SCENE_SHOW_HOW_TO_PLAY_SEARCH_SHIFT,
        ),
        Symbol::FilesystemInfo => locate_code(
            text,
            &FILESYSTEM_INFO_ADRP_SEARCH_CODE,
            FILESYSTEM_INFO_ADRP_SEARCH_SHIFT,
        ),
        Symbol::ResService => locate_code(
            text,
            &RES_SERVICE_ADRP_SEARCH_CODE,
            RES_SERVICE_ADRP_SEARCH_SHIFT,
        ),
        Symbol::PacketSend => locate_code(text, &PACKET_SEND_SEARCH_CODE, PACKET_SEND_SEARCH_SHIFT),
        Symbol::LuaMagicCheck => locate_code(
            text,
            &LUA_MAGIC_CHECK_SEARCH_CODE,
            LUA_MAGIC_CHECK_SEARCH_SHIFT,
        ),
        Symbol::InklingPatch => locate_code(
            text,
            &INKLING_PATCH_SEARCH_CODE,
            INKLING_PATCH_SEARCH_SHIFT,
        ),
        Symbol::ClearInkPatch => locate_code(text, &CLEAR_INK_SEARCH_CODE, CLEAR_INK_SEARCH_SHIFT),
        Symbol::SetGlobalColorForClassicMode => locate_code(
            text,
            &SET_GLOBAL_COLOR_FOR_CLASSIC_MODE_SEARCH_CODE,
            SET_GLOBAL_COLOR_FOR_CLASSIC_MODE_SEARCH_SHIFT,
        ),
        Symbol::LoadChara1ForAllCostumes => locate_code(
            text,
            &LOAD_CHARA_1_FOR_ALL_COSTUMES_SEARCH_CODE,
            LOAD_CHARA_1_FOR_ALL_COSTUMES_SEARCH_SHIFT,
        ),
        Symbol::LoadUiFile => locate_code(
            text,
            &LOAD_UI_FILE_SEARCH_CODE,
            LOAD_UI_FILE_SEARCH_SHIFT,
        ),
        Symbol::GetUiCharaPathFromHash => locate_code(
            text,
            &GET_UI_CHARA_PATH_FROM_HASH_SEARCH,
            GET_UI_CHARA_PATH_FROM_HASH_SEARCH_SHIFT,
        ),
        Symbol::GetColorNumFromHash => locate_code(
            text,
            &GET_COLOR_NUM_SEARCH_CODE,
            GET_COLOR_NUM_SEARCH_SHIFT,
        ),
        Symbol::GetEchoFromHash => locate_code(
            text,
            &GET_ECHO_FROM_HASH_SEARCH_CODE,
            GET_ECHO_FROM_HASH_SEARCH_SHIFT,
        ),
        Symbol::LoadStockIconForPortraitMenu => locate_code(
            text,
            &LOAD_STOCK_ICON_FOR_PORTRAIT_MENU_SEARCH_CODE,
            LOAD_STOCK_ICON_FOR_PORTRAIT_MENU_SEARCH_SHIFT,
        ),
        Symbol::CssSetSelectedCharacterUi => locate_code(
            text,
            &CSS_SET_SELECTED_CHARACTER_UI_SEARCH_CODE,
            CSS_SET_SELECTED_CHARACTER_UI_SEARCH_SHIFT,
        ),
        Symbol::CharaSelectSceneDestructor => locate_code(
            text,
            &CHARA_SELECT_SCENE_DESTRUCTOR_SEARCH_CODE,
            CHARA_SELECT_SCENE_DESTRUCTOR_SEARCH_SHIFT,
        ),
        Symbol::ParametersCache => locate_code(
            text,
            &PARAMETERS_CACHE_SEARCH_CODE,
            PARAMETERS_CACHE_SEARCH_SHIFT,
        ),
        Symbol::IsOnline => locate_code(text, &IS_ONLINE_SEARCH_CODE, IS_ONLINE_SEARCH_SHIFT),
        Symbol::ChangeColorR => locate_code(text, &CHANGE_COLOR_R_CODE, CHANGE_COLOR_R_SHIFT),
        Symbol::ChangeColorL => locate_code(text, &CHANGE_COLOR_R_CODE, CHANGE_COLOR_R_SHIFT),
    }
}

/// How the place found for a symbol becomes its offset.
pub fn resolution_of(symbol: Symbol) -> (r: Resolution)
    ensures
        r == resolution(symbol),
{
    match symbol {
        Symbol::FilesystemInfo | Symbol::ResService | Symbol::ParametersCache => {
            Resolution::PageScaled
        },
        Symbol::IsOnline => Resolution::PageUnscaled,
        Symbol::ChangeColorL => Resolution::Displaced,
        _ => Resolution::Direct,
    }
}

/// Adds a page and a byte offset, where both are there and the sum lies within
/// `usize`.
pub fn add_page_reference(page: Option<usize>, offset: Option<usize>) -> (r: Option<usize>)
    ensures
        r == page_reference(page, offset),
{
    match (page, offset) {
        (Some(p), Some(o)) => p.checked_add(o),
        _ => None,
    }
}

/// Resolves one symbol against the image: finds its search code and, for a
/// symbol that is referenced indirectly, follows the reference at that place.
pub fn resolve_symbol(text: &[u8], symbol: Symbol) -> (r: Option<usize>)
    ensures
        r == symbol_offset(text@, symbol),
{
    proof {
        reveal(symbol_offset);
    }
    let found: usize = match locate(text, symbol) {
        Some(found) => found,
        None => {
            return None;
        },
    };
    let text_len: usize = text.len();
    match resolution_of(symbol) {
        Resolution::Direct => Some(found),
        Resolution::Displaced => Some(apply_displacement(found, CHANGE_COLOR_L_DISTANCE)),
        Resolution::PageScaled => {
            if found > usize::MAX - INSTRUCTION_SIZE {
                return None;
            }
            add_page_reference(
                offset_from_adrp(text, found),
                offset_from_ldr(text, found + INSTRUCTION_SIZE),
            )
        },
        Resolution::PageUnscaled => {
            if found > usize::MAX - INSTRUCTION_SIZE {
                return None;
            }
            add_page_reference(
                offset_from_adrp(text, found),
                offset_from_strb_unsigned_immediate(text, found + INSTRUCTION_SIZE),
            )
        },
    }
}

/// The offset of `change_color_l` lies a fixed distance behind that of
/// `change_color_r`.
pub proof fn lemma_change_color_l(text: Seq<u8>)
    ensures
        symbol_offset(text, Symbol::ChangeColorL) == match symbol_offset(
            text,
            Symbol::ChangeColorR,
        ) {
            Some(right) => Some(displaced(right as int, CHANGE_COLOR_L_DISTANCE as int) as usize),
            None => None,
        },
{
    reveal(symbol_offset);
}

impl Offsets {
    /// The offset of a symbol.
    pub open spec fn offset_of(&self, symbol: Symbol) -> usize {
        match symbol {
            Symbol::LookupStreamHash => self.lookup_stream_hash,
            Symbol::Inflate => self.inflate,
            Symbol::Memcpy1 => self.memcpy_1,
            Symbol::Memcpy2 => self.memcpy_2,
            Symbol::Memcpy3 => self.memcpy_3,
            Symbol::InflateDirFile => self.inflate_dir_file,
            Symbol::InitialLoading => self.initial_loading,
            Symbol::ResLoadLoopStart => self.res_load_loop_start,
            Symbol::ResLoadLoopRefresh => self.res_load_loop_refresh,
            Symbol::TitleScreenVersion => self.title_screen_version,
            Symbol::EshopButton => self.eshop_button,
            Symbol::MsbtText => self.msbt_text,
            Symbol::SkipOpening => self.skip_opening,
            Symbol::TitleScenePlayOpening => self.title_scene_play_opening,
            Symbol::TitleSceneHowToPlay => self.title_scene_how_to_play,
            Symbol::FilesystemInfo => self.filesystem_info,
            Symbol::ResService => self.res_service,
            Symbol::PacketSend => self.packet_send,
            Symbol::LuaMagicCheck => self.lua_magic_check,
            Symbol::InklingPatch => self.inkling_patch,
            Symbol::ClearInkPatch => self.clear_ink_patch,
            Symbol::SetGlobalColorForClassicMode => self.set_global_color_for_classic_mode,
            Symbol::LoadChara1ForAllCostumes => self.load_chara_1_for_all_costumes,
            Symbol::LoadUiFile => self.load_ui_file,
            Symbol::GetUiCharaPathFromHash => self.get_ui_chara_path_from_hash,
            Symbol::GetColorNumFromHash => self.get_color_num_from_hash,
            Symbol::GetEchoFromHash => self.get_echo_from_hash,
            Symbol::LoadStockIconForPortraitMenu => self.load_stock_icon_for_portrait_menu,
            Symbol::CssSetSelectedCharacterUi => self.css_set_selected_character_ui,
            Symbol::CharaSelectSceneDestructor => self.chara_select_scene_destructor,
            Symbol::ParametersCache => self.parameters_cache,
            Symbol::IsOnline => self.is_online,
            Symbol::ChangeColorR => self.change_color_r,
            Symbol::ChangeColorL => self.change_color_l,
        }
    }

    /// Resolves every symbol against the image. There are no offsets unless
    /// every symbol resolves.
    pub fn new(text: &[u8]) -> (r: Option<Self>)
        ensures
            r == offsets_for(text@),
    {
        let lookup_stream_hash: usize = resolve_symbol(text, Symbol::LookupStreamHash)?;
        let inflate: usize = resolve_symbol(text, Symbol::Inflate)?;
        let memcpy_1: usize = resolve_symbol(text, Symbol::Memcpy1)?;
        let memcpy_2: usize = resolve_symbol(text, Symbol::Memcpy2)?;
        let memcpy_3: usize = resolve_symbol(text, Symbol::Memcpy3)?;
        let inflate_dir_file: usize = resolve_symbol(text, Symbol::InflateDirFile)?;
        let initial_loading: usize = resolve_symbol(text, Symbol::InitialLoading)?;
        let res_load_loop_start: usize = resolve_symbol(text, Symbol::ResLoadLoopStart)?;
        let res_load_loop_refresh: usize = resolve_symbol(text, Symbol::ResLoadLoopRefresh)?;
        let title_screen_version: usize = resolve_symbol(text, Symbol::TitleScreenVersion)?;
        let eshop_button: usize = resolve_symbol(text, Symbol::EshopButton)?;
        let msbt_text: usize = resolve_symbol(text, Symbol::MsbtText)?;
        let skip_opening: usize = resolve_symbol(text, Symbol::SkipOpening)?;
        let title_scene_play_opening: usize = resolve_symbol(text, Symbol::TitleScenePlayOpening)?;
        let title_scene_how_to_play: usize = resolve_symbol(text, Symbol::TitleSceneHowToPlay)?;
        let filesystem_info: usize = resolve_symbol(text, Symbol::FilesystemInfo)?;
        let res_service: usize = resolve_symbol(text, Symbol::ResService)?;
        let packet_send: usize = resolve_symbol(text, Symbol::PacketSend)?;
        let lua_magic_check: usize = resolve_symbol(text, Symbol::LuaMagicCheck)?;
        let inkling_patch: usize = resolve_symbol(text, Symbol::InklingPatch)?;
        let clear_ink_patch: usize = resolve_symbol(text, Symbol::ClearInkPatch)?;
        let set_global_color_for_classic_mode: usize = resolve_symbol(
            text,
            Symbol::SetGlobalColorForClassicMode,
        )?;
        let load_chara_1_for_all_costumes: usize = resolve_symbol(
            text,
            Symbol::LoadChara1ForAllCostumes,
        )?;
        let load_ui_file: usize = resolve_symbol(text, Symbol::LoadUiFile)?;
        let get_ui_chara_path_from_hash: usize = resolve_symbol(
            text,
            Symbol::GetUiCharaPathFromHash,
        )?;
        let get_color_num_from_hash: usize = resolve_symbol(text, Symbol::GetColorNumFromHash)?;
        let get_echo_from_hash: usize = resolve_symbol(text, Symbol::GetEchoFromHash)?;
        let load_stock_icon_for_portrait_menu: usize = resolve_symbol(
            text,
            Symbol::LoadStockIconForPortraitMenu,
        )?;
        let css_set_selected_character_ui: usize = resolve_symbol(
            text,
            Symbol::CssSetSelectedCharacterUi,
        )?;
        let chara_select_scene_destructor: usize = resolve_symbol(
            text,
            Symbol::CharaSelectSceneDestructor,
        )?;
        let parameters_cache: usize = resolve_symbol(text, Symbol::ParametersCache)?;
        let is_online: usize = resolve_symbol(text, Symbol::IsOnline)?;
        let change_color_r: usize = resolve_symbol(text, Symbol::ChangeColorR)?;
        let change_color_l: usize = apply_displacement(change_color_r, CHANGE_COLOR_L_DISTANCE);
        proof {
            lemma_change_color_l(text@);
        }
        let offsets = Offsets {
            lookup_stream_hash,
            inflate,
            memcpy_1,
            memcpy_2,
            memcpy_3,
            inflate_dir_file,
            initial_loading,
            res_load_loop_start,
            res_load_loop_refresh,
            title_screen_version,
            eshop_button,
            msbt_text,
            skip_opening,
            title_scene_play_opening,
            title_scene_how_to_play,
            filesystem_info,
            res_service,
            packet_send,
            lua_magic_check,
            inkling_patch,
            clear_ink_patch,
            set_global_color_for_classic_mode,
            load_chara_1_for_all_costumes,
            load_ui_file,
            get_ui_chara_path_from_hash,
            get_color_num_from_hash,
            get_echo_from_hash,
            load_stock_icon_for_portrait_menu,
            css_set_selected_character_ui,
            chara_select_scene_destructor,
            parameters_cache,
            is_online,
            change_color_r,
            change_color_l,
        };
        proof {
            assert forall|symbol: Symbol| (#[trigger] symbol_offset(text@, symbol)) is Some by {
                assert(offsets.offset_of(symbol) == symbol_offset(text@, symbol)->Some_0);
            }
        }
        Some(offsets)
    }

    /// The offset of a symbol.
    pub fn lookup(&self, symbol: Symbol) -> (r: usize)
        ensures
            r == self.offset_of(symbol),
    {
        match symbol {
            Symbol::LookupStreamHash => self.lookup_stream_hash,
            Symbol::Inflate => self.inflate,
            Symbol::Memcpy1 => self.memcpy_1,
            Symbol::Memcpy2 => self.memcpy_2,
            Symbol::Memcpy3 => self.memcpy_3,
            Symbol::InflateDirFile => self.inflate_dir_file,
            Symbol::InitialLoading => self.initial_loading,
            Symbol::ResLoadLoopStart => self.res_load_loop_start,
            Symbol::ResLoadLoopRefresh => self.res_load_loop_refresh,
            Symbol::TitleScreenVersion => self.title_screen_version,
            Symbol::EshopButton => self.eshop_button,
            Symbol::MsbtText => self.msbt_text,
            Symbol::SkipOpening => self.skip_opening,
            Symbol::TitleScenePlayOpening => self.title_scene_play_opening,
            Symbol::TitleSceneHowToPlay => self.title_scene_how_to_play,
            Symbol::FilesystemInfo => self.filesystem_info,
            Symbol::ResService => self.res_service,
            Symbol::PacketSend => self.packet_send,
            Symbol::LuaMagicCheck => self.lua_magic_check,
            Symbol::InklingPatch => self.inkling_patch,
            Symbol::ClearInkPatch => self.clear_ink_patch,
            Symbol::SetGlobalColorForClassicMode => self.set_global_color_for_classic_mode,
            Symbol::LoadChara1ForAllCostumes => self.load_chara_1_for_all_costumes,
            Symbol::LoadUiFile => self.load_ui_file,
            Symbol::GetUiCharaPathFromHash => self.get_ui_chara_path_from_hash,
            Symbol::GetColorNumFromHash => self.get_color_num_from_hash,
            Symbol::GetEchoFromHash => self.get_echo_from_hash,
            Symbol::LoadStockIconForPortraitMenu => self.load_stock_icon_for_portrait_menu,
            Symbol::CssSetSelectedCharacterUi => self.css_set_selected_character_ui,
            Symbol::CharaSelectSceneDestructor => self.chara_select_scene_destructor,
            Symbol::ParametersCache => self.parameters_cache,
            Symbol::IsOnline => self.is_online,
            Symbol::ChangeColorR => self.change_color_r,
            Symbol::ChangeColorL => self.change_color_l,
        }
    }
}

impl Registry {
    /// Accepts a persisted registry if there is one and its version tag is the
    /// expected one.
    pub fn check_persisted(expected_version: &str, persisted: Option<Registry>) -> (r: Result<
        Registry,
        OffsetError,
    >)
        ensures
            persisted is Some && persisted->Some_0.version@ == expected_version@ ==> r
                == Ok::<Registry, OffsetError>(persisted->Some_0),
            !(persisted is Some && persisted->Some_0.version@ == expected_version@) ==> r
                == Err::<Registry, OffsetError>(OffsetError::RegistryLoadFailure),
    {
        match persisted {
            Some(registry) => {
                let expected: String = expected_version.to_owned();
                if registry.version == expected {
                    Ok(registry)
                } else {
                    Err(OffsetError::RegistryLoadFailure)
                }
            },
            None => Err(OffsetError::RegistryLoadFailure),
        }
    }

    /// Sets the registry up: a persisted registry with the expected version
    /// tag is taken as it is, with no scan of the image; otherwise every symbol
    /// is resolved against the image, and the result is to be persisted. A
    /// symbol that does not resolve fails the whole initialization.
    pub fn initialize(expected_version: &str, persisted: Option<Registry>, text: &[u8]) -> (r:
        Result<Initialized, OffsetError>)
        ensures
            match initialized(
                expected_version@,
                match persisted {
                    Some(registry) => Some(registry@),
                    None => None,
                },
                text@,
            ) {
                Ok((offsets, persist)) => r is Ok && r->Ok_0.registry.version@ == expected_version@
                    && r->Ok_0.registry.offsets == offsets && r->Ok_0.persist == persist,
                Err(e) => r is Err && r->Err_0 == e,
            },
    {
        match Registry::check_persisted(expected_version, persisted) {
            Ok(registry) => Ok(Initialized { registry, persist: false }),
            Err(_) => match Offsets::new(text) {
                Some(offsets) => Ok(
                    Initialized {
                        registry: Registry { version: expected_version.to_owned(), offsets },
                        persist: true,
                    },
                ),
                None => Err(OffsetError::RegistryInitFailure),
            },
        }
    }
}

/// The offsets of an image hold, for every symbol, what that symbol resolves
/// to in the image.
pub proof fn law_offsets_hold_every_symbol(text: Seq<u8>, symbol: Symbol)
    requires
        offsets_for(text) is Some,
    ensures
        symbol_offset(text, symbol) == Some(offsets_for(text)->Some_0.offset_of(symbol)),
{
}

/// A registry that was computed from an image and is handed back as the
/// persisted one, under the same version, is returned as it is, whatever image
/// is at hand then, and holds the offsets that a fresh computation from the
/// first image gives.
pub proof fn law_reload_equals_fresh(
    version: Seq<char>,
    text: Seq<u8>,
    later_text: Seq<u8>,
    offsets: Offsets,
)
    requires
        initialized(version, None, text) == Ok::<(Offsets, bool), OffsetError>((offsets, true)),
    ensures
        initialized(version, Some((version, offsets)), later_text) == Ok::<
            (Offsets, bool),
            OffsetError,
        >((offsets, false)),
        offsets_for(text) == Some(offsets),
{
}

} // verus!
