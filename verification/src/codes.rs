//! The search codes of the image: for each, the bytes to find and the
//! distance from where they lie to what they stand for.

use vstd::prelude::*;

verus! {

/// Bytes by which `filesystem_info` is found.
pub const FILESYSTEM_INFO_ADRP_SEARCH_CODE: [u8; 12] = [
    0xf3, 0x03, 0x00, 0xaa, 0x1f, 0x01, 0x09, 0x6b, 0xe0, 0x04, 0x00, 0x54,
];

/// Distance from those bytes to the place that they mark.
pub const FILESYSTEM_INFO_ADRP_SEARCH_SHIFT: isize = 12;

/// Bytes by which `res_service` is found.
pub const RES_SERVICE_ADRP_SEARCH_CODE: [u8; 16] = [
    0x04, 0x01, 0x49, 0xfa, 0x21, 0x05, 0x00, 0x54, 0x5f, 0x00, 0x00, 0xf9,
    0x7f, 0x00, 0x00, 0xf9,
];

/// Distance from those bytes to the place that they mark.
pub const RES_SERVICE_ADRP_SEARCH_SHIFT: isize = 0x10;

/// Bytes by which `lookup_stream_hash` is found.
pub const LOOKUP_STREAM_HASH_SEARCH_CODE: [u8; 24] = [
    0x29, 0x58, 0x40, 0xf9, 0x28, 0x60, 0x40, 0xf9, 0x2a, 0x05, 0x40, 0xb9,
    0x09, 0x0d, 0x0a, 0x8b, 0xaa, 0x01, 0x00, 0x34, 0x5f, 0x01, 0x00, 0xf1,
];

/// Distance from those bytes to the place that they mark.
pub const LOOKUP_STREAM_HASH_SEARCH_SHIFT: isize = 0x0;

/// Bytes by which `title_screen_version` is found.
pub const TITLE_SCREEN_VERSION_SEARCH_CODE: [u8; 28] = [
    0xfc, 0x0f, 0x1d, 0xf8, 0xf4, 0x4f, 0x01, 0xa9, 0xfd, 0x7b, 0x02, 0xa9,
    0xfd, 0x83, 0x00, 0x91, 0xff, 0x07, 0x40, 0xd1, 0xf4, 0x03, 0x01, 0xaa,
    0xf3, 0x03, 0x00, 0xaa,
];

/// Distance from those bytes to the place that they mark.
pub const TITLE_SCREEN_VERSION_SEARCH_SHIFT: isize = 0x0;

/// Bytes by which `eshop_button` is found.
pub const ESHOPMANAGER_SHOW_SEARCH_CODE: [u8; 16] = [
    0x08, 0xe1, 0x43, 0xf9, 0x14, 0x05, 0x40, 0xf9, 0x88, 0x22, 0x44, 0x39,
    0x08, 0x04, 0x00, 0x35,
];

/// Distance from those bytes to the place that they mark.
pub const ESHOPMANAGER_SHOW_SEARCH_SHIFT: isize = -0x10;

/// Bytes by which `inflate` is found.
pub const INFLATE_SEARCH_CODE: [u8; 20] = [
    0x4b, 0x00, 0x1b, 0x0b, 0x00, 0x01, 0x1f, 0xd6, 0x68, 0x6a, 0x40, 0xf9,
    0x09, 0x3d, 0x40, 0xf9, 0x2c, 0x01, 0x40, 0xf9,
];

/// Distance from those bytes to the place that they mark.
pub const INFLATE_SEARCH_SHIFT: isize = 0x0;

/// Bytes by which `memcpy_1` is found.
pub const MEMCPY_1_SEARCH_CODE: [u8; 16] = [
    0xf5, 0x1f, 0x40, 0xb9, 0xa7, 0x00, 0x00, 0x14, 0xe2, 0xa3, 0x00, 0x91,
    0xe4, 0xc3, 0x00, 0x91,
];

/// Distance from those bytes to the place that they mark.
pub const MEMCPY_1_SEARCH_SHIFT: isize = -0x4;

/// Bytes by which `memcpy_2` is found.
pub const MEMCPY_2_SEARCH_CODE: [u8; 20] = [
    0xf8, 0x1b, 0x40, 0xf9, 0x1f, 0x03, 0x15, 0xeb, 0xa2, 0x2a, 0x00, 0x54,
    0x96, 0x03, 0x18, 0x8b, 0x68, 0x1a, 0x40, 0xf9,
];

/// Distance from those bytes to the place that they mark.
pub const MEMCPY_2_SEARCH_SHIFT: isize = -0x4;

/// Bytes by which `memcpy_3` is found.
pub const MEMCPY_3_SEARCH_CODE: [u8; 20] = [
    0xe8, 0x03, 0x18, 0xaa, 0xf8, 0x1b, 0x40, 0xf9, 0xd6, 0x02, 0x18, 0x8b,
    0xbf, 0x02, 0x18, 0xeb, 0x88, 0xfb, 0xff, 0x54,
];

/// Distance from those bytes to the place that they mark.
pub const MEMCPY_3_SEARCH_SHIFT: isize = -0x4;

/// Bytes by which `inflate_dir_file` is found.
pub const INFLATE_DIR_FILE_SEARCH_CODE: [u8; 36] = [
    0xfc, 0x6f, 0xba, 0xa9, 0xfa, 0x67, 0x01, 0xa9, 0xf8, 0x5f, 0x02, 0xa9,
    0xf6, 0x57, 0x03, 0xa9, 0xf4, 0x4f, 0x04, 0xa9, 0xfd, 0x7b, 0x05, 0xa9,
    0xfd, 0x43, 0x01, 0x91, 0xff, 0x03, 0x07, 0xd1, 0x4c, 0xb4, 0x40, 0xa9,
];

/// Distance from those bytes to the place that they mark.
pub const INFLATE_DIR_FILE_SEARCH_SHIFT: isize = 0x0;

/// Bytes by which `initial_loading` is found.
pub const INITIAL_LOADING_SEARCH_CODE: [u8; 20] = [
    0x08, 0x3f, 0x40, 0xf9, 0x08, 0x01, 0x40, 0xf9, 0x08, 0x21, 0x40, 0xf9,
    0x08, 0x3d, 0x40, 0xb9, 0x08, 0x5d, 0x00, 0x12,
];

/// Distance from those bytes to the place that they mark.
pub const INITIAL_LOADING_SEARCH_SHIFT: isize = 0x0;

/// Bytes by which `res_load_loop_start` is found.
pub const RES_LOAD_LOOP_START_SEARCH_CODE: [u8; 24] = [
    0x2a, 0x05, 0x09, 0x8b, 0x6e, 0x62, 0x01, 0x91, 0xdf, 0x01, 0x1b, 0xeb,
    0x4d, 0xf1, 0x7d, 0xd3, 0xca, 0x01, 0x0d, 0x8b, 0x6d, 0x03, 0x0d, 0x8b,
];

/// Distance from those bytes to the place that they mark.
pub const RES_LOAD_LOOP_START_SEARCH_SHIFT: isize = 0x0;

/// Bytes by which `res_load_loop_refresh` is found.
pub const RES_LOAD_LOOP_REFRESH_SEARCH_CODE: [u8; 20] = [
    0x68, 0x32, 0x40, 0xf9, 0xee, 0x1b, 0x40, 0xf9, 0xdf, 0x01, 0x08, 0xeb,
    0xec, 0x3f, 0x40, 0xf9, 0xed, 0x37, 0x40, 0xf9,
];

/// Distance from those bytes to the place that they mark.
pub const RES_LOAD_LOOP_REFRESH_SEARCH_SHIFT: isize = 0x0;

/// Bytes by which `packet_send` is found.
pub const PACKET_SEND_SEARCH_CODE: [u8; 16] = [
    0x28, 0x4c, 0x43, 0xb9, 0x08, 0x4c, 0x03, 0xb9, 0xc0, 0x03, 0x5f, 0xd6,
    0x00, 0x00, 0x00, 0x00,
];

/// Distance from those bytes to the place that they mark.
pub const PACKET_SEND_SEARCH_SHIFT: isize = 0x10;

/// Bytes by which `lua_magic_check` is found.
pub const LUA_MAGIC_CHECK_SEARCH_CODE: [u8; 20] = [
    0xfd, 0x7b, 0x04, 0xa9, 0xfd, 0x03, 0x01, 0x91, 0x08, 0x04, 0x40, 0xf9,
    0x93, 0x00, 0x80, 0x52, 0x13, 0x00, 0xa8, 0x72,
];

/// Distance from those bytes to the place that they mark.
pub const LUA_MAGIC_CHECK_SEARCH_SHIFT: isize = 0xB0;

/// Bytes by which `inkling_patch` is found.
pub const INKLING_PATCH_SEARCH_CODE: [u8; 72] = [
    0x08, 0x95, 0x3e, 0x91, 0xe0, 0x1b, 0x80, 0x3d, 0x00, 0x04, 0xc0, 0x3d,
    0xe9, 0x0b, 0x1e, 0x32, 0xa1, 0xe3, 0x02, 0xd1, 0xe0, 0x17, 0x80, 0x3d,
    0x00, 0x08, 0xc0, 0x3d, 0xe0, 0x13, 0x80, 0x3d, 0x00, 0x0c, 0xc0, 0x3d,
    0xa9, 0x83, 0x14, 0x38, 0x09, 0x61, 0x40, 0xf8, 0x08, 0x01, 0x40, 0xf9,
    0xe0, 0x03, 0x15, 0xaa, 0xbf, 0x83, 0x15, 0xf8, 0x49, 0x73, 0x00, 0xf8,
    0x48, 0x13, 0x00, 0xf8, 0xbf, 0x73, 0x15, 0x38, 0xe0, 0x0f, 0x80, 0x3d,
];

/// Distance from those bytes to the place that they mark.
pub const INKLING_PATCH_SEARCH_SHIFT: isize = 0x74;

/// Bytes by which `clear_ink_patch` is found.
pub const CLEAR_INK_SEARCH_CODE: [u8; 72] = [
    0x08, 0xed, 0x19, 0x91, 0xe0, 0x17, 0x80, 0x3d, 0x00, 0x04, 0xc0, 0x3d,
    0xe9, 0x0b, 0x1e, 0x32, 0xa1, 0xe3, 0x02, 0xd1, 0xe0, 0x13, 0x80, 0x3d,
    0x00, 0x08, 0xc0, 0x3d, 0xe0, 0x0f, 0x80, 0x3d, 0x00, 0x0c, 0xc0, 0x3d,
    0xa9, 0x83, 0x14, 0x38, 0x09, 0x61, 0x40, 0xf8, 0x08, 0x01, 0x40, 0xf9,
    0xe0, 0x03, 0x15, 0xaa, 0xbf, 0x83, 0x15, 0xf8, 0xe9, 0x72, 0x00, 0xf8,
    0xe8, 0x12, 0x00, 0xf8, 0xbf, 0x73, 0x15, 0x38, 0xe0, 0x0b, 0x80, 0x3d,
];

/// Distance from those bytes to the place that they mark.
pub const CLEAR_INK_SEARCH_SHIFT: isize = 0x74;

/// Bytes by which `set_global_color_for_classic_mode` is found.
pub const SET_GLOBAL_COLOR_FOR_CLASSIC_MODE_SEARCH_CODE: [u8; 12] = [
    0xa9, 0x1a, 0x00, 0xb9, 0x01, 0x8d, 0x43, 0x79, 0x80, 0xee, 0x40, 0xf9,
];

/// Distance from those bytes to the place that they mark.
pub const SET_GLOBAL_COLOR_FOR_CLASSIC_MODE_SEARCH_SHIFT: isize = 0x0;

/// Bytes by which `load_chara_1_for_all_costumes` is found.
pub const LOAD_CHARA_1_FOR_ALL_COSTUMES_SEARCH_CODE: [u8; 72] = [
    0x88, 0xea, 0x40, 0xb9, 0x08, 0x01, 0x1e, 0x32, 0x88, 0xea, 0x00, 0xb9,
    0x88, 0x52, 0x40, 0xf9, 0xe9, 0x03, 0x00, 0x32, 0x89, 0xc6, 0x03, 0x39,
    0x9f, 0xd6, 0x03, 0x39, 0x89, 0xd2, 0x43, 0x39, 0x08, 0x41, 0x40, 0xf9,
    0x09, 0x31, 0x07, 0x39, 0x08, 0x00, 0x80, 0x12, 0x09, 0xe0, 0xdf, 0xd2,
    0xe9, 0x1f, 0xe1, 0xf2, 0x88, 0xee, 0x00, 0xb9, 0xe8, 0x0b, 0x00, 0x32,
    0xe0, 0x03, 0x13, 0xaa, 0x89, 0x7e, 0x00, 0xf9, 0x88, 0x02, 0x01, 0xb9,
];

/// Distance from those bytes to the place that they mark.
pub const LOAD_CHARA_1_FOR_ALL_COSTUMES_SEARCH_SHIFT: isize = -0xA94;

/// Bytes by which `load_ui_file` is found.
pub const LOAD_UI_FILE_SEARCH_CODE: [u8; 40] = [
    0xda, 0x2a, 0x00, 0xb9, 0xd3, 0x1a, 0x00, 0xf9, 0xfd, 0x7b, 0x46, 0xa9,
    0xf4, 0x4f, 0x45, 0xa9, 0xf6, 0x57, 0x44, 0xa9, 0xf8, 0x5f, 0x43, 0xa9,
    0xfa, 0x67, 0x42, 0xa9, 0xfc, 0x6f, 0x41, 0xa9, 0xff, 0xc3, 0x01, 0x91,
    0xc0, 0x03, 0x5f, 0xd6,
];

/// Distance from those bytes to the place that they mark.
pub const LOAD_UI_FILE_SEARCH_SHIFT: isize = 0x28;

/// Bytes by which `get_ui_chara_path_from_hash` is found.
pub const GET_UI_CHARA_PATH_FROM_HASH_SEARCH: [u8; 60] = [
    0xff, 0xc3, 0x06, 0xd1, 0xfc, 0x67, 0x16, 0xa9, 0xf8, 0x5f, 0x17, 0xa9,
    0xf6, 0x57, 0x18, 0xa9, 0xf4, 0x4f, 0x19, 0xa9, 0xfd, 0x7b, 0x1a, 0xa9,
    0xfd, 0x83, 0x06, 0x91, 0xf4, 0x03, 0x00, 0xaa, 0x18, 0x20, 0xf8, 0xd2,
    0x9f, 0x9e, 0x40, 0xf2, 0x8a, 0x1e, 0x48, 0x92, 0xe8, 0x07, 0x9f, 0x1a,
    0x5f, 0x01, 0x18, 0xeb, 0xe0, 0x03, 0x1f, 0xaa, 0xe9, 0x17, 0x9f, 0x1a,
];

/// Distance from those bytes to the place that they mark.
pub const GET_UI_CHARA_PATH_FROM_HASH_SEARCH_SHIFT: isize = 0x0;

/// Bytes by which `get_color_num_from_hash` is found.
pub const GET_COLOR_NUM_SEARCH_CODE: [u8; 68] = [
    0x68, 0x26, 0x40, 0xf9, 0x6e, 0x0e, 0x40, 0xf9, 0x0c, 0x9d, 0x40, 0x92,
    0x28, 0x51, 0x80, 0xb8, 0xcd, 0x39, 0x42, 0xa9, 0xeb, 0x03, 0x1f, 0x2a,
    0xce, 0x01, 0x08, 0x8b, 0xe8, 0xa6, 0x00, 0xd0, 0x08, 0x2d, 0x3c, 0x91,
    0x4f, 0x01, 0x0b, 0x0b, 0xff, 0x01, 0x00, 0x71, 0xef, 0xa5, 0x8f, 0x1a,
    0xef, 0x7d, 0x01, 0x13, 0xd0, 0xcd, 0x2f, 0x8b, 0x11, 0x02, 0x40, 0xb9,
    0xb1, 0x79, 0x71, 0xf8, 0x3f, 0x02, 0x0c, 0xeb,
];

/// Distance from those bytes to the place that they mark.
pub const GET_COLOR_NUM_SEARCH_SHIFT: isize = 0x104;

/// Bytes by which `get_echo_from_hash` is found.
pub const GET_ECHO_FROM_HASH_SEARCH_CODE: [u8; 24] = [
    0xf6, 0x03, 0x00, 0x2a, 0x82, 0xef, 0x81, 0xd2, 0x02, 0x97, 0xaf, 0xf2,
    0x82, 0x01, 0xc0, 0xf2, 0xe0, 0x03, 0x13, 0xaa, 0xe1, 0x03, 0x16, 0x2a,
];

/// Distance from those bytes to the place that they mark.
pub const GET_ECHO_FROM_HASH_SEARCH_SHIFT: isize = -0x124;

/// Bytes by which `load_stock_icon_for_portrait_menu` is found.
pub const LOAD_STOCK_ICON_FOR_PORTRAIT_MENU_SEARCH_CODE: [u8; 56] = [
    0x1c, 0x15, 0x40, 0xf9, 0x9c, 0x01, 0x00, 0xb4, 0x88, 0x03, 0x40, 0xf9,
    0x08, 0xfd, 0x40, 0xf9, 0xe1, 0x03, 0x00, 0x32, 0xe0, 0x03, 0x1c, 0xaa,
    0x00, 0x01, 0x3f, 0xd6, 0x88, 0x03, 0x40, 0xf9, 0x08, 0xc5, 0x41, 0xf9,
    0xe0, 0x03, 0x1c, 0xaa, 0xe1, 0x03, 0x1f, 0x2a, 0xe2, 0x03, 0x1f, 0x2a,
    0x00, 0x01, 0x3f, 0xd6, 0xf8, 0x7f, 0x01, 0xa9,
];

/// Distance from those bytes to the place that they mark.
pub const LOAD_STOCK_ICON_FOR_PORTRAIT_MENU_SEARCH_SHIFT: isize = -0x60;

/// Bytes by which `css_set_selected_character_ui` is found.
pub const CSS_SET_SELECTED_CHARACTER_UI_SEARCH_CODE: [u8; 72] = [
    0xfc, 0x6f, 0xba, 0xa9, 0xfa, 0x67, 0x01, 0xa9, 0xf8, 0x5f, 0x02, 0xa9,
    0xf6, 0x57, 0x03, 0xa9, 0xf4, 0x4f, 0x04, 0xa9, 0xfd, 0x7b, 0x05, 0xa9,
    0xfd, 0x43, 0x01, 0x91, 0xff, 0x83, 0x07, 0xd1, 0x08, 0x14, 0x41, 0xf9,
    0x1c, 0x20, 0xf8, 0xd2, 0x0a, 0x1d, 0x48, 0x92, 0x09, 0x9d, 0x40, 0x92,
    0x36, 0x9c, 0x40, 0x92, 0x5f, 0x01, 0x1c, 0xeb, 0xf4, 0x03, 0x04, 0x2a,
    0xf3, 0x03, 0x00, 0xaa, 0xf7, 0x03, 0x01, 0xaa, 0x24, 0x09, 0x40, 0xfa,
];

/// Distance from those bytes to the place that they mark.
pub const CSS_SET_SELECTED_CHARACTER_UI_SEARCH_SHIFT: isize = 0x0;

/// Bytes by which `chara_select_scene_destructor` is found.
pub const CHARA_SELECT_SCENE_DESTRUCTOR_SEARCH_CODE: [u8; 80] = [
    0xf5, 0x0f, 0x1d, 0xf8, 0xf4, 0x4f, 0x01, 0xa9, 0xfd, 0x7b, 0x02, 0xa9,
    0xfd, 0x83, 0x00, 0x91, 0x48, 0x00, 0x40, 0xf9, 0x08, 0x11, 0x40, 0xf9,
    0xf5, 0x03, 0x00, 0xaa, 0xe0, 0x03, 0x02, 0xaa, 0xf3, 0x03, 0x02, 0xaa,
    0xf4, 0x03, 0x01, 0xaa, 0x00, 0x01, 0x3f, 0xd6, 0xa8, 0x02, 0x40, 0xf9,
    0x03, 0x39, 0x40, 0xf9, 0xe1, 0x03, 0x14, 0xaa, 0xe2, 0x03, 0x13, 0xaa,
    0xfd, 0x7b, 0x42, 0xa9, 0xf4, 0x4f, 0x41, 0xa9, 0xe0, 0x03, 0x15, 0xaa,
    0xf5, 0x07, 0x43, 0xf8, 0x60, 0x00, 0x1f, 0xd6,
];

/// Distance from those bytes to the place that they mark.
pub const CHARA_SELECT_SCENE_DESTRUCTOR_SEARCH_SHIFT: isize = 0xA80;

/// Bytes by which `msbt_text` is found.
pub const MSBT_TEXT_SEARCH_CODE: [u8; 116] = [
    0xaa, 0x43, 0x00, 0x91, 0xea, 0x5f, 0x00, 0xf9, 0xea, 0x03, 0x00, 0x91,
    0xe9, 0x05, 0x80, 0x92, 0x09, 0xf0, 0xdf, 0xf2, 0xe9, 0x9f, 0x00, 0xf9,
    0x4a, 0x01, 0x02, 0x91, 0xea, 0x67, 0x00, 0xf9, 0xea, 0x23, 0x02, 0x91,
    0xe9, 0x7f, 0x0d, 0xa9, 0xe9, 0x67, 0x40, 0xf9, 0x4a, 0xc1, 0x00, 0x91,
    0xea, 0x63, 0x00, 0xf9, 0xe9, 0x9b, 0x00, 0xf9, 0xe9, 0x03, 0x0a, 0xaa,
    0xe9, 0x97, 0x00, 0xf9, 0xe9, 0x5f, 0x40, 0xf9, 0xf6, 0x63, 0x03, 0x91,
    0xe8, 0x03, 0x01, 0xaa, 0xd4, 0x22, 0x00, 0x91, 0xf3, 0x03, 0x00, 0xaa,
    0xe1, 0x17, 0x00, 0x32, 0xe3, 0x83, 0x04, 0x91, 0xe0, 0x03, 0x14, 0xaa,
    0xe2, 0x03, 0x08, 0xaa, 0xb5, 0xb8, 0x93, 0x52, 0x95, 0x23, 0xb0, 0x72,
    0xff, 0x83, 0x03, 0x39, 0xe9, 0x93, 0x00, 0xf9,
];

/// Distance from those bytes to the place that they mark.
pub const MSBT_TEXT_SEARCH_SHIFT: isize = 0xC0;

/// Bytes by which `skip_opening` is found.
pub const SKIP_OPENING_SEARCH_CODE: [u8; 28] = [
    0x08, 0x40, 0x40, 0xf9, 0x08, 0x75, 0x40, 0xf9, 0x08, 0x01, 0x40, 0xf9,
    0x08, 0x01, 0x40, 0xf9, 0x08, 0x01, 0x43, 0xf9, 0x00, 0x8d, 0x44, 0xb9,
    0xc0, 0x03, 0x5f, 0xd6,
];

/// Distance from those bytes to the place that they mark.
pub const SKIP_OPENING_SEARCH_SHIFT: isize = -0x9F8;

/// Bytes by which `title_scene_play_opening` is found.
pub const TITLE_SCREEN_OPENING_SEARCH_CODE: [u8; 24] = [
    0x68, 0x0a, 0x08, 0x8b, 0xe9, 0x03, 0x1f, 0x32, 0x09, 0x79, 0x00, 0xb9,
    0xfd, 0x7b, 0x41, 0xa9, 0xf4, 0x4f, 0xc2, 0xa8, 0xc0, 0x03, 0x5f, 0xd6,
];

/// Distance from those bytes to the place that they mark.
pub const TITLE_SCREEN_OPENING_SEARCH_SHIFT: isize = 0x8;

/// Bytes by which `title_scene_how_to_play` is found.
pub const TITLE_SCENE_SHOW_HOW_TO_PLAY_SEARCH_CODE: [u8; 24] = [
    0x68, 0x0a, 0x08, 0x8b, 0xe9, 0x03, 0x1f, 0x32, 0x09, 0x79, 0x00, 0xb9,
    0xfd, 0x7b, 0x41, 0xa9, 0xf4, 0x4f, 0xc2, 0xa8, 0xc0, 0x03, 0x5f, 0xd6,
];

/// Distance from those bytes to the place that they mark.
pub const TITLE_SCENE_SHOW_HOW_TO_PLAY_SEARCH_SHIFT: isize = 0xC8;

/// Bytes by which `parameters_cache` is found.
pub const PARAMETERS_CACHE_SEARCH_CODE: [u8; 96] = [
    0x08, 0x11, 0x82, 0x52, 0x68, 0x6b, 0x68, 0x38, 0x69, 0x3f, 0x48, 0xf9,
    0x6a, 0x43, 0x48, 0xf9, 0xea, 0x1b, 0x01, 0xf9, 0xe8, 0xe3, 0x08, 0x39,
    0xe9, 0x17, 0x01, 0xf9, 0xeb, 0x0b, 0x40, 0xf9, 0x7b, 0x22, 0x55, 0xa9,
    0x08, 0x05, 0xc0, 0x39, 0xe9, 0x2b, 0x40, 0xa9, 0xec, 0x33, 0x40, 0x79,
    0x1f, 0x05, 0x00, 0x71, 0xe8, 0xd7, 0x9f, 0x1a, 0xe8, 0x07, 0x02, 0x39,
    0x6c, 0xd3, 0x1c, 0x79, 0x6b, 0x33, 0x07, 0xf9, 0x6a, 0x2f, 0x07, 0xf9,
    0x69, 0x2b, 0x07, 0xf9, 0xea, 0xc3, 0x41, 0xf8, 0xeb, 0x4b, 0x40, 0x79,
    0x68, 0x43, 0x39, 0x91, 0x69, 0xb3, 0x39, 0x91, 0x1f, 0x01, 0x19, 0xeb,
];

/// Distance from those bytes to the place that they mark.
pub const PARAMETERS_CACHE_SEARCH_SHIFT: isize = -0x158;

/// Bytes by which `is_online` is found.
pub const IS_ONLINE_SEARCH_CODE: [u8; 148] = [
    0x29, 0xa1, 0x17, 0x91, 0xea, 0x03, 0x17, 0xaa, 0xe8, 0x02, 0x00, 0xf9,
    0xe8, 0x03, 0x14, 0x32, 0xff, 0xfe, 0x00, 0xa9, 0x49, 0x8d, 0x01, 0xf8,
    0xe8, 0x22, 0x00, 0xb9, 0xe8, 0x03, 0x17, 0xaa, 0xf6, 0x03, 0x17, 0xaa,
    0x1f, 0x8d, 0x02, 0xf8, 0xe8, 0x17, 0x00, 0xf9, 0xe8, 0x03, 0x17, 0xaa,
    0xff, 0x2a, 0x00, 0xf9, 0xff, 0x7e, 0x03, 0xa9, 0xfc, 0x03, 0x17, 0xaa,
    0xf5, 0x03, 0x17, 0xaa, 0xf3, 0xe3, 0x06, 0x91, 0x1a, 0x48, 0x88, 0x52,
    0xfa, 0x01, 0xa0, 0x72, 0x1f, 0x8d, 0x04, 0xf8, 0xe8, 0x22, 0x00, 0xf9,
    0xe8, 0x03, 0x17, 0xaa, 0x1f, 0x8d, 0x05, 0xf8, 0xea, 0x23, 0x06, 0xa9,
    0xe8, 0x03, 0x17, 0xaa, 0x1f, 0x0d, 0x09, 0xf8, 0xe8, 0x1f, 0x00, 0xf9,
    0xe8, 0x03, 0x17, 0xaa, 0xff, 0xe2, 0x0e, 0xf8, 0x1f, 0x0d, 0x0c, 0xf8,
    0xe8, 0x23, 0x00, 0xf9, 0xe8, 0x03, 0x17, 0xaa, 0x1f, 0x8d, 0x0d, 0xf8,
    0xdf, 0x0e, 0x06, 0xf8, 0x9f, 0x8f, 0x07, 0xf8, 0xbf, 0x8e, 0x0a, 0xf8,
    0xe8, 0x1b, 0x00, 0xf9,
];

/// Distance from those bytes to the place that they mark.
pub const IS_ONLINE_SEARCH_SHIFT: isize = -0xAF4;

/// Bytes by which `change_color_r` and `change_color_l` are found.
pub const CHANGE_COLOR_R_CODE: [u8; 28] = [
    0xa2, 0x06, 0x41, 0xf9, 0xa4, 0x0a, 0x5b, 0x39, 0x03, 0x1d, 0x00, 0x12,
    0xa0, 0xf6, 0x42, 0xf9, 0xe1, 0x03, 0x18, 0xaa, 0xe5, 0x03, 0x1f, 0x2a,
    0xa8, 0x42, 0x08, 0x39,
];

/// Distance from those bytes to the place that they mark.
pub const CHANGE_COLOR_R_SHIFT: isize = 0x18;

} // verus!
