//! The persisted form of the registry: a document that holds the version tag
//! under `version` and the offset of each symbol under the symbol's name.

use crate::error::OffsetError;
use crate::registry::{initialized, offsets_for, Initialized, Offsets, Registry, Symbol};
use vstd::prelude::*;
use vstd::string::StringSliceAdditionalSpecFns;
use vstd::utf8::encode_utf8;

verus! {

/// Number of entries of a persisted registry: the version and the symbols.
pub const FIELD_COUNT: usize = 35;

/// Most bytes `[`, `{` and `.` that the text of a document may hold to be
/// parsed. Arrays, inline tables, and the parts of dotted keys and of table
/// headers are what nests in a document, and each level starts at one of these
/// bytes; the document of a registry is flat and needs none outside its
/// version tag.
pub const NESTING_LIMIT: usize = 16;

/// What one entry of a document holds.
#[derive(Debug)]
pub enum FieldValue {
    Integer(i64),
    Text(String),
    /// Anything that is neither an integer nor a string.
    Other,
}

/// One entry of a document.
#[derive(Debug)]
pub struct Field {
    pub name: String,
    pub value: FieldValue,
}

/// What one entry of a document holds, as a value of specifications.
pub enum Content {
    Integer(i64),
    Text(Seq<char>),
    Other,
}

impl View for FieldValue {
    type V = Content;

    open spec fn view(&self) -> Content {
        match self {
            FieldValue::Integer(number) => Content::Integer(*number),
            FieldValue::Text(text) => Content::Text(text@),
            FieldValue::Other => Content::Other,
        }
    }
}

impl View for Field {
    type V = (Seq<char>, Content);

    open spec fn view(&self) -> (Seq<char>, Content) {
        (self.name@, self.value@)
    }
}

/// The entries of a document, each with its name and what it holds.
pub open spec fn document_view(fields: Seq<Field>) -> Seq<(Seq<char>, Content)> {
    Seq::new(fields.len(), |i: int| fields[i]@)
}

/// The entries of a document of integers.
pub open spec fn numbers_view(numbers: Seq<(String, i64)>) -> Seq<(Seq<char>, i64)> {
    Seq::new(numbers.len(), |i: int| (numbers[i].0@, numbers[i].1))
}

/// Whether a level of nesting can start at `b`: at `[`, `{` or `.`.
pub open spec fn is_nesting_mark(b: u8) -> bool {
    b == 0x5B || b == 0x7B || b == 0x2E
}

/// Number of bytes of `text` at which a level of nesting can start.
pub open spec fn nesting_marks(text: Seq<u8>) -> nat
    decreases text.len(),
{
    if text.len() == 0 {
        0
    } else {
        nesting_marks(text.drop_last()) + (if is_nesting_mark(text.last()) {
            1nat
        } else {
            0nat
        })
    }
}

/// Whether a text is shallow enough to be parsed.
pub open spec fn is_shallow(text: Seq<char>) -> bool {
    nesting_marks(encode_utf8(text)) <= NESTING_LIMIT
}

/// What the parser of the document format makes of `text`: the entries of its
/// top level in the parser's order, or nothing where the text is no document.
pub uninterp spec fn parsed_document(text: Seq<char>) -> Option<Seq<(Seq<char>, Content)>>;

/// The text that the writer of the document format gives for a document with
/// the string `version` under `tag` and the entries of `numbers`.
pub uninterp spec fn rendered_document(
    tag: Seq<char>,
    version: Seq<char>,
    numbers: Seq<(Seq<char>, i64)>,
) -> Seq<char>;

/// Name under which the version tag is persisted.
pub open spec fn version_name() -> Seq<char> {
    "version"@
}

/// Name under which the offset of a symbol is persisted.
pub open spec fn symbol_name(symbol: Symbol) -> Seq<char> {
    match symbol {
        Symbol::LookupStreamHash => "lookup_stream_hash"@,
        Symbol::Inflate => "inflate"@,
        Symbol::Memcpy1 => "memcpy_1"@,
        Symbol::Memcpy2 => "memcpy_2"@,
        Symbol::Memcpy3 => "memcpy_3"@,
        Symbol::InflateDirFile => "inflate_dir_file"@,
        Symbol::InitialLoading => "initial_loading"@,
        Symbol::ResLoadLoopStart => "res_load_loop_start"@,
        Symbol::ResLoadLoopRefresh => "res_load_loop_refresh"@,
        Symbol::TitleScreenVersion => "title_screen_version"@,
        Symbol::EshopButton => "eshop_button"@,
        Symbol::MsbtText => "msbt_text"@,
        Symbol::SkipOpening => "skip_opening"@,
        Symbol::TitleScenePlayOpening => "title_scene_play_opening"@,
        Symbol::TitleSceneHowToPlay => "title_scene_how_to_play"@,
        Symbol::FilesystemInfo => "filesystem_info"@,
        Symbol::ResService => "res_service"@,
        Symbol::PacketSend => "packet_send"@,
        Symbol::LuaMagicCheck => "lua_magic_check"@,
        Symbol::InklingPatch => "inkling_patch"@,
        Symbol::ClearInkPatch => "clear_ink_patch"@,
        Symbol::SetGlobalColorForClassicMode => "set_global_color_for_classic_mode"@,
        Symbol::LoadChara1ForAllCostumes => "load_chara_1_for_all_costumes"@,
        Symbol::LoadUiFile => "load_ui_file"@,
        Symbol::GetUiCharaPathFromHash => "get_ui_chara_path_from_hash"@,
        Symbol::GetColorNumFromHash => "get_color_num_from_hash"@,
        Symbol::GetEchoFromHash => "get_echo_from_hash"@,
        Symbol::LoadStockIconForPortraitMenu => "load_stock_icon_for_portrait_menu"@,
        Symbol::CssSetSelectedCharacterUi => "css_set_selected_character_ui"@,
        Symbol::CharaSelectSceneDestructor => "chara_select_scene_destructor"@,
        Symbol::ParametersCache => "parameters_cache"@,
        Symbol::IsOnline => "is_online"@,
        Symbol::ChangeColorR => "change_color_r"@,
        Symbol::ChangeColorL => "change_color_l"@,
    }
}

/// What the first entry called `name` holds.
pub open spec fn field_value(document: Seq<(Seq<char>, Content)>, name: Seq<char>) -> Option<
    Content,
>
    decreases document.len(),
{
    if document.len() == 0 {
        None
    } else if document[0].0 == name {
        Some(document[0].1)
    } else {
        field_value(document.skip(1), name)
    }
}

/// The version tag of a document: the text under `version`.
pub open spec fn persisted_version(document: Seq<(Seq<char>, Content)>) -> Option<Seq<char>> {
    match field_value(document, version_name()) {
        Some(Content::Text(version)) => Some(version),
        _ => None,
    }
}

/// The offset of a symbol in a document: the integer under the symbol's name,
/// where it lies within `usize`.
pub open spec fn persisted_offset(document: Seq<(Seq<char>, Content)>, symbol: Symbol) -> Option<
    usize,
> {
    match field_value(document, symbol_name(symbol)) {
        Some(Content::Integer(number)) => if 0 <= number <= usize::MAX {
            Some(number as usize)
        } else {
            None
        },
        _ => None,
    }
}

/// The registry that a document holds: there is one where the document has
/// thirty-five entries, a text under `version`, and an offset under the name of
/// each symbol. A document of unique names then holds nothing else; one with a
/// missing or another entry holds no registry.
pub open spec fn persisted_registry(document: Seq<(Seq<char>, Content)>) -> Option<
    (Seq<char>, Offsets),
> {
    if document.len() == FIELD_COUNT && persisted_version(document) is Some && (forall|
        symbol: Symbol,
    |
        (#[trigger] persisted_offset(document, symbol)) is Some) {
        Some(
            (
                persisted_version(document)->Some_0,
                Offsets {
                    lookup_stream_hash: persisted_offset(
                        document,
                        Symbol::LookupStreamHash,
                    )->Some_0,
                    inflate: persisted_offset(document, Symbol::Inflate)->Some_0,
                    memcpy_1: persisted_offset(document, Symbol::Memcpy1)->Some_0,
                    memcpy_2: persisted_offset(document, Symbol::Memcpy2)->Some_0,
                    memcpy_3: persisted_offset(document, Symbol::Memcpy3)->Some_0,
                    inflate_dir_file: persisted_offset(document, Symbol::InflateDirFile)->Some_0,
                    initial_loading: persisted_offset(document, Symbol::InitialLoading)->Some_0,
                    res_load_loop_start: persisted_offset(
                        document,
                        Symbol::ResLoadLoopStart,
                    )->Some_0,
                    res_load_loop_refresh: persisted_offset(
                        document,
                        Symbol::ResLoadLoopRefresh,
                    )->Some_0,
                    title_screen_version: persisted_offset(
                        document,
                        Symbol::TitleScreenVersion,
                    )->Some_0,
                    eshop_button: persisted_offset(document, Symbol::EshopButton)->Some_0,
                    msbt_text: persisted_offset(document, Symbol::MsbtText)->Some_0,
                    skip_opening: persisted_offset(document, Symbol::SkipOpening)->Some_0,
                    title_scene_play_opening: persisted_offset(
                        document,
                        Symbol::TitleScenePlayOpening,
                    )->Some_0,
                    title_scene_how_to_play: persisted_offset(
                        document,
                        Symbol::TitleSceneHowToPlay,
                    )->Some_0,
                    filesystem_info: persisted_offset(document, Symbol::FilesystemInfo)->Some_0,
                    res_service: persisted_offset(document, Symbol::ResService)->Some_0,
                    packet_send: persisted_offset(document, Symbol::PacketSend)->Some_0,
                    lua_magic_check: persisted_offset(document, Symbol::LuaMagicCheck)->Some_0,
                    inkling_patch: persisted_offset(document, Symbol::InklingPatch)->Some_0,
                    clear_ink_patch: persisted_offset(document, Symbol::ClearInkPatch)->Some_0,
                    set_global_color_for_classic_mode: persisted_offset(
                        document,
                        Symbol::SetGlobalColorForClassicMode,
                    )->Some_0,
                    load_chara_1_for_all_costumes: persisted_offset(
                        document,
                        Symbol::LoadChara1ForAllCostumes,
                    )->Some_0,
                    load_ui_file: persisted_offset(document, Symbol::LoadUiFile)->Some_0,
                    get_ui_chara_path_from_hash: persisted_offset(
                        document,
                        Symbol::GetUiCharaPathFromHash,
                    )->Some_0,
                    get_color_num_from_hash: persisted_offset(
                        document,
                        Symbol::GetColorNumFromHash,
                    )->Some_0,
                    get_echo_from_hash: persisted_offset(document, Symbol::GetEchoFromHash)->Some_0,
                    load_stock_icon_for_portrait_menu: persisted_offset(
                        document,
                        Symbol::LoadStockIconForPortraitMenu,
                    )->Some_0,
                    css_set_selected_character_ui: persisted_offset(
                        document,
                        Symbol::CssSetSelectedCharacterUi,
                    )->Some_0,
                    chara_select_scene_destructor: persisted_offset(
                        document,
                        Symbol::CharaSelectSceneDestructor,
                    )->Some_0,
                    parameters_cache: persisted_offset(document, Symbol::ParametersCache)->Some_0,
                    is_online: persisted_offset(document, Symbol::IsOnline)->Some_0,
                    change_color_r: persisted_offset(document, Symbol::ChangeColorR)->Some_0,
                    change_color_l: persisted_offset(document, Symbol::ChangeColorL)->Some_0,
                },
            ),
        )
    } else {
        None
    }
}

/// The registry that a text holds: the one of the document that the text
/// parses to. A text that is not shallow, or no document, holds none.
pub open spec fn persisted_text(text: Seq<char>) -> Option<(Seq<char>, Offsets)> {
    if is_shallow(text) {
        match parsed_document(text) {
            Some(entries) => persisted_registry(entries),
            None => None,
        }
    } else {
        None
    }
}

/// The registry that the text of a persisted document holds, if there is a
/// text and it holds one.
pub open spec fn persisted_in(document: Option<&str>) -> Option<(Seq<char>, Offsets)> {
    match document {
        Some(text) => persisted_text(text@),
        None => None,
    }
}

/// The text that a registry is written as.
pub open spec fn written_text(version: Seq<char>, offsets: Offsets) -> Seq<char> {
    rendered_document(version_name(), version, numbers_of(offsets))
}

/// Whether every offset can be written as an integer of a document.
pub open spec fn fits_document(offsets: Offsets) -> bool {
    forall|symbol: Symbol| (#[trigger] offsets.offset_of(symbol)) <= i64::MAX
}

/// Every symbol, in the order in which a registry is written.
pub const SYMBOLS: [Symbol; 34] = [
    Symbol::LookupStreamHash,
    Symbol::Inflate,
    Symbol::Memcpy1,
    Symbol::Memcpy2,
    Symbol::Memcpy3,
    Symbol::InflateDirFile,
    Symbol::InitialLoading,
    Symbol::ResLoadLoopStart,
    Symbol::ResLoadLoopRefresh,
    Symbol::TitleScreenVersion,
    Symbol::EshopButton,
    Symbol::MsbtText,
    Symbol::SkipOpening,
    Symbol::TitleScenePlayOpening,
    Symbol::TitleSceneHowToPlay,
    Symbol::FilesystemInfo,
    Symbol::ResService,
    Symbol::PacketSend,
    Symbol::LuaMagicCheck,
    Symbol::InklingPatch,
    Symbol::ClearInkPatch,
    Symbol::SetGlobalColorForClassicMode,
    Symbol::LoadChara1ForAllCostumes,
    Symbol::LoadUiFile,
    Symbol::GetUiCharaPathFromHash,
    Symbol::GetColorNumFromHash,
    Symbol::GetEchoFromHash,
    Symbol::LoadStockIconForPortraitMenu,
    Symbol::CssSetSelectedCharacterUi,
    Symbol::CharaSelectSceneDestructor,
    Symbol::ParametersCache,
    Symbol::IsOnline,
    Symbol::ChangeColorR,
    Symbol::ChangeColorL,
];

/// The integers of the document of a registry: each symbol's offset under its
/// name, in the order of `SYMBOLS`.
pub open spec fn numbers_of(offsets: Offsets) -> Seq<(Seq<char>, i64)> {
    Seq::new(
        34,
        |i: int| (symbol_name(SYMBOLS@[i]), offsets.offset_of(SYMBOLS@[i]) as i64),
    )
}

/// Whether a document holds exactly a registry: thirty-five entries of unique
/// names, among them the version tag as a text under `version` and each
/// symbol's offset as an integer under the symbol's name.
pub open spec fn holds_registry(
    document: Seq<(Seq<char>, Content)>,
    version: Seq<char>,
    offsets: Offsets,
) -> bool {
    &&& document.len() == FIELD_COUNT
    &&& forall|i: int, j: int|
        0 <= i < j < document.len() ==> (#[trigger] document[i]).0 != (#[trigger] document[j]).0
    &&& exists|i: int|
        0 <= i < document.len() && #[trigger] document[i] == (
            version_name(),
            Content::Text(version),
        )
    &&& forall|symbol: Symbol|
        exists|i: int|
            0 <= i < document.len() && #[trigger] document[i] == (
                #[trigger] symbol_name(symbol),
                Content::Integer(offsets.offset_of(symbol) as i64),
            )
}

/// In a document of unique names the entry called `name` is what a search for
/// `name` gives.
pub proof fn lemma_field_value_at(document: Seq<(Seq<char>, Content)>, at: int)
    requires
        0 <= at < document.len(),
        forall|j: int| 0 <= j < at ==> (#[trigger] document[j]).0 != document[at].0,
    ensures
        field_value(document, document[at].0) == Some(document[at].1),
    decreases at,
{
    if at > 0 {
        let rest = document.skip(1);
        assert(rest[at - 1] == document[at]);
        assert forall|j: int| 0 <= j < at - 1 implies (#[trigger] rest[j]).0 != rest[at - 1].0 by {
            assert(rest[j] == document[j + 1]);
        }
        lemma_field_value_at(rest, at - 1);
    }
}

/// A document that holds exactly a registry, whatever the order of its
/// entries, reads back as that registry: the version tag and every offset are
/// those that were written.
pub proof fn law_document_reads_back(
    document: Seq<(Seq<char>, Content)>,
    version: Seq<char>,
    offsets: Offsets,
)
    requires
        holds_registry(document, version, offsets),
        fits_document(offsets),
    ensures
        persisted_registry(document) == Some((version, offsets)),
{
    let v = choose|i: int|
        0 <= i < document.len() && #[trigger] document[i] == (
            version_name(),
            Content::Text(version),
        );
    lemma_field_value_at(document, v);
    assert forall|symbol: Symbol| (#[trigger] persisted_offset(document, symbol)) == Some(
        offsets.offset_of(symbol),
    ) by {
        let i = choose|i: int|
            0 <= i < document.len() && #[trigger] document[i] == (
                #[trigger] symbol_name(symbol),
                Content::Integer(offsets.offset_of(symbol) as i64),
            );
        lemma_field_value_at(document, i);
    }
    let read = persisted_registry(document)->Some_0.1;
    assert forall|symbol: Symbol| read.offset_of(symbol) == offsets.offset_of(symbol) by {
        assert(persisted_offset(document, symbol) == Some(offsets.offset_of(symbol)));
    }
}

/// The character of a name at `at`, a blank where the name ends before.
pub open spec fn name_char(name: Seq<char>, at: int) -> char {
    if 0 <= at < name.len() {
        name[at]
    } else {
        ' '
    }
}

/// Marks by which the persisted names are told apart: the length of a name
/// and three of its characters.
pub open spec fn name_mark(name: Seq<char>) -> (nat, char, char, char) {
    (name.len(), name_char(name, 0), name_char(name, 7), name_char(name, 13))
}

/// The mark of the name of a symbol.
pub open spec fn symbol_mark(symbol: Symbol) -> (nat, char, char, char) {
    match symbol {
        Symbol::LookupStreamHash => (18nat, 'l', 's', '_'),
        Symbol::Inflate => (7nat, 'i', ' ', ' '),
        Symbol::Memcpy1 => (8nat, 'm', '1', ' '),
        Symbol::Memcpy2 => (8nat, 'm', '2', ' '),
        Symbol::Memcpy3 => (8nat, 'm', '3', ' '),
        Symbol::InflateDirFile => (16nat, 'i', '_', 'i'),
        Symbol::InitialLoading => (15nat, 'i', '_', 'n'),
        Symbol::ResLoadLoopStart => (19nat, 'r', 'd', '_'),
        Symbol::ResLoadLoopRefresh => (21nat, 'r', 'd', '_'),
        Symbol::TitleScreenVersion => (20nat, 't', 'c', 'v'),
        Symbol::EshopButton => (12nat, 'e', 'u', ' '),
        Symbol::MsbtText => (9nat, 'm', 'x', ' '),
        Symbol::SkipOpening => (12nat, 's', 'e', ' '),
        Symbol::TitleScenePlayOpening => (24nat, 't', 'c', 'l'),
        Symbol::TitleSceneHowToPlay => (23nat, 't', 'c', 'o'),
        Symbol::FilesystemInfo => (15nat, 'f', 't', 'f'),
        Symbol::ResService => (11nat, 'r', 'v', ' '),
        Symbol::PacketSend => (11nat, 'p', 's', ' '),
        Symbol::LuaMagicCheck => (15nat, 'l', 'i', 'c'),
        Symbol::InklingPatch => (13nat, 'i', '_', ' '),
        Symbol::ClearInkPatch => (15nat, 'c', 'n', 'c'),
        Symbol::SetGlobalColorForClassicMode => (33nat, 's', 'b', 'l'),
        Symbol::LoadChara1ForAllCostumes => (29nat, 'l', 'a', 'f'),
        Symbol::LoadUiFile => (12nat, 'l', '_', ' '),
        Symbol::GetUiCharaPathFromHash => (27nat, 'g', 'c', 'p'),
        Symbol::GetColorNumFromHash => (23nat, 'g', 'o', '_'),
        Symbol::GetEchoFromHash => (18nat, 'g', 'o', '_'),
        Symbol::LoadStockIconForPortraitMenu => (33nat, 'l', 'o', 'o'),
        Symbol::CssSetSelectedCharacterUi => (29nat, 'c', '_', 't'),
        Symbol::CharaSelectSceneDestructor => (29nat, 'c', 'e', 's'),
        Symbol::ParametersCache => (16nat, 'p', 'e', 'c'),
        Symbol::IsOnline => (9nat, 'i', 'n', ' '),
        Symbol::ChangeColorR => (14nat, 'c', 'c', 'r'),
        Symbol::ChangeColorL => (14nat, 'c', 'c', 'l'),
    }
}

proof fn lemma_symbol_mark(symbol: Symbol)
    ensures
        name_mark(symbol_name(symbol)) == symbol_mark(symbol),
{
    match symbol {
        Symbol::LookupStreamHash => reveal_strlit("lookup_stream_hash"),
        Symbol::Inflate => reveal_strlit("inflate"),
        Symbol::Memcpy1 => reveal_strlit("memcpy_1"),
        Symbol::Memcpy2 => reveal_strlit("memcpy_2"),
        Symbol::Memcpy3 => reveal_strlit("memcpy_3"),
        Symbol::InflateDirFile => reveal_strlit("inflate_dir_file"),
        Symbol::InitialLoading => reveal_strlit("initial_loading"),
        Symbol::ResLoadLoopStart => reveal_strlit("res_load_loop_start"),
        Symbol::ResLoadLoopRefresh => reveal_strlit("res_load_loop_refresh"),
        Symbol::TitleScreenVersion => reveal_strlit("title_screen_version"),
        Symbol::EshopButton => reveal_strlit("eshop_button"),
        Symbol::MsbtText => reveal_strlit("msbt_text"),
        Symbol::SkipOpening => reveal_strlit("skip_opening"),
        Symbol::TitleScenePlayOpening => reveal_strlit("title_scene_play_opening"),
        Symbol::TitleSceneHowToPlay => reveal_strlit("title_scene_how_to_play"),
        Symbol::FilesystemInfo => reveal_strlit("filesystem_info"),
        Symbol::ResService => reveal_strlit("res_service"),
        Symbol::PacketSend => reveal_strlit("packet_send"),
        Symbol::LuaMagicCheck => reveal_strlit("lua_magic_check"),
        Symbol::InklingPatch => reveal_strlit("inkling_patch"),
        Symbol::ClearInkPatch => reveal_strlit("clear_ink_patch"),
        Symbol::SetGlobalColorForClassicMode => reveal_strlit("set_global_color_for_classic_mode"),
        Symbol::LoadChara1ForAllCostumes => reveal_strlit("load_chara_1_for_all_costumes"),
        Symbol::LoadUiFile => reveal_strlit("load_ui_file"),
        Symbol::GetUiCharaPathFromHash => reveal_strlit("get_ui_chara_path_from_hash"),
        Symbol::GetColorNumFromHash => reveal_strlit("get_color_num_from_hash"),
        Symbol::GetEchoFromHash => reveal_strlit("get_echo_from_hash"),
        Symbol::LoadStockIconForPortraitMenu => reveal_strlit("load_stock_icon_for_portrait_menu"),
        Symbol::CssSetSelectedCharacterUi => reveal_strlit("css_set_selected_character_ui"),
        Symbol::CharaSelectSceneDestructor => reveal_strlit("chara_select_scene_destructor"),
        Symbol::ParametersCache => reveal_strlit("parameters_cache"),
        Symbol::IsOnline => reveal_strlit("is_online"),
        Symbol::ChangeColorR => reveal_strlit("change_color_r"),
        Symbol::ChangeColorL => reveal_strlit("change_color_l"),
    }
}

/// No two symbols are persisted under one name, and none under `version`.
pub proof fn lemma_names_differ(first: Symbol, second: Symbol)
    ensures
        first != second ==> symbol_name(first) != symbol_name(second),
        symbol_name(first) != version_name(),
{
    reveal_strlit("version");
    lemma_symbol_mark(first);
    lemma_symbol_mark(second);
    assert(name_mark(version_name()) == (7nat, 'v', ' ', ' '));
}

/// The document of a registry: the version tag in front, and each symbol's
/// offset in the order of `SYMBOLS`.
pub open spec fn document_of(version: Seq<char>, offsets: Offsets) -> Seq<(Seq<char>, Content)> {
    Seq::new(
        35,
        |i: int|
            if i == 0 {
                (version_name(), Content::Text(version))
            } else {
                (numbers_of(offsets)[i - 1].0, Content::Integer(numbers_of(offsets)[i - 1].1))
            },
    )
}

/// Where `SYMBOLS` lists a symbol.
pub open spec fn symbol_index(symbol: Symbol) -> int {
    match symbol {
        Symbol::LookupStreamHash => 0,
        Symbol::Inflate => 1,
        Symbol::Memcpy1 => 2,
        Symbol::Memcpy2 => 3,
        Symbol::Memcpy3 => 4,
        Symbol::InflateDirFile => 5,
        Symbol::InitialLoading => 6,
        Symbol::ResLoadLoopStart => 7,
        Symbol::ResLoadLoopRefresh => 8,
        Symbol::TitleScreenVersion => 9,
        Symbol::EshopButton => 10,
        Symbol::MsbtText => 11,
        Symbol::SkipOpening => 12,
        Symbol::TitleScenePlayOpening => 13,
        Symbol::TitleSceneHowToPlay => 14,
        Symbol::FilesystemInfo => 15,
        Symbol::ResService => 16,
        Symbol::PacketSend => 17,
        Symbol::LuaMagicCheck => 18,
        Symbol::InklingPatch => 19,
        Symbol::ClearInkPatch => 20,
        Symbol::SetGlobalColorForClassicMode => 21,
        Symbol::LoadChara1ForAllCostumes => 22,
        Symbol::LoadUiFile => 23,
        Symbol::GetUiCharaPathFromHash => 24,
        Symbol::GetColorNumFromHash => 25,
        Symbol::GetEchoFromHash => 26,
        Symbol::LoadStockIconForPortraitMenu => 27,
        Symbol::CssSetSelectedCharacterUi => 28,
        Symbol::CharaSelectSceneDestructor => 29,
        Symbol::ParametersCache => 30,
        Symbol::IsOnline => 31,
        Symbol::ChangeColorR => 32,
        Symbol::ChangeColorL => 33,
    }
}

/// `SYMBOLS` lists every symbol, at its index.
pub proof fn lemma_symbol_listed(symbol: Symbol)
    ensures
        0 <= symbol_index(symbol) < 34,
        SYMBOLS@[symbol_index(symbol)] == symbol,
{
}

/// The document of a registry holds exactly that registry.
pub proof fn lemma_document_holds_registry(version: Seq<char>, offsets: Offsets)
    ensures
        holds_registry(document_of(version, offsets), version, offsets),
{
    let document = document_of(version, offsets);
    assert forall|i: int, j: int| 0 <= i < j < document.len() implies (#[trigger] document[i]).0
        != (#[trigger] document[j]).0 by {
        lemma_symbol_listed(SYMBOLS@[j - 1]);
        if i == 0 {
            lemma_names_differ(SYMBOLS@[j - 1], SYMBOLS@[j - 1]);
        } else {
            lemma_symbol_listed(SYMBOLS@[i - 1]);
            lemma_names_differ(SYMBOLS@[i - 1], SYMBOLS@[j - 1]);
        }
    }
    assert(document[0] == (version_name(), Content::Text(version)));
    assert forall|symbol: Symbol|
        exists|i: int|
            0 <= i < document.len() && #[trigger] document[i] == (
                #[trigger] symbol_name(symbol),
                Content::Integer(offsets.offset_of(symbol) as i64),
            ) by {
        lemma_symbol_listed(symbol);
        assert(document[symbol_index(symbol) + 1] == (
            symbol_name(symbol),
            Content::Integer(offsets.offset_of(symbol) as i64),
        ));
    }
}

/// A registry reads back from its document: the version tag and every offset
/// are those that were written.
pub proof fn law_registry_reads_back(version: Seq<char>, offsets: Offsets)
    requires
        fits_document(offsets),
    ensures
        persisted_registry(document_of(version, offsets)) == Some((version, offsets)),
{
    lemma_document_holds_registry(version, offsets);
    law_document_reads_back(document_of(version, offsets), version, offsets);
}

/// Two registries that hold the same offset for every symbol are the same.
pub proof fn lemma_same_offsets(first: Offsets, second: Offsets)
    requires
        forall|symbol: Symbol| (#[trigger] first.offset_of(symbol)) == second.offset_of(symbol),
    ensures
        first == second,
{
    assert(first.lookup_stream_hash == first.offset_of(Symbol::LookupStreamHash));
    assert(first.inflate == first.offset_of(Symbol::Inflate));
    assert(first.memcpy_1 == first.offset_of(Symbol::Memcpy1));
    assert(first.memcpy_2 == first.offset_of(Symbol::Memcpy2));
    assert(first.memcpy_3 == first.offset_of(Symbol::Memcpy3));
    assert(first.inflate_dir_file == first.offset_of(Symbol::InflateDirFile));
    assert(first.initial_loading == first.offset_of(Symbol::InitialLoading));
    assert(first.res_load_loop_start == first.offset_of(Symbol::ResLoadLoopStart));
    assert(first.res_load_loop_refresh == first.offset_of(Symbol::ResLoadLoopRefresh));
    assert(first.title_screen_version == first.offset_of(Symbol::TitleScreenVersion));
    assert(first.eshop_button == first.offset_of(Symbol::EshopButton));
    assert(first.msbt_text == first.offset_of(Symbol::MsbtText));
    assert(first.skip_opening == first.offset_of(Symbol::SkipOpening));
    assert(first.title_scene_play_opening == first.offset_of(Symbol::TitleScenePlayOpening));
    assert(first.title_scene_how_to_play == first.offset_of(Symbol::TitleSceneHowToPlay));
    assert(first.filesystem_info == first.offset_of(Symbol::FilesystemInfo));
    assert(first.res_service == first.offset_of(Symbol::ResService));
    assert(first.packet_send == first.offset_of(Symbol::PacketSend));
    assert(first.lua_magic_check == first.offset_of(Symbol::LuaMagicCheck));
    assert(first.inkling_patch == first.offset_of(Symbol::InklingPatch));
    assert(first.clear_ink_patch == first.offset_of(Symbol::ClearInkPatch));
    assert(first.set_global_color_for_classic_mode == first.offset_of(
        Symbol::SetGlobalColorForClassicMode,
    ));
    assert(first.load_chara_1_for_all_costumes == first.offset_of(
        Symbol::LoadChara1ForAllCostumes,
    ));
    assert(first.load_ui_file == first.offset_of(Symbol::LoadUiFile));
    assert(first.get_ui_chara_path_from_hash == first.offset_of(Symbol::GetUiCharaPathFromHash));
    assert(first.get_color_num_from_hash == first.offset_of(Symbol::GetColorNumFromHash));
    assert(first.get_echo_from_hash == first.offset_of(Symbol::GetEchoFromHash));
    assert(first.load_stock_icon_for_portrait_menu == first.offset_of(
        Symbol::LoadStockIconForPortraitMenu,
    ));
    assert(first.css_set_selected_character_ui == first.offset_of(
        Symbol::CssSetSelectedCharacterUi,
    ));
    assert(first.chara_select_scene_destructor == first.offset_of(
        Symbol::CharaSelectSceneDestructor,
    ));
    assert(first.parameters_cache == first.offset_of(Symbol::ParametersCache));
    assert(first.is_online == first.offset_of(Symbol::IsOnline));
    assert(first.change_color_r == first.offset_of(Symbol::ChangeColorR));
    assert(first.change_color_l == first.offset_of(Symbol::ChangeColorL));
}

/// Round trip through the persisted text: offsets computed from an image and
/// written under a version as a text that holds them, as every text does that
/// `render` hands out, are taken from that text without a scan, whatever image
/// is at hand then, and are the offsets that were computed.
pub proof fn law_written_text_round_trip(
    version: Seq<char>,
    text: Seq<u8>,
    later_text: Seq<u8>,
    written: Seq<char>,
    offsets: Offsets,
)
    requires
        offsets_for(text) == Some(offsets),
        persisted_text(written) == Some((version, offsets)),
    ensures
        initialized(version, None, text) == Ok::<(Offsets, bool), OffsetError>((offsets, true)),
        initialized(version, persisted_text(written), later_text) == Ok::<
            (Offsets, bool),
            OffsetError,
        >((offsets, false)),
{
}

/// Round trip of the registry: offsets computed from an image, written to a
/// document under a version, and read back from that document under the same
/// version are taken without a scan, whatever image is at hand then, and are
/// the offsets that were computed.
pub proof fn law_persisted_registry_round_trip(
    version: Seq<char>,
    text: Seq<u8>,
    later_text: Seq<u8>,
    document: Seq<(Seq<char>, Content)>,
    offsets: Offsets,
)
    requires
        offsets_for(text) == Some(offsets),
        fits_document(offsets),
        holds_registry(document, version, offsets),
    ensures
        initialized(version, None, text) == Ok::<(Offsets, bool), OffsetError>((offsets, true)),
        initialized(version, persisted_registry(document), later_text) == Ok::<
            (Offsets, bool),
            OffsetError,
        >((offsets, false)),
{
    law_document_reads_back(document, version, offsets);
}

/// Parses a document with `toml::de::from_str`, read as a table of values, and
/// hands out each entry of its top level: an integer or a string as it is,
/// anything else as `Other`. That parser calls itself once for each level of
/// an array or an inline table and for each part of a dotted key or a table
/// header, without a limit of its own, so only a shallow text is handed to it.
/// The contract says that the outcome depends on the text alone; it does not
/// say what the outcome is.
#[verifier::external_body]
fn parse_document(text: &str) -> (r: Option<Vec<Field>>)
    requires
        is_shallow(text@),
    ensures
        match r {
            Some(fields) => parsed_document(text@) == Some(document_view(fields@)),
            None => parsed_document(text@) is None,
        },
{
    let table = toml::de::from_str::<toml::value::Table>(text).ok()?;
    Some(
        table.into_iter().map(
            |(name, value)|
                Field {
                    name,
                    value: match value {
                        toml::Value::Integer(number) => FieldValue::Integer(number),
                        toml::Value::String(string) => FieldValue::Text(string),
                        _ => FieldValue::Other,
                    },
                },
        ).collect(),
    )
}

/// Writes a document with `toml::ser::to_string_pretty`: a table of the given
/// integer entries and the string `version` under the name `tag`. That writer
/// gives an error for a key that is no string, for a value behind a table, for
/// an invalid date and for a type that the format lacks; a table of strings and
/// integers under string keys holds none of these, so there is a text. The
/// contract says that the text depends on the entries alone; it does not say
/// what the text is.
#[verifier::external_body]
fn render_document(tag: &str, version: &str, numbers: &Vec<(String, i64)>) -> (r: Option<String>)
    ensures
        r is Some,
        r->Some_0@ == rendered_document(tag@, version@, numbers_view(numbers@)),
{
    let mut table: toml::value::Table = numbers.iter().map(
        |entry| (entry.0.clone(), toml::Value::Integer(entry.1)),
    ).collect();
    table.insert(tag.to_string(), toml::Value::String(version.to_string()));
    toml::ser::to_string_pretty(&table).ok()
}

/// Tells whether the text of a document is shallow enough to be parsed.
pub fn within_nesting_limit(text: &str) -> (r: bool)
    ensures
        r == is_shallow(text@),
{
    let bytes = text.as_bytes();
    let mut marks: usize = 0;
    let mut i: usize = 0;
    while i < bytes.len()
        invariant
            i <= bytes@.len(),
            marks <= i,
            marks == nesting_marks(bytes@.take(i as int)),
        decreases bytes@.len() - i,
    {
        proof {
            assert(bytes@.take(i + 1).drop_last() =~= bytes@.take(i as int));
        }
        if bytes[i] == 0x5B || bytes[i] == 0x7B || bytes[i] == 0x2E {
            marks += 1;
        }
        i += 1;
    }
    proof {
        assert(bytes@.take(i as int) =~= bytes@);
    }
    marks <= NESTING_LIMIT
}

/// Name under which the offset of a symbol is persisted.
pub fn symbol_name_of(symbol: Symbol) -> (r: &'static str)
    ensures
        r@ == symbol_name(symbol),
{
    match symbol {
        Symbol::LookupStreamHash => "lookup_stream_hash",
        Symbol::Inflate => "inflate",
        Symbol::Memcpy1 => "memcpy_1",
        Symbol::Memcpy2 => "memcpy_2",
        Symbol::Memcpy3 => "memcpy_3",
        Symbol::InflateDirFile => "inflate_dir_file",
        Symbol::InitialLoading => "initial_loading",
        Symbol::ResLoadLoopStart => "res_load_loop_start",
        Symbol::ResLoadLoopRefresh => "res_load_loop_refresh",
        Symbol::TitleScreenVersion => "title_screen_version",
        Symbol::EshopButton => "eshop_button",
        Symbol::MsbtText => "msbt_text",
        Symbol::SkipOpening => "skip_opening",
        Symbol::TitleScenePlayOpening => "title_scene_play_opening",
        Symbol::TitleSceneHowToPlay => "title_scene_how_to_play",
        Symbol::FilesystemInfo => "filesystem_info",
        Symbol::ResService => "res_service",
        Symbol::PacketSend => "packet_send",
        Symbol::LuaMagicCheck => "lua_magic_check",
        Symbol::InklingPatch => "inkling_patch",
        Symbol::ClearInkPatch => "clear_ink_patch",
        Symbol::SetGlobalColorForClassicMode => "set_global_color_for_classic_mode",
        Symbol::LoadChara1ForAllCostumes => "load_chara_1_for_all_costumes",
        Symbol::LoadUiFile => "load_ui_file",
        Symbol::GetUiCharaPathFromHash => "get_ui_chara_path_from_hash",
        Symbol::GetColorNumFromHash => "get_color_num_from_hash",
        Symbol::GetEchoFromHash => "get_echo_from_hash",
        Symbol::LoadStockIconForPortraitMenu => "load_stock_icon_for_portrait_menu",
        Symbol::CssSetSelectedCharacterUi => "css_set_selected_character_ui",
        Symbol::CharaSelectSceneDestructor => "chara_select_scene_destructor",
        Symbol::ParametersCache => "parameters_cache",
        Symbol::IsOnline => "is_online",
        Symbol::ChangeColorR => "change_color_r",
        Symbol::ChangeColorL => "change_color_l",
    }
}

/// Finds the symbol that is persisted under `name`.
pub fn symbol_from_name(name: &str) -> (r: Option<Symbol>)
    ensures
        match r {
            Some(symbol) => symbol_name(symbol) == name@,
            None => forall|symbol: Symbol| #[trigger] symbol_name(symbol) != name@,
        },
{
    let wanted: String = name.to_owned();
    let mut i: usize = 0;
    while i < 34
        invariant
            i <= 34,
            wanted@ == name@,
            forall|j: int| 0 <= j < i ==> symbol_name(#[trigger] SYMBOLS@[j]) != name@,
        decreases 34 - i,
    {
        let symbol: Symbol = SYMBOLS[i];
        if symbol_name_of(symbol).to_owned() == wanted {
            return Some(symbol);
        }
        i += 1;
    }
    proof {
        assert forall|symbol: Symbol| #[trigger] symbol_name(symbol) != name@ by {
            lemma_symbol_listed(symbol);
        }
    }
    None
}

/// Finds the first entry called `name`.
pub fn find_field<'a>(fields: &'a Vec<Field>, name: &str) -> (r: Option<&'a FieldValue>)
    ensures
        match r {
            Some(value) => field_value(document_view(fields@), name@) == Some(value@),
            None => field_value(document_view(fields@), name@) is None,
        },
{
    let wanted: String = name.to_owned();
    let ghost document = document_view(fields@);
    proof {
        assert(document.skip(0) =~= document);
    }
    let mut i: usize = 0;
    while i < fields.len()
        invariant
            i <= fields@.len(),
            wanted@ == name@,
            document == document_view(fields@),
            field_value(document, name@) == field_value(document.skip(i as int), name@),
        decreases fields@.len() - i,
    {
        proof {
            assert(document.skip(i as int).skip(1) =~= document.skip(i + 1));
            assert(document.skip(i as int)[0] == fields@[i as int]@);
        }
        if fields[i].name == wanted {
            return Some(&fields[i].value);
        }
        i += 1;
    }
    None
}

/// Reads the version tag of a document.
pub fn find_version(fields: &Vec<Field>) -> (r: Option<String>)
    ensures
        match r {
            Some(version) => persisted_version(document_view(fields@)) == Some(version@),
            None => persisted_version(document_view(fields@)) is None,
        },
{
    match find_field(fields, "version") {
        Some(FieldValue::Text(version)) => Some(version.clone()),
        _ => None,
    }
}

/// Reads the offset of a symbol from a document.
pub fn find_offset(fields: &Vec<Field>, symbol: Symbol) -> (r: Option<usize>)
    ensures
        r == persisted_offset(document_view(fields@), symbol),
{
    match find_field(fields, symbol_name_of(symbol)) {
        Some(FieldValue::Integer(number)) => {
            if *number >= 0 && *number as u64 <= usize::MAX as u64 {
                Some(*number as usize)
            } else {
                None
            }
        },
        _ => None,
    }
}

/// Reads the registry that a document holds.
pub fn from_document(fields: &Vec<Field>) -> (r: Option<Registry>)
    ensures
        match persisted_registry(document_view(fields@)) {
            Some(registry) => r is Some && r->Some_0@ == registry,
            None => r is None,
        },
{
    if fields.len() != FIELD_COUNT {
        return None;
    }
    let version: String = find_version(fields)?;
    let lookup_stream_hash: usize = find_offset(fields, Symbol::LookupStreamHash)?;
    let inflate: usize = find_offset(fields, Symbol::Inflate)?;
    let memcpy_1: usize = find_offset(fields, Symbol::Memcpy1)?;
    let memcpy_2: usize = find_offset(fields, Symbol::Memcpy2)?;
    let memcpy_3: usize = find_offset(fields, Symbol::Memcpy3)?;
    let inflate_dir_file: usize = find_offset(fields, Symbol::InflateDirFile)?;
    let initial_loading: usize = find_offset(fields, Symbol::InitialLoading)?;
    let res_load_loop_start: usize = find_offset(fields, Symbol::ResLoadLoopStart)?;
    let res_load_loop_refresh: usize = find_offset(fields, Symbol::ResLoadLoopRefresh)?;
    let title_screen_version: usize = find_offset(fields, Symbol::TitleScreenVersion)?;
    let eshop_button: usize = find_offset(fields, Symbol::EshopButton)?;
    let msbt_text: usize = find_offset(fields, Symbol::MsbtText)?;
    let skip_opening: usize = find_offset(fields, Symbol::SkipOpening)?;
    let title_scene_play_opening: usize = find_offset(fields, Symbol::TitleScenePlayOpening)?;
    let title_scene_how_to_play: usize = find_offset(fields, Symbol::TitleSceneHowToPlay)?;
    let filesystem_info: usize = find_offset(fields, Symbol::FilesystemInfo)?;
    let res_service: usize = find_offset(fields, Symbol::ResService)?;
    let packet_send: usize = find_offset(fields, Symbol::PacketSend)?;
    let lua_magic_check: usize = find_offset(fields, Symbol::LuaMagicCheck)?;
    let inkling_patch: usize = find_offset(fields, Symbol::InklingPatch)?;
    let clear_ink_patch: usize = find_offset(fields, Symbol::ClearInkPatch)?;
    let set_global_color_for_classic_mode: usize = find_offset(
        fields,
        Symbol::SetGlobalColorForClassicMode,
    )?;
    let load_chara_1_for_all_costumes: usize = find_offset(
        fields,
        Symbol::LoadChara1ForAllCostumes,
    )?;
    let load_ui_file: usize = find_offset(fields, Symbol::LoadUiFile)?;
    let get_ui_chara_path_from_hash: usize = find_offset(fields, Symbol::GetUiCharaPathFromHash)?;
    let get_color_num_from_hash: usize = find_offset(fields, Symbol::GetColorNumFromHash)?;
    let get_echo_from_hash: usize = find_offset(fields, Symbol::GetEchoFromHash)?;
    let load_stock_icon_for_portrait_menu: usize = find_offset(
        fields,
        Symbol::LoadStockIconForPortraitMenu,
    )?;
    let css_set_selected_character_ui: usize = find_offset(
        fields,
        Symbol::CssSetSelectedCharacterUi,
    )?;
    let chara_select_scene_destructor: usize = find_offset(
        fields,
        Symbol::CharaSelectSceneDestructor,
    )?;
    let parameters_cache: usize = find_offset(fields, Symbol::ParametersCache)?;
    let is_online: usize = find_offset(fields, Symbol::IsOnline)?;
    let change_color_r: usize = find_offset(fields, Symbol::ChangeColorR)?;
    let change_color_l: usize = find_offset(fields, Symbol::ChangeColorL)?;
    let offsets = Offsets {
        lookup_stream_hash,
        inflate,
        memcpy_1,
        memcpy_2,
        memcpy_3,
        inflate_dir_file,
        initial_loading,
        res_load_loop_start,
        res_load_loop_refresh,
        title_screen_version,
        eshop_button,
        msbt_text,
        skip_opening,
        title_scene_play_opening,
        title_scene_how_to_play,
        filesystem_info,
        res_service,
        packet_send,
        lua_magic_check,
        inkling_patch,
        clear_ink_patch,
        set_global_color_for_classic_mode,
        load_chara_1_for_all_costumes,
        load_ui_file,
        get_ui_chara_path_from_hash,
        get_color_num_from_hash,
        get_echo_from_hash,
        load_stock_icon_for_portrait_menu,
        css_set_selected_character_ui,
        chara_select_scene_destructor,
        parameters_cache,
        is_online,
        change_color_r,
        change_color_l,
    };
    proof {
        assert forall|symbol: Symbol| (#[trigger] persisted_offset(
            document_view(fields@),
            symbol,
        )) is Some by {
            assert(offsets.offset_of(symbol) == persisted_offset(
                document_view(fields@),
                symbol,
            )->Some_0);
        }
    }
    Some(Registry { version, offsets })
}

/// Lists each symbol's offset under its name, as the integers of a document.
/// There is no such list where an offset is beyond the integers of a document.
pub fn document_numbers(offsets: &Offsets) -> (r: Option<Vec<(String, i64)>>)
    ensures
        fits_document(*offsets) ==> r is Some && numbers_view(r->Some_0@) == numbers_of(*offsets),
        !fits_document(*offsets) ==> r is None,
{
    let limit: usize = if usize::MAX as u64 > i64::MAX as u64 {
        i64::MAX as usize
    } else {
        usize::MAX
    };
    let mut numbers: Vec<(String, i64)> = Vec::new();
    let mut i: usize = 0;
    while i < 34
        invariant
            i <= 34,
            limit <= i64::MAX,
            limit == i64::MAX || limit == usize::MAX,
            numbers@.len() == i,
            forall|j: int|
                0 <= j < i ==> (#[trigger] numbers@[j]).0@ == symbol_name(SYMBOLS@[j])
                    && numbers@[j].1 == offsets.offset_of(SYMBOLS@[j]),
            forall|j: int| 0 <= j < i ==> offsets.offset_of(#[trigger] SYMBOLS@[j]) <= i64::MAX,
        decreases 34 - i,
    {
        let symbol: Symbol = SYMBOLS[i];
        let offset: usize = offsets.lookup(symbol);
        if offset > limit {
            return None;
        }
        numbers.push((symbol_name_of(symbol).to_owned(), offset as i64));
        i += 1;
    }
    proof {
        assert forall|symbol: Symbol| (#[trigger] offsets.offset_of(symbol)) <= i64::MAX by {
            lemma_symbol_listed(symbol);
        }
        assert(numbers_view(numbers@) =~= numbers_of(*offsets));
    }
    Some(numbers)
}

impl Offsets {
    /// Tells whether two registries hold the same offset for every symbol.
    pub fn same(&self, other: &Offsets) -> (r: bool)
        ensures
            r == (*self == *other),
    {
        let mut i: usize = 0;
        while i < 34
            invariant
                i <= 34,
                forall|j: int|
                    0 <= j < i ==> self.offset_of(#[trigger] SYMBOLS@[j]) == other.offset_of(
                        SYMBOLS@[j],
                    ),
            decreases 34 - i,
        {
            let symbol: Symbol = SYMBOLS[i];
            if self.lookup(symbol) != other.lookup(symbol) {
                return false;
            }
            i += 1;
        }
        proof {
            assert forall|symbol: Symbol| (#[trigger] self.offset_of(symbol)) == other.offset_of(
                symbol,
            ) by {
                lemma_symbol_listed(symbol);
            }
            lemma_same_offsets(*self, *other);
        }
        true
    }

    /// The offset of the symbol that is persisted under `name`, if there is
    /// such a symbol.
    pub fn lookup_name(&self, name: &str) -> (r: Option<usize>)
        ensures
            match r {
                Some(offset) => exists|symbol: Symbol|
                    #[trigger] symbol_name(symbol) == name@ && offset == self.offset_of(symbol),
                None => forall|symbol: Symbol| #[trigger] symbol_name(symbol) != name@,
            },
    {
        match symbol_from_name(name) {
            Some(symbol) => Some(self.lookup(symbol)),
            None => None,
        }
    }
}

impl Registry {
    /// Sets the registry up from the text of the persisted document, if there
    /// is one, and the image: the persisted registry is taken where the text
    /// holds one of the expected version; otherwise the registry is computed
    /// from the image and is to be persisted. A text that is not shallow holds
    /// no registry, as one that is no document, and is not parsed.
    pub fn restore(expected_version: &str, document: Option<&str>, text: &[u8]) -> (r: Result<
        Initialized,
        OffsetError,
    >)
        ensures
            match initialized(expected_version@, persisted_in(document), text@) {
                Ok((offsets, persist)) => r is Ok && r->Ok_0.registry.version@ == expected_version@
                    && r->Ok_0.registry.offsets == offsets && r->Ok_0.persist == persist,
                Err(e) => r is Err && r->Err_0 == e,
            },
            document is None || !is_shallow(document->Some_0@) ==> match offsets_for(text@) {
                Some(offsets) => r is Ok && r->Ok_0.registry.offsets == offsets
                    && r->Ok_0.persist,
                None => r is Err && r->Err_0 == OffsetError::RegistryInitFailure,
            },
    {
        let persisted: Option<Registry> = match document {
            Some(document) => Registry::parse(document),
            None => None,
        };
        Registry::initialize(expected_version, persisted, text)
    }

    /// Reads a persisted registry from the text of its document. There is none
    /// where the text is not shallow, is no document, or the document holds no
    /// registry.
    pub fn parse(text: &str) -> (r: Option<Registry>)
        ensures
            match persisted_text(text@) {
                Some(registry) => r is Some && r->Some_0@ == registry,
                None => r is None,
            },
            !is_shallow(text@) ==> r is None,
    {
        if !within_nesting_limit(text) {
            return None;
        }
        match parse_document(text) {
            Some(fields) => from_document(&fields),
            None => None,
        }
    }

    /// Writes the registry as the text of a document: the version tag under
    /// `version`, and each symbol's offset under its name. The text is read
    /// back before it is handed out: there is a text exactly where every offset
    /// is an integer of a document and the text written holds this registry.
    /// A text that is not shallow holds none, so a version tag with more than
    /// `NESTING_LIMIT` of the bytes `[`, `{` and `.` cannot be written.
    pub fn render(&self) -> (r: Option<String>)
        ensures
            r is Some <==> fits_document(self.offsets) && persisted_text(
                written_text(self.version@, self.offsets),
            ) == Some(self@),
            r is Some ==> r->Some_0@ == written_text(self.version@, self.offsets),
            r is Some ==> persisted_text(r->Some_0@) == Some(self@),
    {
        let numbers = document_numbers(&self.offsets)?;
        let text: String = render_document("version", self.version.as_str(), &numbers)?;
        match Registry::parse(text.as_str()) {
            Some(read) => {
                if read.version == self.version && read.offsets.same(&self.offsets) {
                    Some(text)
                } else {
                    None
                }
            },
            None => None,
        }
    }
}

} // verus!
