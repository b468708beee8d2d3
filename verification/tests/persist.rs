use sigscan::error::OffsetError;
use sigscan::persist::{
    document_numbers, find_field, find_offset, find_version, from_document, symbol_from_name,
    symbol_name_of, within_nesting_limit, Field, FieldValue, FIELD_COUNT, NESTING_LIMIT,
};
use sigscan::registry::{Offsets, Registry, Symbol};

const NAMES: [&str; 34] = [
    "lookup_stream_hash",
    "inflate",
    "memcpy_1",
    "memcpy_2",
    "memcpy_3",
    "inflate_dir_file",
    "initial_loading",
    "res_load_loop_start",
    "res_load_loop_refresh",
    "title_screen_version",
    "eshop_button",
    "msbt_text",
    "skip_opening",
    "title_scene_play_opening",
    "title_scene_how_to_play",
    "filesystem_info",
    "res_service",
    "packet_send",
    "lua_magic_check",
    "inkling_patch",
    "clear_ink_patch",
    "set_global_color_for_classic_mode",
    "load_chara_1_for_all_costumes",
    "load_ui_file",
    "get_ui_chara_path_from_hash",
    "get_color_num_from_hash",
    "get_echo_from_hash",
    "load_stock_icon_for_portrait_menu",
    "css_set_selected_character_ui",
    "chara_select_scene_destructor",
    "parameters_cache",
    "is_online",
    "change_color_r",
    "change_color_l",
];

/// Offsets that differ from symbol to symbol: 1000 and the place of the
/// symbol's name in `NAMES`.
fn sample() -> Offsets {
    let mut fields = vec![text_field("version", "sample")];
    for (i, name) in NAMES.iter().enumerate() {
        fields.push(integer_field(name, 1000 + i as i64));
    }
    from_document(&fields).expect("a whole document").offsets
}

fn integer_field(name: &str, number: i64) -> Field {
    Field { name: name.to_string(), value: FieldValue::Integer(number) }
}

fn text_field(name: &str, text: &str) -> Field {
    Field { name: name.to_string(), value: FieldValue::Text(text.to_string()) }
}

fn document(version: &str, first: i64) -> Vec<Field> {
    let mut fields = Vec::new();
    for (i, name) in NAMES.iter().enumerate() {
        fields.push(integer_field(name, first + i as i64));
    }
    fields.push(text_field("version", version));
    fields.reverse();
    fields
}

fn text_of(version: &str, first: i64) -> String {
    let mut text = format!("version = \"{}\"\n", version);
    for (i, name) in NAMES.iter().enumerate() {
        text.push_str(&format!("{} = {}\n", name, first + i as i64));
    }
    text
}

#[test]
fn every_symbol_has_its_name() {
    assert_eq!(FIELD_COUNT, NAMES.len() + 1);
    assert_eq!(symbol_name_of(Symbol::LookupStreamHash), "lookup_stream_hash");
    assert_eq!(symbol_name_of(Symbol::EshopButton), "eshop_button");
    assert_eq!(symbol_name_of(Symbol::ChangeColorL), "change_color_l");
    for name in NAMES {
        let symbol = symbol_from_name(name).expect("a symbol's name");
        assert_eq!(symbol_name_of(symbol), name);
    }
    assert_eq!(symbol_from_name("inflate"), Some(Symbol::Inflate));
    assert_eq!(symbol_from_name("is_online"), Some(Symbol::IsOnline));
    assert_eq!(symbol_from_name("version"), None);
    assert_eq!(symbol_from_name("Inflate"), None);
    assert_eq!(symbol_from_name("inflate "), None);
    assert_eq!(symbol_from_name(""), None);
}

#[test]
fn an_offset_is_looked_up_by_the_name_of_its_symbol() {
    let offsets = sample();
    for (i, name) in NAMES.iter().enumerate() {
        assert_eq!(offsets.lookup_name(name), Some(1000 + i));
    }
    assert_eq!(offsets.lookup_name("inflate"), Some(1001));
    assert_eq!(offsets.lookup_name("inflate"), Some(offsets.inflate));
    assert_eq!(offsets.lookup_name("change_color_l"), Some(offsets.lookup(Symbol::ChangeColorL)));
    assert_eq!(offsets.lookup_name("deflate"), None);
}

#[test]
fn the_first_entry_of_a_name_is_found() {
    let fields = vec![
        integer_field("a", 1),
        text_field("b", "two"),
        Field { name: "c".to_string(), value: FieldValue::Other },
        integer_field("a", 4),
    ];
    assert!(matches!(find_field(&fields, "a"), Some(FieldValue::Integer(1))));
    assert!(matches!(find_field(&fields, "b"), Some(FieldValue::Text(text)) if text == "two"));
    assert!(matches!(find_field(&fields, "c"), Some(FieldValue::Other)));
    assert!(find_field(&fields, "d").is_none());
    assert!(find_field(&Vec::new(), "a").is_none());
}

#[test]
fn a_whole_document_reads_as_its_registry() {
    let fields = document("3.0.0", 500);
    assert_eq!(find_version(&fields), Some("3.0.0".to_string()));
    assert_eq!(find_offset(&fields, Symbol::LookupStreamHash), Some(500));
    assert_eq!(find_offset(&fields, Symbol::ChangeColorL), Some(533));
    let registry = from_document(&fields).expect("a whole document");
    assert_eq!(registry.version, "3.0.0");
    for (i, name) in NAMES.iter().enumerate() {
        assert_eq!(registry.offsets.lookup_name(name), Some(500 + i));
    }
    assert_eq!(registry.offsets.inflate, 501);
    assert_eq!(registry.offsets.is_online, 531);
}

#[test]
fn a_missing_entry_leaves_no_registry() {
    for missing in 0..35 {
        let mut fields = document("3.0.0", 500);
        fields.remove(missing);
        assert!(from_document(&fields).is_none());
        fields.push(integer_field("spare", 1));
        assert!(from_document(&fields).is_none());
    }
    assert!(from_document(&Vec::new()).is_none());
}

#[test]
fn an_entry_too_many_leaves_no_registry() {
    let mut fields = document("3.0.0", 500);
    fields.push(integer_field("spare", 1));
    assert!(from_document(&fields).is_none());
}

#[test]
fn an_entry_of_another_kind_leaves_no_registry() {
    let mut fields = document("3.0.0", 500);
    fields[3] = text_field(&fields[3].name.clone(), "12");
    assert!(from_document(&fields).is_none());
    let mut fields = document("3.0.0", 500);
    fields[0] = integer_field("version", 3);
    assert!(find_version(&fields).is_none());
    assert!(from_document(&fields).is_none());
    let mut fields = document("3.0.0", 500);
    fields[7].value = FieldValue::Other;
    assert!(from_document(&fields).is_none());
}

#[test]
fn a_negative_offset_leaves_no_registry() {
    let mut fields = document("3.0.0", 500);
    let name = fields[9].name.clone();
    fields[9] = integer_field(&name, -1);
    assert!(from_document(&fields).is_none());
    fields[9] = integer_field(&name, 0);
    assert!(from_document(&fields).is_some());
    fields[9] = integer_field(&name, i64::MAX);
    assert_eq!(from_document(&fields).is_some(), usize::MAX as u64 >= i64::MAX as u64);
}

#[test]
fn the_text_of_a_document_is_parsed() {
    let registry = Registry::parse(&text_of("3.0.0", 4096)).expect("a whole document");
    assert_eq!(registry.version, "3.0.0");
    for (i, name) in NAMES.iter().enumerate() {
        assert_eq!(registry.offsets.lookup_name(name), Some(4096 + i));
    }
    assert_eq!(registry.offsets.lookup_stream_hash, 4096);
    assert_eq!(registry.offsets.change_color_l, 4129);
}

#[test]
fn a_text_that_is_no_whole_document_holds_no_registry() {
    assert!(Registry::parse("").is_none());
    assert!(Registry::parse("version = ").is_none());
    assert!(Registry::parse("not a document").is_none());
    let whole = text_of("3.0.0", 4096);
    assert!(Registry::parse(&whole.replace("inflate = 4097\n", "")).is_none());
    assert!(Registry::parse(&whole.replace("inflate = 4097\n", "inflate = \"4097\"\n")).is_none());
    assert!(Registry::parse(&whole.replace("inflate = 4097\n", "inflate = 4097.0\n")).is_none());
    assert!(Registry::parse(&whole.replace("inflate = 4097\n", "inflate = -4097\n")).is_none());
    assert!(Registry::parse(&whole.replace("inflate = 4097\n", "deflate = 4097\n")).is_none());
    assert!(Registry::parse(&format!("{}spare = 1\n", whole)).is_none());
    assert!(Registry::parse(&whole.replace("version = \"3.0.0\"\n", "")).is_none());
    assert!(Registry::parse(&whole.replace("version = \"3.0.0\"", "version = 3")).is_none());
    assert!(Registry::parse(&format!("{}[table]\nspare = 1\n", whole)).is_none());
}

#[test]
fn a_registry_is_written_and_read_back() {
    let written = Registry { version: "3.0.0".to_string(), offsets: sample() };
    let text = written.render().expect("offsets within the integers of a document");
    assert_ne!(text, written.version);
    assert!(text.contains("inflate = 1001\n"));
    assert!(text.contains("change_color_l = 1033\n"));
    assert!(text.contains("3.0.0"));
    assert_eq!(text.lines().count(), 35);
    let read = Registry::parse(&text).expect("what was written");
    assert_eq!(read.version, "3.0.0");
    for name in NAMES {
        assert_eq!(read.offsets.lookup_name(name), written.offsets.lookup_name(name));
    }
}

#[test]
fn an_offset_beyond_the_integers_of_a_document_is_not_written() {
    let mut offsets = sample();
    let numbers = document_numbers(&offsets).expect("small offsets");
    assert_eq!(numbers.len(), 34);
    assert_eq!(numbers[0], ("lookup_stream_hash".to_string(), 1000));
    assert_eq!(numbers[1], ("inflate".to_string(), 1001));
    assert_eq!(numbers[33], ("change_color_l".to_string(), 1033));
    for (i, name) in NAMES.iter().enumerate() {
        assert_eq!(numbers[i], (name.to_string(), 1000 + i as i64));
    }
    if usize::MAX as u64 > i64::MAX as u64 {
        offsets.msbt_text = i64::MAX as usize;
        assert!(document_numbers(&offsets).is_some());
        offsets.msbt_text = i64::MAX as usize + 1;
        assert!(document_numbers(&offsets).is_none());
        assert!(Registry { version: "3.0.0".to_string(), offsets }.render().is_none());
    }
}

#[test]
fn a_persisted_text_of_the_expected_version_spares_the_scan() {
    let text = text_of("3.0.0", 4096);
    let restored = Registry::restore("3.0.0", Some(&text), &[]).expect("the persisted registry");
    assert!(!restored.persist);
    assert_eq!(restored.registry.version, "3.0.0");
    assert_eq!(restored.registry.offsets.inflate, 4097);
}

#[test]
fn without_a_usable_text_the_image_decides() {
    let image = vec![0u8; 0x1000];
    let text = text_of("3.0.0", 4096);
    assert_eq!(
        Registry::restore("3.0.1", Some(&text), &image).err(),
        Some(OffsetError::RegistryInitFailure)
    );
    assert_eq!(
        Registry::restore("3.0.0", Some("inflate = 1"), &image).err(),
        Some(OffsetError::RegistryInitFailure)
    );
    assert_eq!(
        Registry::restore("3.0.0", None, &image).err(),
        Some(OffsetError::RegistryInitFailure)
    );
}

#[test]
fn a_text_is_shallow_up_to_sixteen_marks() {
    assert_eq!(NESTING_LIMIT, 16);
    assert!(within_nesting_limit(""));
    assert!(within_nesting_limit("inflate = 4097\nversion = \"3.0.0\"\n"));
    assert!(within_nesting_limit(&"[".repeat(16)));
    assert!(!within_nesting_limit(&"[".repeat(17)));
    assert!(within_nesting_limit(&"{".repeat(16)));
    assert!(!within_nesting_limit(&"{".repeat(17)));
    assert!(within_nesting_limit(&"a.".repeat(16)));
    assert!(!within_nesting_limit(&"a.".repeat(17)));
    assert!(within_nesting_limit("[[[[[{{{{{......]"));
    assert!(!within_nesting_limit("[[[[[{{{{{.......]"));
    assert!(within_nesting_limit(&"]})(\u{e9}\u{5b57} = 1, ".repeat(5000)));
}

#[test]
fn a_deeply_nested_text_holds_no_registry_and_is_not_parsed() {
    let arrays = format!("a = {}", "[".repeat(200_000));
    assert!(Registry::parse(&arrays).is_none());
    let tables = format!("a = {}", "{ a = ".repeat(200_000));
    assert!(Registry::parse(&tables).is_none());
    let key = format!("a{} = 1", ".a".repeat(200_000));
    assert!(Registry::parse(&key).is_none());
    let header = format!("[a{}]\nb = 1", ".a".repeat(200_000));
    assert!(Registry::parse(&header).is_none());
    let behind = format!("{}a = {}", text_of("3.0.0", 4096), "[".repeat(200_000));
    assert!(Registry::parse(&behind).is_none());
}

#[test]
fn a_deeply_nested_text_leaves_the_image_to_decide() {
    let arrays = format!("a = {}", "[".repeat(200_000));
    assert_eq!(
        Registry::restore("3.0.0", Some(&arrays), &[]).err(),
        Some(OffsetError::RegistryInitFailure)
    );
}

#[test]
fn a_nested_text_within_the_limit_is_parsed() {
    let whole = text_of("3.0.0", 4096);
    assert!(Registry::parse(&whole).is_some());
    let nested = format!("{}spare = [[[[[[[[[[[[[[1]]]]]]]]]]]]]]\n", whole);
    assert!(within_nesting_limit(&nested));
    assert!(Registry::parse(&nested).is_none());
    let replaced = whole.replace("inflate = 4097\n", "inflate = [[[[[[[[[[[[[[1]]]]]]]]]]]]]]\n");
    assert!(within_nesting_limit(&replaced));
    assert!(Registry::parse(&replaced).is_none());
}

#[test]
fn a_version_tag_counts_towards_the_limit() {
    let sixteen = "1.2.3.4.5.6.7.8.9.10.11.12.13.14.15.16.17";
    let read = Registry::parse(&text_of(sixteen, 4096)).expect("sixteen marks");
    assert_eq!(read.version, sixteen);
    let seventeen = "1.2.3.4.5.6.7.8.9.10.11.12.13.14.15.16.17.18";
    assert!(Registry::parse(&text_of(seventeen, 4096)).is_none());
    let written = Registry { version: sixteen.to_string(), offsets: sample() };
    let text = written.render().expect("a text that reads back");
    assert_eq!(Registry::parse(&text).expect("what was written").version, sixteen);
    let written = Registry { version: seventeen.to_string(), offsets: sample() };
    assert!(written.render().is_none());
}

#[test]
fn what_is_written_reads_back_as_the_same_registry() {
    for version in ["3.0.0", "", "a \"quoted\" tag", "line\nbreak", "tab\tand \\ slash", "\u{e9}t\u{e9}"] {
        let written = Registry { version: version.to_string(), offsets: sample() };
        let text = written.render().expect("a text that reads back");
        let read = Registry::parse(&text).expect("what was written");
        assert_eq!(read.version, version);
        assert!(read.offsets.same(&written.offsets));
        let restored = Registry::restore(version, Some(&text), &[]).expect("no scan");
        assert!(!restored.persist);
        assert!(restored.registry.offsets.same(&written.offsets));
    }
}

#[test]
fn registries_are_the_same_where_every_offset_is() {
    let first = sample();
    let mut second = sample();
    assert!(first.same(&second));
    assert!(first.same(&first));
    second.change_color_l += 1;
    assert!(!first.same(&second));
    assert!(!second.same(&first));
    let mut third = sample();
    third.lookup_stream_hash = 0;
    assert!(!first.same(&third));
    for (i, name) in NAMES.iter().enumerate() {
        let mut fields = vec![text_field("version", "sample")];
        for (j, other) in NAMES.iter().enumerate() {
            fields.push(integer_field(other, 1000 + j as i64 + if i == j { 5000 } else { 0 }));
        }
        let changed = from_document(&fields).expect("a whole document").offsets;
        assert!(!first.same(&changed), "{}", name);
    }
}
