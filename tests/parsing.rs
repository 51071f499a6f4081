use linsplit::layout::{decode_flag, find_time_block, utf16_units};
use linsplit::game_data::{Area, AreaMode, AreaSpec, GameData, NotFoundError, Readings};
use linsplit::split::Split;
use linsplit::split_data::{Setting, SplitData, SplitEntry};
use linsplit::text::{is_white_space, text_equals, text_starts_with};
use linsplit::time_span::TimeSpan;

#[test]
fn wire_form_has_nine_nanosecond_digits() {
    assert_eq!(TimeSpan::from_ticks(0).to_wire(), b"0.000000000".to_vec());
    assert_eq!(TimeSpan::from_ticks(1).to_wire(), b"0.000000100".to_vec());
    assert_eq!(TimeSpan::from_parts(3600, 7).unwrap().to_wire(), b"3600.000000007".to_vec());
}

#[test]
fn wire_form_rejects_other_shapes() {
    assert_eq!(TimeSpan::parse_wire(b"12.5"), None);
    assert_eq!(TimeSpan::parse_wire(b".500000000"), None);
    assert_eq!(TimeSpan::parse_wire(b"1x.500000000"), None);
    assert_eq!(TimeSpan::parse_wire(b"99999999999999999999.000000000"), None);
    assert_eq!(TimeSpan::parse_wire(b"007.000000001"), TimeSpan::from_parts(7, 1));
}

#[test]
fn from_parts_checks_range() {
    assert_eq!(TimeSpan::from_parts(1, 1_000_000_000), None);
    assert_eq!(TimeSpan::from_parts(-1, 0), None);
    assert_eq!(TimeSpan::from_parts(2, 5).unwrap().to_seconds_and_subsec_nanoseconds(), (2, 5));
}

#[test]
fn area_spec_forms() {
    assert_eq!(AreaSpec::parse("Core"), Some(AreaSpec { area: Area::Core, mode: None }));
    assert_eq!(
        AreaSpec::parse(" Core - BSide "),
        Some(AreaSpec { area: Area::Core, mode: Some(AreaMode::BSide) })
    );
    assert_eq!(
        AreaSpec::parse("Epilogue-None"),
        Some(AreaSpec { area: Area::Epilogue, mode: Some(AreaMode::NoMode) })
    );
    assert_eq!(AreaSpec::parse("Core-B-Side"), None);
    assert_eq!(AreaSpec::parse("Core-Hard"), None);
    assert_eq!(AreaSpec::parse("core"), None);
    assert_eq!(AreaSpec::parse(""), None);
}

#[test]
fn ids_map_to_areas_and_sides() {
    assert_eq!(Area::from_id(-2), Area::Unknown);
    assert_eq!(Area::from_id(-1), Area::Menu);
    assert_eq!(Area::from_id(0), Area::Prologue);
    assert_eq!(Area::from_id(10), Area::Farewell);
    assert_eq!(Area::from_id(11), Area::Unknown);
    assert_eq!(AreaMode::from_id(-1), AreaMode::NoMode);
    assert_eq!(AreaMode::from_id(2), AreaMode::CSide);
    assert_eq!(AreaMode::from_id(3), AreaMode::Unknown);
}

#[test]
fn split_names() {
    assert_eq!(Split::from_name("Chapter9Checkpoint8", "ignored"), Some(Split::Chapter9Checkpoint8));
    assert_eq!(Split::from_name("HeartGemAny", ""), Some(Split::HeartGemAny));
    assert_eq!(
        Split::from_name("AreaOnExit", "Core-ASide"),
        Some(Split::AreaOnExit { area: "Core-ASide".to_string() })
    );
    assert_eq!(Split::from_name("chapter1", ""), None);
    assert_eq!(Split::from_name("Chapter10", ""), None);
}

#[test]
fn checkpoint_table_entries() {
    assert_eq!(Split::Chapter3Checkpoint2.checkpoint(), Some((Area::CelestialResort, "09-d", "11")));
    assert_eq!(Split::Chapter9Checkpoint5.checkpoint(), Some((Area::Farewell, "h-00b", "h-00b")));
    assert_eq!(Split::Chapter1.checkpoint(), None);
    assert_eq!(Split::Chapter9.chapter(), Some(Area::Farewell));
    assert_eq!(Split::Epilogue.chapter(), Some(Area::Epilogue));
    assert_eq!(Split::Chapter8Cassette.cassette(), Some(Area::Core));
    assert_eq!(Split::Chapter4HeartGem.heart(), Some(Area::GoldenRidge));
}

#[test]
fn derived_flags() {
    let empty = SplitData::new(false, false, false, false, vec![]);
    assert!(empty.il_splits && !empty.chapter_splits);
    let two = SplitData::new(false, false, false, false, vec![Split::Chapter1, Split::Chapter2]);
    assert!(!two.il_splits && two.chapter_splits);
    let mixed = SplitData::new(
        false,
        false,
        false,
        false,
        vec![Split::Chapter1, Split::Chapter1Cassette, Split::HeartGemAny, Split::Chapter1Checkpoint1],
    );
    assert!(mixed.il_splits && mixed.chapter_splits);
    let flat = SplitData::new(false, false, false, false, vec![Split::Manual, Split::Chapter1Checkpoint1]);
    assert!(flat.il_splits && !flat.chapter_splits);
    let hearts = SplitData::new(false, false, false, false, vec![Split::HeartGemAny, Split::Chapter2HeartGem]);
    assert!(!hearts.il_splits);
}

#[test]
fn failed_reads_take_neutral_values() {
    let mut g = GameData::new();
    g.update(Readings {
        chapter_complete: None,
        level_name: None,
        area_id: None,
        area_difficulty: None,
        chapter_started: None,
        game_time: None,
        level_time: None,
        strawberries: None,
        cassettes: None,
        chapter_cassette_collected: None,
        heart_gems: None,
        chapter_heart_collected: None,
        starting_new_file: None,
    });
    assert_eq!(g.level_name, "Unknown");
    assert_eq!(g.area_id, Area::Unknown);
    assert_eq!(g.area_difficulty, AreaMode::Unknown);
    assert_eq!(g.game_time, 0);
    assert!(!g.chapter_complete);
    g.update(Readings {
        chapter_complete: Some(true),
        level_name: Some("a-00".to_string()),
        area_id: Some(9),
        area_difficulty: Some(1),
        chapter_started: Some(true),
        game_time: Some(7),
        level_time: Some(8),
        strawberries: Some(9),
        cassettes: Some(10),
        chapter_cassette_collected: Some(true),
        heart_gems: Some(11),
        chapter_heart_collected: Some(true),
        starting_new_file: Some(true),
    });
    assert_eq!(g.level_name, "a-00");
    assert_eq!(g.area_id, Area::Core);
    assert_eq!(g.area_difficulty, AreaMode::BSide);
    assert_eq!((g.game_time, g.level_time, g.strawberries, g.cassettes, g.heart_gems), (7, 8, 9, 10, 11));
    assert!(g.chapter_complete && g.chapter_started && g.starting_new_file);
}

#[test]
fn text_helpers() {
    assert!(text_equals("b-00", "b-00"));
    assert!(!text_equals("b-00", "B-00"));
    assert!(text_starts_with("credits-1", "credits"));
    assert!(!text_starts_with("cred", "credits"));
    assert!(is_white_space('\u{3000}'));
    assert!(!is_white_space('x'));
}

#[test]
fn not_found_message() {
    assert_eq!(NotFoundError.message(), "process to attach not found");
}

#[test]
fn time_block_found_after_zero_run() {
    let needle: [u8; 8] = 123456789u64.to_le_bytes();
    let mut buf = vec![1u8; 96];
    for b in &mut buf[24..40] {
        *b = 0;
    }
    buf[40..48].copy_from_slice(&needle);
    assert_eq!(find_time_block(&buf, &needle), Some(40));
    buf[39] = 7;
    assert_eq!(find_time_block(&buf, &needle), None);
    let mut early = vec![0u8; 64];
    early[16..24].copy_from_slice(&needle);
    early[32..40].copy_from_slice(&needle);
    assert_eq!(find_time_block(&early, &needle), Some(16));
    let mut unaligned = vec![0u8; 64];
    unaligned[20..28].copy_from_slice(&needle);
    assert_eq!(find_time_block(&unaligned, &needle), None);
    let mut too_late = vec![0u8; 64];
    too_late[48..56].copy_from_slice(&needle);
    assert_eq!(find_time_block(&too_late, &needle), None);
    assert_eq!(find_time_block(&[0u8; 10], &needle), None);
}

#[test]
fn utf16_units_are_little_endian() {
    assert_eq!(utf16_units(&[0x61, 0x00, 0x2d, 0x00, 0x30, 0x00]), vec![0x61, 0x2d, 0x30]);
    assert_eq!(utf16_units(&[0x34, 0x12, 0x07]), vec![0x1234, 0x07]);
    assert_eq!(utf16_units(&[]), Vec::<u16>::new());
    assert_eq!(String::from_utf16(&utf16_units(&[0x62, 0, 0x2d, 0, 0x30, 0, 0x30, 0])).unwrap(), "b-00");
}

#[test]
fn flags_decode_or_reject() {
    let known = 0b1_1111 | (1 << 31);
    assert_eq!(decode_flag(0b10, known, 0b10), Some(true));
    assert_eq!(decode_flag(0b01, known, 0b10), Some(false));
    assert_eq!(decode_flag(1 << 20, known, 0b10), None);
    assert_eq!(decode_flag(1 << 31 | 0b1000, known, 0b1000), Some(true));
}

fn setting(tag: &str, text: Option<&str>) -> Setting {
    Setting { tag: tag.to_string(), text: text.map(|t| t.to_string()) }
}

fn entry(name: &str, argument: &str) -> SplitEntry {
    SplitEntry { name: name.to_string(), argument: argument.to_string() }
}

#[test]
fn settings_become_configuration() {
    let settings = vec![
        setting("AutoReset", Some("True")),
        setting("SetGameTime", Some("true")),
        setting("FileTimeOffset", Some("True")),
        setting("FileTimeOffset", Some("False")),
        setting("SetHighPriority", None),
        setting("Splits", None),
    ];
    let entries = vec![
        entry("Chapter1", ""),
        entry("NoSuchRule", ""),
        entry("LevelEnter", "b-00"),
        entry("Chapter2Cassette", "x"),
    ];
    let data = SplitData::from_settings(&settings, &entries);
    assert!(data.auto_reset);
    assert!(!data.set_game_time);
    assert!(!data.file_time_offset);
    assert!(!data.set_high_priority);
    assert_eq!(
        data.splits,
        vec![Split::Chapter1, Split::LevelEnter { level: "b-00".to_string() }, Split::Chapter2Cassette]
    );
    assert!(data.il_splits && data.chapter_splits);
    let none = SplitData::from_settings(&vec![], &vec![]);
    assert!(!none.auto_reset && none.splits.is_empty() && none.il_splits);
}
