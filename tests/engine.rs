use linsplit::commands::{Command, Event, TimingMethod};
use linsplit::engine::LinSplitData;
use linsplit::game_data::{Area, AreaMode, GameData};
use linsplit::protocol::Inbox;
use linsplit::split::Split;
use linsplit::split_data::SplitData;
use linsplit::time_span::TimeSpan;

fn config(auto_reset: bool, file_time_offset: bool, splits: Vec<Split>) -> SplitData {
    SplitData::new(auto_reset, false, false, file_time_offset, splits)
}

fn snapshot(area: Area, mode: AreaMode, level: &str) -> GameData {
    let mut t = GameData::new();
    t.area_id = area;
    t.area_difficulty = mode;
    t.level_name = level.to_string();
    t
}

#[test]
fn zero_splits_start_on_second_level_change() {
    let mut e = LinSplitData::new(config(false, false, vec![]), 0);
    let mut fired = Vec::new();
    for name in ["", "1a", "1b"] {
        let mut t = snapshot(Area::ForsakenCity, AreaMode::ASide, name);
        t.level_time = 42;
        fired.push(e.tick(&t).command);
    }
    assert_eq!(fired, vec![None, None, Some(Command::SplitOrStart)]);
    assert_eq!(e.level_timer, 42);
    assert_eq!(e.current_split, -1);
}

#[test]
fn il_checkpoint_fires_once_then_relay_moves_past_it() {
    let data = config(false, false, vec![Split::Chapter1Checkpoint1]);
    assert!(data.il_splits);
    assert!(!data.chapter_splits);
    let mut e = LinSplitData::new(data, 0);
    let t = snapshot(Area::ForsakenCity, AreaMode::ASide, "6");
    assert_eq!(e.tick(&t).command, Some(Command::SplitOrStart));
    e.apply_event(Event::Started);
    assert_eq!(e.current_split, 0);
    assert_eq!(e.tick(&t).command, None);
    assert_eq!(e.tick(&t).command, None);
}

#[test]
fn checkpoint_uses_other_name_off_the_a_side() {
    let mut e = LinSplitData::new(config(false, false, vec![Split::Chapter1Checkpoint1]), 0);
    let a_name = snapshot(Area::ForsakenCity, AreaMode::BSide, "6");
    assert_eq!(e.tick(&a_name).command, None);
    let b_name = snapshot(Area::ForsakenCity, AreaMode::BSide, "04");
    assert_eq!(e.tick(&b_name).command, Some(Command::SplitOrStart));
}

#[test]
fn auto_reset_in_menu_sends_reset_and_no_split() {
    let data = config(true, false, vec![Split::Chapter1]);
    assert!(data.il_splits);
    assert!(data.chapter_splits);
    let mut e = LinSplitData::new(data, 0);
    e.apply_event(Event::Started);
    let mut t = snapshot(Area::ForsakenCity, AreaMode::ASide, "1");
    t.chapter_complete = true;
    t.level_time = 5;
    assert_eq!(e.tick(&t).command, Some(Command::SplitOrStart));
    assert!(!e.exiting_chapter);
    let mut menu = snapshot(Area::Menu, AreaMode::ASide, "");
    menu.chapter_complete = false;
    let actions = e.tick(&menu);
    assert_eq!(actions.command, Some(Command::Reset { save_attempt: Some(true) }));
    assert!(!e.exiting_chapter);
}

#[test]
fn chapter_latch_fires_once_on_falling_edge() {
    let mut e = LinSplitData::new(config(false, false, vec![Split::Chapter1, Split::Chapter2]), 0);
    assert!(!e.splits.il_splits);
    e.exiting_chapter = true;
    assert_eq!(e.chapter_split_step(Area::ForsakenCity, Area::ForsakenCity, false, false, true), (true, true));
    assert_eq!(e.chapter_split_step(Area::ForsakenCity, Area::ForsakenCity, false, false, false), (false, true));
    e.exiting_chapter = false;
    assert_eq!(e.chapter_split_step(Area::ForsakenCity, Area::ForsakenCity, false, true, false), (false, true));
    assert_eq!(e.chapter_split_step(Area::OldSite, Area::ForsakenCity, false, true, false), (false, false));
}

#[test]
fn chapter_latch_over_ticks() {
    let mut e = LinSplitData::new(config(false, false, vec![Split::Chapter1, Split::Chapter2]), 0);
    e.apply_event(Event::Started);
    let mut t = snapshot(Area::ForsakenCity, AreaMode::ASide, "end");
    t.chapter_complete = true;
    assert_eq!(e.tick(&t).command, None);
    assert!(e.exiting_chapter);
    t.chapter_complete = false;
    assert_eq!(e.tick(&t).command, Some(Command::SplitOrStart));
    assert!(!e.exiting_chapter);
}

#[test]
fn summit_credits_do_not_complete_the_chapter() {
    let e = LinSplitData::new(config(false, false, vec![Split::Chapter7]), 0);
    assert_eq!(e.chapter_split(Area::TheSummit, Area::TheSummit, "Credits-00", true, false), (false, false));
    assert_eq!(e.chapter_split(Area::TheSummit, Area::TheSummit, "g-00", true, false), (true, true));
}

#[test]
fn level_enter_ignores_case() {
    let mut e = LinSplitData::new(
        config(false, false, vec![Split::LevelEnter { level: "A-00".to_string() }]),
        0,
    );
    let t = snapshot(Area::Core, AreaMode::ASide, "a-00");
    assert_eq!(e.tick(&t).command, Some(Command::SplitOrStart));
}

#[test]
fn level_exit_checks_previous_level() {
    let mut e = LinSplitData::new(
        config(false, false, vec![Split::LevelExit { level: "B-02".to_string() }]),
        0,
    );
    assert_eq!(e.tick(&snapshot(Area::Core, AreaMode::ASide, "b-02")).command, None);
    assert_eq!(e.tick(&snapshot(Area::Core, AreaMode::ASide, "b-03")).command, Some(Command::SplitOrStart));
}

#[test]
fn area_on_enter_and_exit() {
    let mut e = LinSplitData::new(
        config(false, false, vec![Split::AreaOnEnter { area: "OldSite".to_string() }]),
        0,
    );
    e.last_area_id = Area::ForsakenCity;
    assert!(e.area_change_split("OldSite", Area::OldSite, Area::OldSite, AreaMode::ASide, AreaMode::ASide));
    assert!(!e.area_change_split("OldSite", Area::ForsakenCity, Area::ForsakenCity, AreaMode::ASide, AreaMode::ASide));
    assert!(e.area_change_split("ForsakenCity", Area::OldSite, Area::ForsakenCity, AreaMode::ASide, AreaMode::ASide));
    assert!(!e.area_change_split("Nowhere", Area::OldSite, Area::OldSite, AreaMode::ASide, AreaMode::ASide));
    e.last_area_difficulty = AreaMode::ASide;
    assert!(e.area_change_split("OldSite-BSide", Area::OldSite, Area::OldSite, AreaMode::BSide, AreaMode::BSide));
    assert!(!e.area_change_split("OldSite-BSide", Area::OldSite, Area::OldSite, AreaMode::ASide, AreaMode::ASide));
}

#[test]
fn area_complete_with_side() {
    let mut e = LinSplitData::new(
        config(false, false, vec![Split::AreaComplete { area: "Core-BSide".to_string() }]),
        0,
    );
    assert!(e.splits.il_splits);
    e.last_area_difficulty = AreaMode::BSide;
    assert_eq!(e.area_complete_split("Core-BSide", Area::Core, "x", true, false), (true, true));
    e.last_area_difficulty = AreaMode::ASide;
    assert_eq!(e.area_complete_split("Core-BSide", Area::Core, "x", true, false), (false, true));
    assert_eq!(e.area_complete_split("Core", Area::Core, "x", true, false), (true, true));
    assert_eq!(e.area_complete_split("Core-", Area::Core, "x", true, false), (false, false));
}

#[test]
fn cassette_counter_increase_fires() {
    let mut e = LinSplitData::new(
        config(false, false, vec![Split::Chapter1, Split::Chapter2, Split::Chapter2Cassette]),
        0,
    );
    assert!(!e.splits.il_splits);
    e.apply_event(Event::Started);
    e.apply_event(Event::Splitted);
    e.apply_event(Event::Splitted);
    assert_eq!(e.current_split, 2);
    let mut t = snapshot(Area::OldSite, AreaMode::ASide, "s1");
    t.cassettes = 3;
    assert_eq!(e.tick(&t).command, None);
    assert_eq!(e.last_cassettes, 3);
    t.chapter_cassette_collected = true;
    assert_eq!(e.tick(&t).command, None);
    t.cassettes = 4;
    assert_eq!(e.tick(&t).command, Some(Command::SplitOrStart));
}

#[test]
fn sentinel_blocks_first_reading() {
    let mut e = LinSplitData::new(config(false, false, vec![Split::HeartGemAny, Split::Chapter1, Split::Chapter2]), 0);
    e.apply_event(Event::Started);
    let mut t = snapshot(Area::OldSite, AreaMode::ASide, "s1");
    t.heart_gems = 10001;
    assert_eq!(e.last_heart_gems, 10000);
    assert_eq!(e.tick(&t).command, Some(Command::SplitOrStart));
    let mut e2 = LinSplitData::new(config(false, false, vec![Split::HeartGemAny, Split::Chapter1, Split::Chapter2]), 0);
    e2.apply_event(Event::Started);
    t.heart_gems = 1;
    assert_eq!(e2.tick(&t).command, None);
}

#[test]
fn index_clamps_under_repeated_skip_and_undo() {
    let mut e = LinSplitData::new(config(false, false, vec![Split::Manual, Split::Manual]), 0);
    for _ in 0..5 {
        e.apply_event(Event::SplitUndone);
    }
    assert_eq!(e.current_split, -1);
    for _ in 0..5 {
        e.apply_event(Event::SplitSkipped);
    }
    assert_eq!(e.current_split, 2);
    e.apply_event(Event::Finished);
    assert_eq!(e.current_split, 2);
    e.apply_event(Event::Paused);
    assert_eq!(e.current_split, 2);
    e.exiting_chapter = true;
    e.last_area_id = Area::Core;
    e.apply_event(Event::Reset);
    assert_eq!(e.current_split, -1);
    assert!(!e.exiting_chapter);
    assert_eq!(e.last_area_id, Area::Unknown);
    assert_eq!(e.last_area_difficulty, AreaMode::Unknown);
}

#[test]
fn relay_consumes_each_event_once() {
    let mut e = LinSplitData::new(config(false, false, vec![Split::Manual, Split::Manual, Split::Manual]), 0);
    let mut inbox = Inbox::new();
    inbox.route(linsplit::protocol::Frame::Event(Event::Started));
    inbox.route(linsplit::protocol::Frame::Event(Event::Splitted));
    assert_eq!(e.relay_event(&mut inbox), Some(Event::Started));
    assert_eq!(e.current_split, 0);
    assert_eq!(e.relay_event(&mut inbox), Some(Event::Splitted));
    assert_eq!(e.current_split, 1);
    assert_eq!(e.relay_event(&mut inbox), None);
    assert_eq!(e.current_split, 1);
}

#[test]
fn tick_never_moves_the_index() {
    let mut e = LinSplitData::new(config(false, false, vec![Split::Chapter1Checkpoint1, Split::Manual]), 0);
    let t = snapshot(Area::ForsakenCity, AreaMode::ASide, "6");
    assert_eq!(e.tick(&t).command, Some(Command::SplitOrStart));
    assert_eq!(e.current_split, -1);
}

#[test]
fn game_time_reported_in_il_mode() {
    let mut e = LinSplitData::new(config(false, false, vec![Split::Chapter1Checkpoint1]), 0);
    let mut t = snapshot(Area::ForsakenCity, AreaMode::ASide, "1");
    t.level_time = 125_000_000;
    let actions = e.tick(&t);
    assert_eq!(actions.game_time.unwrap().to_seconds_and_subsec_nanoseconds(), (12, 500_000_000));
    let mut menu = snapshot(Area::Menu, AreaMode::ASide, "");
    menu.level_time = 0;
    let held = e.tick(&menu);
    assert_eq!(held.game_time.unwrap().to_seconds_and_subsec_nanoseconds(), (12, 500_000_000));
    assert_eq!(e.last_level_name, "1");
}

#[test]
fn game_time_suppressed_on_changed_non_positive() {
    let mut e = LinSplitData::new(config(false, false, vec![Split::Chapter1, Split::Chapter2]), 0);
    e.apply_event(Event::Started);
    let mut t = snapshot(Area::ForsakenCity, AreaMode::ASide, "1");
    t.game_time = 50;
    assert!(e.tick(&t).game_time.is_some());
    t.game_time = 0;
    assert!(e.tick(&t).game_time.is_none());
    assert!(e.tick(&t).game_time.is_some());
}

#[test]
fn file_time_offset_subtracts_start_time() {
    let mut e = LinSplitData::new(config(false, true, vec![Split::Chapter1, Split::Chapter2]), 30_000_000);
    e.apply_event(Event::Started);
    let mut t = snapshot(Area::ForsakenCity, AreaMode::ASide, "1");
    t.game_time = 45_000_000;
    let ts = e.tick(&t).game_time.unwrap();
    assert_eq!(ts.to_seconds_and_subsec_nanoseconds(), (1, 500_000_000));
}

#[test]
fn startup_switches_to_game_time() {
    let e = LinSplitData::new(SplitData::new(false, false, true, false, vec![]), 0);
    assert_eq!(
        e.startup_command(),
        Some(Command::SetCurrentTimingMethod { timing_method: TimingMethod::GameTime })
    );
    let f = LinSplitData::new(SplitData::new(false, false, false, false, vec![]), 0);
    assert_eq!(f.startup_command(), None);
}

#[test]
fn set_game_time_wire_round_trip() {
    let t = TimeSpan::from_ticks(125_000_000);
    let wire = t.to_wire();
    assert_eq!(wire, b"12.500000000".to_vec());
    assert_eq!(TimeSpan::parse_wire(&wire), Some(t));
    assert_eq!(Command::SetGameTime { time: t }, Command::SetGameTime { time: TimeSpan::parse_wire(&wire).unwrap() });
}

#[test]
fn relay_all_applies_whole_queue_in_order() {
    let mut e = LinSplitData::new(config(false, false, vec![Split::Manual, Split::Manual, Split::Manual]), 0);
    let mut inbox = Inbox::new();
    for ev in [Event::Started, Event::Splitted, Event::Paused, Event::SplitSkipped, Event::SplitUndone] {
        inbox.route(linsplit::protocol::Frame::Event(ev));
    }
    e.exiting_chapter = true;
    e.relay_all(&mut inbox);
    assert_eq!(e.current_split, 1);
    assert!(!e.exiting_chapter);
    assert_eq!(inbox.take_event(), None);
    e.relay_all(&mut inbox);
    assert_eq!(e.current_split, 1);
}

#[test]
fn snapshot_starts_in_prologue_a_side() {
    let g = GameData::new();
    assert_eq!(g.area_id, Area::Prologue);
    assert_eq!(g.area_difficulty, AreaMode::ASide);
    assert_eq!(g.level_name, "");
    assert_eq!((g.game_time, g.level_time, g.cassettes, g.heart_gems), (0, 0, 0, 0));
}
