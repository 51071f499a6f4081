use vstd::prelude::*;
use crate::text::{chars_of, trim, trimmed_equals};

verus! {

/// A top-level area of the game.
#[derive(Clone, Copy, Debug, PartialEq, Eq, Structural, Hash)]
pub enum Area {
    Unknown,
    Menu,
    Prologue,
    ForsakenCity,
    OldSite,
    CelestialResort,
    GoldenRidge,
    MirrorTemple,
    Reflection,
    TheSummit,
    Epilogue,
    Core,
    Farewell,
}

/// The difficulty variant (side) of an area.
#[derive(Clone, Copy, Debug, PartialEq, Eq, Structural, Hash)]
pub enum AreaMode {
    Unknown,
    NoMode,
    ASide,
    BSide,
    CSide,
}

/// The area that the game numbers `id` (menu -1, prologue 0 up to farewell 10).
pub open spec fn area_of_id(id: i32) -> Area {
    if id == -1 {
        Area::Menu
    } else if id == 0 {
        Area::Prologue
    } else if id == 1 {
        Area::ForsakenCity
    } else if id == 2 {
        Area::OldSite
    } else if id == 3 {
        Area::CelestialResort
    } else if id == 4 {
        Area::GoldenRidge
    } else if id == 5 {
        Area::MirrorTemple
    } else if id == 6 {
        Area::Reflection
    } else if id == 7 {
        Area::TheSummit
    } else if id == 8 {
        Area::Epilogue
    } else if id == 9 {
        Area::Core
    } else if id == 10 {
        Area::Farewell
    } else {
        Area::Unknown
    }
}

/// The side that the game numbers `id` (none -1, A 0, B 1, C 2).
pub open spec fn mode_of_id(id: i32) -> AreaMode {
    if id == -1 {
        AreaMode::NoMode
    } else if id == 0 {
        AreaMode::ASide
    } else if id == 1 {
        AreaMode::BSide
    } else if id == 2 {
        AreaMode::CSide
    } else {
        AreaMode::Unknown
    }
}

/// The area whose name is `s`, if any.
pub open spec fn area_named(s: Seq<char>) -> Option<Area> {
    if s == "Unknown"@ {
        Some(Area::Unknown)
    } else if s == "Menu"@ {
        Some(Area::Menu)
    } else if s == "Prologue"@ {
        Some(Area::Prologue)
    } else if s == "ForsakenCity"@ {
        Some(Area::ForsakenCity)
    } else if s == "OldSite"@ {
        Some(Area::OldSite)
    } else if s == "CelestialResort"@ {
        Some(Area::CelestialResort)
    } else if s == "GoldenRidge"@ {
        Some(Area::GoldenRidge)
    } else if s == "MirrorTemple"@ {
        Some(Area::MirrorTemple)
    } else if s == "Reflection"@ {
        Some(Area::Reflection)
    } else if s == "TheSummit"@ {
        Some(Area::TheSummit)
    } else if s == "Epilogue"@ {
        Some(Area::Epilogue)
    } else if s == "Core"@ {
        Some(Area::Core)
    } else if s == "Farewell"@ {
        Some(Area::Farewell)
    } else {
        None
    }
}

/// The side whose name is `s`, if any.
pub open spec fn mode_named(s: Seq<char>) -> Option<AreaMode> {
    if s == "Unknown"@ {
        Some(AreaMode::Unknown)
    } else if s == "None"@ {
        Some(AreaMode::NoMode)
    } else if s == "ASide"@ {
        Some(AreaMode::ASide)
    } else if s == "BSide"@ {
        Some(AreaMode::BSide)
    } else if s == "CSide"@ {
        Some(AreaMode::CSide)
    } else {
        None
    }
}

/// A rule's target area: a chapter, and optionally the side it must be played on.
#[derive(Clone, Copy, Debug, PartialEq, Eq, Structural)]
pub struct AreaSpec {
    pub area: Area,
    pub mode: Option<AreaMode>,
}

/// Index of the first `'-'` in `s` at or after `i`, or the length of `s`.
pub open spec fn dash_from(s: Seq<char>, i: int) -> int
    decreases s.len() - i,
{
    if i < 0 || i >= s.len() {
        s.len() as int
    } else if s[i] == '-' {
        i
    } else {
        dash_from(s, i + 1)
    }
}

/// What an area text such as `"Core"` or `"Core-BSide"` names: a chapter, or a chapter
/// and a side, separated by one dash, each part trimmed of white space.
pub open spec fn area_spec_of(s: Seq<char>) -> Option<AreaSpec> {
    let d = dash_from(s, 0);
    if d == s.len() {
        match area_named(trim(s)) {
            Some(a) => Some(AreaSpec { area: a, mode: None }),
            None => None,
        }
    } else if dash_from(s, d + 1) < s.len() {
        None
    } else {
        match (area_named(trim(s.subrange(0, d))), mode_named(trim(s.subrange(d + 1, s.len() as int)))) {
            (Some(a), Some(m)) => Some(AreaSpec { area: a, mode: Some(m) }),
            _ => None,
        }
    }
}

impl Area {
    pub fn from_id(id: i32) -> (r: Area)
        ensures
            r == area_of_id(id),
    {
        match id {
            -1 => Area::Menu,
            0 => Area::Prologue,
            1 => Area::ForsakenCity,
            2 => Area::OldSite,
            3 => Area::CelestialResort,
            4 => Area::GoldenRidge,
            5 => Area::MirrorTemple,
            6 => Area::Reflection,
            7 => Area::TheSummit,
            8 => Area::Epilogue,
            9 => Area::Core,
            10 => Area::Farewell,
            _ => Area::Unknown,
        }
    }
}

impl AreaMode {
    pub fn from_id(id: i32) -> (r: AreaMode)
        ensures
            r == mode_of_id(id),
    {
        match id {
            -1 => AreaMode::NoMode,
            0 => AreaMode::ASide,
            1 => AreaMode::BSide,
            2 => AreaMode::CSide,
            _ => AreaMode::Unknown,
        }
    }
}

/// The area named by `v[lo..hi]` trimmed of white space.
fn area_in(v: &Vec<char>, lo: usize, hi: usize) -> (r: Option<Area>)
    requires
        lo <= hi <= v@.len(),
    ensures
        r == area_named(trim(v@.subrange(lo as int, hi as int))),
{
    if trimmed_equals(v, lo, hi, &chars_of("Unknown")) {
        Some(Area::Unknown)
    } else if trimmed_equals(v, lo, hi, &chars_of("Menu")) {
        Some(Area::Menu)
    } else if trimmed_equals(v, lo, hi, &chars_of("Prologue")) {
        Some(Area::Prologue)
    } else if trimmed_equals(v, lo, hi, &chars_of("ForsakenCity")) {
        Some(Area::ForsakenCity)
    } else if trimmed_equals(v, lo, hi, &chars_of("OldSite")) {
        Some(Area::OldSite)
    } else if trimmed_equals(v, lo, hi, &chars_of("CelestialResort")) {
        Some(Area::CelestialResort)
    } else if trimmed_equals(v, lo, hi, &chars_of("GoldenRidge")) {
        Some(Area::GoldenRidge)
    } else if trimmed_equals(v, lo, hi, &chars_of("MirrorTemple")) {
        Some(Area::MirrorTemple)
    } else if trimmed_equals(v, lo, hi, &chars_of("Reflection")) {
        Some(Area::Reflection)
    } else if trimmed_equals(v, lo, hi, &chars_of("TheSummit")) {
        Some(Area::TheSummit)
    } else if trimmed_equals(v, lo, hi, &chars_of("Epilogue")) {
        Some(Area::Epilogue)
    } else if trimmed_equals(v, lo, hi, &chars_of("Core")) {
        Some(Area::Core)
    } else if trimmed_equals(v, lo, hi, &chars_of("Farewell")) {
        Some(Area::Farewell)
    } else {
        None
    }
}

/// The side named by `v[lo..hi]` trimmed of white space.
fn mode_in(v: &Vec<char>, lo: usize, hi: usize) -> (r: Option<AreaMode>)
    requires
        lo <= hi <= v@.len(),
    ensures
        r == mode_named(trim(v@.subrange(lo as int, hi as int))),
{
    if trimmed_equals(v, lo, hi, &chars_of("Unknown")) {
        Some(AreaMode::Unknown)
    } else if trimmed_equals(v, lo, hi, &chars_of("None")) {
        Some(AreaMode::NoMode)
    } else if trimmed_equals(v, lo, hi, &chars_of("ASide")) {
        Some(AreaMode::ASide)
    } else if trimmed_equals(v, lo, hi, &chars_of("BSide")) {
        Some(AreaMode::BSide)
    } else if trimmed_equals(v, lo, hi, &chars_of("CSide")) {
        Some(AreaMode::CSide)
    } else {
        None
    }
}

fn find_dash(v: &Vec<char>, from: usize) -> (r: usize)
    requires
        from <= v@.len(),
    ensures
        r == dash_from(v@, from as int),
        from <= r <= v@.len(),
{
    let mut i = from;
    while i < v.len()
        invariant
            from <= i <= v@.len(),
            dash_from(v@, from as int) == dash_from(v@, i as int),
        decreases v@.len() - i,
    {
        if v[i] == '-' {
            return i;
        }
        i = i + 1;
    }
    i
}

impl AreaSpec {
    /// Reads an area text such as `"Core"` or `"Core-BSide"`.
    pub fn parse(s: &str) -> (r: Option<AreaSpec>)
        ensures
            r == area_spec_of(s@),
    {
        let v = chars_of(s);
        let n = v.len();
        let d = find_dash(&v, 0);
        if d == n {
            proof {
                assert(v@.subrange(0, n as int) =~= v@);
            }
            match area_in(&v, 0, n) {
                Some(a) => Some(AreaSpec { area: a, mode: None }),
                None => None,
            }
        } else if find_dash(&v, d + 1) < n {
            None
        } else {
            match (area_in(&v, 0, d), mode_in(&v, d + 1, n)) {
                (Some(a), Some(m)) => Some(AreaSpec { area: a, mode: Some(m) }),
                _ => None,
            }
        }
    }
}

/// The game's process could not be found to attach to.
#[derive(Clone, Copy, Debug, PartialEq, Eq, Structural)]
pub struct NotFoundError;

impl NotFoundError {
    /// The error's message.
    pub fn message(&self) -> (r: String)
        ensures
            r@ == "process to attach not found"@,
    {
        "process to attach not found".to_owned()
    }
}

/// One reading of each telemetry field; `None` where the read failed.
pub struct Readings {
    pub chapter_complete: Option<bool>,
    pub level_name: Option<String>,
    pub area_id: Option<i32>,
    pub area_difficulty: Option<i32>,
    pub chapter_started: Option<bool>,
    pub game_time: Option<i64>,
    pub level_time: Option<i64>,
    pub strawberries: Option<u32>,
    pub cassettes: Option<u32>,
    pub chapter_cassette_collected: Option<bool>,
    pub heart_gems: Option<u32>,
    pub chapter_heart_collected: Option<bool>,
    pub starting_new_file: Option<bool>,
}

/// A snapshot of the game's live state. Times are counted in ticks of 100 ns.
pub struct GameData {
    pub chapter_complete: bool,
    pub level_name: String,
    pub area_id: Area,
    pub area_difficulty: AreaMode,
    pub chapter_started: bool,
    pub game_time: i64,
    pub level_time: i64,
    pub strawberries: u32,
    pub cassettes: u32,
    pub chapter_cassette_collected: bool,
    pub heart_gems: u32,
    pub chapter_heart_collected: bool,
    pub starting_new_file: bool,
}

pub open spec fn or_default<T>(o: Option<T>, d: T) -> T {
    match o {
        Some(v) => v,
        None => d,
    }
}

impl GameData {
    /// The snapshot before any reading: nothing started, empty level name, the game's
    /// area and side ids both 0 (the prologue, A side).
    pub fn new() -> (r: GameData)
        ensures
            !r.chapter_complete,
            r.level_name@ == Seq::<char>::empty(),
            r.area_id == Area::Prologue,
            r.area_difficulty == AreaMode::ASide,
            !r.chapter_started,
            r.game_time == 0,
            r.level_time == 0,
            r.strawberries == 0,
            r.cassettes == 0,
            !r.chapter_cassette_collected,
            r.heart_gems == 0,
            !r.chapter_heart_collected,
            !r.starting_new_file,
    {
        GameData {
            chapter_complete: false,
            level_name: String::new(),
            area_id: Area::Prologue,
            area_difficulty: AreaMode::ASide,
            chapter_started: false,
            game_time: 0,
            level_time: 0,
            strawberries: 0,
            cassettes: 0,
            chapter_cassette_collected: false,
            heart_gems: 0,
            chapter_heart_collected: false,
            starting_new_file: false,
        }
    }

    /// Replaces every field by its new reading; a failed read gives the field's neutral
    /// value (`false`, `0`, level name `"Unknown"`, area and side unknown).
    pub fn update(&mut self, r: Readings)
        ensures
            final(self).chapter_complete == or_default(r.chapter_complete, false),
            r.level_name matches Some(n) ==> final(self).level_name == n,
            r.level_name is None ==> final(self).level_name@ == "Unknown"@,
            final(self).area_id == (match r.area_id {
                Some(id) => area_of_id(id),
                None => Area::Unknown,
            }),
            final(self).area_difficulty == (match r.area_difficulty {
                Some(id) => mode_of_id(id),
                None => AreaMode::Unknown,
            }),
            final(self).chapter_started == or_default(r.chapter_started, false),
            final(self).game_time == or_default(r.game_time, 0),
            final(self).level_time == or_default(r.level_time, 0),
            final(self).strawberries == or_default(r.strawberries, 0),
            final(self).cassettes == or_default(r.cassettes, 0),
            final(self).chapter_cassette_collected == or_default(r.chapter_cassette_collected, false),
            final(self).heart_gems == or_default(r.heart_gems, 0),
            final(self).chapter_heart_collected == or_default(r.chapter_heart_collected, false),
            final(self).starting_new_file == or_default(r.starting_new_file, false),
    {
        self.chapter_complete = match r.chapter_complete {
            Some(v) => v,
            None => false,
        };
        self.level_name = match r.level_name {
            Some(v) => v,
            None => "Unknown".to_owned(),
        };
        self.area_id = match r.area_id {
            Some(id) => Area::from_id(id),
            None => Area::Unknown,
        };
        self.area_difficulty = match r.area_difficulty {
            Some(id) => AreaMode::from_id(id),
            None => AreaMode::Unknown,
        };
        self.chapter_started = match r.chapter_started {
            Some(v) => v,
            None => false,
        };
        self.game_time = match r.game_time {
            Some(v) => v,
            None => 0,
        };
        self.level_time = match r.level_time {
            Some(v) => v,
            None => 0,
        };
        self.strawberries = match r.strawberries {
            Some(v) => v,
            None => 0,
        };
        self.cassettes = match r.cassettes {
            Some(v) => v,
            None => 0,
        };
        self.chapter_cassette_collected = match r.chapter_cassette_collected {
            Some(v) => v,
            None => false,
        };
        self.heart_gems = match r.heart_gems {
            Some(v) => v,
            None => 0,
        };
        self.chapter_heart_collected = match r.chapter_heart_collected {
            Some(v) => v,
            None => false,
        };
        self.starting_new_file = match r.starting_new_file {
            Some(v) => v,
            None => false,
        };
    }
}

} // verus!
