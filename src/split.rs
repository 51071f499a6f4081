use vstd::prelude::*;
use crate::game_data::Area;
use crate::text::text_equals;

verus! {

/// One configured split rule: the condition on the game's state that ends the
/// current segment of the run.
#[derive(Clone, Debug, PartialEq, Eq)]
pub enum Split {
    Manual,
    LevelEnter { level: String },
    LevelExit { level: String },
    AreaComplete { area: String },
    AreaOnEnter { area: String },
    AreaOnExit { area: String },
    HeartGemAny,
    ChapterA,
    Prologue,
    Chapter1,
    Chapter2,
    Chapter3,
    Chapter4,
    Chapter5,
    Chapter6,
    Chapter7,
    Epilogue,
    Chapter8,
    Chapter9,
    Chapter1Checkpoint1,
    Chapter1Checkpoint2,
    Chapter2Checkpoint1,
    Chapter2Checkpoint2,
    Chapter3Checkpoint1,
    Chapter3Checkpoint2,
    Chapter3Checkpoint3,
    Chapter4Checkpoint1,
    Chapter4Checkpoint2,
    Chapter4Checkpoint3,
    Chapter5Checkpoint1,
    Chapter5Checkpoint2,
    Chapter5Checkpoint3,
    Chapter5Checkpoint4,
    Chapter6Checkpoint1,
    Chapter6Checkpoint2,
    Chapter6Checkpoint3,
    Chapter6Checkpoint4,
    Chapter6Checkpoint5,
    Chapter7Checkpoint1,
    Chapter7Checkpoint2,
    Chapter7Checkpoint3,
    Chapter7Checkpoint4,
    Chapter7Checkpoint5,
    Chapter7Checkpoint6,
    Chapter8Checkpoint1,
    Chapter8Checkpoint2,
    Chapter8Checkpoint3,
    Chapter9Checkpoint1,
    Chapter9Checkpoint2,
    Chapter9Checkpoint3,
    Chapter9Checkpoint4,
    Chapter9Checkpoint5,
    Chapter9Checkpoint6,
    Chapter9Checkpoint7,
    Chapter9Checkpoint8,
    Chapter1Cassette,
    Chapter1HeartGem,
    Chapter2Cassette,
    Chapter2HeartGem,
    Chapter3Cassette,
    Chapter3HeartGem,
    Chapter4Cassette,
    Chapter4HeartGem,
    Chapter5Cassette,
    Chapter5HeartGem,
    Chapter6Cassette,
    Chapter6HeartGem,
    Chapter7Cassette,
    Chapter7HeartGem,
    Chapter8Cassette,
    Chapter8HeartGem,
}

/// The name under which a rule is configured.
pub open spec fn split_name(s: Split) -> Seq<char> {
    match s {
        Split::LevelEnter { .. } => "LevelEnter"@,
        Split::LevelExit { .. } => "LevelExit"@,
        Split::AreaComplete { .. } => "AreaComplete"@,
        Split::AreaOnEnter { .. } => "AreaOnEnter"@,
        Split::AreaOnExit { .. } => "AreaOnExit"@,
        Split::Manual => "Manual"@,
        Split::ChapterA => "ChapterA"@,
        Split::Prologue => "Prologue"@,
        Split::Chapter1 => "Chapter1"@,
        Split::Chapter2 => "Chapter2"@,
        Split::Chapter3 => "Chapter3"@,
        Split::Chapter4 => "Chapter4"@,
        Split::Chapter5 => "Chapter5"@,
        Split::Chapter6 => "Chapter6"@,
        Split::Chapter7 => "Chapter7"@,
        Split::Epilogue => "Epilogue"@,
        Split::Chapter8 => "Chapter8"@,
        Split::Chapter9 => "Chapter9"@,
        Split::Chapter1Checkpoint1 => "Chapter1Checkpoint1"@,
        Split::Chapter1Checkpoint2 => "Chapter1Checkpoint2"@,
        Split::Chapter2Checkpoint1 => "Chapter2Checkpoint1"@,
        Split::Chapter2Checkpoint2 => "Chapter2Checkpoint2"@,
        Split::Chapter3Checkpoint1 => "Chapter3Checkpoint1"@,
        Split::Chapter3Checkpoint2 => "Chapter3Checkpoint2"@,
        Split::Chapter3Checkpoint3 => "Chapter3Checkpoint3"@,
        Split::Chapter4Checkpoint1 => "Chapter4Checkpoint1"@,
        Split::Chapter4Checkpoint2 => "Chapter4Checkpoint2"@,
        Split::Chapter4Checkpoint3 => "Chapter4Checkpoint3"@,
        Split::Chapter5Checkpoint1 => "Chapter5Checkpoint1"@,
        Split::Chapter5Checkpoint2 => "Chapter5Checkpoint2"@,
        Split::Chapter5Checkpoint3 => "Chapter5Checkpoint3"@,
        Split::Chapter5Checkpoint4 => "Chapter5Checkpoint4"@,
        Split::Chapter6Checkpoint1 => "Chapter6Checkpoint1"@,
        Split::Chapter6Checkpoint2 => "Chapter6Checkpoint2"@,
        Split::Chapter6Checkpoint3 => "Chapter6Checkpoint3"@,
        Split::Chapter6Checkpoint4 => "Chapter6Checkpoint4"@,
        Split::Chapter6Checkpoint5 => "Chapter6Checkpoint5"@,
        Split::Chapter7Checkpoint1 => "Chapter7Checkpoint1"@,
        Split::Chapter7Checkpoint2 => "Chapter7Checkpoint2"@,
        Split::Chapter7Checkpoint3 => "Chapter7Checkpoint3"@,
        Split::Chapter7Checkpoint4 => "Chapter7Checkpoint4"@,
        Split::Chapter7Checkpoint5 => "Chapter7Checkpoint5"@,
        Split::Chapter7Checkpoint6 => "Chapter7Checkpoint6"@,
        Split::Chapter8Checkpoint1 => "Chapter8Checkpoint1"@,
        Split::Chapter8Checkpoint2 => "Chapter8Checkpoint2"@,
        Split::Chapter8Checkpoint3 => "Chapter8Checkpoint3"@,
        Split::Chapter9Checkpoint1 => "Chapter9Checkpoint1"@,
        Split::Chapter9Checkpoint2 => "Chapter9Checkpoint2"@,
        Split::Chapter9Checkpoint3 => "Chapter9Checkpoint3"@,
        Split::Chapter9Checkpoint4 => "Chapter9Checkpoint4"@,
        Split::Chapter9Checkpoint5 => "Chapter9Checkpoint5"@,
        Split::Chapter9Checkpoint6 => "Chapter9Checkpoint6"@,
        Split::Chapter9Checkpoint7 => "Chapter9Checkpoint7"@,
        Split::Chapter9Checkpoint8 => "Chapter9Checkpoint8"@,
        Split::HeartGemAny => "HeartGemAny"@,
        Split::Chapter1Cassette => "Chapter1Cassette"@,
        Split::Chapter1HeartGem => "Chapter1HeartGem"@,
        Split::Chapter2Cassette => "Chapter2Cassette"@,
        Split::Chapter2HeartGem => "Chapter2HeartGem"@,
        Split::Chapter3Cassette => "Chapter3Cassette"@,
        Split::Chapter3HeartGem => "Chapter3HeartGem"@,
        Split::Chapter4Cassette => "Chapter4Cassette"@,
        Split::Chapter4HeartGem => "Chapter4HeartGem"@,
        Split::Chapter5Cassette => "Chapter5Cassette"@,
        Split::Chapter5HeartGem => "Chapter5HeartGem"@,
        Split::Chapter6Cassette => "Chapter6Cassette"@,
        Split::Chapter6HeartGem => "Chapter6HeartGem"@,
        Split::Chapter7Cassette => "Chapter7Cassette"@,
        Split::Chapter7HeartGem => "Chapter7HeartGem"@,
        Split::Chapter8Cassette => "Chapter8Cassette"@,
        Split::Chapter8HeartGem => "Chapter8HeartGem"@,
    }
}

/// The text that a rule carries (a level name or an area text), empty for the others.
pub open spec fn split_argument(s: Split) -> Seq<char> {
    match s {
        Split::LevelEnter { level } => level@,
        Split::LevelExit { level } => level@,
        Split::AreaComplete { area } => area@,
        Split::AreaOnEnter { area } => area@,
        Split::AreaOnExit { area } => area@,
        _ => Seq::empty(),
    }
}

pub open spec fn takes_argument(s: Split) -> bool {
    match s {
        Split::LevelEnter { .. } => true,
        Split::LevelExit { .. } => true,
        Split::AreaComplete { .. } => true,
        Split::AreaOnEnter { .. } => true,
        Split::AreaOnExit { .. } => true,
        _ => false,
    }
}

/// Whether some rule is configured under `n`.
pub open spec fn is_split_name(n: Seq<char>) -> bool {
    n == "LevelEnter"@
        || n == "LevelExit"@
        || n == "AreaComplete"@
        || n == "AreaOnEnter"@
        || n == "AreaOnExit"@
        || n == "Manual"@
        || n == "ChapterA"@
        || n == "Prologue"@
        || n == "Chapter1"@
        || n == "Chapter2"@
        || n == "Chapter3"@
        || n == "Chapter4"@
        || n == "Chapter5"@
        || n == "Chapter6"@
        || n == "Chapter7"@
        || n == "Epilogue"@
        || n == "Chapter8"@
        || n == "Chapter9"@
        || n == "Chapter1Checkpoint1"@
        || n == "Chapter1Checkpoint2"@
        || n == "Chapter2Checkpoint1"@
        || n == "Chapter2Checkpoint2"@
        || n == "Chapter3Checkpoint1"@
        || n == "Chapter3Checkpoint2"@
        || n == "Chapter3Checkpoint3"@
        || n == "Chapter4Checkpoint1"@
        || n == "Chapter4Checkpoint2"@
        || n == "Chapter4Checkpoint3"@
        || n == "Chapter5Checkpoint1"@
        || n == "Chapter5Checkpoint2"@
        || n == "Chapter5Checkpoint3"@
        || n == "Chapter5Checkpoint4"@
        || n == "Chapter6Checkpoint1"@
        || n == "Chapter6Checkpoint2"@
        || n == "Chapter6Checkpoint3"@
        || n == "Chapter6Checkpoint4"@
        || n == "Chapter6Checkpoint5"@
        || n == "Chapter7Checkpoint1"@
        || n == "Chapter7Checkpoint2"@
        || n == "Chapter7Checkpoint3"@
        || n == "Chapter7Checkpoint4"@
        || n == "Chapter7Checkpoint5"@
        || n == "Chapter7Checkpoint6"@
        || n == "Chapter8Checkpoint1"@
        || n == "Chapter8Checkpoint2"@
        || n == "Chapter8Checkpoint3"@
        || n == "Chapter9Checkpoint1"@
        || n == "Chapter9Checkpoint2"@
        || n == "Chapter9Checkpoint3"@
        || n == "Chapter9Checkpoint4"@
        || n == "Chapter9Checkpoint5"@
        || n == "Chapter9Checkpoint6"@
        || n == "Chapter9Checkpoint7"@
        || n == "Chapter9Checkpoint8"@
        || n == "HeartGemAny"@
        || n == "Chapter1Cassette"@
        || n == "Chapter1HeartGem"@
        || n == "Chapter2Cassette"@
        || n == "Chapter2HeartGem"@
        || n == "Chapter3Cassette"@
        || n == "Chapter3HeartGem"@
        || n == "Chapter4Cassette"@
        || n == "Chapter4HeartGem"@
        || n == "Chapter5Cassette"@
        || n == "Chapter5HeartGem"@
        || n == "Chapter6Cassette"@
        || n == "Chapter6HeartGem"@
        || n == "Chapter7Cassette"@
        || n == "Chapter7HeartGem"@
        || n == "Chapter8Cassette"@
        || n == "Chapter8HeartGem"@
}

/// The chapter whose completion a whole-chapter rule waits for.
pub open spec fn chapter_target(s: Split) -> Option<Area> {
    match s {
        Split::Prologue => Some(Area::Prologue),
        Split::Epilogue => Some(Area::Epilogue),
        Split::Chapter1 => Some(Area::ForsakenCity),
        Split::Chapter2 => Some(Area::OldSite),
        Split::Chapter3 => Some(Area::CelestialResort),
        Split::Chapter4 => Some(Area::GoldenRidge),
        Split::Chapter5 => Some(Area::MirrorTemple),
        Split::Chapter6 => Some(Area::Reflection),
        Split::Chapter7 => Some(Area::TheSummit),
        Split::Chapter8 => Some(Area::Core),
        Split::Chapter9 => Some(Area::Farewell),
        _ => None,
    }
}

/// The literal checkpoint table: the chapter, the level name that marks the checkpoint
/// on the A side, and the one that marks it on the other sides.
pub open spec fn checkpoint_target(s: Split) -> Option<(Area, Seq<char>, Seq<char>)> {
    match s {
        Split::Chapter1Checkpoint1 => Some((Area::ForsakenCity, "6"@, "04"@)),
        Split::Chapter1Checkpoint2 => Some((Area::ForsakenCity, "9b"@, "08"@)),
        Split::Chapter2Checkpoint1 => Some((Area::OldSite, "3"@, "03"@)),
        Split::Chapter2Checkpoint2 => Some((Area::OldSite, "end_3"@, "08b"@)),
        Split::Chapter3Checkpoint1 => Some((Area::CelestialResort, "08-a"@, "06"@)),
        Split::Chapter3Checkpoint2 => Some((Area::CelestialResort, "09-d"@, "11"@)),
        Split::Chapter3Checkpoint3 => Some((Area::CelestialResort, "00-d"@, "16"@)),
        Split::Chapter4Checkpoint1 => Some((Area::GoldenRidge, "b-00"@, "b-00"@)),
        Split::Chapter4Checkpoint2 => Some((Area::GoldenRidge, "c-00"@, "c-00"@)),
        Split::Chapter4Checkpoint3 => Some((Area::GoldenRidge, "d-00"@, "d-00"@)),
        Split::Chapter5Checkpoint1 => Some((Area::MirrorTemple, "b-00"@, "b-00"@)),
        Split::Chapter5Checkpoint2 => Some((Area::MirrorTemple, "c-00"@, "c-00"@)),
        Split::Chapter5Checkpoint3 => Some((Area::MirrorTemple, "d-00"@, "d-00"@)),
        Split::Chapter5Checkpoint4 => Some((Area::MirrorTemple, "e-00"@, "e-00"@)),
        Split::Chapter6Checkpoint1 => Some((Area::Reflection, "00"@, "b-00"@)),
        Split::Chapter6Checkpoint2 => Some((Area::Reflection, "04"@, "c-00"@)),
        Split::Chapter6Checkpoint3 => Some((Area::Reflection, "b-00"@, "d-00"@)),
        Split::Chapter6Checkpoint4 => Some((Area::Reflection, "boss-00"@, "boss-00"@)),
        Split::Chapter6Checkpoint5 => Some((Area::Reflection, "after-00"@, "after-00"@)),
        Split::Chapter7Checkpoint1 => Some((Area::TheSummit, "b-00"@, "b-00"@)),
        Split::Chapter7Checkpoint2 => Some((Area::TheSummit, "c-00"@, "c-01"@)),
        Split::Chapter7Checkpoint3 => Some((Area::TheSummit, "d-00"@, "d-00"@)),
        Split::Chapter7Checkpoint4 => Some((Area::TheSummit, "e-00b"@, "e-00"@)),
        Split::Chapter7Checkpoint5 => Some((Area::TheSummit, "f-00"@, "f-00"@)),
        Split::Chapter7Checkpoint6 => Some((Area::TheSummit, "g-00"@, "g-00"@)),
        Split::Chapter8Checkpoint1 => Some((Area::Core, "a-00"@, "a-00"@)),
        Split::Chapter8Checkpoint2 => Some((Area::Core, "c-00"@, "b-00"@)),
        Split::Chapter8Checkpoint3 => Some((Area::Core, "d-00"@, "c-01"@)),
        Split::Chapter9Checkpoint1 => Some((Area::Farewell, "a-00"@, "a-00"@)),
        Split::Chapter9Checkpoint2 => Some((Area::Farewell, "c-00"@, "c-00"@)),
        Split::Chapter9Checkpoint3 => Some((Area::Farewell, "e-00z"@, "e-00z"@)),
        Split::Chapter9Checkpoint4 => Some((Area::Farewell, "f-door"@, "f-door"@)),
        Split::Chapter9Checkpoint5 => Some((Area::Farewell, "h-00b"@, "h-00b"@)),
        Split::Chapter9Checkpoint6 => Some((Area::Farewell, "i-00"@, "i-00"@)),
        Split::Chapter9Checkpoint7 => Some((Area::Farewell, "j-00"@, "j-00"@)),
        Split::Chapter9Checkpoint8 => Some((Area::Farewell, "j-16"@, "j-16"@)),
        _ => None,
    }
}

/// The chapter whose cassette a cassette rule waits for.
pub open spec fn cassette_target(s: Split) -> Option<Area> {
    match s {
        Split::Chapter1Cassette => Some(Area::ForsakenCity),
        Split::Chapter2Cassette => Some(Area::OldSite),
        Split::Chapter3Cassette => Some(Area::CelestialResort),
        Split::Chapter4Cassette => Some(Area::GoldenRidge),
        Split::Chapter5Cassette => Some(Area::MirrorTemple),
        Split::Chapter6Cassette => Some(Area::Reflection),
        Split::Chapter7Cassette => Some(Area::TheSummit),
        Split::Chapter8Cassette => Some(Area::Core),
        _ => None,
    }
}

/// The chapter whose heart gem a heart rule waits for.
pub open spec fn heart_target(s: Split) -> Option<Area> {
    match s {
        Split::Chapter1HeartGem => Some(Area::ForsakenCity),
        Split::Chapter2HeartGem => Some(Area::OldSite),
        Split::Chapter3HeartGem => Some(Area::CelestialResort),
        Split::Chapter4HeartGem => Some(Area::GoldenRidge),
        Split::Chapter5HeartGem => Some(Area::MirrorTemple),
        Split::Chapter6HeartGem => Some(Area::Reflection),
        Split::Chapter7HeartGem => Some(Area::TheSummit),
        Split::Chapter8HeartGem => Some(Area::Core),
        _ => None,
    }
}

impl Split {
    /// The rule configured under `name`; `argument` is the level name or area text of
    /// the rules that take one and is ignored by the others.
    pub fn from_name(name: &str, argument: &str) -> (r: Option<Split>)
        ensures
            r is Some <==> is_split_name(name@),
            r matches Some(s) ==> split_name(s) == name@ && (takes_argument(s) ==> split_argument(s) == argument@),
    {
        if text_equals(name, "LevelEnter") {
            Some(Split::LevelEnter { level: argument.to_owned() })
        } else if text_equals(name, "LevelExit") {
            Some(Split::LevelExit { level: argument.to_owned() })
        } else if text_equals(name, "AreaComplete") {
            Some(Split::AreaComplete { area: argument.to_owned() })
        } else if text_equals(name, "AreaOnEnter") {
            Some(Split::AreaOnEnter { area: argument.to_owned() })
        } else if text_equals(name, "AreaOnExit") {
            Some(Split::AreaOnExit { area: argument.to_owned() })
        } else if text_equals(name, "Manual") {
            Some(Split::Manual)
        } else if text_equals(name, "ChapterA") {
            Some(Split::ChapterA)
        } else if text_equals(name, "Prologue") {
            Some(Split::Prologue)
        } else if text_equals(name, "Chapter1") {
            Some(Split::Chapter1)
        } else if text_equals(name, "Chapter2") {
            Some(Split::Chapter2)
        } else if text_equals(name, "Chapter3") {
            Some(Split::Chapter3)
        } else if text_equals(name, "Chapter4") {
            Some(Split::Chapter4)
        } else if text_equals(name, "Chapter5") {
            Some(Split::Chapter5)
        } else if text_equals(name, "Chapter6") {
            Some(Split::Chapter6)
        } else if text_equals(name, "Chapter7") {
            Some(Split::Chapter7)
        } else if text_equals(name, "Epilogue") {
            Some(Split::Epilogue)
        } else if text_equals(name, "Chapter8") {
            Some(Split::Chapter8)
        } else if text_equals(name, "Chapter9") {
            Some(Split::Chapter9)
        } else if text_equals(name, "Chapter1Checkpoint1") {
            Some(Split::Chapter1Checkpoint1)
        } else if text_equals(name, "Chapter1Checkpoint2") {
            Some(Split::Chapter1Checkpoint2)
        } else if text_equals(name, "Chapter2Checkpoint1") {
            Some(Split::Chapter2Checkpoint1)
        } else if text_equals(name, "Chapter2Checkpoint2") {
            Some(Split::Chapter2Checkpoint2)
        } else if text_equals(name, "Chapter3Checkpoint1") {
            Some(Split::Chapter3Checkpoint1)
        } else if text_equals(name, "Chapter3Checkpoint2") {
            Some(Split::Chapter3Checkpoint2)
        } else if text_equals(name, "Chapter3Checkpoint3") {
            Some(Split::Chapter3Checkpoint3)
        } else if text_equals(name, "Chapter4Checkpoint1") {
            Some(Split::Chapter4Checkpoint1)
        } else if text_equals(name, "Chapter4Checkpoint2") {
            Some(Split::Chapter4Checkpoint2)
        } else if text_equals(name, "Chapter4Checkpoint3") {
            Some(Split::Chapter4Checkpoint3)
        } else if text_equals(name, "Chapter5Checkpoint1") {
            Some(Split::Chapter5Checkpoint1)
        } else if text_equals(name, "Chapter5Checkpoint2") {
            Some(Split::Chapter5Checkpoint2)
        } else if text_equals(name, "Chapter5Checkpoint3") {
            Some(Split::Chapter5Checkpoint3)
        } else if text_equals(name, "Chapter5Checkpoint4") {
            Some(Split::Chapter5Checkpoint4)
        } else if text_equals(name, "Chapter6Checkpoint1") {
            Some(Split::Chapter6Checkpoint1)
        } else if text_equals(name, "Chapter6Checkpoint2") {
            Some(Split::Chapter6Checkpoint2)
        } else if text_equals(name, "Chapter6Checkpoint3") {
            Some(Split::Chapter6Checkpoint3)
        } else if text_equals(name, "Chapter6Checkpoint4") {
            Some(Split::Chapter6Checkpoint4)
        } else if text_equals(name, "Chapter6Checkpoint5") {
            Some(Split::Chapter6Checkpoint5)
        } else if text_equals(name, "Chapter7Checkpoint1") {
            Some(Split::Chapter7Checkpoint1)
        } else if text_equals(name, "Chapter7Checkpoint2") {
            Some(Split::Chapter7Checkpoint2)
        } else if text_equals(name, "Chapter7Checkpoint3") {
            Some(Split::Chapter7Checkpoint3)
        } else if text_equals(name, "Chapter7Checkpoint4") {
            Some(Split::Chapter7Checkpoint4)
        } else if text_equals(name, "Chapter7Checkpoint5") {
            Some(Split::Chapter7Checkpoint5)
        } else if text_equals(name, "Chapter7Checkpoint6") {
            Some(Split::Chapter7Checkpoint6)
        } else if text_equals(name, "Chapter8Checkpoint1") {
            Some(Split::Chapter8Checkpoint1)
        } else if text_equals(name, "Chapter8Checkpoint2") {
            Some(Split::Chapter8Checkpoint2)
        } else if text_equals(name, "Chapter8Checkpoint3") {
            Some(Split::Chapter8Checkpoint3)
        } else if text_equals(name, "Chapter9Checkpoint1") {
            Some(Split::Chapter9Checkpoint1)
        } else if text_equals(name, "Chapter9Checkpoint2") {
            Some(Split::Chapter9Checkpoint2)
        } else if text_equals(name, "Chapter9Checkpoint3") {
            Some(Split::Chapter9Checkpoint3)
        } else if text_equals(name, "Chapter9Checkpoint4") {
            Some(Split::Chapter9Checkpoint4)
        } else if text_equals(name, "Chapter9Checkpoint5") {
            Some(Split::Chapter9Checkpoint5)
        } else if text_equals(name, "Chapter9Checkpoint6") {
            Some(Split::Chapter9Checkpoint6)
        } else if text_equals(name, "Chapter9Checkpoint7") {
            Some(Split::Chapter9Checkpoint7)
        } else if text_equals(name, "Chapter9Checkpoint8") {
            Some(Split::Chapter9Checkpoint8)
        } else if text_equals(name, "HeartGemAny") {
            Some(Split::HeartGemAny)
        } else if text_equals(name, "Chapter1Cassette") {
            Some(Split::Chapter1Cassette)
        } else if text_equals(name, "Chapter1HeartGem") {
            Some(Split::Chapter1HeartGem)
        } else if text_equals(name, "Chapter2Cassette") {
            Some(Split::Chapter2Cassette)
        } else if text_equals(name, "Chapter2HeartGem") {
            Some(Split::Chapter2HeartGem)
        } else if text_equals(name, "Chapter3Cassette") {
            Some(Split::Chapter3Cassette)
        } else if text_equals(name, "Chapter3HeartGem") {
            Some(Split::Chapter3HeartGem)
        } else if text_equals(name, "Chapter4Cassette") {
            Some(Split::Chapter4Cassette)
        } else if text_equals(name, "Chapter4HeartGem") {
            Some(Split::Chapter4HeartGem)
        } else if text_equals(name, "Chapter5Cassette") {
            Some(Split::Chapter5Cassette)
        } else if text_equals(name, "Chapter5HeartGem") {
            Some(Split::Chapter5HeartGem)
        } else if text_equals(name, "Chapter6Cassette") {
            Some(Split::Chapter6Cassette)
        } else if text_equals(name, "Chapter6HeartGem") {
            Some(Split::Chapter6HeartGem)
        } else if text_equals(name, "Chapter7Cassette") {
            Some(Split::Chapter7Cassette)
        } else if text_equals(name, "Chapter7HeartGem") {
            Some(Split::Chapter7HeartGem)
        } else if text_equals(name, "Chapter8Cassette") {
            Some(Split::Chapter8Cassette)
        } else if text_equals(name, "Chapter8HeartGem") {
            Some(Split::Chapter8HeartGem)
        } else {
            None
        }
    }

    pub fn chapter(&self) -> (r: Option<Area>)
        ensures
            r == chapter_target(*self),
    {
        match self {
            Split::Prologue => Some(Area::Prologue),
            Split::Epilogue => Some(Area::Epilogue),
            Split::Chapter1 => Some(Area::ForsakenCity),
            Split::Chapter2 => Some(Area::OldSite),
            Split::Chapter3 => Some(Area::CelestialResort),
            Split::Chapter4 => Some(Area::GoldenRidge),
            Split::Chapter5 => Some(Area::MirrorTemple),
            Split::Chapter6 => Some(Area::Reflection),
            Split::Chapter7 => Some(Area::TheSummit),
            Split::Chapter8 => Some(Area::Core),
            Split::Chapter9 => Some(Area::Farewell),
            _ => None,
        }
    }

    pub fn checkpoint(&self) -> (r: Option<(Area, &'static str, &'static str)>)
        ensures
            r is Some <==> checkpoint_target(*self) is Some,
            r matches Some(t) ==> checkpoint_target(*self) == Some((t.0, t.1@, t.2@)),
    {
        match self {
            Split::Chapter1Checkpoint1 => Some((Area::ForsakenCity, "6", "04")),
            Split::Chapter1Checkpoint2 => Some((Area::ForsakenCity, "9b", "08")),
            Split::Chapter2Checkpoint1 => Some((Area::OldSite, "3", "03")),
            Split::Chapter2Checkpoint2 => Some((Area::OldSite, "end_3", "08b")),
            Split::Chapter3Checkpoint1 => Some((Area::CelestialResort, "08-a", "06")),
            Split::Chapter3Checkpoint2 => Some((Area::CelestialResort, "09-d", "11")),
            Split::Chapter3Checkpoint3 => Some((Area::CelestialResort, "00-d", "16")),
            Split::Chapter4Checkpoint1 => Some((Area::GoldenRidge, "b-00", "b-00")),
            Split::Chapter4Checkpoint2 => Some((Area::GoldenRidge, "c-00", "c-00")),
            Split::Chapter4Checkpoint3 => Some((Area::GoldenRidge, "d-00", "d-00")),
            Split::Chapter5Checkpoint1 => Some((Area::MirrorTemple, "b-00", "b-00")),
            Split::Chapter5Checkpoint2 => Some((Area::MirrorTemple, "c-00", "c-00")),
            Split::Chapter5Checkpoint3 => Some((Area::MirrorTemple, "d-00", "d-00")),
            Split::Chapter5Checkpoint4 => Some((Area::MirrorTemple, "e-00", "e-00")),
            Split::Chapter6Checkpoint1 => Some((Area::Reflection, "00", "b-00")),
            Split::Chapter6Checkpoint2 => Some((Area::Reflection, "04", "c-00")),
            Split::Chapter6Checkpoint3 => Some((Area::Reflection, "b-00", "d-00")),
            Split::Chapter6Checkpoint4 => Some((Area::Reflection, "boss-00", "boss-00")),
            Split::Chapter6Checkpoint5 => Some((Area::Reflection, "after-00", "after-00")),
            Split::Chapter7Checkpoint1 => Some((Area::TheSummit, "b-00", "b-00")),
            Split::Chapter7Checkpoint2 => Some((Area::TheSummit, "c-00", "c-01")),
            Split::Chapter7Checkpoint3 => Some((Area::TheSummit, "d-00", "d-00")),
            Split::Chapter7Checkpoint4 => Some((Area::TheSummit, "e-00b", "e-00")),
            Split::Chapter7Checkpoint5 => Some((Area::TheSummit, "f-00", "f-00")),
            Split::Chapter7Checkpoint6 => Some((Area::TheSummit, "g-00", "g-00")),
            Split::Chapter8Checkpoint1 => Some((Area::Core, "a-00", "a-00")),
            Split::Chapter8Checkpoint2 => Some((Area::Core, "c-00", "b-00")),
            Split::Chapter8Checkpoint3 => Some((Area::Core, "d-00", "c-01")),
            Split::Chapter9Checkpoint1 => Some((Area::Farewell, "a-00", "a-00")),
            Split::Chapter9Checkpoint2 => Some((Area::Farewell, "c-00", "c-00")),
            Split::Chapter9Checkpoint3 => Some((Area::Farewell, "e-00z", "e-00z")),
            Split::Chapter9Checkpoint4 => Some((Area::Farewell, "f-door", "f-door")),
            Split::Chapter9Checkpoint5 => Some((Area::Farewell, "h-00b", "h-00b")),
            Split::Chapter9Checkpoint6 => Some((Area::Farewell, "i-00", "i-00")),
            Split::Chapter9Checkpoint7 => Some((Area::Farewell, "j-00", "j-00")),
            Split::Chapter9Checkpoint8 => Some((Area::Farewell, "j-16", "j-16")),
            _ => None,
        }
    }

    pub fn cassette(&self) -> (r: Option<Area>)
        ensures
            r == cassette_target(*self),
    {
        match self {
            Split::Chapter1Cassette => Some(Area::ForsakenCity),
            Split::Chapter2Cassette => Some(Area::OldSite),
            Split::Chapter3Cassette => Some(Area::CelestialResort),
            Split::Chapter4Cassette => Some(Area::GoldenRidge),
            Split::Chapter5Cassette => Some(Area::MirrorTemple),
            Split::Chapter6Cassette => Some(Area::Reflection),
            Split::Chapter7Cassette => Some(Area::TheSummit),
            Split::Chapter8Cassette => Some(Area::Core),
            _ => None,
        }
    }

    pub fn heart(&self) -> (r: Option<Area>)
        ensures
            r == heart_target(*self),
    {
        match self {
            Split::Chapter1HeartGem => Some(Area::ForsakenCity),
            Split::Chapter2HeartGem => Some(Area::OldSite),
            Split::Chapter3HeartGem => Some(Area::CelestialResort),
            Split::Chapter4HeartGem => Some(Area::GoldenRidge),
            Split::Chapter5HeartGem => Some(Area::MirrorTemple),
            Split::Chapter6HeartGem => Some(Area::Reflection),
            Split::Chapter7HeartGem => Some(Area::TheSummit),
            Split::Chapter8HeartGem => Some(Area::Core),
            _ => None,
        }
    }

}

} // verus!
