use vstd::prelude::*;
use crate::split::{
    cassette_target, chapter_target, heart_target, is_split_name, split_argument, split_name,
    takes_argument, Split,
};
use crate::text::text_equals;

verus! {

/// The kinds of rule that group a run by chapter.
#[derive(Clone, Copy, Debug, PartialEq, Eq, Structural)]
pub enum RuleKind {
    Chapter,
    AreaComplete,
    Cassette,
    Heart,
}

/// The grouping kind of a rule, if it has one.
pub open spec fn kind_of(s: Split) -> Option<RuleKind> {
    if s is ChapterA || chapter_target(s) is Some {
        Some(RuleKind::Chapter)
    } else if s is AreaComplete {
        Some(RuleKind::AreaComplete)
    } else if cassette_target(s) is Some {
        Some(RuleKind::Cassette)
    } else if s is HeartGemAny || heart_target(s) is Some {
        Some(RuleKind::Heart)
    } else {
        None
    }
}

/// How many rules of `s` are of kind `k`.
pub open spec fn kind_count(s: Seq<Split>, k: RuleKind) -> nat
    decreases s.len(),
{
    if s.len() == 0 {
        0
    } else {
        kind_count(s.drop_last(), k) + if kind_of(s.last()) == Some(k) {
            1nat
        } else {
            0nat
        }
    }
}

/// Individual-level timing: no rules at all, or at most one rule of each grouping kind.
pub open spec fn il_splits_of(s: Seq<Split>) -> bool {
    s.len() == 0 || (kind_count(s, RuleKind::Chapter) <= 1 && kind_count(s, RuleKind::AreaComplete)
        <= 1 && kind_count(s, RuleKind::Cassette) <= 1 && kind_count(s, RuleKind::Heart) <= 1)
}

/// Whether some rule groups the run by chapter.
pub open spec fn chapter_splits_of(s: Seq<Split>) -> bool {
    kind_count(s, RuleKind::Chapter) + kind_count(s, RuleKind::AreaComplete) + kind_count(
        s,
        RuleKind::Cassette,
    ) + kind_count(s, RuleKind::Heart) > 0
}

/// One child of the auto-splitter settings: its tag name and its text, if any.
pub struct Setting {
    pub tag: String,
    pub text: Option<String>,
}

/// One configured split: its name and the level name or area text it carries.
pub struct SplitEntry {
    pub name: String,
    pub argument: String,
}

/// Whether the last setting tagged `tag` reads exactly `True` (false if none is).
pub open spec fn flag_of(settings: Seq<Setting>, tag: Seq<char>) -> bool
    decreases settings.len(),
{
    if settings.len() == 0 {
        false
    } else if settings.last().tag@ == tag {
        match settings.last().text {
            Some(t) => t@ == "True"@,
            None => false,
        }
    } else {
        flag_of(settings.drop_last(), tag)
    }
}

/// The entries whose names are known rule names, in order.
pub open spec fn known_entries(entries: Seq<SplitEntry>) -> Seq<SplitEntry>
    decreases entries.len(),
{
    if entries.len() == 0 {
        Seq::empty()
    } else if is_split_name(entries.last().name@) {
        known_entries(entries.drop_last()).push(entries.last())
    } else {
        known_entries(entries.drop_last())
    }
}

/// Whether the rule `s` is the one that entry `e` configures.
pub open spec fn configures(e: SplitEntry, s: Split) -> bool {
    split_name(s) == e.name@ && (takes_argument(s) ==> split_argument(s) == e.argument@)
}

fn flag_setting(settings: &Vec<Setting>, tag: &str) -> (r: bool)
    ensures
        r == flag_of(settings@, tag@),
{
    let mut i = settings.len();
    assert(settings@.subrange(0, i as int) =~= settings@);
    while i > 0
        invariant
            0 <= i <= settings@.len(),
            flag_of(settings@, tag@) == flag_of(settings@.subrange(0, i as int), tag@),
        decreases i,
    {
        let ghost p = settings@.subrange(0, i as int);
        assert(p.drop_last() =~= settings@.subrange(0, i - 1));
        let s = &settings[i - 1];
        if text_equals(s.tag.as_str(), tag) {
            return match &s.text {
                Some(t) => text_equals(t.as_str(), "True"),
                None => false,
            };
        }
        i = i - 1;
    }
    false
}

/// The split configuration: the ordered rules and the run's options.
#[derive(Debug)]
pub struct SplitData {
    pub auto_reset: bool,
    pub set_high_priority: bool,
    pub set_game_time: bool,
    pub file_time_offset: bool,
    pub splits: Vec<Split>,
    pub il_splits: bool,
    pub chapter_splits: bool,
}

impl SplitData {
    /// Whether the derived flags agree with the rules.
    pub open spec fn well_formed(&self) -> bool {
        self.il_splits == il_splits_of(self.splits@) && self.chapter_splits == chapter_splits_of(
            self.splits@,
        )
    }

    /// The configuration that a splits file's auto-splitter settings describe: each
    /// option is on when its last setting reads `True`, and the rules are the entries
    /// with known names, in order; entries with unknown names are skipped.
    pub fn from_settings(settings: &Vec<Setting>, entries: &Vec<SplitEntry>) -> (r: SplitData)
        requires
            entries@.len() < i32::MAX,
        ensures
            r.well_formed(),
            r.auto_reset == flag_of(settings@, "AutoReset"@),
            r.set_high_priority == flag_of(settings@, "SetHighPriority"@),
            r.set_game_time == flag_of(settings@, "SetGameTime"@),
            r.file_time_offset == flag_of(settings@, "FileTimeOffset"@),
            r.splits@.len() == known_entries(entries@).len(),
            r.splits@.len() < i32::MAX,
            forall|i: int|
                0 <= i < r.splits@.len() ==> configures(known_entries(entries@)[i], #[trigger] r.splits@[i]),
    {
        let mut splits: Vec<Split> = Vec::new();
        let mut i: usize = 0;
        while i < entries.len()
            invariant
                0 <= i <= entries@.len(),
                known_entries(entries@.subrange(0, i as int)).len() == splits@.len(),
                splits@.len() <= i,
                forall|k: int|
                    0 <= k < splits@.len() ==> configures(
                        known_entries(entries@.subrange(0, i as int))[k],
                        #[trigger] splits@[k],
                    ),
            decreases entries@.len() - i,
        {
            let ghost p = entries@.subrange(0, i + 1);
            proof {
                assert(p.drop_last() =~= entries@.subrange(0, i as int));
            }
            let e = &entries[i];
            match Split::from_name(e.name.as_str(), e.argument.as_str()) {
                Some(s) => {
                    splits.push(s);
                },
                None => {},
            }
            i = i + 1;
        }
        proof {
            assert(entries@.subrange(0, entries@.len() as int) =~= entries@);
        }
        SplitData::new(
            flag_setting(settings, "AutoReset"),
            flag_setting(settings, "SetHighPriority"),
            flag_setting(settings, "SetGameTime"),
            flag_setting(settings, "FileTimeOffset"),
            splits,
        )
    }

    /// The configuration of `splits` with the given options; the individual-level and
    /// chapter-grouping flags are derived from the rules.
    pub fn new(
        auto_reset: bool,
        set_high_priority: bool,
        set_game_time: bool,
        file_time_offset: bool,
        splits: Vec<Split>,
    ) -> (r: SplitData)
        ensures
            r.well_formed(),
            r.auto_reset == auto_reset,
            r.set_high_priority == set_high_priority,
            r.set_game_time == set_game_time,
            r.file_time_offset == file_time_offset,
            r.splits@ == splits@,
    {
        let mut chapters: usize = 0;
        let mut areas: usize = 0;
        let mut cassettes: usize = 0;
        let mut hearts: usize = 0;
        let mut i: usize = 0;
        while i < splits.len()
            invariant
                0 <= i <= splits@.len(),
                chapters == kind_count(splits@.subrange(0, i as int), RuleKind::Chapter),
                areas == kind_count(splits@.subrange(0, i as int), RuleKind::AreaComplete),
                cassettes == kind_count(splits@.subrange(0, i as int), RuleKind::Cassette),
                hearts == kind_count(splits@.subrange(0, i as int), RuleKind::Heart),
                chapters + areas + cassettes + hearts <= i,
            decreases splits@.len() - i,
        {
            let s = &splits[i];
            let ghost p = splits@.subrange(0, i + 1);
            proof {
                assert(p.drop_last() =~= splits@.subrange(0, i as int));
                assert(p.last() == splits@[i as int]);
            }
            let is_chapter = match s {
                Split::ChapterA => true,
                _ => s.chapter().is_some(),
            };
            if is_chapter {
                chapters = chapters + 1;
            } else if let Split::AreaComplete { .. } = s {
                areas = areas + 1;
            } else if s.cassette().is_some() {
                cassettes = cassettes + 1;
            } else if (match s {
                Split::HeartGemAny => true,
                _ => s.heart().is_some(),
            }) {
                hearts = hearts + 1;
            }
            i = i + 1;
        }
        proof {
            assert(splits@.subrange(0, splits@.len() as int) =~= splits@);
        }
        let il_splits = splits.len() == 0 || (chapters <= 1 && areas <= 1 && cassettes <= 1
            && hearts <= 1);
        let chapter_splits = chapters + areas + cassettes + hearts > 0;
        SplitData {
            auto_reset,
            set_high_priority,
            set_game_time,
            file_time_offset,
            splits,
            il_splits,
            chapter_splits,
        }
    }
}

} // verus!
