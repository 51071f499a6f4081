use vstd::prelude::*;
use crate::commands::{Command, Event, TimingMethod};
use crate::game_data::{area_spec_of, Area, AreaMode, AreaSpec, GameData};
use crate::protocol::Inbox;
use crate::split::{cassette_target, chapter_target, checkpoint_target, heart_target, Split};
use crate::split_data::SplitData;
use crate::text::{lower_of, lowercase, text_equals, text_starts_with};
use crate::time_span::{TimeSpan, NANOS_PER_TICK};

verus! {

/// Counter value that the cassette and heart counters start from, so that no real
/// reading can look like an increase by one before the first one is taken.
pub const COUNTER_SENTINEL: u32 = 10000;

/// Bound on the elapsed times that the engine computes (differences of two `i64`).
pub const ELAPSED_BOUND: i128 = 0x1_0000_0000_0000_0000;

/// The decision engine: the split configuration and the state that it carries from
/// tick to tick. Times are counted in ticks of 100 ns.
pub struct LinSplitData {
    pub splits: SplitData,
    /// Index of the current segment: -1 before the run, the number of rules after it.
    pub current_split: i32,
    /// Set once a chapter's completion has been seen, until its exit is.
    pub exiting_chapter: bool,
    pub last_area_id: Area,
    pub last_area_difficulty: AreaMode,
    pub last_level_name: String,
    pub last_elapsed: i128,
    /// Level time at the start of the run, subtracted from what is reported.
    pub level_timer: i64,
    pub last_chapter_started: bool,
    pub last_completed: bool,
    pub last_cassettes: u32,
    pub last_heart_gems: u32,
    /// Game time when the engine was made, subtracted in file-time-offset mode.
    pub elapsed_offset: i64,
}

/// What one tick asks of the timer, in this order: set the game time, then start,
/// split or reset.
#[derive(Clone, Copy, Debug, PartialEq, Eq, Structural)]
pub struct TickActions {
    pub game_time: Option<TimeSpan>,
    pub command: Option<Command>,
}

/// Whether `level`, in lower case, starts with `credits`.
pub open spec fn is_credits_level(level: Seq<char>) -> bool {
    let l = lower_of(level);
    l.len() >= 7 && l.subrange(0, 7) == "credits"@
}

/// The chapter-completion latch: `(fires, exiting)`. Before the latch is set it sets
/// when `area` is `chapter`, the chapter has just been completed and, in the summit,
/// the level is not its credits; it then fires only in individual-level mode. Once set,
/// it fires exactly on the falling edge of completion.
pub open spec fn chapter_split_spec(
    exiting: bool,
    il_splits: bool,
    area: Area,
    chapter: Area,
    credits: bool,
    completed: bool,
    last_completed: bool,
) -> (bool, bool) {
    if !exiting {
        let e = area == chapter && completed && !last_completed && (chapter != Area::TheSummit
            || !credits);
        (e && il_splits, e)
    } else {
        (!completed && last_completed, exiting)
    }
}

/// Outcome `(fires, exiting)` of an area-complete rule with area text `text`.
pub open spec fn area_complete_spec(
    e: LinSplitData,
    text: Seq<char>,
    area: Area,
    level: Seq<char>,
    completed: bool,
    last_completed: bool,
) -> (bool, bool) {
    match area_spec_of(text) {
        None => (false, e.exiting_chapter),
        Some(spec) => {
            let c = chapter_split_spec(
                e.exiting_chapter,
                e.splits.il_splits,
                area,
                spec.area,
                is_credits_level(level),
                completed,
                last_completed,
            );
            match spec.mode {
                None => c,
                Some(m) => (c.0 && m == e.last_area_difficulty, c.1),
            }
        },
    }
}

/// Whether an area-change rule with area text `text` fires: the area changed since the
/// last tick and `to_check` is the rule's area (with the side changed too and
/// `mode_to_check` the rule's side, where the text names one).
pub open spec fn area_change_spec(
    e: LinSplitData,
    text: Seq<char>,
    area: Area,
    to_check: Area,
    mode: AreaMode,
    mode_to_check: AreaMode,
) -> bool {
    match area_spec_of(text) {
        None => false,
        Some(spec) => match spec.mode {
            None => area != e.last_area_id && to_check == spec.area,
            Some(m) => area != e.last_area_id && to_check == spec.area && mode
                != e.last_area_difficulty && mode_to_check == m,
        },
    }
}

/// Whether the collectible rule for `chapter` fires: in `chapter`, its flag is set in
/// individual-level or file-time-offset mode, or the counter rose by exactly one.
pub open spec fn collectible_spec(
    e: LinSplitData,
    area: Area,
    chapter: Area,
    flag: bool,
    count: u32,
    last: u32,
) -> bool {
    area == chapter && (((e.splits.il_splits || e.splits.file_time_offset) && flag) || count
        == last + 1)
}

/// Outcome `(fires, exiting)` of `rule` on the snapshot `t`, with `level` the level name
/// in effect this tick.
#[verifier::opaque]
pub open spec fn rule_spec(e: LinSplitData, rule: Split, t: GameData, level: Seq<char>) -> (
    bool,
    bool,
) {
    let ex = e.exiting_chapter;
    let collect = e.splits.il_splits || e.splits.file_time_offset;
    match rule {
        Split::Manual => (false, ex),
        Split::LevelEnter { level: l } => (t.area_id != Area::Menu && level
            != e.last_level_name@ && lower_of(l@) == lower_of(level), ex),
        Split::LevelExit { level: l } => (t.area_id != Area::Menu && level
            != e.last_level_name@ && lower_of(l@) == lower_of(e.last_level_name@), ex),
        Split::AreaComplete { area } => area_complete_spec(
            e,
            area@,
            t.area_id,
            level,
            t.chapter_complete,
            e.last_completed,
        ),
        Split::AreaOnEnter { area } => (area_change_spec(
            e,
            area@,
            t.area_id,
            t.area_id,
            t.area_difficulty,
            t.area_difficulty,
        ), ex),
        Split::AreaOnExit { area } => (area_change_spec(
            e,
            area@,
            t.area_id,
            e.last_area_id,
            t.area_difficulty,
            e.last_area_difficulty,
        ), ex),
        Split::HeartGemAny => ((collect && t.chapter_heart_collected) || t.heart_gems
            == e.last_heart_gems + 1, ex),
        Split::ChapterA => chapter_split_spec(
            ex,
            e.splits.il_splits,
            Area::Prologue,
            Area::Prologue,
            is_credits_level(level),
            t.chapter_complete,
            e.last_completed,
        ),
        _ => table_rule_spec(e, rule, t, level),
    }
}

/// Outcome `(fires, exiting)` of a whole-chapter, checkpoint, cassette or heart rule.
pub open spec fn table_rule_spec(e: LinSplitData, rule: Split, t: GameData, level: Seq<char>) -> (
    bool,
    bool,
) {
    let ex = e.exiting_chapter;
    if chapter_target(rule) is Some {
        chapter_split_spec(
            ex,
            e.splits.il_splits,
            t.area_id,
            chapter_target(rule)->0,
            is_credits_level(level),
            t.chapter_complete,
            e.last_completed,
        )
    } else if checkpoint_target(rule) is Some {
        let (a, x, y) = checkpoint_target(rule)->0;
        (t.area_id == a && (if t.area_difficulty == AreaMode::ASide {
            level == x
        } else {
            level == y
        }), ex)
    } else if cassette_target(rule) is Some {
        (collectible_spec(
            e,
            t.area_id,
            cassette_target(rule)->0,
            t.chapter_cassette_collected,
            t.cassettes,
            e.last_cassettes,
        ), ex)
    } else if heart_target(rule) is Some {
        (collectible_spec(
            e,
            t.area_id,
            heart_target(rule)->0,
            t.chapter_heart_collected,
            t.heart_gems,
            e.last_heart_gems,
        ), ex)
    } else {
        (false, ex)
    }
}

/// The engine after the timer reports `ev`. Only run-progress events act: the segment
/// index stays within -1 and the number of rules, clamped at both ends.
pub open spec fn event_spec(e: LinSplitData, ev: Event) -> LinSplitData {
    let n = e.splits.splits@.len();
    match ev {
        Event::Started => LinSplitData { current_split: 0, ..e },
        Event::Splitted | Event::Finished | Event::SplitSkipped => LinSplitData {
            current_split: if e.current_split < n {
                (e.current_split + 1) as i32
            } else {
                n as i32
            },
            exiting_chapter: false,
            ..e
        },
        Event::Reset => LinSplitData {
            current_split: -1i32,
            exiting_chapter: false,
            last_area_id: Area::Unknown,
            last_area_difficulty: AreaMode::Unknown,
            ..e
        },
        Event::SplitUndone => LinSplitData {
            current_split: if e.current_split > -1 {
                (e.current_split - 1) as i32
            } else {
                -1i32
            },
            exiting_chapter: false,
            ..e
        },
        _ => e,
    }
}

/// The engine after the events `evs`, in order.
pub open spec fn events_spec(e: LinSplitData, evs: Seq<Event>) -> LinSplitData
    decreases evs.len(),
{
    if evs.len() == 0 {
        e
    } else {
        event_spec(events_spec(e, evs.drop_last()), evs.last())
    }
}

/// Whether a tick is before the run: no segment yet, and the run is started by a rule
/// of its own (no rules at all, or rules grouped by chapter).
pub open spec fn before_run(e: LinSplitData) -> bool {
    e.current_split == -1 && (e.splits.splits@.len() == 0 || e.splits.chapter_splits)
}

/// A tick before the run: `(engine, start)`. With no rules the run starts when the
/// level name changes from one non-empty name to another; with rules grouped by chapter
/// it starts on a new file, or in individual-level mode when a chapter starts.
pub open spec fn pre_run_spec(e: LinSplitData, t: GameData) -> (LinSplitData, bool) {
    if e.splits.splits@.len() == 0 {
        let should = t.level_name@.len() > 0 && e.last_level_name@.len() > 0 && t.level_name@
            != e.last_level_name@;
        (LinSplitData {
            last_level_name: t.level_name,
            level_timer: if should {
                t.level_time
            } else {
                e.level_timer
            },
            ..e
        }, should)
    } else if !e.splits.il_splits {
        (e, t.starting_new_file)
    } else {
        (LinSplitData { last_chapter_started: t.chapter_started, ..e }, t.chapter_started
            && !e.last_chapter_started)
    }
}

/// Elapsed time of the run on snapshot `t`: game time since the engine was made in
/// file-time-offset mode; level time in individual-level mode, held while in the menu;
/// game time otherwise.
pub open spec fn elapsed_spec(e: LinSplitData, t: GameData) -> int {
    if e.splits.file_time_offset {
        t.game_time - e.elapsed_offset
    } else if e.splits.il_splits {
        if t.area_id == Area::Menu {
            e.last_elapsed as int
        } else {
            t.level_time as int
        }
    } else {
        t.game_time as int
    }
}

/// 1 when the rules are one flat list (the segment index trails the rule index by one).
pub open spec fn flat_offset(e: LinSplitData) -> int {
    if e.splits.splits@.len() > 0 && !e.splits.chapter_splits {
        1
    } else {
        0
    }
}

/// The level name in effect: the last one while the menu reports none.
pub open spec fn level_in_effect(e: LinSplitData, t: GameData) -> String {
    if t.level_name@.len() == 0 && t.area_id == Area::Menu {
        e.last_level_name
    } else {
        t.level_name
    }
}

/// A tick during the run: `(engine, split, game time to report in ticks)`.
pub open spec fn active_spec(e: LinSplitData, t: GameData) -> (LinSplitData, bool, Option<int>) {
    let n = e.splits.splits@.len();
    let elapsed = elapsed_spec(e, t);
    let add = flat_offset(e);
    let idx = e.current_split + add;
    let level = level_in_effect(e, t);
    let outcome = if 0 <= idx < n {
        rule_spec(e, e.splits.splits@[idx], t, level@)
    } else {
        (false, e.exiting_chapter)
    };
    let timer = if outcome.0 && add > 0 && e.current_split < 0 {
        t.level_time
    } else {
        e.level_timer
    };
    let value = if n == 0 || add > 0 {
        elapsed - timer
    } else {
        elapsed
    };
    let report = if elapsed > 0 || e.last_elapsed == elapsed {
        Some(
            if value < 0 {
                0
            } else {
                value
            },
        )
    } else {
        None
    };
    (LinSplitData {
        exiting_chapter: outcome.1,
        last_cassettes: t.cassettes,
        last_heart_gems: t.heart_gems,
        last_area_id: t.area_id,
        last_area_difficulty: t.area_difficulty,
        level_timer: timer,
        last_completed: t.chapter_complete,
        last_level_name: level,
        last_elapsed: elapsed as i128,
        ..e
    }, outcome.0, report)
}

/// Whether the tick resets the run: auto-reset in individual-level mode, in the menu.
pub open spec fn reset_spec(e: LinSplitData, t: GameData) -> bool {
    e.splits.auto_reset && e.splits.il_splits && t.area_id == Area::Menu
}

/// One tick: `(engine, game time to report in ticks, command)`. A reset wins over a
/// split; either one clears the chapter latch.
pub open spec fn tick_spec(e: LinSplitData, t: GameData) -> (LinSplitData, Option<int>, Option<Command>) {
    let (e1, should, report) = if before_run(e) {
        let p = pre_run_spec(e, t);
        (p.0, p.1, None)
    } else {
        active_spec(e, t)
    };
    let reset = reset_spec(e, t);
    let command = if reset {
        Some(Command::Reset { save_attempt: Some(true) })
    } else if should {
        Some(Command::SplitOrStart)
    } else {
        None
    };
    (if reset || should {
        LinSplitData { exiting_chapter: false, ..e1 }
    } else {
        e1
    }, report, command)
}

/// The engine and event queue after the relay has taken `k` events from `q`, one at a
/// time (taking from an empty queue changes nothing).
pub open spec fn relay_spec(e: LinSplitData, q: Seq<Event>, k: nat) -> (LinSplitData, Seq<Event>)
    decreases k,
{
    if k == 0 {
        (e, q)
    } else {
        let (e1, q1) = relay_spec(e, q, (k - 1) as nat);
        if q1.len() > 0 {
            (event_spec(e1, q1[0]), q1.drop_first())
        } else {
            (e1, q1)
        }
    }
}

/// Relaying `k` queued events applies exactly the first `k` of them, each once and in
/// order, and leaves the rest queued.
pub proof fn lemma_relay_applies_each_event_once(e: LinSplitData, q: Seq<Event>, k: nat)
    requires
        k <= q.len(),
    ensures
        relay_spec(e, q, k) == (events_spec(e, q.subrange(0, k as int)), q.subrange(
            k as int,
            q.len() as int,
        )),
    decreases k,
{
    if k == 0 {
        assert(q.subrange(0, 0) =~= Seq::<Event>::empty());
        assert(q.subrange(0, q.len() as int) =~= q);
    } else {
        let j = (k - 1) as nat;
        lemma_relay_applies_each_event_once(e, q, j);
        let rest = q.subrange(j as int, q.len() as int);
        assert(rest[0] == q[j as int]);
        assert(rest.drop_first() =~= q.subrange(k as int, q.len() as int));
        assert(q.subrange(0, k as int).drop_last() =~= q.subrange(0, j as int));
        assert(q.subrange(0, k as int).last() == q[j as int]);
    }
}

/// The segment index stays within -1 and the number of rules, whatever events the
/// timer reports, repeated skips and undos included.
pub proof fn lemma_events_keep_index_in_range(e: LinSplitData, evs: Seq<Event>)
    requires
        e.well_formed(),
    ensures
        events_spec(e, evs).well_formed(),
        events_spec(e, evs).splits == e.splits,
        -1 <= events_spec(e, evs).current_split <= e.splits.splits@.len(),
    decreases evs.len(),
{
    if evs.len() > 0 {
        lemma_events_keep_index_in_range(e, evs.drop_last());
    }
}

impl LinSplitData {
    /// The configuration is consistent and the segment index is within -1 and the
    /// number of rules.
    pub open spec fn well_formed(&self) -> bool {
        &&& self.splits.well_formed()
        &&& self.splits.splits@.len() < i32::MAX
        &&& -1 <= self.current_split <= self.splits.splits@.len()
        &&& -ELAPSED_BOUND <= self.last_elapsed <= ELAPSED_BOUND
    }

    /// The engine before any tick, with `game_time` the game time at that moment.
    pub fn new(splits: SplitData, game_time: i64) -> (r: LinSplitData)
        requires
            splits.well_formed(),
            splits.splits@.len() < i32::MAX,
        ensures
            r.well_formed(),
            r.splits == splits,
            r.current_split == -1,
            !r.exiting_chapter,
            r.last_area_id == Area::Unknown,
            r.last_area_difficulty == AreaMode::Unknown,
            r.last_level_name@ == Seq::<char>::empty(),
            r.last_elapsed == 0,
            r.level_timer == 0,
            !r.last_chapter_started,
            !r.last_completed,
            r.last_cassettes == COUNTER_SENTINEL,
            r.last_heart_gems == COUNTER_SENTINEL,
            r.elapsed_offset == game_time,
    {
        LinSplitData {
            splits,
            current_split: -1,
            exiting_chapter: false,
            last_area_id: Area::Unknown,
            last_area_difficulty: AreaMode::Unknown,
            last_level_name: String::new(),
            last_elapsed: 0,
            level_timer: 0,
            last_chapter_started: false,
            last_completed: false,
            last_cassettes: COUNTER_SENTINEL,
            last_heart_gems: COUNTER_SENTINEL,
            elapsed_offset: game_time,
        }
    }

    /// The command to send once before the first tick: switch the timer to game time
    /// where the configuration asks for it.
    pub fn startup_command(&self) -> (r: Option<Command>)
        ensures
            r == (if self.splits.set_game_time {
                Some(Command::SetCurrentTimingMethod { timing_method: TimingMethod::GameTime })
            } else {
                None
            }),
    {
        if self.splits.set_game_time {
            Some(Command::SetCurrentTimingMethod { timing_method: TimingMethod::GameTime })
        } else {
            None
        }
    }

    /// Applies one event reported by the timer.
    pub fn apply_event(&mut self, ev: Event)
        requires
            old(self).well_formed(),
        ensures
            *final(self) == event_spec(*old(self), ev),
            final(self).well_formed(),
    {
        let n = self.splits.splits.len();
        match ev {
            Event::Started => {
                self.current_split = 0;
            },
            Event::Splitted | Event::Finished | Event::SplitSkipped => {
                if (self.current_split as i64) < n as i64 {
                    self.current_split = self.current_split + 1;
                } else {
                    self.current_split = n as i32;
                }
                self.exiting_chapter = false;
            },
            Event::Reset => {
                self.current_split = -1;
                self.exiting_chapter = false;
                self.last_area_id = Area::Unknown;
                self.last_area_difficulty = AreaMode::Unknown;
            },
            Event::SplitUndone => {
                if self.current_split > -1 {
                    self.current_split = self.current_split - 1;
                } else {
                    self.current_split = -1;
                }
                self.exiting_chapter = false;
            },
            _ => {},
        }
    }

    /// Takes the oldest queued event, if any, and applies it once.
    pub fn relay_event(&mut self, inbox: &mut Inbox) -> (r: Option<Event>)
        requires
            old(self).well_formed(),
        ensures
            final(self).well_formed(),
            old(inbox)@.1.len() == 0 ==> r is None && *final(self) == *old(self) && final(inbox)@
                == old(inbox)@,
            old(inbox)@.1.len() > 0 ==> r == Some(old(inbox)@.1[0]) && *final(self) == event_spec(
                *old(self),
                old(inbox)@.1[0],
            ) && final(inbox)@ == (old(inbox)@.0, old(inbox)@.1.drop_first()),
            (*final(self), final(inbox)@.1) == relay_spec(*old(self), old(inbox)@.1, 1),
            final(inbox)@.0 == old(inbox)@.0,
    {
        proof {
            reveal_with_fuel(relay_spec, 2);
        }
        let ev = inbox.take_event();
        if let Some(e) = ev {
            self.apply_event(e);
        }
        ev
    }

    /// Relays every queued event: each is taken once and applied once, in order, and
    /// the event queue is left empty.
    pub fn relay_all(&mut self, inbox: &mut Inbox)
        requires
            old(self).well_formed(),
        ensures
            final(self).well_formed(),
            *final(self) == events_spec(*old(self), old(inbox)@.1),
            (*final(self), final(inbox)@.1) == relay_spec(
                *old(self),
                old(inbox)@.1,
                old(inbox)@.1.len(),
            ),
            final(inbox)@.0 == old(inbox)@.0,
            final(inbox)@.1.len() == 0,
    {
        let ghost e0 = *self;
        let ghost q0 = inbox@.1;
        let ghost mut n: nat = 0;
        proof {
            assert(q0.subrange(0, 0) =~= Seq::<Event>::empty());
            assert(q0.subrange(0, q0.len() as int) =~= q0);
        }
        loop
            invariant
                self.well_formed(),
                n <= q0.len(),
                inbox@.0 == old(inbox)@.0,
                *self == events_spec(e0, q0.subrange(0, n as int)),
                inbox@.1 == q0.subrange(n as int, q0.len() as int),
            ensures
                n == q0.len(),
                *self == events_spec(e0, q0.subrange(0, n as int)),
                inbox@.1.len() == 0,
                inbox@.0 == old(inbox)@.0,
            decreases q0.len() - n,
        {
            if self.relay_event(inbox).is_none() {
                break;
            }
            proof {
                assert(q0.subrange(0, n + 1int).drop_last() =~= q0.subrange(0, n as int));
                assert(q0.subrange(0, n + 1int).last() == q0[n as int]);
                assert(q0.subrange(n as int, q0.len() as int).drop_first() =~= q0.subrange(
                    n + 1int,
                    q0.len() as int,
                ));
            }
            proof {
                n = n + 1;
            }
        }
        proof {
            lemma_relay_applies_each_event_once(e0, q0, n);
            assert(q0.subrange(0, n as int) =~= q0);
            assert(q0.subrange(n as int, q0.len() as int) =~= Seq::<Event>::empty());
        }
    }

    /// The chapter-completion latch (see `chapter_split_spec`), with `credits` whether the
    /// level is the summit's credits.
    pub fn chapter_split_step(
        &self,
        area: Area,
        chapter: Area,
        credits: bool,
        completed: bool,
        last_completed: bool,
    ) -> (r: (bool, bool))
        ensures
            r == chapter_split_spec(
                self.exiting_chapter,
                self.splits.il_splits,
                area,
                chapter,
                credits,
                completed,
                last_completed,
            ),
    {
        if !self.exiting_chapter {
            let exiting = area == chapter && completed && !last_completed && (chapter
                != Area::TheSummit || !credits);
            return (exiting && self.splits.il_splits, exiting);
        }
        (!completed && last_completed, true)
    }

    /// The chapter-completion latch on level `level`.
    pub fn chapter_split(
        &self,
        area: Area,
        chapter: Area,
        level: &str,
        completed: bool,
        last_completed: bool,
    ) -> (r: (bool, bool))
        ensures
            r == chapter_split_spec(
                self.exiting_chapter,
                self.splits.il_splits,
                area,
                chapter,
                is_credits_level(level@),
                completed,
                last_completed,
            ),
    {
        let credits = if chapter == Area::TheSummit {
            let lower = lowercase(level);
            text_starts_with(lower.as_str(), "credits")
        } else {
            false
        };
        proof {
            if chapter == Area::TheSummit {
                reveal_strlit("credits");
            }
        }
        self.chapter_split_step(area, chapter, credits, completed, last_completed)
    }

    /// An area-complete rule with area text `text`: the chapter latch for the named
    /// chapter, and the remembered side must match where the text names one.
    pub fn area_complete_split(
        &self,
        text: &str,
        area: Area,
        level: &str,
        completed: bool,
        last_completed: bool,
    ) -> (r: (bool, bool))
        ensures
            r == area_complete_spec(
                *self,
                text@,
                area,
                level@,
                completed,
                last_completed,
            ),
    {
        match AreaSpec::parse(text) {
            None => (false, self.exiting_chapter),
            Some(spec) => {
                let c = self.chapter_split(area, spec.area, level, completed, last_completed);
                match spec.mode {
                    None => c,
                    Some(m) => (c.0 && m == self.last_area_difficulty, c.1),
                }
            },
        }
    }

    /// An area-change rule with area text `text` (see `area_change_spec`).
    pub fn area_change_split(
        &self,
        text: &str,
        area: Area,
        to_check: Area,
        mode: AreaMode,
        mode_to_check: AreaMode,
    ) -> (r: bool)
        ensures
            r == area_change_spec(*self, text@, area, to_check, mode, mode_to_check),
    {
        match AreaSpec::parse(text) {
            None => false,
            Some(spec) => match spec.mode {
                None => area != self.last_area_id && to_check == spec.area,
                Some(m) => area != self.last_area_id && to_check == spec.area && mode
                    != self.last_area_difficulty && mode_to_check == m,
            },
        }
    }

    fn collectible(&self, area: Area, chapter: Area, flag: bool, count: u32, last: u32) -> (r: bool)
        ensures
            r == collectible_spec(*self, area, chapter, flag, count, last),
    {
        area == chapter && (((self.splits.il_splits || self.splits.file_time_offset) && flag)
            || count as u64 == last as u64 + 1)
    }

    /// Evaluates `rule` on snapshot `t`, with `level` the level name in effect.
    pub fn evaluate(&self, rule: &Split, t: &GameData, level: &String) -> (r: (bool, bool))
        ensures
            r == rule_spec(*self, *rule, *t, level@),
    {
        proof {
            reveal(rule_spec);
        }
        let collect = self.splits.il_splits || self.splits.file_time_offset;
        let ex = self.exiting_chapter;
        match rule {
            Split::Manual => (false, ex),
            Split::LevelEnter { level: l } => (t.area_id != Area::Menu && !(*level
                == self.last_level_name) && lowercase(l.as_str()) == lowercase(level.as_str()), ex),
            Split::LevelExit { level: l } => (t.area_id != Area::Menu && !(*level
                == self.last_level_name) && lowercase(l.as_str()) == lowercase(
                self.last_level_name.as_str(),
            ), ex),
            Split::AreaComplete { area } => self.area_complete_split(
                area.as_str(),
                t.area_id,
                level.as_str(),
                t.chapter_complete,
                self.last_completed,
            ),
            Split::AreaOnEnter { area } => (self.area_change_split(
                area.as_str(),
                t.area_id,
                t.area_id,
                t.area_difficulty,
                t.area_difficulty,
            ), ex),
            Split::AreaOnExit { area } => (self.area_change_split(
                area.as_str(),
                t.area_id,
                self.last_area_id,
                t.area_difficulty,
                self.last_area_difficulty,
            ), ex),
            Split::HeartGemAny => ((collect && t.chapter_heart_collected) || t.heart_gems as u64
                == self.last_heart_gems as u64 + 1, ex),
            Split::ChapterA => self.chapter_split(
                Area::Prologue,
                Area::Prologue,
                level.as_str(),
                t.chapter_complete,
                self.last_completed,
            ),
            _ => self.evaluate_table(rule, t, level),
        }
    }

    fn evaluate_table(&self, rule: &Split, t: &GameData, level: &String) -> (r: (bool, bool))
        ensures
            r == table_rule_spec(*self, *rule, *t, level@),
    {
        if let Some(chapter) = rule.chapter() {
            self.chapter_split(
                t.area_id,
                chapter,
                level.as_str(),
                t.chapter_complete,
                self.last_completed,
            )
        } else if let Some((a, x, y)) = rule.checkpoint() {
            (t.area_id == a && (if t.area_difficulty == AreaMode::ASide {
                text_equals(level.as_str(), x)
            } else {
                text_equals(level.as_str(), y)
            }), self.exiting_chapter)
        } else if let Some(chapter) = rule.cassette() {
            (self.collectible(
                t.area_id,
                chapter,
                t.chapter_cassette_collected,
                t.cassettes,
                self.last_cassettes,
            ), self.exiting_chapter)
        } else if let Some(chapter) = rule.heart() {
            (self.collectible(
                t.area_id,
                chapter,
                t.chapter_heart_collected,
                t.heart_gems,
                self.last_heart_gems,
            ), self.exiting_chapter)
        } else {
            (false, self.exiting_chapter)
        }
    }

    /// A tick before the run (see `pre_run_spec`): whether to start it.
    fn pre_run(&mut self, t: &GameData) -> (r: bool)
        requires
            old(self).well_formed(),
        ensures
            (*final(self), r) == pre_run_spec(*old(self), *t),
    {
        if self.splits.splits.len() == 0 {
            let should = !t.level_name.as_str().is_empty() && !self.last_level_name.as_str().is_empty()
                && !(t.level_name == self.last_level_name);
            if should {
                self.level_timer = t.level_time;
            }
            self.last_level_name = t.level_name.clone();
            should
        } else if !self.splits.il_splits {
            t.starting_new_file
        } else {
            let should = t.chapter_started && !self.last_chapter_started;
            self.last_chapter_started = t.chapter_started;
            should
        }
    }

    fn elapsed(&self, t: &GameData) -> (r: i128)
        requires
            self.well_formed(),
        ensures
            r == elapsed_spec(*self, *t),
            -ELAPSED_BOUND <= r <= ELAPSED_BOUND,
    {
        if self.splits.file_time_offset {
            t.game_time as i128 - self.elapsed_offset as i128
        } else if self.splits.il_splits {
            if t.area_id == Area::Menu {
                self.last_elapsed
            } else {
                t.level_time as i128
            }
        } else {
            t.game_time as i128
        }
    }

    fn level_in_effect(&self, t: &GameData) -> (r: String)
        ensures
            r == level_in_effect(*self, *t),
    {
        if t.level_name.as_str().is_empty() && t.area_id == Area::Menu {
            self.last_level_name.clone()
        } else {
            t.level_name.clone()
        }
    }

    /// Outcome of the rule that the segment index selects, if there is one.
    fn outcome(&self, t: &GameData, level: &String) -> (r: (bool, bool))
        requires
            self.well_formed(),
        ensures
            r == (if 0 <= self.current_split + flat_offset(*self) < self.splits.splits@.len() {
                rule_spec(*self, self.splits.splits@[self.current_split + flat_offset(*self)], *t, level@)
            } else {
                (false, self.exiting_chapter)
            }),
    {
        let n = self.splits.splits.len();
        let add: i64 = if n > 0 && !self.splits.chapter_splits {
            1
        } else {
            0
        };
        let idx: i64 = self.current_split as i64 + add;
        if 0 <= idx && idx < n as i64 {
            self.evaluate(&self.splits.splits[idx as usize], t, level)
        } else {
            (false, self.exiting_chapter)
        }
    }

    /// The game time to report, given the elapsed time and the level-time baseline.
    fn report(&self, elapsed: i128, timer: i64) -> (r: Option<TimeSpan>)
        requires
            -ELAPSED_BOUND <= elapsed <= ELAPSED_BOUND,
        ensures
            r is Some <==> (elapsed > 0 || self.last_elapsed == elapsed),
            r matches Some(ts) ==> ts.valid() && ts.total_nanos() == (if (if self.splits.splits@.len()
                == 0 || flat_offset(*self) > 0 {
                elapsed - timer
            } else {
                elapsed as int
            }) < 0 {
                0
            } else if self.splits.splits@.len() == 0 || flat_offset(*self) > 0 {
                elapsed - timer
            } else {
                elapsed as int
            }) * NANOS_PER_TICK,
    {
        let n = self.splits.splits.len();
        let value: i128 = if n == 0 || (n > 0 && !self.splits.chapter_splits) {
            elapsed - timer as i128
        } else {
            elapsed
        };
        if elapsed > 0 || self.last_elapsed == elapsed {
            let ticks: u128 = if value < 0 {
                0
            } else {
                value as u128
            };
            Some(TimeSpan::from_ticks(ticks))
        } else {
            None
        }
    }

    /// A tick during the run (see `active_spec`): whether to split, and the game time to
    /// report.
    fn active(&mut self, t: &GameData) -> (r: (bool, Option<TimeSpan>))
        requires
            old(self).well_formed(),
        ensures
            *final(self) == active_spec(*old(self), *t).0,
            r.0 == active_spec(*old(self), *t).1,
            r.1 is Some <==> active_spec(*old(self), *t).2 is Some,
            r.1 matches Some(ts) ==> ts.valid() && ts.total_nanos() == active_spec(
                *old(self),
                *t,
            ).2->0 * NANOS_PER_TICK,
    {
        let n = self.splits.splits.len();
        let elapsed = self.elapsed(t);
        let add: i64 = if n > 0 && !self.splits.chapter_splits {
            1
        } else {
            0
        };
        let level = self.level_in_effect(t);
        let outcome = self.outcome(t, &level);
        let timer = if outcome.0 && add > 0 && self.current_split < 0 {
            t.level_time
        } else {
            self.level_timer
        };
        let report = self.report(elapsed, timer);
        self.exiting_chapter = outcome.1;
        self.last_cassettes = t.cassettes;
        self.last_heart_gems = t.heart_gems;
        self.last_area_id = t.area_id;
        self.last_area_difficulty = t.area_difficulty;
        self.level_timer = timer;
        self.last_completed = t.chapter_complete;
        self.last_level_name = level;
        self.last_elapsed = elapsed;
        (outcome.0, report)
    }

    /// One tick of the engine on the snapshot `t`: what to send to the timer, in order.
    /// The segment index is left alone: only the events that the timer echoes move it.
    pub fn tick(&mut self, t: &GameData) -> (r: TickActions)
        requires
            old(self).well_formed(),
        ensures
            final(self).well_formed(),
            *final(self) == tick_spec(*old(self), *t).0,
            final(self).current_split == old(self).current_split,
            r.command == tick_spec(*old(self), *t).2,
            r.game_time is Some <==> tick_spec(*old(self), *t).1 is Some,
            r.game_time matches Some(ts) ==> ts.valid() && ts.total_nanos() == tick_spec(
                *old(self),
                *t,
            ).1->0 * NANOS_PER_TICK,
    {
        let (should, game_time) = if self.current_split == -1 && (self.splits.splits.len() == 0
            || self.splits.chapter_splits) {
            (self.pre_run(t), None)
        } else {
            self.active(t)
        };
        let reset = self.splits.auto_reset && self.splits.il_splits && t.area_id == Area::Menu;
        let command = if reset {
            Some(Command::Reset { save_attempt: Some(true) })
        } else if should {
            Some(Command::SplitOrStart)
        } else {
            None
        };
        if reset || should {
            self.exiting_chapter = false;
        }
        TickActions { game_time, command }
    }
}

} // verus!
