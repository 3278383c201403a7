//! The rules of the learner's progress record: what changes when an exercise
//! is viewed, when a hint is taken and when an exercise is completed.
//!
//! The record is kept in a file by the host. The host reads the clock and
//! hands in the time as text; this module decides what the record becomes.

use vstd::prelude::*;
use vstd::string::StringExecFns;
use crate::text::str_eq;

verus! {

/// The number of exercises assumed where none can be counted.
pub const FALLBACK_TOTAL_EXERCISES: u32 = 50;

/// A recorded total that stands for "never counted" and is replaced by the
/// current count, as a total of zero is.
pub const PLACEHOLDER_TOTAL_EXERCISES: u32 = 200;

/// Counters of the learner's activity.
#[derive(Clone, Copy, Debug, PartialEq, Eq, Structural)]
pub struct SessionStats {
    pub exercises_viewed: u32,
    pub exercises_completed: u32,
    pub hints_used: u32,
    pub time_spent: u32,
}

/// What is recorded about one exercise.
#[derive(Clone, Debug, PartialEq, Eq)]
pub struct ExerciseHistoryEntry {
    pub exercise_id: String,
    pub viewed_at: Option<String>,
    pub completed_at: Option<String>,
    pub time_taken_minutes: Option<u32>,
    pub status: String,
    pub session_id: Option<String>,
    pub hints_used: Option<Vec<u32>>,
}

/// The part of the progress record that the rules read and write.
#[derive(Clone, Debug, PartialEq, Eq)]
pub struct ProgressRecord {
    pub exercises_completed: u32,
    pub total_exercises: u32,
    pub total_time_minutes: u32,
    pub session_stats: SessionStats,
    pub exercise_history: Vec<ExerciseHistoryEntry>,
}

/// What contracts say of a value of [`ExerciseHistoryEntry`]: text stands as a sequence
/// of characters.
pub struct ExerciseHistoryEntryView {
    pub exercise_id: Seq<char>,
    pub viewed_at: Option<Seq<char>>,
    pub completed_at: Option<Seq<char>>,
    pub time_taken_minutes: Option<u32>,
    pub status: Seq<char>,
    pub session_id: Option<Seq<char>>,
    pub hints_used: Option<Seq<u32>>,
}

/// What contracts say of a value of [`ProgressRecord`]: text stands as a sequence
/// of characters.
pub struct ProgressRecordView {
    pub exercises_completed: u32,
    pub total_exercises: u32,
    pub total_time_minutes: u32,
    pub session_stats: SessionStats,
    pub exercise_history: Seq<ExerciseHistoryEntryView>,
}

impl View for ExerciseHistoryEntry {
    type V = ExerciseHistoryEntryView;

    open spec fn view(&self) -> ExerciseHistoryEntryView {
        ExerciseHistoryEntryView {
            exercise_id: self.exercise_id@,
            viewed_at: match self.viewed_at {
                Some(at) => Some(at@),
                None => None,
            },
            completed_at: match self.completed_at {
                Some(at) => Some(at@),
                None => None,
            },
            time_taken_minutes: self.time_taken_minutes,
            status: self.status@,
            session_id: match self.session_id {
                Some(id) => Some(id@),
                None => None,
            },
            hints_used: match self.hints_used {
                Some(levels) => Some(levels@),
                None => None,
            },
        }
    }
}

impl DeepView for ExerciseHistoryEntry {
    type V = ExerciseHistoryEntryView;

    open spec fn deep_view(&self) -> ExerciseHistoryEntryView {
        self@
    }
}

impl View for ProgressRecord {
    type V = ProgressRecordView;

    open spec fn view(&self) -> ProgressRecordView {
        ProgressRecordView {
            exercises_completed: self.exercises_completed,
            total_exercises: self.total_exercises,
            total_time_minutes: self.total_time_minutes,
            session_stats: self.session_stats,
            exercise_history: self.exercise_history.deep_view(),
        }
    }
}

/// Whether the history has an entry for exercise `id`.
pub open spec fn has_entry(history: Seq<ExerciseHistoryEntryView>, id: Seq<char>) -> bool {
    exists|i: int| 0 <= i < history.len() && (#[trigger] history[i]).exercise_id == id
}

/// Whether `at` is the place of the first entry for exercise `id`.
pub open spec fn first_entry_at(
    history: Seq<ExerciseHistoryEntryView>,
    id: Seq<char>,
    at: int,
) -> bool {
    &&& 0 <= at < history.len()
    &&& history[at].exercise_id == id
    &&& forall|j: int| 0 <= j < at ==> (#[trigger] history[j]).exercise_id != id
}

/// The place of the first entry for exercise `id`, where there is one.
pub open spec fn first_entry(history: Seq<ExerciseHistoryEntryView>, id: Seq<char>) -> int {
    choose|at: int| first_entry_at(history, id, at)
}

/// Whether exercise `id` counts as completed: its first entry has a time of
/// completion.
pub open spec fn completed(history: Seq<ExerciseHistoryEntryView>, id: Seq<char>) -> bool {
    has_entry(history, id) && history[first_entry(history, id)].completed_at is Some
}

/// An entry for an exercise that was just viewed.
pub open spec fn viewed_entry(id: Seq<char>, now: Seq<char>) -> ExerciseHistoryEntryView {
    ExerciseHistoryEntryView {
        exercise_id: id,
        viewed_at: Some(now),
        completed_at: None,
        time_taken_minutes: None,
        status: "viewed"@,
        session_id: None,
        hints_used: None,
    }
}

/// An entry for an exercise whose first trace is a hint.
pub open spec fn hinted_entry(id: Seq<char>, level: u32, now: Seq<char>) -> ExerciseHistoryEntryView {
    ExerciseHistoryEntryView {
        exercise_id: id,
        viewed_at: Some(now),
        completed_at: None,
        time_taken_minutes: None,
        status: "in_progress"@,
        session_id: None,
        hints_used: Some(seq![level]),
    }
}

/// An entry for an exercise whose first trace is its completion.
pub open spec fn completed_entry(
    id: Seq<char>,
    time_taken_minutes: Option<u32>,
    now: Seq<char>,
    session: Seq<char>,
) -> ExerciseHistoryEntryView {
    ExerciseHistoryEntryView {
        exercise_id: id,
        viewed_at: None,
        completed_at: Some(now),
        time_taken_minutes,
        status: "completed"@,
        session_id: Some(session),
        hints_used: None,
    }
}

/// The hint levels of an entry after `level` was taken: the level is added
/// at the end unless it is already there.
pub open spec fn with_hint(levels: Option<Seq<u32>>, level: u32) -> Option<Seq<u32>> {
    match levels {
        Some(taken) => if taken.contains(level) {
            Some(taken)
        } else {
            Some(taken.push(level))
        },
        None => Some(seq![level]),
    }
}

/// The history after exercise `id` was viewed at `now`: an exercise without
/// an entry gets one, any other history stays as it is.
pub open spec fn history_after_view(
    history: Seq<ExerciseHistoryEntryView>,
    id: Seq<char>,
    now: Seq<char>,
) -> Seq<ExerciseHistoryEntryView> {
    if has_entry(history, id) {
        history
    } else {
        history.push(viewed_entry(id, now))
    }
}

/// The history after hint `level` was taken for exercise `id` at `now`: the
/// first entry of the exercise takes the level, and an exercise without an
/// entry gets one.
pub open spec fn history_after_hint(
    history: Seq<ExerciseHistoryEntryView>,
    id: Seq<char>,
    level: u32,
    now: Seq<char>,
) -> Seq<ExerciseHistoryEntryView> {
    if has_entry(history, id) {
        let at = first_entry(history, id);
        history.update(
            at,
            ExerciseHistoryEntryView {
                hints_used: with_hint(history[at].hints_used, level),
                ..history[at]
            },
        )
    } else {
        history.push(hinted_entry(id, level, now))
    }
}

/// The history after exercise `id` was completed at `now`: the first entry
/// of the exercise is marked completed, and an exercise without an entry
/// gets one.
pub open spec fn history_after_completion(
    history: Seq<ExerciseHistoryEntryView>,
    id: Seq<char>,
    time_taken_minutes: Option<u32>,
    now: Seq<char>,
    session: Seq<char>,
) -> Seq<ExerciseHistoryEntryView> {
    if has_entry(history, id) {
        let at = first_entry(history, id);
        history.update(
            at,
            ExerciseHistoryEntryView {
                completed_at: Some(now),
                time_taken_minutes,
                status: "completed"@,
                session_id: Some(session),
                ..history[at]
            },
        )
    } else {
        history.push(completed_entry(id, time_taken_minutes, now, session))
    }
}

/// The minutes that a completion adds to the total.
pub open spec fn minutes(time_taken_minutes: Option<u32>) -> u32 {
    match time_taken_minutes {
        Some(m) => m,
        None => 0,
    }
}

proof fn lemma_first_entry(history: Seq<ExerciseHistoryEntryView>, id: Seq<char>, at: int)
    requires
        first_entry_at(history, id, at),
    ensures
        has_entry(history, id),
        first_entry(history, id) == at,
{
    let chosen = first_entry(history, id);
    assert(first_entry_at(history, id, chosen));
    if chosen < at {
        assert(history[chosen].exercise_id != id);
    } else if at < chosen {
        assert(history[at].exercise_id != id);
    }
}

/// The number of exercises to record for a count: the count itself, or the
/// fallback where nothing was counted.
pub fn effective_total(counted: u32) -> (total: u32)
    ensures
        total == if counted > 0 {
            counted
        } else {
            FALLBACK_TOTAL_EXERCISES
        },
{
    if counted > 0 {
        counted
    } else {
        FALLBACK_TOTAL_EXERCISES
    }
}

/// Whether a recorded total has to be replaced by the current count.
pub fn total_needs_refresh(recorded: u32) -> (stale: bool)
    ensures
        stale == (recorded == 0 || recorded == PLACEHOLDER_TOTAL_EXERCISES),
{
    recorded == 0 || recorded == PLACEHOLDER_TOTAL_EXERCISES
}

/// The identifier recorded with a completion, made from the time of
/// completion in milliseconds, written in decimal.
pub fn session_tag(millis: &str) -> (tag: String)
    ensures
        tag@ == "session_"@ + millis@,
{
    let mut tag = String::from_str("session_");
    tag.append(millis);
    tag
}

impl ProgressRecord {
    /// The record of a learner who has done nothing yet.
    pub fn new(total_exercises: u32) -> (record: ProgressRecord)
        ensures
            record@ == (ProgressRecordView {
                exercises_completed: 0,
                total_exercises,
                total_time_minutes: 0,
                session_stats: SessionStats {
                    exercises_viewed: 0,
                    exercises_completed: 0,
                    hints_used: 0,
                    time_spent: 0,
                },
                exercise_history: Seq::empty(),
            }),
    {
        let record = ProgressRecord {
            exercises_completed: 0,
            total_exercises,
            total_time_minutes: 0,
            session_stats: SessionStats {
                exercises_viewed: 0,
                exercises_completed: 0,
                hints_used: 0,
                time_spent: 0,
            },
            exercise_history: Vec::new(),
        };
        assert(record@.exercise_history =~= Seq::empty());
        record
    }

    /// The place of the first entry for `exercise_id`, if there is one.
    pub fn find(&self, exercise_id: &str) -> (found: Option<usize>)
        ensures
            match found {
                Some(at) => first_entry_at(self@.exercise_history, exercise_id@, at as int),
                None => !has_entry(self@.exercise_history, exercise_id@),
            },
    {
        let mut i: usize = 0;
        while i < self.exercise_history.len()
            invariant
                i <= self.exercise_history.len(),
                forall|j: int|
                    0 <= j < i ==> (#[trigger] self@.exercise_history[j]).exercise_id
                        != exercise_id@,
            decreases self.exercise_history.len() - i,
        {
            if str_eq(self.exercise_history[i].exercise_id.as_str(), exercise_id) {
                return Some(i);
            }
            i += 1;
        }
        None
    }

    /// Whether `exercise_id` counts as completed.
    pub fn is_completed(&self, exercise_id: &str) -> (done: bool)
        ensures
            done == completed(self@.exercise_history, exercise_id@),
    {
        match self.find(exercise_id) {
            Some(at) => {
                proof {
                    lemma_first_entry(self@.exercise_history, exercise_id@, at as int);
                }
                self.exercise_history[at].completed_at.is_some()
            },
            None => false,
        }
    }

    /// Replaces a total that was never counted by the current count.
    /// Reports whether the record changed.
    pub fn refresh_total(&mut self, counted: u32) -> (changed: bool)
        ensures
            changed == (old(self).total_exercises == 0 || old(self).total_exercises
                == PLACEHOLDER_TOTAL_EXERCISES),
            final(self)@ == (ProgressRecordView {
                total_exercises: if changed {
                    counted
                } else {
                    old(self).total_exercises
                },
                ..old(self)@
            }),
    {
        if total_needs_refresh(self.total_exercises) {
            self.total_exercises = counted;
            true
        } else {
            false
        }
    }

    /// Records that `exercise_id` was viewed at `now`.
    ///
    /// The count of views goes up by one. An exercise without an entry gets
    /// one with status `viewed`.
    pub fn record_view(&mut self, exercise_id: &str, now: &str)
        requires
            old(self).session_stats.exercises_viewed < u32::MAX,
        ensures
            final(self)@ == (ProgressRecordView {
                session_stats: SessionStats {
                    exercises_viewed: (old(self).session_stats.exercises_viewed + 1) as u32,
                    ..old(self).session_stats
                },
                exercise_history: history_after_view(
                    old(self)@.exercise_history,
                    exercise_id@,
                    now@,
                ),
                ..old(self)@
            }),
    {
        self.session_stats.exercises_viewed = self.session_stats.exercises_viewed + 1;
        match self.find(exercise_id) {
            Some(_) => {},
            None => {
                self.exercise_history.push(
                    ExerciseHistoryEntry {
                        exercise_id: exercise_id.to_owned(),
                        viewed_at: Some(now.to_owned()),
                        completed_at: None,
                        time_taken_minutes: None,
                        status: "viewed".to_owned(),
                        session_id: None,
                        hints_used: None,
                    },
                );
            },
        }
        assert(self@.exercise_history =~= history_after_view(
            old(self)@.exercise_history,
            exercise_id@,
            now@,
        ));
    }

    /// Records that hint `hint_level` was taken for `exercise_id` at `now`.
    ///
    /// The count of hints goes up by one. The first entry of the exercise
    /// takes the level unless it has it already; an exercise without an
    /// entry gets one with status `in_progress`.
    pub fn record_hint(&mut self, exercise_id: &str, hint_level: u32, now: &str)
        requires
            old(self).session_stats.hints_used < u32::MAX,
        ensures
            final(self)@ == (ProgressRecordView {
                session_stats: SessionStats {
                    hints_used: (old(self).session_stats.hints_used + 1) as u32,
                    ..old(self).session_stats
                },
                exercise_history: history_after_hint(
                    old(self)@.exercise_history,
                    exercise_id@,
                    hint_level,
                    now@,
                ),
                ..old(self)@
            }),
    {
        self.session_stats.hints_used = self.session_stats.hints_used + 1;
        match self.find(exercise_id) {
            Some(at) => {
                proof {
                    lemma_first_entry(self@.exercise_history, exercise_id@, at as int);
                }
                let taken = self.exercise_history[at].hints_used.take();
                let levels = match taken {
                    Some(mut levels) => {
                        if !has_level(&levels, hint_level) {
                            levels.push(hint_level);
                        }
                        levels
                    },
                    None => {
                        let mut levels: Vec<u32> = Vec::new();
                        levels.push(hint_level);
                        levels
                    },
                };
                self.exercise_history[at].hints_used = Some(levels);
            },
            None => {
                let mut levels: Vec<u32> = Vec::new();
                levels.push(hint_level);
                self.exercise_history.push(
                    ExerciseHistoryEntry {
                        exercise_id: exercise_id.to_owned(),
                        viewed_at: Some(now.to_owned()),
                        completed_at: None,
                        time_taken_minutes: None,
                        status: "in_progress".to_owned(),
                        session_id: None,
                        hints_used: Some(levels),
                    },
                );
            },
        }
        assert(self@.exercise_history =~= history_after_hint(
            old(self)@.exercise_history,
            exercise_id@,
            hint_level,
            now@,
        ));
    }

    /// Records that `exercise_id` was completed at `now`, in the session
    /// tagged `session`. Reports whether anything was recorded.
    ///
    /// An exercise that already counts as completed is not recorded again and
    /// the record stays as it is. Otherwise both counts of completed
    /// exercises go up by one, the minutes taken are added to the total, and
    /// the first entry of the exercise is marked completed; an exercise
    /// without an entry gets one.
    pub fn record_completion(
        &mut self,
        exercise_id: &str,
        time_taken_minutes: Option<u32>,
        now: &str,
        session: &str,
    ) -> (recorded: bool)
        requires
            !completed(old(self)@.exercise_history, exercise_id@) ==> {
                &&& old(self).exercises_completed < u32::MAX
                &&& old(self).session_stats.exercises_completed < u32::MAX
                &&& old(self).total_time_minutes + minutes(time_taken_minutes) <= u32::MAX
            },
        ensures
            recorded == !completed(old(self)@.exercise_history, exercise_id@),
            !recorded ==> final(self)@ == old(self)@,
            recorded ==> final(self)@ == (ProgressRecordView {
                exercises_completed: (old(self).exercises_completed + 1) as u32,
                total_time_minutes: (old(self).total_time_minutes + minutes(
                    time_taken_minutes,
                )) as u32,
                session_stats: SessionStats {
                    exercises_completed: (old(self).session_stats.exercises_completed + 1) as u32,
                    ..old(self).session_stats
                },
                exercise_history: history_after_completion(
                    old(self)@.exercise_history,
                    exercise_id@,
                    time_taken_minutes,
                    now@,
                    session@,
                ),
                ..old(self)@
            }),
    {
        let found = self.find(exercise_id);
        match found {
            Some(at) => {
                proof {
                    lemma_first_entry(self@.exercise_history, exercise_id@, at as int);
                }
                if self.exercise_history[at].completed_at.is_some() {
                    return false;
                }
            },
            None => {},
        }
        self.exercises_completed = self.exercises_completed + 1;
        self.session_stats.exercises_completed = self.session_stats.exercises_completed + 1;
        self.total_time_minutes = self.total_time_minutes + match time_taken_minutes {
            Some(m) => m,
            None => 0,
        };
        match found {
            Some(at) => {
                self.exercise_history[at].completed_at = Some(now.to_owned());
                self.exercise_history[at].time_taken_minutes = time_taken_minutes;
                self.exercise_history[at].status = "completed".to_owned();
                self.exercise_history[at].session_id = Some(session.to_owned());
            },
            None => {
                self.exercise_history.push(
                    ExerciseHistoryEntry {
                        exercise_id: exercise_id.to_owned(),
                        viewed_at: None,
                        completed_at: Some(now.to_owned()),
                        time_taken_minutes,
                        status: "completed".to_owned(),
                        session_id: Some(session.to_owned()),
                        hints_used: None,
                    },
                );
            },
        }
        assert(self@.exercise_history =~= history_after_completion(
            old(self)@.exercise_history,
            exercise_id@,
            time_taken_minutes,
            now@,
            session@,
        ));
        true
    }
}

/// Whether `level` is among `levels`.
fn has_level(levels: &Vec<u32>, level: u32) -> (found: bool)
    ensures
        found == levels@.contains(level),
{
    let mut i: usize = 0;
    while i < levels.len()
        invariant
            i <= levels.len(),
            forall|j: int| 0 <= j < i ==> levels@[j] != level,
        decreases levels.len() - i,
    {
        if levels[i] == level {
            return true;
        }
        i += 1;
    }
    false
}

} // verus!
