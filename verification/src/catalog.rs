//! Rules of the exercise catalogue: which directories hold chapters and
//! exercises, how exercises are named and in what order they are listed.

use std::cmp::Ordering;
use vstd::prelude::*;
use vstd::string::StringExecFns;
use crate::message::{BroadcastMessage, BroadcastMessageView, FileNotice, FileNoticeView};
use crate::text::{
    begins_with, chars_of, remove_first_pair, starts_with, text_of, without_first_pair,
};

verus! {

/// Where an exercise stands in the course.
#[derive(Clone, Copy, Debug, PartialEq, Eq, Structural)]
pub struct ExerciseKey {
    pub chapter: u32,
    pub exercise_number: u32,
}

impl ExerciseKey {
    /// Whether `self` is listed before `other`: its chapter comes first, or
    /// the chapters are the same and its number is the smaller.
    pub open spec fn precedes(self, other: ExerciseKey) -> bool {
        self.chapter < other.chapter || (self.chapter == other.chapter && self.exercise_number
            < other.exercise_number)
    }
}

/// The order in which two exercises are listed: by chapter, and within a
/// chapter by number.
pub fn order_of_exercises(a: ExerciseKey, b: ExerciseKey) -> (order: Ordering)
    ensures
        order == if a.precedes(b) {
            Ordering::Less
        } else if b.precedes(a) {
            Ordering::Greater
        } else {
            Ordering::Equal
        },
        order == Ordering::Equal <==> a == b,
{
    if a.chapter < b.chapter {
        Ordering::Less
    } else if a.chapter > b.chapter {
        Ordering::Greater
    } else if a.exercise_number < b.exercise_number {
        Ordering::Less
    } else if a.exercise_number > b.exercise_number {
        Ordering::Greater
    } else {
        Ordering::Equal
    }
}

/// Whether a directory of this name holds a chapter: the name begins with
/// `ch`.
pub fn is_chapter_dir(name: &str) -> (yes: bool)
    ensures
        yes == begins_with(name@, "ch"@),
{
    starts_with(name, "ch")
}

/// Whether a directory of this name holds an exercise: the name begins with
/// `ex`.
pub fn is_exercise_dir(name: &str) -> (yes: bool)
    ensures
        yes == begins_with(name@, "ex"@),
{
    starts_with(name, "ex")
}

/// The path of an exercise below the exercises directory: the chapter's
/// directory, a slash, and the exercise's directory.
pub fn exercise_path(chapter: &str, exercise: &str) -> (path: String)
    ensures
        path@ == chapter@ + "/"@ + exercise@,
{
    let mut path = String::from_str(chapter);
    path.append("/");
    path.append(exercise);
    path
}

/// The address of a chapter of the book.
pub fn book_chapter_url(chapter: &str) -> (url: String)
    ensures
        url@ == "https://doc.rust-lang.org/book/ch"@ + chapter@ + ".html"@,
{
    let mut url = String::from_str("https://doc.rust-lang.org/book/ch");
    url.append(chapter);
    url.append(".html");
    url
}

/// `name` with a space in place of every underscore.
pub open spec fn spaced(name: Seq<char>) -> Seq<char> {
    Seq::new(
        name.len(),
        |i: int|
            if name[i] == '_' {
                ' '
            } else {
                name[i]
            },
    )
}

/// The name shown for an exercise that has no title of its own, made from
/// its directory's name.
pub open spec fn display_name(dir: Seq<char>) -> Seq<char> {
    without_first_pair(spaced(dir), 'e', 'x')
}

/// The name shown for an exercise that has no title of its own: the name of
/// its directory with spaces for underscores and without the first `ex`.
pub fn display_name_from_dir(dir: &str) -> (name: String)
    ensures
        name@ == display_name(dir@),
{
    let chars = chars_of(dir);
    let mut with_spaces: Vec<char> = Vec::new();
    let mut i: usize = 0;
    while i < chars.len()
        invariant
            i <= chars.len(),
            chars@ == dir@,
            with_spaces@ == spaced(dir@).take(i as int),
        decreases chars.len() - i,
    {
        let c = chars[i];
        with_spaces.push(if c == '_' { ' ' } else { c });
        assert(spaced(dir@).take(i + 1) =~= spaced(dir@).take(i as int).push(spaced(dir@)[i as int]));
        i += 1;
    }
    assert(spaced(dir@).take(chars.len() as int) =~= spaced(dir@));
    let rest = remove_first_pair(&with_spaces, 'e', 'x');
    text_of(&rest)
}

/// The notice that a change of a file below the exercises directory calls
/// for, if any.
///
/// `parts` are the components of the file's path below the exercises
/// directory, `file` is that path as text, and `title` is the title of the
/// exercise where one could be read. A path of fewer than two components
/// belongs to no exercise and calls for nothing. Otherwise the change is
/// announced under the exercise's title, or, where there is none, under the
/// name made from the exercise's directory, the second component.
pub fn file_change_notice(
    parts: &Vec<String>,
    file: &str,
    title: Option<String>,
) -> (notice: Option<BroadcastMessage>)
    ensures
        match notice {
            None => parts.len() < 2,
            Some(message) => parts.len() >= 2 && message@ == BroadcastMessageView::FileChanged(
                FileNoticeView {
                    exercise: match title {
                        Some(given) => given@,
                        None => display_name(parts[1]@),
                    },
                    file: file@,
                },
            ),
        },
{
    if parts.len() < 2 {
        return None;
    }
    let exercise = match title {
        Some(given) => given,
        None => display_name_from_dir(parts[1].as_str()),
    };
    Some(BroadcastMessage::FileChanged(FileNotice { exercise, file: file.to_owned() }))
}

} // verus!
