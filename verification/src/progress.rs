//! The record of a learner's progress and the rules by which it advances.

use crate::exercises::{contains_id, get_next_exercise, is_valid_exercise};
use vstd::prelude::*;

verus! {

/// Which exercises are done, and which one is being worked on.
#[derive(Debug)]
pub struct Progress {
    pub completed_exercises: Vec<String>,
    pub current_exercise: Option<String>,
}

/// A progress record as a mathematical value.
pub struct ProgressView {
    pub completed: Seq<Seq<char>>,
    pub current: Option<Seq<char>>,
}

/// What passing the current exercise led to.
#[derive(Debug, PartialEq, Eq)]
pub enum Advance {
    /// No exercise was being worked on: nothing changed.
    NothingLoaded,
    /// The exercise is done, and this one comes next.
    Next(String),
    /// The exercise is done, and it was the last one open.
    AllDone,
}

impl View for Progress {
    type V = ProgressView;

    open spec fn view(&self) -> ProgressView {
        ProgressView {
            completed: crate::exercises::texts(self.completed_exercises@),
            current: match self.current_exercise {
                Some(id) => Some(id@),
                None => None,
            },
        }
    }
}

impl ProgressView {
    /// The completed exercises once `id` is done: it is added at the end
    /// unless it is already among them.
    pub open spec fn with_done(self, id: Seq<char>) -> Seq<Seq<char>> {
        if self.completed.contains(id) {
            self.completed
        } else {
            self.completed.push(id)
        }
    }
}

impl Default for Progress {
    /// The record of a learner who starts: nothing done, the first exercise
    /// up.
    fn default() -> (progress: Self)
        ensures
            progress@.completed == Seq::<Seq<char>>::empty(),
            progress@.current == Some("1.1"@),
    {
        let progress = Progress {
            completed_exercises: Vec::new(),
            current_exercise: Some("1.1".to_owned()),
        };
        assert(progress@.completed =~= Seq::<Seq<char>>::empty());
        progress
    }
}

impl Progress {
    /// Turns to the first exercise that is not completed, and names it.
    /// Where all are completed nothing changes.
    pub fn start_next(&mut self) -> (next: Option<String>)
        ensures
            final(self)@.completed == old(self)@.completed,
            match next {
                Some(id) => {
                    &&& crate::exercises::first_open(
                        crate::exercises::catalogue(),
                        old(self)@.completed,
                    ) == Some(id@)
                    &&& final(self)@.current == Some(id@)
                },
                None => {
                    &&& crate::exercises::first_open(
                        crate::exercises::catalogue(),
                        old(self)@.completed,
                    ) is None
                    &&& final(self)@.current == old(self)@.current
                },
            },
    {
        match get_next_exercise(self.completed_exercises.as_slice()) {
            Some(id) => {
                self.current_exercise = Some(id.clone());
                Some(id)
            },
            None => None,
        }
    }

    /// Turns to the exercise `id` if there is one of that name, and says
    /// whether there is.
    pub fn select(&mut self, id: &str) -> (valid: bool)
        ensures
            valid == crate::exercises::listed(crate::exercises::catalogue(), id@),
            final(self)@.completed == old(self)@.completed,
            valid ==> final(self)@.current == Some(id@),
            !valid ==> final(self)@.current == old(self)@.current,
    {
        if is_valid_exercise(id) {
            self.current_exercise = Some(id.to_owned());
            true
        } else {
            false
        }
    }

    /// Records that the current exercise has passed its tests: it joins the
    /// completed ones, once, and the first exercise still open comes next.
    pub fn pass_current(&mut self) -> (advance: Advance)
        ensures
            match old(self)@.current {
                None => advance is NothingLoaded && final(self)@ == old(self)@,
                Some(done) => {
                    &&& final(self)@.completed == old(self)@.with_done(done)
                    &&& final(self)@.current == crate::exercises::first_open(
                        crate::exercises::catalogue(),
                        old(self)@.with_done(done),
                    )
                    &&& match advance {
                        Advance::NothingLoaded => false,
                        Advance::Next(id) => final(self)@.current == Some(id@),
                        Advance::AllDone => final(self)@.current is None,
                    }
                },
            },
    {
        let current = match &self.current_exercise {
            None => {
                return Advance::NothingLoaded;
            },
            Some(id) => id.clone(),
        };
        if !contains_id(self.completed_exercises.as_slice(), &current) {
            let ghost before = self.completed_exercises@;
            self.completed_exercises.push(current);
            assert(crate::exercises::texts(self.completed_exercises@) =~= crate::exercises::texts(
                before,
            ).push(current@));
        }
        match get_next_exercise(self.completed_exercises.as_slice()) {
            Some(next) => {
                self.current_exercise = Some(next.clone());
                Advance::Next(next)
            },
            None => {
                self.current_exercise = None;
                Advance::AllDone
            },
        }
    }
}

/// The share of the exercises that is completed, in whole percent, rounded
/// down.
pub fn percent_complete(completed: usize, total: usize) -> (percent: usize)
    requires
        total > 0,
        completed * 100 <= usize::MAX,
    ensures
        percent == (completed * 100) / (total as int),
{
    completed * 100 / total
}

/// The number of cells of a progress bar of `width` cells that are filled
/// when `completed` of `total` exercises are done, rounded down.
pub fn bar_filled(width: usize, completed: usize, total: usize) -> (filled: usize)
    requires
        total > 0,
        width * completed <= usize::MAX,
    ensures
        filled == (width * completed) / (total as int),
{
    width * completed / total
}

} // verus!
