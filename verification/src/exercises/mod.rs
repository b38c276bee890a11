//! The catalogue of exercises: which exercises there are, in which order
//! they are worked through, and the skeleton file of each.

use vstd::prelude::*;

pub mod chapter01;
pub mod chapter02;
pub mod chapter03;
pub mod chapter04;
pub mod chapter05;

verus! {

/// One exercise of the tutorial.
#[derive(Debug, Clone)]
pub struct Exercise {
    /// Chapter and number, as in "2.1".
    pub id: String,
    pub title: String,
    pub chapter: u8,
    pub number: u8,
}

/// An exercise as a mathematical value.
pub struct ExerciseView {
    pub id: Seq<char>,
    pub title: Seq<char>,
    pub chapter: u8,
    pub number: u8,
}

impl View for Exercise {
    type V = ExerciseView;

    open spec fn view(&self) -> ExerciseView {
        ExerciseView { id: self.id@, title: self.title@, chapter: self.chapter, number: self.number }
    }
}

/// The text of the skeleton file of the exercise `number` of `chapter`.
pub open spec fn skeleton(chapter: u8, number: u8) -> Option<Seq<char>> {
    if chapter == 1 && number == 1 {
        Some(chapter01::EX01_TEXT@)
    } else if chapter == 1 && number == 2 {
        Some(chapter01::EX02_TEXT@)
    } else if chapter == 2 && number == 1 {
        Some(chapter02::EX01_TEXT@)
    } else if chapter == 2 && number == 2 {
        Some(chapter02::EX02_TEXT@)
    } else if chapter == 3 && number == 1 {
        Some(chapter03::EX01_TEXT@)
    } else if chapter == 3 && number == 2 {
        Some(chapter03::EX02_TEXT@)
    } else if chapter == 4 && number == 1 {
        Some(chapter04::EX01_TEXT@)
    } else if chapter == 4 && number == 2 {
        Some(chapter04::EX02_TEXT@)
    } else if chapter == 5 && number == 1 {
        Some(chapter05::EX01_TEXT@)
    } else if chapter == 5 && number == 2 {
        Some(chapter05::EX02_TEXT@)
    } else {
        None
    }
}

impl Exercise {
    /// The text of the skeleton file of this exercise, by its chapter and
    /// number; none where the catalogue has no such exercise.
    pub fn generate(&self) -> (text: Option<String>)
        ensures
            match text {
                Some(t) => skeleton(self.chapter, self.number) == Some(t@),
                None => skeleton(self.chapter, self.number) is None,
            },
    {
        if self.number == 1 {
            if self.chapter == 1 {
                Some(chapter01::generate_ex01())
            } else if self.chapter == 2 {
                Some(chapter02::generate_ex01())
            } else if self.chapter == 3 {
                Some(chapter03::generate_ex01())
            } else if self.chapter == 4 {
                Some(chapter04::generate_ex01())
            } else if self.chapter == 5 {
                Some(chapter05::generate_ex01())
            } else {
                None
            }
        } else if self.number == 2 {
            if self.chapter == 1 {
                Some(chapter01::generate_ex02())
            } else if self.chapter == 2 {
                Some(chapter02::generate_ex02())
            } else if self.chapter == 3 {
                Some(chapter03::generate_ex02())
            } else if self.chapter == 4 {
                Some(chapter04::generate_ex02())
            } else if self.chapter == 5 {
                Some(chapter05::generate_ex02())
            } else {
                None
            }
        } else {
            None
        }
    }
}

/// The values of a list of exercises.
pub open spec fn views(list: Seq<Exercise>) -> Seq<ExerciseView> {
    list.map_values(|e: Exercise| e@)
}

/// The identifiers of a list of strings.
pub open spec fn texts(list: Seq<String>) -> Seq<Seq<char>> {
    list.map_values(|s: String| s@)
}

/// Every exercise of the tutorial, chapter by chapter.
pub open spec fn catalogue() -> Seq<ExerciseView> {
    chapter01::listing() + chapter02::listing() + chapter03::listing() + chapter04::listing()
        + chapter05::listing()
}

/// Whether `list` holds an exercise with the identifier `id`.
pub open spec fn listed(list: Seq<ExerciseView>, id: Seq<char>) -> bool {
    exists|i: int| 0 <= i < list.len() && (#[trigger] list[i]).id == id
}

/// The identifier of the first exercise of `list` that is not among `done`.
pub open spec fn first_open(list: Seq<ExerciseView>, done: Seq<Seq<char>>) -> Option<Seq<char>>
    decreases list.len(),
{
    if list.len() == 0 {
        None
    } else if !done.contains(list[0].id) {
        Some(list[0].id)
    } else {
        first_open(list.skip(1), done)
    }
}

/// The position of the first exercise of `list` with the identifier `id`;
/// the length of `list` where there is none.
pub open spec fn index_of(list: Seq<ExerciseView>, id: Seq<char>) -> int
    decreases list.len(),
{
    if list.len() == 0 {
        0
    } else if list[0].id == id {
        0
    } else {
        1 + index_of(list.skip(1), id)
    }
}

/// All exercises, in the order they are worked through.
pub fn get_all_exercises() -> (exercises: Vec<Exercise>)
    ensures
        views(exercises@) == catalogue(),
{
    let mut exercises: Vec<Exercise> = Vec::new();
    let mut part = chapter01::get_exercises();
    exercises.append(&mut part);
    assert(views(exercises@) =~= chapter01::listing());
    let mut part = chapter02::get_exercises();
    let ghost before = exercises@;
    exercises.append(&mut part);
    assert(views(exercises@) =~= views(before) + chapter02::listing());
    let mut part = chapter03::get_exercises();
    let ghost before = exercises@;
    exercises.append(&mut part);
    assert(views(exercises@) =~= views(before) + chapter03::listing());
    let mut part = chapter04::get_exercises();
    let ghost before = exercises@;
    exercises.append(&mut part);
    assert(views(exercises@) =~= views(before) + chapter04::listing());
    let mut part = chapter05::get_exercises();
    let ghost before = exercises@;
    exercises.append(&mut part);
    assert(views(exercises@) =~= views(before) + chapter05::listing());
    exercises
}

/// The number of exercises.
pub fn get_total_exercises() -> (total: usize)
    ensures
        total == catalogue().len(),
        total == 10,
{
    let exercises = get_all_exercises();
    proof {
        assert(chapter01::listing().len() == 2);
        assert(chapter02::listing().len() == 2);
        assert(chapter03::listing().len() == 2);
        assert(chapter04::listing().len() == 2);
        assert(chapter05::listing().len() == 2);
        assert(views(exercises@).len() == exercises@.len());
    }
    exercises.len()
}

/// Whether `id` names an exercise.
pub fn is_valid_exercise(id: &str) -> (valid: bool)
    ensures
        valid == listed(catalogue(), id@),
{
    let wanted = id.to_owned();
    let exercises = get_all_exercises();
    let mut i: usize = 0;
    while i < exercises.len()
        invariant
            i <= exercises.len(),
            wanted@ == id@,
            views(exercises@) == catalogue(),
            forall|j: int| 0 <= j < i ==> (#[trigger] catalogue()[j]).id != id@,
        decreases exercises.len() - i,
    {
        assert(views(exercises@)[i as int] == exercises@[i as int]@);
        if exercises[i].id == wanted {
            return true;
        }
        i = i + 1;
    }
    false
}

/// The position in the catalogue of the exercise `id`; the number of
/// exercises where there is none of that name.
fn position_of(exercises: &Vec<Exercise>, id: &str) -> (at: usize)
    requires
        views(exercises@) == catalogue(),
    ensures
        at == index_of(catalogue(), id@),
        at <= exercises@.len(),
{
    let wanted = id.to_owned();
    let mut i: usize = 0;
    assert(catalogue().skip(0) =~= catalogue());
    while i < exercises.len()
        invariant
            i <= exercises.len(),
            wanted@ == id@,
            views(exercises@) == catalogue(),
            index_of(catalogue(), id@) == i + index_of(catalogue().skip(i as int), id@),
        decreases exercises.len() - i,
    {
        assert(views(exercises@)[i as int] == exercises@[i as int]@);
        assert(catalogue().skip(i as int)[0] == catalogue()[i as int]);
        assert(catalogue().skip(i as int).skip(1) =~= catalogue().skip(i as int + 1));
        if exercises[i].id == wanted {
            return i;
        }
        i = i + 1;
    }
    i
}

/// A copy of the exercise at position `at`.
fn copy_of(exercises: &Vec<Exercise>, at: usize) -> (exercise: Exercise)
    requires
        at < exercises@.len(),
    ensures
        exercise@ == exercises@[at as int]@,
{
    Exercise {
        id: exercises[at].id.clone(),
        title: exercises[at].title.clone(),
        chapter: exercises[at].chapter,
        number: exercises[at].number,
    }
}

/// The exercise with the identifier `id`, if there is one.
pub fn find_exercise(id: &str) -> (found: Option<Exercise>)
    ensures
        match found {
            Some(exercise) => {
                &&& index_of(catalogue(), id@) < catalogue().len()
                &&& exercise@ == catalogue()[index_of(catalogue(), id@)]
            },
            None => index_of(catalogue(), id@) >= catalogue().len(),
        },
{
    let exercises = get_all_exercises();
    let at = position_of(&exercises, id);
    if at < exercises.len() {
        assert(views(exercises@)[at as int] == exercises@[at as int]@);
        Some(copy_of(&exercises, at))
    } else {
        None
    }
}

/// How an exercise stands with the learner.
#[derive(Clone, Copy, Debug, PartialEq, Eq, Structural)]
pub enum Status {
    /// It is among the completed ones.
    Completed,
    /// It is not completed, and it is the one being worked on.
    Current,
    /// Neither.
    Open,
}

/// How the exercise `id` stands, given the completed exercises and the
/// current one. Completion counts before being current.
pub fn status_of(id: &String, completed: &[String], current: &Option<String>) -> (status: Status)
    ensures
        status is Completed <==> texts(completed@).contains(id@),
        status is Current <==> !texts(completed@).contains(id@) && match current {
            Some(c) => c@ == id@,
            None => false,
        },
{
    if contains_id(completed, id) {
        Status::Completed
    } else {
        match current {
            Some(c) => if *c == *id {
                Status::Current
            } else {
                Status::Open
            },
            None => Status::Open,
        }
    }
}

/// Whether `list` holds the string `wanted`.
pub fn contains_id(list: &[String], wanted: &String) -> (found: bool)
    ensures
        found == texts(list@).contains(wanted@),
{
    let mut j: usize = 0;
    while j < list.len()
        invariant
            j <= list.len(),
            forall|k: int| 0 <= k < j ==> (#[trigger] texts(list@)[k]) != wanted@,
        decreases list.len() - j,
    {
        assert(texts(list@)[j as int] == list@[j as int]@);
        if list[j] == *wanted {
            return true;
        }
        j = j + 1;
    }
    false
}

/// The first exercise, in the order of the catalogue, that is not among the
/// completed ones; none once all are completed.
pub fn get_next_exercise(completed: &[String]) -> (next: Option<String>)
    ensures
        match next {
            Some(id) => first_open(catalogue(), texts(completed@)) == Some(id@),
            None => first_open(catalogue(), texts(completed@)) is None,
        },
{
    let exercises = get_all_exercises();
    let mut i: usize = 0;
    assert(catalogue().skip(0) =~= catalogue());
    while i < exercises.len()
        invariant
            i <= exercises.len(),
            views(exercises@) == catalogue(),
            first_open(catalogue(), texts(completed@)) == first_open(
                catalogue().skip(i as int),
                texts(completed@),
            ),
        decreases exercises.len() - i,
    {
        assert(views(exercises@)[i as int] == exercises@[i as int]@);
        assert(catalogue().skip(i as int)[0] == catalogue()[i as int]);
        assert(catalogue().skip(i as int).skip(1) =~= catalogue().skip(i as int + 1));
        if !contains_id(completed, &exercises[i].id) {
            return Some(exercises[i].id.clone());
        }
        i = i + 1;
    }
    None
}

} // verus!
