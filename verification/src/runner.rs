//! The table of the exercise runner: the exercises that have a program of
//! their own, where each lives, and which one follows which.

use vstd::prelude::*;

verus! {

/// One exercise that the runner can build and test.
#[derive(Clone)]
pub struct Exercise {
    pub id: String,
    pub name: String,
    pub chapter: u8,
    pub exercise_num: u8,
    pub description: String,
    pub path: String,
    pub test_command: Option<String>,
}

/// An exercise of the runner as a mathematical value.
pub struct ExerciseView {
    pub id: Seq<char>,
    pub name: Seq<char>,
    pub chapter: u8,
    pub exercise_num: u8,
    pub description: Seq<char>,
    pub path: Seq<char>,
    pub test_command: Option<Seq<char>>,
}

impl View for Exercise {
    type V = ExerciseView;

    open spec fn view(&self) -> ExerciseView {
        ExerciseView {
            id: self.id@,
            name: self.name@,
            chapter: self.chapter,
            exercise_num: self.exercise_num,
            description: self.description@,
            path: self.path@,
            test_command: match self.test_command {
                Some(command) => Some(command@),
                None => None,
            },
        }
    }
}

/// The values of a list of exercises.
pub open spec fn views(list: Seq<Exercise>) -> Seq<ExerciseView> {
    list.map_values(|e: Exercise| e@)
}

/// The exercises of the runner, in the order they are worked through.
pub open spec fn listing() -> Seq<ExerciseView> {
    seq![
        ExerciseView {
            id: "1.1"@,
            name: "Basic Async/Await"@,
            chapter: 1,
            exercise_num: 1,
            description: "Learn the fundamentals of async/await syntax"@,
            path: "exercises/chapter01/ex01_basic_async.rs"@,
            test_command: Some("cargo test --package chapter01 --bin ex01_basic_async"@),
        },
        ExerciseView {
            id: "1.2"@,
            name: "Concurrent Downloads"@,
            chapter: 1,
            exercise_num: 2,
            description: "Compare threaded vs async approaches"@,
            path: "exercises/chapter01/ex02_concurrent_download.rs"@,
            test_command: Some("cargo test --package chapter01 --bin ex02_concurrent_download"@),
        },
        ExerciseView {
            id: "2.1"@,
            name: "Future Trait"@,
            chapter: 2,
            exercise_num: 1,
            description: "Implement custom Future types"@,
            path: "exercises/chapter02/ex01_future_trait.rs"@,
            test_command: Some("cargo test --package chapter02 --bin ex01_future_trait"@),
        },
        ExerciseView {
            id: "2.2"@,
            name: "Custom Executor"@,
            chapter: 2,
            exercise_num: 2,
            description: "Build your own executor from scratch"@,
            path: "exercises/chapter02/ex02_custom_executor.rs"@,
            test_command: Some("cargo test --package chapter02 --bin ex02_custom_executor"@),
        },
    ]
}

/// The position of the first exercise of `list` with the identifier `id`;
/// the length of `list` where there is none.
pub open spec fn index_of(list: Seq<ExerciseView>, id: Seq<char>) -> int
    decreases list.len(),
{
    if list.len() == 0 {
        0
    } else if list[0].id == id {
        0
    } else {
        1 + index_of(list.skip(1), id)
    }
}

/// The name of the program of the exercise `id`, for those that have one.
pub open spec fn binary_of(id: Seq<char>) -> Option<Seq<char>> {
    if id == "1.1"@ {
        Some("ex01_basic_async"@)
    } else if id == "1.2"@ {
        Some("ex02_concurrent_download"@)
    } else if id == "2.1"@ {
        Some("ex01_future_trait"@)
    } else if id == "2.2"@ {
        Some("ex02_custom_executor"@)
    } else {
        None
    }
}

/// The exercises of the runner.
pub fn get_exercises() -> (list: Vec<Exercise>)
    ensures
        views(list@) == listing(),
{
    let mut list: Vec<Exercise> = Vec::new();
    list.push(
        Exercise {
            id: "1.1".to_owned(),
            name: "Basic Async/Await".to_owned(),
            chapter: 1,
            exercise_num: 1,
            description: "Learn the fundamentals of async/await syntax".to_owned(),
            path: "exercises/chapter01/ex01_basic_async.rs".to_owned(),
            test_command: Some("cargo test --package chapter01 --bin ex01_basic_async".to_owned()),
        },
    );
    list.push(
        Exercise {
            id: "1.2".to_owned(),
            name: "Concurrent Downloads".to_owned(),
            chapter: 1,
            exercise_num: 2,
            description: "Compare threaded vs async approaches".to_owned(),
            path: "exercises/chapter01/ex02_concurrent_download.rs".to_owned(),
            test_command: Some(
                "cargo test --package chapter01 --bin ex02_concurrent_download".to_owned(),
            ),
        },
    );
    list.push(
        Exercise {
            id: "2.1".to_owned(),
            name: "Future Trait".to_owned(),
            chapter: 2,
            exercise_num: 1,
            description: "Implement custom Future types".to_owned(),
            path: "exercises/chapter02/ex01_future_trait.rs".to_owned(),
            test_command: Some("cargo test --package chapter02 --bin ex01_future_trait".to_owned()),
        },
    );
    list.push(
        Exercise {
            id: "2.2".to_owned(),
            name: "Custom Executor".to_owned(),
            chapter: 2,
            exercise_num: 2,
            description: "Build your own executor from scratch".to_owned(),
            path: "exercises/chapter02/ex02_custom_executor.rs".to_owned(),
            test_command: Some(
                "cargo test --package chapter02 --bin ex02_custom_executor".to_owned(),
            ),
        },
    );
    assert(views(list@) =~= listing());
    list
}

/// The position in `exercises` of the first exercise named `id`; the length
/// of the list where there is none.
fn position_of(exercises: &Vec<Exercise>, id: &str) -> (at: usize)
    ensures
        at == index_of(views(exercises@), id@),
        at <= exercises@.len(),
{
    let wanted = id.to_owned();
    let ghost all = views(exercises@);
    let mut i: usize = 0;
    assert(all.skip(0) =~= all);
    while i < exercises.len()
        invariant
            i <= exercises.len(),
            wanted@ == id@,
            all == views(exercises@),
            index_of(all, id@) == i + index_of(all.skip(i as int), id@),
        decreases exercises.len() - i,
    {
        assert(all[i as int] == exercises@[i as int]@);
        assert(all.skip(i as int)[0] == all[i as int]);
        assert(all.skip(i as int).skip(1) =~= all.skip(i as int + 1));
        if exercises[i].id == wanted {
            return i;
        }
        i = i + 1;
    }
    i
}

/// A copy of the exercise at position `at`.
fn copy_of(exercises: &Vec<Exercise>, at: usize) -> (exercise: Exercise)
    requires
        at < exercises@.len(),
    ensures
        exercise@ == views(exercises@)[at as int],
{
    let source = &exercises[at];
    let test_command = match &source.test_command {
        Some(command) => Some(command.clone()),
        None => None,
    };
    Exercise {
        id: source.id.clone(),
        name: source.name.clone(),
        chapter: source.chapter,
        exercise_num: source.exercise_num,
        description: source.description.clone(),
        path: source.path.clone(),
        test_command,
    }
}

/// The exercise with the identifier `id`, if the runner has one.
pub fn find_exercise(id: &str) -> (found: Option<Exercise>)
    ensures
        match found {
            Some(exercise) => {
                &&& index_of(listing(), id@) < listing().len()
                &&& exercise@ == listing()[index_of(listing(), id@)]
            },
            None => index_of(listing(), id@) >= listing().len(),
        },
{
    let exercises = get_exercises();
    let at = position_of(&exercises, id);
    if at < exercises.len() {
        Some(copy_of(&exercises, at))
    } else {
        None
    }
}

/// The exercise that follows the exercise `current_id`; none after the last
/// one, and none where `current_id` names no exercise.
pub fn find_next_exercise(current_id: &str) -> (next: Option<Exercise>)
    ensures
        match next {
            Some(exercise) => {
                &&& index_of(listing(), current_id@) + 1 < listing().len()
                &&& exercise@ == listing()[index_of(listing(), current_id@) + 1]
            },
            None => index_of(listing(), current_id@) + 1 >= listing().len(),
        },
{
    let exercises = get_exercises();
    let at = position_of(&exercises, current_id);
    if at < exercises.len() && at + 1 < exercises.len() {
        Some(copy_of(&exercises, at + 1))
    } else {
        None
    }
}

/// The name of the program of the exercise `id`; none for an exercise
/// without a program.
pub fn binary_name(id: &str) -> (name: Option<String>)
    ensures
        match name {
            Some(n) => binary_of(id@) == Some(n@),
            None => binary_of(id@) is None,
        },
{
    let wanted = id.to_owned();
    if wanted == "1.1".to_owned() {
        Some("ex01_basic_async".to_owned())
    } else if wanted == "1.2".to_owned() {
        Some("ex02_concurrent_download".to_owned())
    } else if wanted == "2.1".to_owned() {
        Some("ex01_future_trait".to_owned())
    } else if wanted == "2.2".to_owned() {
        Some("ex02_custom_executor".to_owned())
    } else {
        None
    }
}

/// The first exercise of the runner that is not among the completed ones.
pub fn first_incomplete(completed: &[String]) -> (next: Option<Exercise>)
    ensures
        match next {
            Some(exercise) => {
                &&& exists|i: int|
                    0 <= i < listing().len() && exercise@ == #[trigger] listing()[i]
                        && !crate::exercises::texts(completed@).contains(listing()[i].id) && forall|j: int|
                        0 <= j < i ==> crate::exercises::texts(completed@).contains(
                            (#[trigger] listing()[j]).id,
                        )
            },
            None => forall|j: int|
                0 <= j < listing().len() ==> crate::exercises::texts(completed@).contains(
                    (#[trigger] listing()[j]).id,
                ),
        },
{
    let exercises = get_exercises();
    let mut i: usize = 0;
    while i < exercises.len()
        invariant
            i <= exercises.len(),
            views(exercises@) == listing(),
            forall|j: int|
                0 <= j < i ==> crate::exercises::texts(completed@).contains(
                    (#[trigger] listing()[j]).id,
                ),
        decreases exercises.len() - i,
    {
        assert(views(exercises@)[i as int] == exercises@[i as int]@);
        if !crate::exercises::contains_id(completed, &exercises[i].id) {
            return Some(copy_of(&exercises, i));
        }
        i = i + 1;
    }
    None
}

} // verus!
