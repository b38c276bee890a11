//! Chapter 4: several futures at a time.
//!
//! The skeletons of its two exercises: joining, selecting and spawning.

use crate::exercises::{Exercise, ExerciseView};
use vstd::prelude::*;

verus! {

/// The skeleton file of exercise 4.1.
pub const EX01_TEXT: &'static str = "//! Exercise 4.1: Join and Select\n//! \n//! Working with multiple futures at once - join! waits for all,\n//! select! races to see who finishes first.\n//! \n//! ## What's happening here\n//! \n//! From Chapter 4 of the Rust Async Book:\n//! \n//! > Sometimes you need to run multiple futures concurrently.\n//! > Rust gives you different tools depending on what you need.\n//! \n//! It's like having multiple pots on the stove - sometimes you need\n//! them all to finish, sometimes just the first one.\n\n// Exercise content will be implemented\nfn main() {\n    println!(\"Exercise 4.1 - Coming soon!\");\n}\n";

/// The skeleton file of exercise 4.2.
pub const EX02_TEXT: &'static str = "//! Exercise 4.2: Spawning Tasks\n//! \n//! Sometimes you just want to fire off a task and let it do its thing\n//! in the background. That's where spawning comes in.\n//! \n//! ## Here's the scoop\n//! \n//! From Chapter 4 of the Rust Async Book:\n//! \n//! > Spawning lets you run futures in the background without\n//! > having to actively wait for them.\n//! \n//! Think of it like starting a washing machine - you don't stand\n//! there watching it, you go do other stuff.\n\n// Exercise content will be implemented\nfn main() {\n    println!(\"Exercise 4.2 - Coming soon!\");\n}\n";

/// The exercises of this chapter, in the order they are worked through.
pub open spec fn listing() -> Seq<ExerciseView> {
    seq![
        ExerciseView { id: "4.1"@, title: "Join and Select"@, chapter: 4, number: 1 },
        ExerciseView { id: "4.2"@, title: "Spawning Tasks"@, chapter: 4, number: 2 },
    ]
}

/// The exercises of this chapter.
pub fn get_exercises() -> (list: Vec<Exercise>)
    ensures
        crate::exercises::views(list@) == listing(),
{
    let mut list: Vec<Exercise> = Vec::new();
    list.push(Exercise { id: "4.1".to_owned(), title: "Join and Select".to_owned(), chapter: 4, number: 1 });
    list.push(Exercise { id: "4.2".to_owned(), title: "Spawning Tasks".to_owned(), chapter: 4, number: 2 });
    assert(crate::exercises::views(list@) =~= listing());
    list
}

/// The text of the skeleton file of exercise 4.1.
pub fn generate_ex01() -> (text: String)
    ensures
        text@ == EX01_TEXT@,
{
    EX01_TEXT.to_owned()
}

/// The text of the skeleton file of exercise 4.2.
pub fn generate_ex02() -> (text: String)
    ensures
        text@ == EX02_TEXT@,
{
    EX02_TEXT.to_owned()
}

} // verus!
