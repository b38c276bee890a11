//! Chapter 5: streams.
//!
//! The skeletons of its two exercises: iterators that yield their items asynchronously.

use crate::exercises::{Exercise, ExerciseView};
use vstd::prelude::*;

verus! {

/// The skeleton file of exercise 5.1.
pub const EX01_TEXT: &'static str = "//! Exercise 5.1: Basic Streams\n//! \n//! Time to play with async streams - they're like iterators that can\n//! wait for things.\n//! \n//! ## What's a stream anyway?\n//! \n//! From Chapter 5 of the Rust Async Book:\n//! \n//! > Streams are the async equivalent of iterators. Instead of\n//! > immediately having the next value, they might need to wait for it.\n//! \n//! Imagine a conveyor belt where items show up when they're ready,\n//! not all at once.\n\n// Exercise content will be implemented\nfn main() {\n    println!(\"Exercise 5.1 - Coming soon!\");\n}\n";

/// The skeleton file of exercise 5.2.
pub const EX02_TEXT: &'static str = "//! Exercise 5.2: Stream Processing\n//! \n//! Now that you've got the basics, let's do some cool stuff with streams -\n//! filtering, mapping, and all that jazz.\n//! \n//! ## Let's process some data\n//! \n//! From Chapter 5 of the Rust Async Book:\n//! \n//! > Processing streams efficiently is a key async skill. You can\n//! > transform, filter, and combine streams just like iterators.\n//! \n//! If you're comfortable with iterator adapters, this will feel familiar.\n\n// Exercise content will be implemented\nfn main() {\n    println!(\"Exercise 5.2 - Coming soon!\");\n}\n";

/// The exercises of this chapter, in the order they are worked through.
pub open spec fn listing() -> Seq<ExerciseView> {
    seq![
        ExerciseView { id: "5.1"@, title: "Basic Streams"@, chapter: 5, number: 1 },
        ExerciseView { id: "5.2"@, title: "Stream Processing"@, chapter: 5, number: 2 },
    ]
}

/// The exercises of this chapter.
pub fn get_exercises() -> (list: Vec<Exercise>)
    ensures
        crate::exercises::views(list@) == listing(),
{
    let mut list: Vec<Exercise> = Vec::new();
    list.push(Exercise { id: "5.1".to_owned(), title: "Basic Streams".to_owned(), chapter: 5, number: 1 });
    list.push(Exercise { id: "5.2".to_owned(), title: "Stream Processing".to_owned(), chapter: 5, number: 2 });
    assert(crate::exercises::views(list@) =~= listing());
    list
}

/// The text of the skeleton file of exercise 5.1.
pub fn generate_ex01() -> (text: String)
    ensures
        text@ == EX01_TEXT@,
{
    EX01_TEXT.to_owned()
}

/// The text of the skeleton file of exercise 5.2.
pub fn generate_ex02() -> (text: String)
    ensures
        text@ == EX02_TEXT@,
{
    EX02_TEXT.to_owned()
}

} // verus!
