//! Chapter 3: async and await.
//!
//! The skeletons of its two exercises: lifetimes and move semantics in asynchronous code.

use crate::exercises::{Exercise, ExerciseView};
use vstd::prelude::*;

verus! {

/// The skeleton file of exercise 3.1.
pub const EX01_TEXT: &'static str = "//! Exercise 3.1: Async Lifetimes\n//! \n//! Lifetimes in async can be a real head-scratcher. Let's figure them out together.\n//! \n//! ## Here's what's up\n//! \n//! From Chapter 3 of the Rust Async Book:\n//! \n//! > Lifetimes in async functions follow special rules because the generated\n//! > Future type needs to capture references safely.\n//! \n//! Don't worry, it clicks once you see the patterns.\n\n// Exercise content will be implemented\nfn main() {\n    println!(\"Exercise 3.1 - Coming soon!\");\n}\n";

/// The skeleton file of exercise 3.2.
pub const EX02_TEXT: &'static str = "//! Exercise 3.2: Async Move\n//! \n//! Time to tackle move semantics in async - when values need to move into\n//! async blocks and when they don't.\n//! \n//! ## The lowdown\n//! \n//! From Chapter 3 of the Rust Async Book:\n//! \n//! > Understanding when and how to move values into async blocks is crucial\n//! > for avoiding borrow checker fights.\n//! \n//! We've all been there with the borrow checker, right?\n\n// Exercise content will be implemented\nfn main() {\n    println!(\"Exercise 3.2 - Coming soon!\");\n}\n";

/// The exercises of this chapter, in the order they are worked through.
pub open spec fn listing() -> Seq<ExerciseView> {
    seq![
        ExerciseView { id: "3.1"@, title: "Async Lifetimes"@, chapter: 3, number: 1 },
        ExerciseView { id: "3.2"@, title: "Async Move"@, chapter: 3, number: 2 },
    ]
}

/// The exercises of this chapter.
pub fn get_exercises() -> (list: Vec<Exercise>)
    ensures
        crate::exercises::views(list@) == listing(),
{
    let mut list: Vec<Exercise> = Vec::new();
    list.push(Exercise { id: "3.1".to_owned(), title: "Async Lifetimes".to_owned(), chapter: 3, number: 1 });
    list.push(Exercise { id: "3.2".to_owned(), title: "Async Move".to_owned(), chapter: 3, number: 2 });
    assert(crate::exercises::views(list@) =~= listing());
    list
}

/// The text of the skeleton file of exercise 3.1.
pub fn generate_ex01() -> (text: String)
    ensures
        text@ == EX01_TEXT@,
{
    EX01_TEXT.to_owned()
}

/// The text of the skeleton file of exercise 3.2.
pub fn generate_ex02() -> (text: String)
    ensures
        text@ == EX02_TEXT@,
{
    EX02_TEXT.to_owned()
}

} // verus!
