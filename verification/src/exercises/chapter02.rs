//! Chapter 2: under the hood.
//!
//! The skeletons of its two exercises: the future trait and the basics of an executor.

use crate::exercises::{Exercise, ExerciseView};
use vstd::prelude::*;

verus! {

/// The skeleton file of exercise 2.1.
pub const EX01_TEXT: &'static str = r#"//! Exercise 2.1: The Future Trait
//! 
//! Time to see what makes async tick by building our own futures!
//! 
//! ## Quick context
//! 
//! From Chapter 2.1 of the Rust Async Book:
//! 
//! > A Future is an asynchronous computation that can produce a value.
//! > The Future trait is at the core of asynchronous programming in Rust.
//! 
//! Think of it like a promise that something will happen - eventually.

// Exercise content will be implemented
fn main() {
    println!("Exercise 2.1 - Coming soon!");
}
"#;

/// The skeleton file of exercise 2.2.
pub const EX02_TEXT: &'static str = r#"//! Exercise 2.2: Custom Executor
//! 
//! Ever wonder how futures actually get run? Let's build a simple
//! executor and find out!

fn main() {
    println!("Exercise 2.2 - Coming soon!");
}
"#;

/// The exercises of this chapter, in the order they are worked through.
pub open spec fn listing() -> Seq<ExerciseView> {
    seq![
        ExerciseView { id: "2.1"@, title: "The Future Trait"@, chapter: 2, number: 1 },
        ExerciseView { id: "2.2"@, title: "Custom Executor"@, chapter: 2, number: 2 },
    ]
}

/// The exercises of this chapter.
pub fn get_exercises() -> (list: Vec<Exercise>)
    ensures
        crate::exercises::views(list@) == listing(),
{
    let mut list: Vec<Exercise> = Vec::new();
    list.push(Exercise { id: "2.1".to_owned(), title: "The Future Trait".to_owned(), chapter: 2, number: 1 });
    list.push(Exercise { id: "2.2".to_owned(), title: "Custom Executor".to_owned(), chapter: 2, number: 2 });
    assert(crate::exercises::views(list@) =~= listing());
    list
}

/// The text of the skeleton file of exercise 2.1.
pub fn generate_ex01() -> (text: String)
    ensures
        text@ == EX01_TEXT@,
{
    EX01_TEXT.to_owned()
}

/// The text of the skeleton file of exercise 2.2.
pub fn generate_ex02() -> (text: String)
    ensures
        text@ == EX02_TEXT@,
{
    EX02_TEXT.to_owned()
}

} // verus!
