use async_book_exercises::exercises::{
    chapter01, chapter02, chapter03, chapter04, chapter05, contains_id, find_exercise,
    get_all_exercises, get_next_exercise, get_total_exercises, is_valid_exercise, status_of,
    Exercise, Status,
};
use async_book_exercises::progress::{bar_filled, percent_complete, Advance, Progress};
use async_book_exercises::runner;
use async_book_exercises::markers::{count_markers, count_markers_in};

/// Exercise 1.1 as a learner hands it in.
const BASIC_ASYNC_SOLVED: &str = "use std::time::Duration;
use tokio::time::sleep;

async fn learn_song() -> String {
    sleep(Duration::from_millis(1000)).await;
    \"Never Gonna Give You Up\".to_string()
}

async fn sing_song(song: String) {
    println!(\"Singing: {}\", song);
    sleep(Duration::from_millis(500)).await;
}

async fn dance() {
    sleep(Duration::from_millis(1500)).await;
}

async fn learn_and_sing() {
    let song = learn_song().await;
    sing_song(song).await;
}

async fn async_main() {
    tokio::join!(learn_and_sing(), dance());
}
";

/// Exercise 1.2 as a learner hands it in.
const CONCURRENT_DOWNLOAD_SOLVED: &str = "async fn download_async(url: &str) -> String {
    sleep(Duration::from_millis(800)).await;
    format!(\"Data from {}\", url)
}

async fn async_downloads() -> Vec<String> {
    let (a, b) = futures::join!(
        download_async(\"https://httpbin.org/delay/1\"),
        download_async(\"https://jsonplaceholder.typicode.com/posts/1\")
    );
    vec![a, b]
}
";

#[test]
fn ex01_basic_async_test_no_todos_remaining() {
    let source = BASIC_ASYNC_SOLVED;
    let todo_count = count_markers(source);
    assert_eq!(
        todo_count, 0,
        "Remove all todo!() macros and implement the required functions"
    );
}

#[test]
fn ex02_concurrent_download_test_no_todos_remaining() {
    let source = CONCURRENT_DOWNLOAD_SOLVED;
    let todo_count = count_markers(source);
    assert_eq!(
        todo_count, 0,
        "Remove all todo!() macros and implement the required functions"
    );
}

#[test]
fn ex02_custom_executor_test_no_todos_remaining() {
    let source = chapter02::generate_ex02();
    let todo_count = count_markers(&source);
    assert_eq!(
        todo_count, 0,
        "Remove all todo!() macros and implement the required functions"
    );
}

#[test]
fn skeletons_of_chapter_one_have_parts_left_to_write() {
    assert_eq!(count_markers(&chapter01::generate_ex01()), 4);
    assert_eq!(count_markers(&chapter01::generate_ex02()), 3);
    assert_eq!(count_markers(&chapter02::generate_ex01()), 0);
}

#[test]
fn markers_are_counted_wherever_they_stand() {
    assert_eq!(count_markers(""), 0);
    assert_eq!(count_markers("todo"), 0);
    assert_eq!(count_markers("todo!"), 1);
    assert_eq!(count_markers("todo!todo!"), 2);
    assert_eq!(count_markers("xtodo!()"), 1);
    assert_eq!(count_markers("todotodo!"), 1);
    assert_eq!(count_markers("TODO!"), 0);
    assert_eq!(count_markers("to do!"), 0);
    assert_eq!(count_markers("\u{1F980} todo!(\"\u{00E9}\") \u{1F980} todo!"), 2);
    assert_eq!(count_markers_in(b"todo"), 0);
    assert_eq!(count_markers_in(b"a todo! b"), 1);
    assert_eq!(count_markers_in(&[116, 111, 100, 111, 33]), 1);
}

#[test]
fn marker_count_agrees_with_a_plain_search() {
    for text in [chapter01::generate_ex01(), chapter01::generate_ex02(), chapter03::generate_ex01()] {
        assert_eq!(count_markers(&text), text.matches("todo!").count());
    }
}

#[test]
fn catalogue_lists_ten_exercises_in_order() {
    let all = get_all_exercises();
    let ids: Vec<&str> = all.iter().map(|e| e.id.as_str()).collect();
    assert_eq!(ids, vec!["1.1", "1.2", "2.1", "2.2", "3.1", "3.2", "4.1", "4.2", "5.1", "5.2"]);
    assert_eq!(get_total_exercises(), 10);
    for exercise in &all {
        assert_eq!(exercise.id, format!("{}.{}", exercise.chapter, exercise.number));
    }
    let titles: Vec<&str> = all.iter().map(|e| e.title.as_str()).collect();
    assert_eq!(
        titles,
        vec![
            "Basic Async/Await",
            "Concurrent Downloads",
            "The Future Trait",
            "Custom Executor",
            "Async Lifetimes",
            "Async Move",
            "Join and Select",
            "Spawning Tasks",
            "Basic Streams",
            "Stream Processing",
        ]
    );
}

#[test]
fn each_chapter_lists_its_two_exercises() {
    let chapters = [
        chapter01::get_exercises(),
        chapter02::get_exercises(),
        chapter03::get_exercises(),
        chapter04::get_exercises(),
        chapter05::get_exercises(),
    ];
    for (i, list) in chapters.iter().enumerate() {
        assert_eq!(list.len(), 2);
        assert_eq!(list[0].chapter as usize, i + 1);
        assert_eq!(list[0].number, 1);
        assert_eq!(list[1].chapter as usize, i + 1);
        assert_eq!(list[1].number, 2);
    }
}

#[test]
fn skeleton_texts_start_with_their_heading() {
    assert!(chapter01::generate_ex01().starts_with("//! Exercise 1.1: Basic Async/Await\n"));
    assert!(chapter01::generate_ex02().starts_with("//! Exercise 1.2: Concurrent Downloads\n"));
    assert!(chapter02::generate_ex01().starts_with("//! Exercise 2.1: The Future Trait\n"));
    assert!(chapter02::generate_ex02().starts_with("//! Exercise 2.2: Custom Executor\n"));
    assert!(chapter03::generate_ex01().starts_with("//! Exercise 3.1: Async Lifetimes\n"));
    assert!(chapter03::generate_ex02().starts_with("//! Exercise 3.2: Async Move\n"));
    assert!(chapter04::generate_ex01().starts_with("//! Exercise 4.1: "));
    assert!(chapter04::generate_ex02().starts_with("//! Exercise 4.2: "));
    assert!(chapter05::generate_ex01().starts_with("//! Exercise 5.1: "));
    assert!(chapter05::generate_ex02().starts_with("//! Exercise 5.2: "));
    assert!(chapter02::generate_ex02().ends_with("println!(\"Exercise 2.2 - Coming soon!\");\n}\n"));
    assert_eq!(chapter02::generate_ex02().len(), 193);
    assert_eq!(chapter01::generate_ex01(), chapter01::EX01_TEXT);
}

#[test]
fn valid_identifiers_are_those_of_the_catalogue() {
    assert!(is_valid_exercise("1.1"));
    assert!(is_valid_exercise("2.2"));
    assert!(is_valid_exercise("5.2"));
    assert!(!is_valid_exercise("5.3"));
    assert!(!is_valid_exercise("0.1"));
    assert!(!is_valid_exercise(""));
    assert!(!is_valid_exercise("1.1 "));
    assert!(!is_valid_exercise("Basic Async/Await"));
}

#[test]
fn next_exercise_is_the_first_not_completed() {
    assert_eq!(get_next_exercise(&[]), Some("1.1".to_string()));
    assert_eq!(get_next_exercise(&["1.1".to_string()]), Some("1.2".to_string()));
    assert_eq!(get_next_exercise(&["1.2".to_string()]), Some("1.1".to_string()));
    assert_eq!(
        get_next_exercise(&["2.1".to_string(), "1.1".to_string(), "1.2".to_string()]),
        Some("2.2".to_string())
    );
    assert_eq!(get_next_exercise(&["9.9".to_string()]), Some("1.1".to_string()));
    let all: Vec<String> = get_all_exercises().into_iter().map(|e| e.id).collect();
    assert_eq!(get_next_exercise(&all), None);
    let mut all_but_last = all.clone();
    all_but_last.pop();
    assert_eq!(get_next_exercise(&all_but_last), Some("5.2".to_string()));
}

#[test]
fn contains_id_finds_exact_strings_only() {
    let list = vec!["1.1".to_string(), "2.2".to_string()];
    assert!(contains_id(&list, &"1.1".to_string()));
    assert!(contains_id(&list, &"2.2".to_string()));
    assert!(!contains_id(&list, &"2.1".to_string()));
    assert!(!contains_id(&list, &"1.".to_string()));
    assert!(!contains_id(&[], &"1.1".to_string()));
}

#[test]
fn find_exercise_gives_the_catalogue_entry() {
    let found = find_exercise("2.2").expect("2.2 is in the catalogue");
    assert_eq!(found.id, "2.2");
    assert_eq!(found.title, "Custom Executor");
    assert_eq!(found.chapter, 2);
    assert_eq!(found.number, 2);
    let first = find_exercise("1.1").expect("1.1 is in the catalogue");
    assert_eq!(first.title, "Basic Async/Await");
    assert!(find_exercise("2.3").is_none());
    assert!(find_exercise("").is_none());
}

#[test]
fn every_exercise_generates_its_own_skeleton() {
    for exercise in get_all_exercises() {
        let text = exercise.generate().expect("every catalogue entry has a skeleton");
        let heading = format!("//! Exercise {}: {}\n", exercise.id, exercise.title);
        assert!(text.starts_with(&heading), "{}", exercise.id);
    }
    let two_two = find_exercise("2.2").expect("2.2 is in the catalogue");
    assert_eq!(two_two.generate(), Some(chapter02::generate_ex02()));
    let unknown = Exercise { id: "6.1".to_string(), title: "None".to_string(), chapter: 6, number: 1 };
    assert_eq!(unknown.generate(), None);
    let unknown = Exercise { id: "1.3".to_string(), title: "None".to_string(), chapter: 1, number: 3 };
    assert_eq!(unknown.generate(), None);
}

#[test]
fn default_progress_starts_at_the_first_exercise() {
    let progress = Progress::default();
    assert!(progress.completed_exercises.is_empty());
    assert_eq!(progress.current_exercise, Some("1.1".to_string()));
}

#[test]
fn passing_the_current_exercise_moves_on() {
    let mut progress = Progress::default();
    assert_eq!(progress.pass_current(), Advance::Next("1.2".to_string()));
    assert_eq!(progress.completed_exercises, vec!["1.1".to_string()]);
    assert_eq!(progress.current_exercise, Some("1.2".to_string()));
    // Passing an exercise again does not list it twice.
    progress.current_exercise = Some("1.1".to_string());
    assert_eq!(progress.pass_current(), Advance::Next("1.2".to_string()));
    assert_eq!(progress.completed_exercises, vec!["1.1".to_string()]);
    // Out of order: the first open one comes next.
    progress.current_exercise = Some("3.1".to_string());
    assert_eq!(progress.pass_current(), Advance::Next("1.2".to_string()));
    assert_eq!(progress.completed_exercises, vec!["1.1".to_string(), "3.1".to_string()]);
}

#[test]
fn passing_the_last_open_exercise_finishes() {
    let mut all: Vec<String> = get_all_exercises().into_iter().map(|e| e.id).collect();
    let last = all.pop().expect("the catalogue is not empty");
    let mut progress = Progress { completed_exercises: all, current_exercise: Some(last.clone()) };
    assert_eq!(progress.pass_current(), Advance::AllDone);
    assert_eq!(progress.current_exercise, None);
    assert_eq!(progress.completed_exercises.len(), 10);
    assert_eq!(progress.completed_exercises.last(), Some(&last));
    assert_eq!(progress.pass_current(), Advance::NothingLoaded);
    assert_eq!(progress.completed_exercises.len(), 10);
    assert_eq!(progress.start_next(), None);
    assert_eq!(progress.current_exercise, None);
}

#[test]
fn start_next_turns_to_the_first_open_exercise() {
    let mut progress = Progress {
        completed_exercises: vec!["1.1".to_string(), "1.2".to_string()],
        current_exercise: None,
    };
    assert_eq!(progress.start_next(), Some("2.1".to_string()));
    assert_eq!(progress.current_exercise, Some("2.1".to_string()));
    assert_eq!(progress.completed_exercises.len(), 2);
}

#[test]
fn select_takes_valid_identifiers_only() {
    let mut progress = Progress::default();
    assert!(progress.select("4.2"));
    assert_eq!(progress.current_exercise, Some("4.2".to_string()));
    assert!(!progress.select("4.3"));
    assert_eq!(progress.current_exercise, Some("4.2".to_string()));
    assert!(progress.completed_exercises.is_empty());
}

#[test]
fn percent_and_bar_round_down() {
    assert_eq!(percent_complete(0, 10), 0);
    assert_eq!(percent_complete(3, 10), 30);
    assert_eq!(percent_complete(1, 3), 33);
    assert_eq!(percent_complete(2, 3), 66);
    assert_eq!(percent_complete(10, 10), 100);
    assert_eq!(bar_filled(40, 0, 10), 0);
    assert_eq!(bar_filled(40, 3, 10), 12);
    assert_eq!(bar_filled(40, 1, 3), 13);
    assert_eq!(bar_filled(40, 10, 10), 40);
}

#[test]
fn runner_lists_its_four_programs() {
    let list = runner::get_exercises();
    let ids: Vec<&str> = list.iter().map(|e| e.id.as_str()).collect();
    assert_eq!(ids, vec!["1.1", "1.2", "2.1", "2.2"]);
    assert_eq!(list[2].name, "Future Trait");
    assert_eq!(list[2].chapter, 2);
    assert_eq!(list[2].exercise_num, 1);
    assert_eq!(list[2].description, "Implement custom Future types");
    assert_eq!(list[3].path, "exercises/chapter02/ex02_custom_executor.rs");
    assert_eq!(
        list[0].test_command,
        Some("cargo test --package chapter01 --bin ex01_basic_async".to_string())
    );
}

#[test]
fn runner_finds_an_exercise_and_its_successor() {
    assert_eq!(runner::find_exercise("1.2").map(|e| e.name), Some("Concurrent Downloads".to_string()));
    assert!(runner::find_exercise("3.1").is_none());
    assert_eq!(runner::find_next_exercise("1.1").map(|e| e.id), Some("1.2".to_string()));
    assert_eq!(runner::find_next_exercise("2.1").map(|e| e.id), Some("2.2".to_string()));
    assert!(runner::find_next_exercise("2.2").is_none());
    assert!(runner::find_next_exercise("nothing").is_none());
}

#[test]
fn runner_names_the_program_of_each_exercise() {
    assert_eq!(runner::binary_name("1.1"), Some("ex01_basic_async".to_string()));
    assert_eq!(runner::binary_name("1.2"), Some("ex02_concurrent_download".to_string()));
    assert_eq!(runner::binary_name("2.1"), Some("ex01_future_trait".to_string()));
    assert_eq!(runner::binary_name("2.2"), Some("ex02_custom_executor".to_string()));
    assert_eq!(runner::binary_name("3.1"), None);
    assert_eq!(runner::binary_name(""), None);
}

#[test]
fn runner_picks_the_first_incomplete_exercise() {
    assert_eq!(runner::first_incomplete(&[]).map(|e| e.id), Some("1.1".to_string()));
    assert_eq!(
        runner::first_incomplete(&["1.1".to_string(), "2.1".to_string()]).map(|e| e.id),
        Some("1.2".to_string())
    );
    let all: Vec<String> = runner::get_exercises().into_iter().map(|e| e.id).collect();
    assert!(runner::first_incomplete(&all).is_none());
}

#[test]
fn status_puts_completion_before_being_current() {
    let completed = vec!["1.1".to_string(), "1.2".to_string()];
    let current = Some("1.2".to_string());
    assert_eq!(status_of(&"1.1".to_string(), &completed, &current), Status::Completed);
    assert_eq!(status_of(&"1.2".to_string(), &completed, &current), Status::Completed);
    assert_eq!(status_of(&"2.1".to_string(), &completed, &current), Status::Open);
    assert_eq!(status_of(&"2.1".to_string(), &completed, &Some("2.1".to_string())), Status::Current);
    assert_eq!(status_of(&"2.1".to_string(), &completed, &None), Status::Open);
    assert_eq!(status_of(&"2.1".to_string(), &[], &Some("2.1".to_string())), Status::Current);
}
