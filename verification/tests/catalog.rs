use std::cmp::Ordering;

use rust_tour::assets::{
    contains_parent_step, content_type, resolve_static_request, StaticRequest,
};
use rust_tour::cargo::{combined_output, CargoCommand, CARGO_TIMEOUT_SECONDS};
use rust_tour::catalog::{
    book_chapter_url, display_name_from_dir, exercise_path, file_change_notice, is_chapter_dir,
    is_exercise_dir, order_of_exercises, ExerciseKey,
};
use rust_tour::listing::listing_order;
use rust_tour::message::{BroadcastMessage, FileNotice};
use rust_tour::text::{chars_of, count_leading, find_pair, remove_first_pair, starts_with, text_of};

fn key(chapter: u32, exercise_number: u32) -> ExerciseKey {
    ExerciseKey { chapter, exercise_number }
}

#[test]
fn exercises_are_ordered_by_chapter_then_number() {
    assert_eq!(order_of_exercises(key(1, 9), key(2, 1)), Ordering::Less);
    assert_eq!(order_of_exercises(key(2, 1), key(1, 9)), Ordering::Greater);
    assert_eq!(order_of_exercises(key(3, 1), key(3, 2)), Ordering::Less);
    assert_eq!(order_of_exercises(key(3, 2), key(3, 1)), Ordering::Greater);
    assert_eq!(order_of_exercises(key(3, 2), key(3, 2)), Ordering::Equal);
    assert_eq!(order_of_exercises(key(0, 0), key(u32::MAX, u32::MAX)), Ordering::Less);
    assert_eq!(order_of_exercises(key(u32::MAX, 0), key(0, u32::MAX)), Ordering::Greater);
}

#[test]
fn sorting_by_the_order_lists_the_course() {
    let mut keys = vec![key(2, 1), key(1, 3), key(10, 1), key(1, 1), key(2, 10), key(2, 2)];
    keys.sort_by(|a, b| order_of_exercises(*a, *b));
    assert_eq!(keys, vec![key(1, 1), key(1, 3), key(2, 1), key(2, 2), key(2, 10), key(10, 1)]);
}

#[test]
fn chapter_and_exercise_directories() {
    assert!(is_chapter_dir("ch01_getting_started"));
    assert!(is_chapter_dir("ch"));
    assert!(is_chapter_dir("chapter"));
    assert!(!is_chapter_dir("c"));
    assert!(!is_chapter_dir(""));
    assert!(!is_chapter_dir("Ch01"));
    assert!(!is_chapter_dir("exercises"));
    assert!(!is_chapter_dir(" ch01"));
    assert!(is_exercise_dir("ex01_hello_world"));
    assert!(is_exercise_dir("ex"));
    assert!(!is_exercise_dir("e"));
    assert!(!is_exercise_dir("ch01"));
    assert!(!is_exercise_dir("target"));
    assert!(!is_exercise_dir("\u{e9}x01"));
}

#[test]
fn exercise_path_joins_with_a_slash() {
    assert_eq!(exercise_path("ch01_basics", "ex02_vars"), "ch01_basics/ex02_vars");
    assert_eq!(exercise_path("", ""), "/");
}

#[test]
fn book_url_for_a_chapter() {
    assert_eq!(
        book_chapter_url("04-01-what-is-ownership"),
        "https://doc.rust-lang.org/book/ch04-01-what-is-ownership.html"
    );
    assert_eq!(book_chapter_url(""), "https://doc.rust-lang.org/book/ch.html");
}

#[test]
fn display_name_from_directory_name() {
    assert_eq!(display_name_from_dir("ex01_hello_world"), "01 hello world");
    assert_eq!(display_name_from_dir("ex02_complex_example"), "02 complex example");
    assert_eq!(display_name_from_dir("hello_world"), "hello world");
    assert_eq!(display_name_from_dir("my_example"), "my ample");
    assert_eq!(display_name_from_dir("exex"), "ex");
    assert_eq!(display_name_from_dir("e_x"), "e x");
    assert_eq!(display_name_from_dir("ex"), "");
    assert_eq!(display_name_from_dir(""), "");
    assert_eq!(display_name_from_dir("___"), "   ");
    assert_eq!(display_name_from_dir("\u{e9}x_ex_\u{1f496}"), "\u{e9}x  \u{1f496}");
}

#[test]
fn display_name_agrees_with_replace_and_replacen() {
    for dir in ["ex01_hello_world", "my_example", "exex", "e_x", "ex", "", "a_b_c", "index_ex_ex"] {
        assert_eq!(display_name_from_dir(dir), dir.replace('_', " ").replacen("ex", "", 1));
    }
}

#[test]
fn static_request_for_a_file() {
    assert_eq!(
        resolve_static_request("/assets/app.js"),
        StaticRequest::File("assets/app.js".to_string())
    );
    assert_eq!(resolve_static_request("index.html"), StaticRequest::File("index.html".to_string()));
    assert_eq!(resolve_static_request("///a/b"), StaticRequest::File("a/b".to_string()));
    assert_eq!(resolve_static_request("/a//b/"), StaticRequest::File("a//b/".to_string()));
    assert_eq!(resolve_static_request("/.hidden/x.y"), StaticRequest::File(".hidden/x.y".to_string()));
}

#[test]
fn static_request_for_the_index() {
    assert_eq!(resolve_static_request(""), StaticRequest::Index);
    assert_eq!(resolve_static_request("/"), StaticRequest::Index);
    assert_eq!(resolve_static_request("////"), StaticRequest::Index);
}

#[test]
fn static_request_with_two_dots_is_rejected() {
    assert_eq!(resolve_static_request("/../etc/passwd"), StaticRequest::Rejected);
    assert_eq!(resolve_static_request("/a/../b"), StaticRequest::Rejected);
    assert_eq!(resolve_static_request("/a/b/.."), StaticRequest::Rejected);
    assert_eq!(resolve_static_request(".."), StaticRequest::Rejected);
    assert_eq!(resolve_static_request("/file..txt"), StaticRequest::Rejected);
    assert_eq!(resolve_static_request("/a/.../b"), StaticRequest::Rejected);
    assert_eq!(resolve_static_request("/a/./b"), StaticRequest::File("a/./b".to_string()));
    assert_eq!(resolve_static_request("/a.b.c"), StaticRequest::File("a.b.c".to_string()));
}

#[test]
fn parent_steps_are_found() {
    assert!(contains_parent_step(".."));
    assert!(contains_parent_step("vs/../secret"));
    assert!(contains_parent_step("a..b"));
    assert!(!contains_parent_step(""));
    assert!(!contains_parent_step("."));
    assert!(!contains_parent_step("vs/editor/editor.main.js"));
    assert!(!contains_parent_step("a.b.c./d"));
}

#[test]
fn cargo_arguments_per_command() {
    assert_eq!(CargoCommand::Test.arguments(), vec!["test", "--", "--nocapture"]);
    assert_eq!(CargoCommand::Run.arguments(), vec!["run"]);
    assert_eq!(CargoCommand::Clippy.arguments(), vec!["clippy", "--", "-W", "clippy::all"]);
    assert_eq!(CARGO_TIMEOUT_SECONDS, 60);
}

#[test]
fn combined_output_is_stdout_then_stderr() {
    assert_eq!(combined_output("out\n", "err\n"), "out\nerr\n");
    assert_eq!(combined_output("", "err"), "err");
    assert_eq!(combined_output("out", ""), "out");
    assert_eq!(combined_output("", ""), "");
}

#[test]
fn text_helpers() {
    assert_eq!(chars_of("h\u{e9}\u{1f496}"), vec!['h', '\u{e9}', '\u{1f496}']);
    assert_eq!(text_of(&vec!['h', '\u{e9}', '\u{1f496}']), "h\u{e9}\u{1f496}");
    assert_eq!(text_of(&Vec::new()), "");
    assert!(starts_with("terminal", "term"));
    assert!(starts_with("terminal", ""));
    assert!(starts_with("", ""));
    assert!(!starts_with("term", "terminal"));
    assert!(!starts_with("terminal", "erm"));
    assert_eq!(find_pair(&chars_of("a..b.."), '.', '.'), Some(1));
    assert_eq!(find_pair(&chars_of("a.b."), '.', '.'), None);
    assert_eq!(find_pair(&chars_of("."), '.', '.'), None);
    assert_eq!(find_pair(&chars_of(""), '.', '.'), None);
    assert_eq!(find_pair(&chars_of("xe ex"), 'e', 'x'), Some(3));
    assert_eq!(count_leading(&chars_of("///a/"), '/'), 3);
    assert_eq!(count_leading(&chars_of("a/"), '/'), 0);
    assert_eq!(count_leading(&chars_of("//"), '/'), 2);
    assert_eq!(count_leading(&chars_of(""), '/'), 0);
    assert_eq!(remove_first_pair(&chars_of("aexbex"), 'e', 'x'), chars_of("abex"));
    assert_eq!(remove_first_pair(&chars_of("abc"), 'e', 'x'), chars_of("abc"));
    assert_eq!(remove_first_pair(&chars_of("ex"), 'e', 'x'), chars_of(""));
}

#[test]
fn listing_order_sorts_by_chapter_then_number() {
    let keys = vec![key(2, 1), key(1, 3), key(10, 1), key(1, 1), key(2, 10), key(2, 2)];
    assert_eq!(listing_order(&keys), vec![3, 1, 0, 5, 4, 2]);
}

#[test]
fn listing_order_keeps_equal_keys_in_place() {
    let keys = vec![key(1, 1), key(0, 5), key(1, 1), key(0, 5), key(1, 1)];
    assert_eq!(listing_order(&keys), vec![1, 3, 0, 2, 4]);
}

#[test]
fn listing_order_of_few_keys() {
    assert_eq!(listing_order(&Vec::new()), Vec::<usize>::new());
    assert_eq!(listing_order(&vec![key(7, 7)]), vec![0]);
    assert_eq!(listing_order(&vec![key(2, 0), key(1, 9)]), vec![1, 0]);
}

#[test]
fn listing_order_agrees_with_a_stable_sort() {
    let keys: Vec<ExerciseKey> =
        (0..40u32).map(|i| key((i * 7) % 5, (i * 11) % 4)).collect();
    let mut expected: Vec<usize> = (0..keys.len()).collect();
    expected.sort_by(|a, b| order_of_exercises(keys[*a], keys[*b]));
    assert_eq!(listing_order(&keys), expected);
}

fn parts(names: &[&str]) -> Vec<String> {
    names.iter().map(|name| name.to_string()).collect()
}

fn changed(exercise: &str, file: &str) -> Option<BroadcastMessage> {
    Some(BroadcastMessage::FileChanged(FileNotice {
        exercise: exercise.to_string(),
        file: file.to_string(),
    }))
}

#[test]
fn file_change_outside_an_exercise_is_not_announced() {
    assert_eq!(file_change_notice(&parts(&[]), "", None), None);
    assert_eq!(file_change_notice(&parts(&["ch01"]), "ch01", None), None);
    assert_eq!(file_change_notice(&parts(&["ch01"]), "ch01", Some("Title".to_string())), None);
}

#[test]
fn file_change_is_announced_under_the_title() {
    assert_eq!(
        file_change_notice(
            &parts(&["ch01", "ex02_hello", "src", "main.rs"]),
            "ch01/ex02_hello/src/main.rs",
            Some("Hello, World".to_string())
        ),
        changed("Hello, World", "ch01/ex02_hello/src/main.rs")
    );
}

#[test]
fn file_change_without_title_is_announced_under_the_directory_name() {
    assert_eq!(
        file_change_notice(&parts(&["ch01", "ex02_hello_world"]), "ch01/ex02_hello_world", None),
        changed("02 hello world", "ch01/ex02_hello_world")
    );
    assert_eq!(
        file_change_notice(&parts(&["a", "my_example", "x"]), "a/my_example/x", None),
        changed("my ample", "a/my_example/x")
    );
}

#[test]
fn content_type_by_extension() {
    assert_eq!(content_type("html"), "text/html");
    assert_eq!(content_type("HTML"), "text/html");
    assert_eq!(content_type("css"), "text/css");
    assert_eq!(content_type("json"), "application/json");
    assert_eq!(content_type("png"), "image/png");
    assert_eq!(content_type("wasm"), "application/wasm");
    assert_eq!(content_type(""), "application/octet-stream");
    assert_eq!(content_type("no-such-extension"), "application/octet-stream");
}
