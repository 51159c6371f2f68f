use the_way::dispatch::{Dispatcher, SelectionAction};
use the_way::errors::LostTheWay;
use the_way::search::{selected_items, SearchOutput, SearchSnippet};
use the_way::snippet::Snippet;

fn candidate(index: usize, code: &str) -> SearchSnippet {
    let snippet = Snippet::new(
        index,
        format!("snippet {}", index),
        String::from("rust"),
        Vec::new(),
        String::from(code),
        0,
    );
    let nothing: Result<Vec<String>, ()> = Ok(Vec::new());
    let preview: Result<Vec<String>, ()> = Ok(vec![String::from(code)]);
    SearchSnippet::new(snippet, nothing, preview)
}

/// Runs the dispatcher to its end with a clipboard that fails on the
/// texts listed in `broken`; returns what was copied, in order, and what
/// the dispatcher reports.
fn run(
    selected: Vec<SearchSnippet>,
    broken: &[&str],
) -> (Vec<String>, Vec<Result<String, LostTheWay>>) {
    let mut attempts = Vec::new();
    let mut dispatcher = Dispatcher::new(selected);
    while let Some(SelectionAction::CopyToClipboard(text)) = dispatcher.next_action() {
        let done = !broken.contains(&text.as_str());
        attempts.push(text);
        dispatcher = dispatcher.record(done);
    }
    (attempts, dispatcher.finish())
}

#[test]
fn nothing_selected_asks_for_nothing() {
    let dispatcher = Dispatcher::new(Vec::new());
    assert_eq!(dispatcher.next_action(), None);
    assert!(dispatcher.finish().is_empty());
}

#[test]
fn first_action_copies_the_first_code() {
    let dispatcher = Dispatcher::new(vec![candidate(1, "let a = 1;"), candidate(2, "let b = 2;")]);
    assert_eq!(
        dispatcher.next_action(),
        Some(SelectionAction::CopyToClipboard(String::from("let a = 1;")))
    );
}

#[test]
fn asking_again_does_not_advance() {
    let dispatcher = Dispatcher::new(vec![candidate(1, "a"), candidate(2, "b")]);
    let first = dispatcher.next_action();
    let again = dispatcher.next_action();
    assert_eq!(first, again);
    assert!(dispatcher.finish().is_empty());
}

#[test]
fn two_of_five_selected_are_copied_once_each_in_order() {
    let mut presented: Vec<SearchSnippet> =
        (1..=5).map(|i| candidate(i, &format!("code {}", i))).collect();
    let fifth = presented.remove(4);
    let second = presented.remove(1);
    let output = SearchOutput { is_abort: false, selected_items: vec![fifth, second] };
    let (attempts, results) = run(selected_items(Some(output)), &[]);
    assert_eq!(attempts, vec![String::from("code 5"), String::from("code 2")]);
    assert_eq!(results, vec![Ok(String::new()), Ok(String::new())]);
}

#[test]
fn aborted_session_copies_nothing() {
    let output = SearchOutput { is_abort: true, selected_items: vec![candidate(1, "a")] };
    let (attempts, results) = run(selected_items(Some(output)), &[]);
    assert!(attempts.is_empty());
    assert!(results.is_empty());
}

#[test]
fn failure_of_the_first_does_not_stop_the_second() {
    let selected = vec![candidate(1, "first"), candidate(2, "second")];
    let (attempts, results) = run(selected, &["first"]);
    assert_eq!(attempts, vec![String::from("first"), String::from("second")]);
    assert_eq!(results, vec![Err(LostTheWay::ClipboardError), Ok(String::new())]);
}

#[test]
fn failure_of_the_last_keeps_the_earlier_successes() {
    let selected = vec![candidate(1, "a"), candidate(2, "b"), candidate(3, "c")];
    let (attempts, results) = run(selected, &["c"]);
    assert_eq!(attempts.len(), 3);
    assert_eq!(
        results,
        vec![Ok(String::new()), Ok(String::new()), Err(LostTheWay::ClipboardError)]
    );
}

#[test]
fn every_action_may_fail() {
    let selected = vec![candidate(1, "a"), candidate(2, "b")];
    let (attempts, results) = run(selected, &["a", "b"]);
    assert_eq!(attempts, vec![String::from("a"), String::from("b")]);
    assert_eq!(results, vec![Err(LostTheWay::ClipboardError), Err(LostTheWay::ClipboardError)]);
}

#[test]
fn success_is_confirmed_with_an_empty_text() {
    let dispatcher = Dispatcher::new(vec![candidate(1, "a")]).record(true);
    assert_eq!(dispatcher.finish(), vec![Ok(String::new())]);
}

#[test]
fn record_with_nothing_due_changes_nothing() {
    let dispatcher = Dispatcher::new(vec![candidate(1, "a")]);
    let dispatcher = dispatcher.record(false).record(true).record(true);
    assert_eq!(dispatcher.next_action(), None);
    assert_eq!(dispatcher.finish(), vec![Err(LostTheWay::ClipboardError)]);
}

#[test]
fn the_same_snippet_selected_twice_is_copied_twice() {
    let selected = vec![candidate(1, "same"), candidate(1, "same")];
    let (attempts, results) = run(selected, &[]);
    assert_eq!(attempts, vec![String::from("same"), String::from("same")]);
    assert_eq!(results.len(), 2);
}

#[test]
fn empty_code_is_still_copied() {
    let (attempts, results) = run(vec![candidate(1, "")], &[]);
    assert_eq!(attempts, vec![String::new()]);
    assert_eq!(results, vec![Ok(String::new())]);
}

#[test]
fn results_so_far_can_be_read_before_the_end() {
    let dispatcher = Dispatcher::new(vec![candidate(1, "a"), candidate(2, "b")]).record(true);
    assert_eq!(
        dispatcher.next_action(),
        Some(SelectionAction::CopyToClipboard(String::from("b")))
    );
    assert_eq!(dispatcher.finish(), vec![Ok(String::new())]);
}
