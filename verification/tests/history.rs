use ephosh::history::HistoryLog;

fn lines(history: &HistoryLog) -> Vec<String> {
    history.entries()
}

#[test]
fn history_starts_empty() {
    let mut history = HistoryLog::new(3);
    assert_eq!(history.len(), 0);
    assert_eq!(history.capacity(), 3);
    assert_eq!(history.previous(), None);
    assert_eq!(history.next(), None);
}

#[test]
fn history_never_holds_more_than_its_size() {
    let size = 3;
    let mut history = HistoryLog::new(size);
    for i in 0..20 {
        history.push(format!("line {}", i));
        assert!(history.len() <= size);
    }
    assert_eq!(history.len(), size);
    assert_eq!(lines(&history), vec!["line 17", "line 18", "line 19"]);
}

#[test]
fn one_line_too_many_drops_the_oldest() {
    let mut history = HistoryLog::new(3);
    history.push("a".to_string());
    history.push("b".to_string());
    history.push("c".to_string());
    assert_eq!(lines(&history), vec!["a", "b", "c"]);
    history.push("d".to_string());
    assert_eq!(lines(&history), vec!["b", "c", "d"]);
}

#[test]
fn history_of_one_line_keeps_the_last() {
    let mut history = HistoryLog::new(1);
    history.push("a".to_string());
    history.push("b".to_string());
    assert_eq!(lines(&history), vec!["b"]);
}

#[test]
fn walk_goes_back_to_the_oldest_and_stops() {
    let mut history = HistoryLog::new(5);
    history.push("a".to_string());
    history.push("b".to_string());
    history.push("c".to_string());
    assert_eq!(history.previous(), Some("c".to_string()));
    assert_eq!(history.previous(), Some("b".to_string()));
    assert_eq!(history.previous(), Some("a".to_string()));
    assert_eq!(history.previous(), None);
    assert_eq!(history.next(), Some("b".to_string()));
    assert_eq!(history.next(), Some("c".to_string()));
    assert_eq!(history.next(), None);
    assert_eq!(history.previous(), Some("b".to_string()));
}

#[test]
fn new_line_ends_the_walk() {
    let mut history = HistoryLog::new(5);
    history.push("a".to_string());
    history.push("b".to_string());
    assert_eq!(history.previous(), Some("b".to_string()));
    assert_eq!(history.previous(), Some("a".to_string()));
    history.push("c".to_string());
    assert_eq!(history.previous(), Some("c".to_string()));
}

#[test]
fn reset_ends_the_walk() {
    let mut history = HistoryLog::new(5);
    history.push("a".to_string());
    history.push("b".to_string());
    history.previous();
    history.previous();
    history.reset();
    assert_eq!(history.next(), None);
    assert_eq!(history.previous(), Some("b".to_string()));
}

#[test]
fn kept_lines_are_cut_to_the_newest() {
    let kept = vec!["a".to_string(), "b".to_string(), "c".to_string(), "d".to_string()];
    let mut history = HistoryLog::with_lines(2, kept.clone());
    assert_eq!(lines(&history), vec!["c", "d"]);
    assert_eq!(history.previous(), Some("d".to_string()));
    let all = HistoryLog::with_lines(10, kept);
    assert_eq!(lines(&all), vec!["a", "b", "c", "d"]);
    let none = HistoryLog::with_lines(10, Vec::new());
    assert_eq!(none.len(), 0);
}
