use gubtool::error_log::{updated_log, MAX_LINES};

fn lines(n: usize) -> Vec<String> {
    (0..n).map(|i| format!("line {i}")).collect()
}

#[test]
fn new_message_is_appended() {
    let r = updated_log(lines(2), "oops".to_string()).unwrap();
    assert_eq!(r, vec!["line 0".to_string(), "line 1".to_string(), "oops".to_string()]);
    assert_eq!(updated_log(vec![], "first".to_string()), Some(vec!["first".to_string()]));
}

#[test]
fn repeated_message_leaves_log() {
    let mut l = lines(3);
    l.push("same".to_string());
    assert_eq!(updated_log(l, "same".to_string()), None);
}

#[test]
fn oldest_lines_dropped_past_limit() {
    let r = updated_log(lines(MAX_LINES), "new".to_string()).unwrap();
    assert_eq!(r.len(), MAX_LINES);
    assert_eq!(r[0], "line 1");
    assert_eq!(r[MAX_LINES - 1], "new");
    let r = updated_log(lines(MAX_LINES + 10), "new".to_string()).unwrap();
    assert_eq!(r.len(), MAX_LINES);
    assert_eq!(r[0], "line 11");
}
