use readwise_reader_tui::tags::{
    decimal_text, is_progress_tag_text, progress_tag, progress_values, with_progress_tag,
    without_progress_tags,
};

fn strings(v: &[&str]) -> Vec<String> {
    v.iter().map(|s| s.to_string()).collect()
}

#[test]
fn progress_tag_prefix() {
    assert!(is_progress_tag_text("progress:10"));
    assert!(is_progress_tag_text("progress:"));
    assert!(!is_progress_tag_text("progress"));
    assert!(!is_progress_tag_text("Progress:10"));
    assert!(!is_progress_tag_text("my progress:10"));
    assert!(!is_progress_tag_text(""));
}

#[test]
fn progress_values_in_order() {
    let tags = strings(&["a", "progress:37", "b", "progress:x", "progrés:1"]);
    assert_eq!(progress_values(&tags), strings(&["37", "x"]));
    assert!(progress_values(&strings(&["a", "b"])).is_empty());
}

#[test]
fn without_progress_keeps_others_in_order() {
    let tags = strings(&["z", "progress:37", "a", "progress:100"]);
    assert_eq!(without_progress_tags(&tags), strings(&["z", "a"]));
}

#[test]
fn with_progress_replaces_and_appends() {
    let tags = strings(&["progress:37", "z", "a"]);
    assert_eq!(with_progress_tag(&tags, 100), strings(&["z", "a", "progress:100"]));
    assert_eq!(with_progress_tag(&Vec::new(), 5), strings(&["progress:5"]));
}

#[test]
fn decimal_text_values() {
    assert_eq!(decimal_text(0), "0");
    assert_eq!(decimal_text(7), "7");
    assert_eq!(decimal_text(42), "42");
    assert_eq!(decimal_text(100), "100");
    assert_eq!(decimal_text(-5), "-5");
    assert_eq!(decimal_text(i32::MAX), i32::MAX.to_string());
    assert_eq!(decimal_text(i32::MIN), i32::MIN.to_string());
}

#[test]
fn progress_tag_text() {
    assert_eq!(progress_tag(100), "progress:100");
    assert_eq!(progress_tag(0), "progress:0");
}

#[test]
fn progress_tag_read_back_gives_value_written() {
    let tags = strings(&["progress:12", "x"]);
    let written = with_progress_tag(&tags, 64);
    assert_eq!(progress_values(&written), strings(&["64"]));
    assert_eq!(without_progress_tags(&written), strings(&["x"]));
}

#[test]
fn progress_tag_last_write_wins() {
    let tags = strings(&["a", "progress:1"]);
    let twice = with_progress_tag(&with_progress_tag(&tags, 20), 30);
    assert_eq!(twice, with_progress_tag(&tags, 30));
}
