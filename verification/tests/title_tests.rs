use gallery_dl::title::sanitize_title;

#[test]
fn replaces_path_separators() {
    assert_eq!(sanitize_title("Foo/Bar"), "Foo_Bar");
}

#[test]
fn replaces_every_separator() {
    assert_eq!(sanitize_title("a/b/c/"), "a_b_c_");
}

#[test]
fn keeps_safe_titles() {
    assert_eq!(sanitize_title("A perfectly fine title"), "A perfectly fine title");
}

#[test]
fn empty_title_stays_empty() {
    assert_eq!(sanitize_title(""), "");
}

#[test]
fn sanitizing_twice_changes_nothing() {
    let raw = "Some/Very/Odd//Title/";
    let once = sanitize_title(raw);
    let twice = sanitize_title(&once);
    assert_eq!(once, twice);
}

#[test]
fn truncates_to_the_length_limit() {
    let mut raw = String::new();
    for _ in 0..300 {
        raw.push('x');
    }
    let name = sanitize_title(&raw);
    assert_eq!(name.chars().count(), 255);
}

#[test]
fn truncation_counts_characters_not_bytes() {
    // each character is two bytes in UTF-8; truncation must not split one
    let mut raw = String::new();
    for _ in 0..300 {
        raw.push('\u{e9}');
    }
    let name = sanitize_title(&raw);
    assert_eq!(name.chars().count(), 255);
    assert!(name.chars().all(|c| c == '\u{e9}'));
}

#[test]
fn truncating_a_truncated_title_changes_nothing() {
    let mut raw = String::new();
    for i in 0..400 {
        raw.push(if i % 7 == 0 { '/' } else { 'y' });
    }
    let once = sanitize_title(&raw);
    let twice = sanitize_title(&once);
    assert_eq!(once, twice);
    assert_eq!(once.chars().count(), 255);
}
