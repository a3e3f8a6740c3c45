use pr_reviewer::diff::split_diff_into_files;

#[test]
fn empty_diff_has_no_chunks() {
    assert!(split_diff_into_files("").is_empty());
}

#[test]
fn text_without_header_is_one_chunk() {
    let text = "some line\nanother line\n";
    assert_eq!(split_diff_into_files(text), vec![text.to_string()]);
}

#[test]
fn last_line_gets_a_newline() {
    assert_eq!(split_diff_into_files("a\nb"), vec!["a\nb\n".to_string()]);
}

#[test]
fn one_chunk_per_header() {
    let diff = "diff --git a/x b/x\n+1\ndiff --git a/y b/y\n-2\n+3\ndiff --git a/z b/z\n";
    let chunks = split_diff_into_files(diff);
    assert_eq!(
        chunks,
        vec![
            "diff --git a/x b/x\n+1\n".to_string(),
            "diff --git a/y b/y\n-2\n+3\n".to_string(),
            "diff --git a/z b/z\n".to_string(),
        ]
    );
}

#[test]
fn consecutive_headers_give_header_only_chunks() {
    let diff = "diff --git a/x b/x\ndiff --git a/y b/y\n+y\n";
    assert_eq!(
        split_diff_into_files(diff),
        vec!["diff --git a/x b/x\n".to_string(), "diff --git a/y b/y\n+y\n".to_string()]
    );
}

#[test]
fn leading_content_is_its_own_chunk() {
    let diff = "preamble\ndiff --git a/x b/x\n+x\n";
    assert_eq!(
        split_diff_into_files(diff),
        vec!["preamble\n".to_string(), "diff --git a/x b/x\n+x\n".to_string()]
    );
}

#[test]
fn carriage_returns_before_newlines_are_dropped() {
    let diff = "diff --git a/x b/x\r\n+x\r\n";
    assert_eq!(split_diff_into_files(diff), vec!["diff --git a/x b/x\n+x\n".to_string()]);
}

#[test]
fn header_must_start_the_line() {
    let diff = "diff --git a/x b/x\n context diff --git\n";
    assert_eq!(split_diff_into_files(diff).len(), 1);
}

#[test]
fn chunks_concatenate_to_the_diff() {
    let diff = "diff --git a/f b/f\n+x\n-y\ndiff --git a/g b/g\n+z\n";
    assert_eq!(split_diff_into_files(diff).concat(), diff);
}

#[test]
fn non_ascii_text_is_kept() {
    let diff = "diff --git a/é b/é\n+ünïcode ✓\n";
    assert_eq!(split_diff_into_files(diff), vec![diff.to_string()]);
}
