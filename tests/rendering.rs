use pr_reviewer::template::{render, replace_all, Binding};

fn bind(name: &str, value: &str) -> Binding {
    Binding { name: name.to_string(), value: value.to_string() }
}

#[test]
fn unbound_placeholder_is_untouched() {
    let out = render("Hello {name}, see {other}", &vec![bind("name", "Ann")]);
    assert_eq!(out, "Hello Ann, see {other}");
}

#[test]
fn every_occurrence_is_replaced() {
    let out = render("{x}-{x}-{x}", &vec![bind("x", "ab")]);
    assert_eq!(out, "ab-ab-ab");
}

#[test]
fn no_bindings_leaves_template() {
    assert_eq!(render("{title} {commit_messages}", &vec![]), "{title} {commit_messages}");
}

#[test]
fn bindings_apply_in_order() {
    let out = render(
        "{title}\n{commit_messages}",
        &vec![bind("title", "Fix bug"), bind("commit_messages", "a\nb")],
    );
    assert_eq!(out, "Fix bug\na\nb");
}

#[test]
fn replace_all_does_not_overlap() {
    assert_eq!(replace_all("aaaa", "aa", "b"), "bb");
    assert_eq!(replace_all("aaa", "aa", "b"), "ba");
}

#[test]
fn replace_all_with_empty_pattern_keeps_text() {
    assert_eq!(replace_all("abc", "", "x"), "abc");
}

#[test]
fn replace_all_with_empty_value_removes() {
    assert_eq!(replace_all("a{diff}b", "{diff}", ""), "ab");
}
