use docgen::text::join;
use docgen::text::push_spaces;

fn strings(items: &[&str]) -> Vec<String> {
    items.iter().map(|item| item.to_string()).collect()
}

#[test]
fn join_puts_the_separator_between_parts() {
    assert_eq!(join(&strings(&["a", "b", "c"]), "/"), "a/b/c");
    assert_eq!(join(&strings(&["a", "b"]), ", "), "a, b");
}

#[test]
fn join_of_one_part_is_the_part() {
    assert_eq!(join(&strings(&["alone"]), "/"), "alone");
}

#[test]
fn join_of_nothing_is_empty() {
    assert_eq!(join(&strings(&[]), "/"), "");
}

#[test]
fn join_keeps_empty_parts() {
    assert_eq!(join(&strings(&["", "a", ""]), "/"), "/a/");
}

#[test]
fn concat_lays_parts_end_to_end() {
    assert_eq!(docgen::text::concat(&strings(&["ab", "", "cd"])), "abcd");
    assert_eq!(docgen::text::concat(&strings(&[])), "");
}

#[test]
fn push_spaces_adds_blanks() {
    let mut out = String::from("x");
    push_spaces(&mut out, 3);
    assert_eq!(out, "x   ");
    push_spaces(&mut out, 0);
    assert_eq!(out, "x   ");
}
