use devbox::text::{
    append_strings, clone_optional, clone_strings, contains, dedup, is_printable, same, show,
};

fn strings(items: &[&str]) -> Vec<String> {
    items.iter().map(|item| item.to_string()).collect()
}

#[test]
fn same_compares_letter_by_letter() {
    assert!(same("api", "api"));
    assert!(same("", ""));
    assert!(!same("api", "Api"));
    assert!(!same("api", "api "));
    assert!(!same("", "a"));
}

#[test]
fn copies_are_equal_to_what_they_copy() {
    assert_eq!(clone_optional(&Some("x".to_string())), Some("x".to_string()));
    assert_eq!(clone_optional(&None), None);
    assert_eq!(clone_strings(&strings(&["a", "b", "a"])), strings(&["a", "b", "a"]));
    assert_eq!(clone_strings(&vec![]), Vec::<String>::new());
}

#[test]
fn append_strings_adds_at_the_end() {
    let mut list = strings(&["a"]);
    append_strings(&mut list, strings(&["b", "c"]));
    append_strings(&mut list, vec![]);
    assert_eq!(list, strings(&["a", "b", "c"]));
}

#[test]
fn contains_looks_for_the_whole_string() {
    let list = strings(&["pg", "redis"]);
    assert!(contains(&list, "pg"));
    assert!(contains(&list, "redis"));
    assert!(!contains(&list, "p"));
    assert!(!contains(&vec![], "pg"));
}

#[test]
fn dedup_keeps_each_item_where_it_first_occurs() {
    assert_eq!(dedup(strings(&["b", "a", "b", "c", "a"])), strings(&["b", "a", "c"]));
    assert_eq!(dedup(strings(&["a", "a", "a"])), strings(&["a"]));
    assert_eq!(dedup(vec![]), Vec::<String>::new());
    assert_eq!(dedup(strings(&["x", "y"])), strings(&["x", "y"]));
}

#[test]
fn printable_is_what_holds_no_line_break_and_no_escape() {
    assert!(is_printable(""));
    assert!(is_printable("Seed the database"));
    assert!(is_printable("tab\tand [brackets] \u{644}\u{627}"));
    assert!(!is_printable("two\nlines"));
    assert!(!is_printable("line\n"));
    assert!(!is_printable("carriage\rreturn"));
    assert!(!is_printable("\u{1b}[31mred"));
    assert!(!is_printable("end\u{1b}"));
}

#[test]
fn show_puts_a_space_where_the_layout_would_break() {
    assert_eq!(show("Seed the database"), "Seed the database");
    assert_eq!(show(""), "");
    assert_eq!(show("two\nlines"), "two lines");
    assert_eq!(show("a\r\nb\n"), "a  b ");
    assert_eq!(show("\u{1b}[31mred\u{1b}[0m"), " [31mred [0m");
    assert_eq!(show("\u{e9}\n\u{644}\u{627}"), "\u{e9} \u{644}\u{627}");
    assert!(is_printable(&show("\n\r\u{1b}")));
}
