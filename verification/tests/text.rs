use pkgid::text::chars_of;
use pkgid::text::contains_run;
use pkgid::text::copy_texts;
use pkgid::text::find_first;
use pkgid::text::join_strings;
use pkgid::text::same_opt_text;
use pkgid::text::same_text;
use pkgid::text::same_texts;
use pkgid::text::slice_text;
use pkgid::text::split_at_first;

fn list(names: &[&str]) -> Vec<String> {
    names.iter().map(|n| n.to_string()).collect()
}

#[test]
fn chars_of_text() {
    assert_eq!(chars_of(""), Vec::<char>::new());
    assert_eq!(chars_of("aé„b"), vec!['a', 'é', '„', 'b']);
}

#[test]
fn first_occurrence_is_found() {
    assert_eq!(find_first(&chars_of("a:b:c"), ':'), Some(1));
    assert_eq!(find_first(&chars_of(":"), ':'), Some(0));
    assert_eq!(find_first(&chars_of("é:"), ':'), Some(1));
    assert_eq!(find_first(&chars_of("abc"), ':'), None);
    assert_eq!(find_first(&chars_of(""), ':'), None);
}

#[test]
fn runs_are_found() {
    assert!(contains_run(&chars_of("http://x"), &chars_of("://")));
    assert!(contains_run(&chars_of("://"), &chars_of("://")));
    assert!(contains_run(&chars_of("a:/://"), &chars_of("://")));
    assert!(!contains_run(&chars_of("a:/b/:"), &chars_of("://")));
    assert!(!contains_run(&chars_of(":/"), &chars_of("://")));
    assert!(contains_run(&chars_of("abc"), &chars_of("")));
    assert!(contains_run(&chars_of(""), &chars_of("")));
    assert!(!contains_run(&chars_of(""), &chars_of("a")));
}

#[test]
fn split_at_first_separator() {
    assert_eq!(split_at_first("foo:1.2.3", ':'), ("foo".to_string(), Some("1.2.3".to_string())));
    assert_eq!(split_at_first("a:b:c", ':'), ("a".to_string(), Some("b:c".to_string())));
    assert_eq!(split_at_first("foo", ':'), ("foo".to_string(), None));
    assert_eq!(split_at_first("foo:", ':'), ("foo".to_string(), Some(String::new())));
    assert_eq!(split_at_first(":foo", ':'), (String::new(), Some("foo".to_string())));
    assert_eq!(split_at_first("", ':'), (String::new(), None));
    assert_eq!(split_at_first("é:ü", ':'), ("é".to_string(), Some("ü".to_string())));
}

#[test]
fn slices_count_characters() {
    assert_eq!(slice_text("aébc", 1, 3), "éb");
    assert_eq!(slice_text("aébc", 0, 4), "aébc");
    assert_eq!(slice_text("aébc", 2, 2), "");
}

#[test]
fn join_puts_separator_between() {
    assert_eq!(join_strings(&list(&[]), "/"), "");
    assert_eq!(join_strings(&list(&["a"]), "/"), "a");
    assert_eq!(join_strings(&list(&["a", "b", "c"]), "/"), "a/b/c");
    assert_eq!(join_strings(&list(&["", ""]), "/"), "/");
    assert_eq!(join_strings(&list(&["a", ""]), ", "), "a, ");
}

#[test]
fn texts_compare() {
    assert!(same_text("abc", "abc"));
    assert!(same_text("", ""));
    assert!(!same_text("abc", "abd"));
    assert!(!same_text("abc", "ab"));
    assert!(same_opt_text(&None, &None));
    assert!(same_opt_text(&Some("a".to_string()), &Some("a".to_string())));
    assert!(!same_opt_text(&Some("a".to_string()), &Some("b".to_string())));
    assert!(!same_opt_text(&Some("a".to_string()), &None));
    assert!(!same_opt_text(&None, &Some(String::new())));
    assert!(same_texts(&list(&["a", "b"]), &list(&["a", "b"])));
    assert!(!same_texts(&list(&["a", "b"]), &list(&["a"])));
    assert!(!same_texts(&list(&["a", "b"]), &list(&["a", "c"])));
    assert!(same_texts(&list(&[]), &list(&[])));
    assert_eq!(copy_texts(&list(&["a", "b"])), list(&["a", "b"]));
}
