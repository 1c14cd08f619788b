use cargo_cpp_shared::vars::{chars_of, match_at, stands_at, Variables};

fn entries(vars: &Variables) -> Vec<(String, String)> {
    (0..vars.len())
        .map(|i| {
            let (name, value) = vars.entry(i);
            (name.clone(), value.clone())
        })
        .collect()
}

#[test]
fn a_new_table_is_empty() {
    let vars = Variables::new();
    assert_eq!(vars.len(), 0);
    assert_eq!(vars.get("a"), None);
    assert_eq!(vars.position("a"), None);
    assert_eq!(vars.substitute("text"), "text");
}

#[test]
fn insert_appends_a_new_name_and_replaces_a_known_one_in_place() {
    let mut vars = Variables::new();
    vars.insert("a", "1".to_string());
    vars.insert("b", "2".to_string());
    vars.insert("c", "3".to_string());
    vars.insert("b", "4".to_string());
    assert_eq!(
        entries(&vars),
        vec![
            ("a".to_string(), "1".to_string()),
            ("b".to_string(), "4".to_string()),
            ("c".to_string(), "3".to_string()),
        ]
    );
    assert_eq!(vars.position("b"), Some(1));
    assert_eq!(vars.position("d"), None);
    assert_eq!(vars.get("c").map(String::as_str), Some("3"));
}

#[test]
fn substitute_replaces_every_occurrence() {
    let mut vars = Variables::new();
    vars.insert("@A@", "x".to_string());
    assert_eq!(vars.substitute("@A@ and @A@@A@"), "x and xx");
}

#[test]
fn substitute_leaves_unknown_placeholders() {
    let mut vars = Variables::new();
    vars.insert("@A@", "x".to_string());
    assert_eq!(vars.substitute("@B@ ${C} {{ d }} @A"), "@B@ ${C} {{ d }} @A");
}

#[test]
fn occurrences_are_found_from_the_left_and_do_not_overlap() {
    let mut vars = Variables::new();
    vars.insert("aa", "b".to_string());
    assert_eq!(vars.substitute("aaa"), "ba");
    assert_eq!(vars.substitute("aaaa"), "bb");
    assert_eq!(vars.substitute("a"), "a");
}

#[test]
fn a_replacement_is_not_searched_again_for_the_same_name() {
    let mut vars = Variables::new();
    vars.insert("ab", "aab".to_string());
    assert_eq!(vars.substitute("ab"), "aab");
}

#[test]
fn a_value_is_not_searched_for_other_names() {
    let mut vars = Variables::new();
    vars.insert("@A@", "@B@".to_string());
    vars.insert("@B@", "done".to_string());
    assert_eq!(vars.substitute("@A@"), "@B@");
    assert_eq!(vars.substitute("@A@@B@"), "@B@done");

    let mut vars = Variables::new();
    vars.insert("@B@", "done".to_string());
    vars.insert("@A@", "@B@".to_string());
    assert_eq!(vars.substitute("@A@"), "@B@");
}

#[test]
fn a_value_and_the_text_behind_it_do_not_make_a_name() {
    let mut vars = Variables::new();
    vars.insert("ab", "x".to_string());
    vars.insert("c", "a".to_string());
    assert_eq!(vars.substitute("cb"), "ab");
    assert_eq!(vars.substitute("abcb"), "xab");
}

#[test]
fn of_two_names_at_one_place_the_one_inserted_first_is_taken() {
    let mut vars = Variables::new();
    vars.insert("ab", "1".to_string());
    vars.insert("a", "2".to_string());
    assert_eq!(vars.substitute("ab a"), "1 2");

    let mut vars = Variables::new();
    vars.insert("a", "2".to_string());
    vars.insert("ab", "1".to_string());
    assert_eq!(vars.substitute("ab a"), "2b 2");
}

#[test]
fn the_helpers_of_substitution() {
    let text = chars_of("größer");
    assert_eq!(text, vec!['g', 'r', 'ö', 'ß', 'e', 'r']);
    assert!(stands_at(&text, &chars_of("öß"), 2));
    assert!(!stands_at(&text, &chars_of("öß"), 3));
    assert!(!stands_at(&text, &chars_of("er!"), 4));
    assert!(stands_at(&text, &chars_of(""), 6));
    let names = vec![chars_of(""), chars_of("x"), chars_of("er"), chars_of("e")];
    assert_eq!(match_at(&text, &names, 4), Some(2));
    assert_eq!(match_at(&text, &names, 5), None);
    assert_eq!(match_at(&text, &names, 6), None);
}

#[test]
fn a_value_may_be_empty_or_hold_any_text() {
    let mut vars = Variables::new();
    vars.insert("x", "".to_string());
    assert_eq!(vars.substitute("axbxc"), "abc");
    vars.insert("b", "größer".to_string());
    assert_eq!(vars.substitute("axbxc"), "agrößerc");
}
