use user_colors::text::{copy_of, same_optional_text, same_text};

#[test]
fn same_text_compares_characters() {
    assert!(same_text("", ""));
    assert!(same_text("day", "day"));
    assert!(!same_text("day", "dax"));
    assert!(!same_text("day", "da"));
    assert!(!same_text("da", "day"));
    assert!(!same_text("day", "Day"));
    assert!(same_text("th\u{e8}me", "th\u{e8}me"));
    assert!(!same_text("th\u{e8}me", "th\u{e9}me"));
    assert!(!same_text("th\u{e8}me", "theme"));
}

#[test]
fn copy_of_keeps_the_text() {
    assert_eq!(copy_of(&None), None);
    assert_eq!(copy_of(&Some(String::from("#fff"))), Some(String::from("#fff")));
    assert_eq!(copy_of(&Some(String::new())), Some(String::new()));
}

#[test]
fn same_optional_text_tells_none_from_blank() {
    let none: Option<String> = None;
    let blank = Some(String::new());
    let red = Some(String::from("#ff0000"));
    let blue = Some(String::from("#0000ff"));
    assert!(same_optional_text(&none, &none));
    assert!(same_optional_text(&blank, &blank));
    assert!(same_optional_text(&red, &red.clone()));
    assert!(!same_optional_text(&none, &blank));
    assert!(!same_optional_text(&blank, &none));
    assert!(!same_optional_text(&red, &blue));
    assert!(!same_optional_text(&red, &none));
}
