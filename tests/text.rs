use if_empty::{if_empty, IfEmpty, IfEmptyBorrowed};

#[test]
fn string() {
    let string = String::default();
    assert!(string.is_empty());
    let replacement = "text".to_string();
    let replaced = string.if_empty(replacement.clone());
    assert!(!replaced.is_empty());
    assert_eq!(replacement, replaced);

    let string = "not empty".to_string();
    assert!(!string.is_empty());
    assert_eq!("not empty", string.if_empty("should not be returned".to_string()));
}

#[test]
fn str() {
    let string: &str = "";
    assert!(string.is_empty());
    let replacement = "text";
    let replaced = string.if_empty(replacement);
    assert!(!replaced.is_empty());
    assert_eq!(replacement, replaced);

    let string: &str = "not empty";
    assert!(!string.is_empty());
    assert_eq!("not empty", string.if_empty("should not be returned"));
}

#[test]
fn borrowed_result_is_one_of_the_arguments() {
    let empty: &str = "";
    let fallback: &str = "text";
    assert!(std::ptr::eq(empty.if_empty(fallback), fallback));
    let full: &str = "kept";
    assert!(std::ptr::eq(full.if_empty(fallback), full));
}

#[test]
fn both_empty_gives_the_empty_fallback() {
    assert_eq!("", String::new().if_empty(String::new()));
    assert_eq!("", "".if_empty(""));
}

#[test]
fn applying_twice_keeps_the_first_result() {
    let once = "v".to_string().if_empty("f".to_string());
    assert_eq!("v", once.clone().if_empty("g".to_string()));
    assert_eq!("v", once);

    let once = String::new().if_empty("f".to_string());
    assert_eq!("f", once.clone().if_empty("g".to_string()));
    assert_eq!("f", once);

    let once = String::new().if_empty(String::new());
    assert_eq!("g", once.if_empty("g".to_string()));
}

#[test]
fn owned_and_borrowed_agree() {
    for (v, f) in [("", "text"), ("not empty", "other"), ("", ""), ("x", "")] {
        let owned = v.to_string().if_empty(f.to_string());
        let borrowed = v.if_empty(f);
        assert_eq!(owned.as_str(), borrowed);
    }
}

#[test]
fn generic_function_on_strings() {
    assert_eq!("text", if_empty(String::new(), "text".to_string()));
    assert_eq!("not empty", if_empty("not empty".to_string(), "should not be returned".to_string()));
}
