use cheat_sheet::ownership::{
    ownership_and_borrowing, this_borrows, this_borrows_mutable, this_consumes,
};

#[test]
fn shared_borrow_compares_byte_length() {
    assert!(this_borrows("Gustav"));
    assert!(!this_borrows("Johan"));
    assert!(!this_borrows(""));
    assert!(!this_borrows("abcde"));
    assert!(this_borrows("abcdef"));
    // three characters, six bytes
    assert!(this_borrows("ééé"));
}

#[test]
fn shared_borrow_leaves_value_usable() {
    let name = "Gustav".to_string();
    this_borrows(&name);
    assert_eq!(name, "Gustav");
}

#[test]
fn mutable_borrow_appends_suffix() {
    let mut name = "Johan".to_string();
    this_borrows_mutable(&mut name);
    assert_eq!(name, "Johan, nice to meet you!");
    assert_eq!(name.len(), "Johan, nice to meet you!".len());
    assert!(name.ends_with(", nice to meet you!"));
}

#[test]
fn mutable_borrow_on_empty_text() {
    let mut name = String::new();
    this_borrows_mutable(&mut name);
    assert_eq!(name, ", nice to meet you!");
    this_borrows_mutable(&mut name);
    assert_eq!(name, ", nice to meet you!, nice to meet you!");
}

#[test]
fn consuming_returns_fixed_text() {
    assert_eq!(this_consumes("Peter".to_string()), "I ate your string!");
    assert_eq!(this_consumes(String::new()), "I ate your string!");
}

#[test]
fn borrowing_demonstration_lines() {
    assert_eq!(
        ownership_and_borrowing(),
        vec![
            "Gustav".to_string(),
            "Johan, nice to meet you!".to_string(),
            "I ate your string!".to_string(),
        ]
    );
}
