use cheat_sheet::basics::{exclaim, exclaim_all, getting_started};
use cheat_sheet::program_output;
use cheat_sheet::text::{push_decimal, push_signed_decimal, signed_decimal_string};

#[test]
fn first_demonstration_lines() {
    assert_eq!(
        getting_started(),
        vec!["7!".to_string(), "3!".to_string(), "8!".to_string()]
    );
}

#[test]
fn exclaim_formats_each_element() {
    assert_eq!(exclaim(7), "7!");
    assert_eq!(exclaim(0), "0!");
    assert_eq!(exclaim(-12), "-12!");
    assert_eq!(exclaim(i32::MIN), "-2147483648!");
    assert_eq!(exclaim_all(&vec![]), Vec::<String>::new());
    assert_eq!(
        exclaim_all(&vec![10, -1, 305]),
        vec!["10!".to_string(), "-1!".to_string(), "305!".to_string()]
    );
}

#[test]
fn decimal_forms() {
    assert_eq!(signed_decimal_string(0), "0");
    assert_eq!(signed_decimal_string(9), "9");
    assert_eq!(signed_decimal_string(10), "10");
    assert_eq!(signed_decimal_string(-45), "-45");
    assert_eq!(signed_decimal_string(i64::MAX), "9223372036854775807");
    assert_eq!(signed_decimal_string(i64::MIN), "-9223372036854775808");
    let mut s = "n=".to_string();
    push_decimal(&mut s, u64::MAX);
    assert_eq!(s, "n=18446744073709551615");
    let mut t = "x".to_string();
    push_signed_decimal(&mut t, -3);
    assert_eq!(t, "x-3");
}

#[test]
fn program_output_is_fixed() {
    let expected: Vec<String> = vec![
        "7!",
        "3!",
        "8!",
        "Hi, I'm Jim. I'm 25 years old",
        "Gustav",
        "Johan, nice to meet you!",
        "I ate your string!",
    ]
    .into_iter()
    .map(|s| s.to_string())
    .collect();
    assert_eq!(program_output(), expected);
}

#[test]
fn program_output_same_on_every_call() {
    let first = program_output();
    let second = program_output();
    assert_eq!(first, second);
}
