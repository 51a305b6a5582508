//! The small sanity tests of the transformation's surroundings.

use type_match::matching::any_match;

#[test]
fn it_works() {
    assert_eq!(2 + 2, 4);
}

#[test]
fn lib_it_works() {
    assert_eq!(2 + 2, 4);
}

#[test]
fn sealed_works() {
    let _sealed = type_match::type_match::sealed;
}

#[test]
fn amatch_it_works() {
    // A dynamically typed value holding the 32-bit integer 10, matched
    // against a 32-bit arm, a 64-bit arm and an Option arm, with a default.
    let value_tag = "i32".to_string();
    let held: i32 = 10;
    let arms = vec!["i32".to_string(), "i64".to_string(), "Option<String>".to_string()];
    let result: i32 = match any_match(&value_tag, &arms) {
        Some(0) => held * 2,
        Some(1) => (i64::from(held) * 10) as i32,
        Some(_) => 11,
        None => 10,
    };
    println!("Result: {:?}", result);
}
