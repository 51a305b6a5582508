//! Tests of the runtime matching helper: prioritized, short-circuiting
//! typed downcast attempts with a trailing default.

use type_match::matching::{any_match, mode_dispatch, AccessMode};

#[test]
fn first_matching_arm_wins_and_runs_once() {
    // A value holding a 32-bit integer 10, with a 32-bit arm before a
    // 64-bit arm: the 32-bit arm is selected and only its expression runs.
    let arms = vec!["i32".to_string(), "i64".to_string()];
    let held: i32 = 10;
    let mut evaluations: i32 = 0;
    let result = match any_match(&"i32".to_string(), &arms) {
        Some(0) => {
            evaluations += 1;
            held * 2
        },
        Some(_) => {
            evaluations += 1;
            99
        },
        None => {
            evaluations += 1;
            10
        },
    };
    assert_eq!(result, 20);
    assert_eq!(evaluations, 1);
}

#[test]
fn no_matching_arm_evaluates_the_default_once() {
    let arms = vec!["i32".to_string(), "i64".to_string()];
    let mut evaluations: i32 = 0;
    let result = match any_match(&"String".to_string(), &arms) {
        Some(_) => {
            evaluations += 1;
            0
        },
        None => {
            evaluations += 1;
            10
        },
    };
    assert_eq!(result, 10);
    assert_eq!(evaluations, 1);
}

#[test]
fn duplicate_arms_select_the_first() {
    let arms = vec!["i64".to_string(), "i32".to_string(), "i32".to_string()];
    assert_eq!(any_match(&"i32".to_string(), &arms), Some(1));
}

#[test]
fn empty_arm_list_falls_through() {
    let arms: Vec<String> = Vec::new();
    assert_eq!(any_match(&"i32".to_string(), &arms), None);
}

#[test]
fn each_access_mode_picks_its_downcast() {
    assert_eq!(
        mode_dispatch(&AccessMode::Consume),
        ("downcast".to_string(), "Ok".to_string())
    );
    assert_eq!(
        mode_dispatch(&AccessMode::ExclusiveRef),
        ("downcast_mut".to_string(), "Some".to_string())
    );
    assert_eq!(
        mode_dispatch(&AccessMode::SharedRef),
        ("downcast_ref".to_string(), "Some".to_string())
    );
}
