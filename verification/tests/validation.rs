use todo_dapp::{
    validate_description_length, ErrorCode, MAX_DESCRIPTION_LENGTH, MIN_DESCRIPTION_LENGTH,
    TASK_DESCRIPTION_SIZE, TASK_SIZE,
};

fn repeated(c: char, n: usize) -> String {
    let mut s = String::new();
    for _ in 0..n {
        s.push(c);
    }
    s
}

#[test]
fn bounds_are_five_and_five_hundred() {
    assert_eq!(MIN_DESCRIPTION_LENGTH, 5);
    assert_eq!(MAX_DESCRIPTION_LENGTH, 500);
}

#[test]
fn record_sizes() {
    assert_eq!(TASK_SIZE, 545);
    assert_eq!(TASK_DESCRIPTION_SIZE, 504);
}

#[test]
fn empty_description_is_too_short() {
    assert_eq!(
        validate_description_length(&String::new()),
        Err(ErrorCode::DescriptionTooShort)
    );
}

#[test]
fn four_characters_are_too_short() {
    assert_eq!(
        validate_description_length(&String::from("abcd")),
        Err(ErrorCode::DescriptionTooShort)
    );
}

#[test]
fn five_characters_are_accepted() {
    assert_eq!(validate_description_length(&String::from("abcde")), Ok(()));
}

#[test]
fn five_hundred_characters_are_accepted() {
    assert_eq!(validate_description_length(&repeated('a', 500)), Ok(()));
}

#[test]
fn five_hundred_and_one_characters_are_too_long() {
    assert_eq!(
        validate_description_length(&repeated('a', 501)),
        Err(ErrorCode::DescriptionTooLong)
    );
}

#[test]
fn every_length_in_bounds_is_accepted() {
    for n in 5..=500 {
        assert_eq!(validate_description_length(&repeated('x', n)), Ok(()));
    }
}

#[test]
fn every_length_below_is_too_short() {
    for n in 0..5 {
        assert_eq!(
            validate_description_length(&repeated('x', n)),
            Err(ErrorCode::DescriptionTooShort)
        );
    }
}

#[test]
fn length_counts_characters_not_bytes() {
    // 5 characters in 6 bytes
    assert_eq!(validate_description_length(&String::from("h\u{e9}llo")), Ok(()));
    // 3 characters in 9 bytes
    assert_eq!(
        validate_description_length(&String::from("\u{65e5}\u{672c}\u{8a9e}")),
        Err(ErrorCode::DescriptionTooShort)
    );
    // 500 characters in 1000 bytes
    assert_eq!(validate_description_length(&repeated('\u{e9}', 500)), Ok(()));
    // 251 characters in 502 bytes
    assert_eq!(validate_description_length(&repeated('\u{e9}', 251)), Ok(()));
    assert_eq!(
        validate_description_length(&repeated('\u{e9}', 501)),
        Err(ErrorCode::DescriptionTooLong)
    );
}

#[test]
fn messages() {
    assert_eq!(
        ErrorCode::TaskAlreadyCompleted.message(),
        "The task is already marked as completed."
    );
    assert_eq!(ErrorCode::TaskAlreadyDeleted.message(), "The task has already been deleted.");
    assert_eq!(ErrorCode::TaskAlreadyExists.message(), "The task already exists.");
    assert_eq!(ErrorCode::DescriptionTooLong.message(), "The task description is too long.");
    assert_eq!(ErrorCode::DescriptionTooShort.message(), "The task description is too short.");
}
