use user_service::validation::{
    char_role, check_roles, role_from_classes, validate_username, CharRole, UsernameError,
    MAX_USERNAME_LEN,
};

#[test]
fn accepts_a_plain_name() {
    assert_eq!(validate_username("Bob"), Ok(()));
}

#[test]
fn accepts_letters_digits_and_marks_after_the_first_letter() {
    assert_eq!(validate_username("a1_-'Z9"), Ok(()));
}

#[test]
fn accepts_eleven_characters() {
    assert_eq!(MAX_USERNAME_LEN, 11);
    assert_eq!(validate_username("abcdefghijk"), Ok(()));
}

#[test]
fn rejects_twelve_characters() {
    assert_eq!(
        validate_username("abcdefghijkl"),
        Err("Username cannot be longer than 11 characters".to_string())
    );
}

#[test]
fn rejects_the_empty_name() {
    assert_eq!(validate_username(""), Err("Username cannot be empty".to_string()));
}

#[test]
fn rejects_a_leading_digit() {
    assert_eq!(
        validate_username("1bob"),
        Err("The first character must be a letter".to_string())
    );
}

#[test]
fn rejects_a_leading_mark() {
    assert_eq!(
        validate_username("_bob"),
        Err("The first character must be a letter".to_string())
    );
}

#[test]
fn rejects_a_space_inside() {
    assert_eq!(
        validate_username("bo b"),
        Err("Username can only contain letters, digits, and special characters (_-')".to_string())
    );
}

#[test]
fn length_is_checked_before_the_characters() {
    assert_eq!(
        validate_username("1!!!!!!!!!!!!"),
        Err("Username cannot be longer than 11 characters".to_string())
    );
}

#[test]
fn first_letter_is_checked_before_the_rest() {
    assert_eq!(
        validate_username("1 !"),
        Err("The first character must be a letter".to_string())
    );
}

#[test]
fn no_trimming_is_done() {
    assert_eq!(
        validate_username(" bob"),
        Err("The first character must be a letter".to_string())
    );
    assert_eq!(
        validate_username("bob "),
        Err("Username can only contain letters, digits, and special characters (_-')".to_string())
    );
}

#[test]
fn length_counts_characters() {
    // eleven letters, each of two bytes
    assert_eq!(validate_username("ééééééééééé"), Ok(()));
    assert_eq!(
        validate_username("éééééééééééé"),
        Err("Username cannot be longer than 11 characters".to_string())
    );
}

#[test]
fn classifies_characters() {
    assert_eq!(char_role('a'), CharRole { starts: true, continues: true });
    assert_eq!(char_role('7'), CharRole { starts: false, continues: true });
    assert_eq!(char_role('_'), CharRole { starts: false, continues: true });
    assert_eq!(char_role('-'), CharRole { starts: false, continues: true });
    assert_eq!(char_role('\''), CharRole { starts: false, continues: true });
    assert_eq!(char_role('!'), CharRole { starts: false, continues: false });
    assert_eq!(char_role('京'), CharRole { starts: true, continues: true });
}

#[test]
fn role_follows_from_the_two_classes() {
    assert_eq!(role_from_classes('x', true, true), CharRole { starts: true, continues: true });
    assert_eq!(role_from_classes('x', false, false), CharRole { starts: false, continues: false });
    assert_eq!(role_from_classes('_', false, false), CharRole { starts: false, continues: true });
    assert_eq!(role_from_classes('9', false, true), CharRole { starts: false, continues: true });
}

#[test]
fn rules_on_roles() {
    let letter = CharRole { starts: true, continues: true };
    let digit = CharRole { starts: false, continues: true };
    let other = CharRole { starts: false, continues: false };
    assert_eq!(check_roles(&vec![letter, digit, digit]), Ok(()));
    assert_eq!(check_roles(&vec![]), Err(UsernameError::Empty));
    assert_eq!(check_roles(&vec![digit, letter]), Err(UsernameError::LeadingNonLetter));
    assert_eq!(check_roles(&vec![letter, other]), Err(UsernameError::InvalidCharacter));
    assert_eq!(check_roles(&vec![other; 12]), Err(UsernameError::TooLong));
    assert_eq!(check_roles(&vec![letter; 11]), Ok(()));
}

#[test]
fn error_sentences() {
    assert_eq!(UsernameError::TooLong.message(), "Username cannot be longer than 11 characters");
    assert_eq!(UsernameError::Empty.message(), "Username cannot be empty");
    assert_eq!(UsernameError::LeadingNonLetter.message(), "The first character must be a letter");
    assert_eq!(
        UsernameError::InvalidCharacter.message(),
        "Username can only contain letters, digits, and special characters (_-')"
    );
}
