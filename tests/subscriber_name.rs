use newsletter::subscriber_name::SubscriberName;

#[test]
fn a_256_grapheme_long_name_is_valid() {
    let name = "a".repeat(256);
    assert!(SubscriberName::parse(name).is_ok());
}

#[test]
fn a_name_longer_than_256_graphemes_is_rejected() {
    let name = "a".repeat(257);
    assert!(SubscriberName::parse(name).is_err());
}

#[test]
fn whitespace_only_names_are_rejected() {
    let name = " ".to_string();
    assert!(SubscriberName::parse(name).is_err());
}

#[test]
fn subscriber_name_empty_string_is_rejected() {
    let name = "".to_string();
    assert!(SubscriberName::parse(name).is_err());
}

#[test]
fn name_containing_invalid_characters_is_rejected() {
    for invalid_chr in SubscriberName::get_forbidden_characters() {
        assert!(SubscriberName::parse(invalid_chr.to_string()).is_err());
    }
}

#[test]
fn a_valid_name_is_parsed_successfully() {
    let name = "Phil Nadon".to_string();
    assert!(SubscriberName::parse(name).is_ok());
}

#[test]
fn a_valid_name_is_returned_unchanged() {
    let name = SubscriberName::parse("Ursula K. Le Guin".to_string()).unwrap();
    assert_eq!(name.as_ref(), "Ursula K. Le Guin");
}

#[test]
fn the_forbidden_characters_are_the_nine_specials() {
    let chars = SubscriberName::get_forbidden_characters();
    assert_eq!(chars, vec!['/', '(', ')', '"', '<', '>', '\\', '{', '}']);
}

#[test]
fn an_empty_name_gets_only_the_empty_complaint() {
    let errors = SubscriberName::parse(String::new()).unwrap_err();
    assert_eq!(errors, vec!["name cannot be empty!".to_string()]);
}

#[test]
fn a_long_name_with_a_forbidden_character_gets_two_complaints() {
    let name = format!("{}<", "a".repeat(300));
    let errors = SubscriberName::parse(name).unwrap_err();
    assert_eq!(
        errors,
        vec![
            "name cannot be more than 256 characters!".to_string(),
            "name cannot contain special characters!".to_string(),
        ]
    );
}

#[test]
fn a_blank_too_long_name_gets_two_complaints() {
    let errors = SubscriberName::parse(" ".repeat(257)).unwrap_err();
    assert_eq!(
        errors,
        vec![
            "name cannot be empty!".to_string(),
            "name cannot be more than 256 characters!".to_string(),
        ]
    );
}

#[test]
fn length_is_counted_in_graphemes_not_characters() {
    // Each "e" followed by a combining acute accent is one grapheme made of
    // two characters.
    let name = "e\u{301}".repeat(256);
    assert_eq!(name.chars().count(), 512);
    assert!(SubscriberName::parse(name).is_ok());
    let longer = "e\u{301}".repeat(257);
    assert_eq!(
        SubscriberName::parse(longer).unwrap_err(),
        vec!["name cannot be more than 256 characters!".to_string()]
    );
}

#[test]
fn unicode_whitespace_only_names_are_rejected() {
    let name = "\u{3000}\t\u{a0}".to_string();
    assert_eq!(
        SubscriberName::parse(name).unwrap_err(),
        vec!["name cannot be empty!".to_string()]
    );
}

#[test]
fn a_name_with_inner_whitespace_is_kept_as_is() {
    let name = SubscriberName::parse("  le guin  ".to_string()).unwrap();
    assert_eq!(name.as_ref(), "  le guin  ");
}

#[test]
fn only_white_space_characters_count_as_blank() {
    assert!(SubscriberName::parse("\u{1680}\u{2028}\u{85}".to_string()).is_err());
    // A zero-width space is not white space, so this name is not blank.
    let name = SubscriberName::parse("\u{200b}".to_string()).unwrap();
    assert_eq!(name.as_ref(), "\u{200b}");
}
