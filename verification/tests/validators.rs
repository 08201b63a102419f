use listing_intake::event::{MeetingMethod, Selection};
use listing_intake::validate::{
    validate_components, validate_device_name, validate_meeting_choice, validate_photos,
    validate_price, validate_rating, ValidationError,
};

#[test]
fn device_name_empty_is_rejected() {
    assert_eq!(validate_device_name(""), Err(ValidationError::EmptyText));
}

#[test]
fn device_name_whitespace_only_is_rejected() {
    assert_eq!(validate_device_name("  \t \n "), Err(ValidationError::EmptyText));
}

#[test]
fn device_name_visible_text_is_accepted() {
    assert_eq!(validate_device_name("iPhone 12 black"), Ok(()));
    assert_eq!(validate_device_name("  x  "), Ok(()));
}

#[test]
fn components_follow_the_text_rule() {
    assert_eq!(validate_components("charger and box"), Ok(()));
    assert_eq!(validate_components("   "), Err(ValidationError::EmptyText));
}

#[test]
fn rating_in_range_is_accepted() {
    assert_eq!(validate_rating("1"), Ok(1));
    assert_eq!(validate_rating("4"), Ok(4));
    assert_eq!(validate_rating("5"), Ok(5));
}

#[test]
fn rating_with_leading_zero_still_parses() {
    assert_eq!(validate_rating("04"), Ok(4));
}

#[test]
fn rating_out_of_range_is_rejected_as_such() {
    assert_eq!(validate_rating("7"), Err(ValidationError::OutOfRange { min: 1, max: 5 }));
    assert_eq!(validate_rating("0"), Err(ValidationError::OutOfRange { min: 1, max: 5 }));
    assert_eq!(
        validate_rating("99999999999999999999999999"),
        Err(ValidationError::OutOfRange { min: 1, max: 5 })
    );
}

#[test]
fn rating_non_numeric_is_rejected_as_such() {
    assert_eq!(validate_rating(""), Err(ValidationError::NotANumber));
    assert_eq!(validate_rating("good"), Err(ValidationError::NotANumber));
    assert_eq!(validate_rating("4.5"), Err(ValidationError::NotANumber));
    assert_eq!(validate_rating(" 4"), Err(ValidationError::NotANumber));
}

#[test]
fn price_whole_number_scales_to_minor_units() {
    assert_eq!(validate_price("12"), Ok(1200));
    assert_eq!(validate_price("0"), Ok(0));
    assert_eq!(validate_price("007"), Ok(700));
}

#[test]
fn price_decimal_scales_to_two_places() {
    assert_eq!(validate_price("12.5"), Ok(1250));
    assert_eq!(validate_price("12.50"), Ok(1250));
    assert_eq!(validate_price("0.05"), Ok(5));
}

#[test]
fn price_malformed_is_rejected() {
    assert_eq!(validate_price(""), Err(ValidationError::NotANumber));
    assert_eq!(validate_price("12."), Err(ValidationError::NotANumber));
    assert_eq!(validate_price(".5"), Err(ValidationError::NotANumber));
    assert_eq!(validate_price("1.234"), Err(ValidationError::NotANumber));
    assert_eq!(validate_price("1,234"), Err(ValidationError::NotANumber));
    assert_eq!(validate_price("-5"), Err(ValidationError::NotANumber));
    assert_eq!(validate_price("1.2.3"), Err(ValidationError::NotANumber));
    assert_eq!(validate_price("12 "), Err(ValidationError::NotANumber));
}

#[test]
fn price_at_the_top_of_the_range_is_exact() {
    assert_eq!(validate_price("184467440737095516.15"), Ok(u64::MAX));
    assert_eq!(validate_price("184467440737095516.16"), Err(ValidationError::NotANumber));
    assert_eq!(validate_price("184467440737095516"), Ok(18446744073709551600));
    assert_eq!(validate_price("184467440737095517"), Err(ValidationError::NotANumber));
}

#[test]
fn meeting_choice_takes_only_the_two_methods() {
    assert_eq!(validate_meeting_choice(Selection::Pickup), Ok(MeetingMethod::Pickup));
    assert_eq!(validate_meeting_choice(Selection::CanMeet), Ok(MeetingMethod::CanMeet));
    assert_eq!(
        validate_meeting_choice(Selection::Rating(3)),
        Err(ValidationError::UnknownSelection)
    );
    assert_eq!(
        validate_meeting_choice(Selection::NoComponents),
        Err(ValidationError::UnknownSelection)
    );
}

#[test]
fn photos_require_at_least_one() {
    let none: Vec<String> = Vec::new();
    assert_eq!(validate_photos(&none), Err(ValidationError::NoPhotosAttached));
    let one = vec!["photo-1".to_string()];
    assert_eq!(validate_photos(&one), Ok(()));
}
