use listing_intake::event::{InboundEvent, MeetingMethod, Selection};
use listing_intake::listing::assemble;
use listing_intake::machine::{transition, TransitionResult};
use listing_intake::state::SessionState;

fn text(s: &str) -> InboundEvent {
    InboundEvent::Text(s.to_string())
}

fn advance(state: &SessionState, event: InboundEvent) -> SessionState {
    match transition(state, event) {
        TransitionResult::Advance { next_state, .. } => next_state,
        other => panic!("expected an advance, got {:?}", other),
    }
}

fn reject_text(state: &SessionState, event: InboundEvent) -> String {
    match transition(state, event) {
        TransitionResult::Reject { reprompt } => reprompt.text,
        other => panic!("expected a rejection, got {:?}", other),
    }
}

#[test]
fn start_and_device_name() {
    let s1 = advance(&SessionState::Start, text("hello"));
    assert_eq!(s1, SessionState::AwaitingDeviceName);
    let s2 = advance(&s1, text("iPhone 12 black"));
    assert_eq!(
        s2,
        SessionState::AwaitingDeviceState { device_name: "iPhone 12 black".to_string() }
    );
}

#[test]
fn start_accepts_any_event_shape() {
    let s1 = advance(&SessionState::Start, InboundEvent::Selection(Selection::Pickup));
    assert_eq!(s1, SessionState::AwaitingDeviceName);
}

#[test]
fn rating_seven_is_rejected_and_state_unchanged() {
    let s = SessionState::AwaitingDeviceState { device_name: "iPhone".to_string() };
    let reprompt = reject_text(&s, text("7"));
    assert!(reprompt.starts_with("The number is outside the accepted range. "));
    assert!(reprompt.ends_with("Rate the device condition on a scale from 1 to 5:"));
}

#[test]
fn rating_step_is_entered_with_the_five_buttons() {
    match transition(&SessionState::AwaitingDeviceName, text("iPhone")) {
        TransitionResult::Advance { outbound_prompt, .. } => {
            assert_eq!(outbound_prompt.text, "Rate the device condition on a scale from 1 to 5:");
            assert_eq!(
                outbound_prompt.choices,
                Some(vec![
                    "1".to_string(),
                    "2".to_string(),
                    "3".to_string(),
                    "4".to_string(),
                    "5".to_string(),
                ])
            );
        },
        other => panic!("expected an advance, got {:?}", other),
    }
}

#[test]
fn rating_four_advances_with_the_rating() {
    let s = SessionState::AwaitingDeviceState { device_name: "iPhone".to_string() };
    let s2 = advance(&s, text("4"));
    assert_eq!(
        s2,
        SessionState::AwaitingComponents { device_name: "iPhone".to_string(), device_state: 4 }
    );
}

#[test]
fn rating_button_is_range_checked_too() {
    let s = SessionState::AwaitingDeviceState { device_name: "iPhone".to_string() };
    let s2 = advance(&s, InboundEvent::Selection(Selection::Rating(5)));
    assert_eq!(
        s2,
        SessionState::AwaitingComponents { device_name: "iPhone".to_string(), device_state: 5 }
    );
    let reprompt = reject_text(&s, InboundEvent::Selection(Selection::Rating(0)));
    assert!(reprompt.starts_with("The number is outside the accepted range. "));
}

#[test]
fn components_none_marker_gives_empty_components() {
    let s = SessionState::AwaitingComponents { device_name: "iPhone".to_string(), device_state: 4 };
    let s2 = advance(&s, InboundEvent::Selection(Selection::NoComponents));
    assert_eq!(
        s2,
        SessionState::AwaitingPrice {
            device_name: "iPhone".to_string(),
            device_state: 4,
            components: String::new(),
        }
    );
}

#[test]
fn whitespace_components_are_not_a_none_marker() {
    let s = SessionState::AwaitingComponents { device_name: "iPhone".to_string(), device_state: 4 };
    let reprompt = reject_text(&s, text("   "));
    assert!(reprompt.starts_with("The message must contain some text. "));
}

#[test]
fn meeting_method_free_text_is_rejected_and_button_accepted() {
    let s = SessionState::AwaitingMeetingMethod {
        device_name: "iPhone".to_string(),
        device_state: 4,
        components: "charger".to_string(),
        price: 1200,
    };
    let reprompt = reject_text(&s, text("let's meet"));
    assert!(reprompt.starts_with("That choice is not available at this step. "));
    let s2 = advance(&s, InboundEvent::Selection(Selection::Pickup));
    assert_eq!(
        s2,
        SessionState::AwaitingPhotos {
            device_name: "iPhone".to_string(),
            device_state: 4,
            components: "charger".to_string(),
            price: 1200,
            meeting_method: MeetingMethod::Pickup,
        }
    );
}

#[test]
fn meeting_method_prompt_offers_the_two_choices() {
    let s = SessionState::AwaitingComponents { device_name: "iPhone".to_string(), device_state: 4 };
    match transition(&s, text("charger")) {
        TransitionResult::Advance { outbound_prompt, .. } => {
            assert_eq!(outbound_prompt.text, "Provide the price:");
            assert_eq!(outbound_prompt.choices, None);
        },
        other => panic!("expected an advance, got {:?}", other),
    }
    // entering the meeting step is what carries the two buttons
    let before = SessionState::AwaitingPrice {
        device_name: "iPhone".to_string(),
        device_state: 4,
        components: "charger".to_string(),
    };
    match transition(&before, text("12")) {
        TransitionResult::Advance { next_state, outbound_prompt } => {
            assert_eq!(
                next_state,
                SessionState::AwaitingMeetingMethod {
                    device_name: "iPhone".to_string(),
                    device_state: 4,
                    components: "charger".to_string(),
                    price: 1200,
                }
            );
            assert_eq!(outbound_prompt.text, "How would you like to organize the meeting?");
            assert_eq!(
                outbound_prompt.choices,
                Some(vec!["Pickup".to_string(), "Can meet".to_string()])
            );
        },
        other => panic!("expected an advance, got {:?}", other),
    }
}

#[test]
fn empty_photo_set_is_rejected_one_photo_advances() {
    let s = SessionState::AwaitingPhotos {
        device_name: "iPhone".to_string(),
        device_state: 4,
        components: "charger".to_string(),
        price: 1200,
        meeting_method: MeetingMethod::Pickup,
    };
    let reprompt = reject_text(&s, InboundEvent::Photos(Vec::new()));
    assert!(reprompt.starts_with("Attach at least one photo. "));
    let s2 = advance(&s, InboundEvent::Photos(vec!["file-1".to_string()]));
    assert_eq!(
        s2,
        SessionState::AwaitingAdditionalInfo {
            device_name: "iPhone".to_string(),
            device_state: 4,
            components: "charger".to_string(),
            price: 1200,
            meeting_method: MeetingMethod::Pickup,
            photos: vec!["file-1".to_string()],
        }
    );
}

#[test]
fn wrong_event_shape_gets_the_shape_hint() {
    let s = SessionState::AwaitingDeviceName;
    let reprompt = reject_text(&s, InboundEvent::Photos(vec!["file-1".to_string()]));
    assert!(reprompt.starts_with("A different kind of input is expected at this step. "));
}

#[test]
fn cancel_is_accepted_from_every_non_terminal_state() {
    let states = vec![
        SessionState::Start,
        SessionState::AwaitingDeviceName,
        SessionState::AwaitingDeviceState { device_name: "x".to_string() },
        SessionState::AwaitingComponents { device_name: "x".to_string(), device_state: 3 },
        SessionState::AwaitingPrice {
            device_name: "x".to_string(),
            device_state: 3,
            components: "c".to_string(),
        },
        SessionState::AwaitingMeetingMethod {
            device_name: "x".to_string(),
            device_state: 3,
            components: "c".to_string(),
            price: 5,
        },
        SessionState::AwaitingPhotos {
            device_name: "x".to_string(),
            device_state: 3,
            components: "c".to_string(),
            price: 5,
            meeting_method: MeetingMethod::CanMeet,
        },
        SessionState::AwaitingAdditionalInfo {
            device_name: "x".to_string(),
            device_state: 3,
            components: "c".to_string(),
            price: 5,
            meeting_method: MeetingMethod::CanMeet,
            photos: vec!["p".to_string()],
        },
    ];
    for s in &states {
        assert_eq!(transition(s, InboundEvent::Cancel), TransitionResult::Cancel);
    }
}

#[test]
fn identical_arguments_give_identical_results() {
    let s = SessionState::AwaitingDeviceState { device_name: "iPhone".to_string() };
    let r1 = transition(&s, text("7"));
    let r2 = transition(&s, text("7"));
    assert_eq!(r1, r2);
    let r3 = transition(&s, text("3"));
    let r4 = transition(&s, text("3"));
    assert_eq!(r3, r4);
}

#[test]
fn full_happy_path_assembles_every_field() {
    let s1 = advance(&SessionState::Start, text("hi"));
    let s2 = advance(&s1, text("ThinkPad X230, red"));
    let s3 = advance(&s2, text("4"));
    let s4 = advance(&s3, text("charger, box"));
    let s5 = advance(&s4, text("150.50"));
    let s6 = advance(&s5, InboundEvent::Selection(Selection::CanMeet));
    let s7 = advance(&s6, InboundEvent::Photos(vec!["a".to_string(), "b".to_string()]));
    let s8 = advance(&s7, InboundEvent::Selection(Selection::NoAdditionalInfo));
    assert!(matches!(s8, SessionState::Complete { .. }));
    let listing = assemble(s8);
    assert_eq!(listing.device_name, "ThinkPad X230, red");
    assert_eq!(listing.device_state, 4);
    assert_eq!(listing.components, "charger, box");
    assert_eq!(listing.price, 15050);
    assert_eq!(listing.meeting_method, MeetingMethod::CanMeet);
    assert_eq!(listing.photos, vec!["a".to_string(), "b".to_string()]);
    assert_eq!(listing.additional_info, "");
}

#[test]
fn additional_info_text_is_kept_verbatim() {
    let s = SessionState::AwaitingAdditionalInfo {
        device_name: "x".to_string(),
        device_state: 3,
        components: "c".to_string(),
        price: 5,
        meeting_method: MeetingMethod::CanMeet,
        photos: vec!["p".to_string()],
    };
    let s2 = advance(&s, text("scratch on the lid"));
    match s2 {
        SessionState::Complete { additional_info, .. } => {
            assert_eq!(additional_info, "scratch on the lid");
        },
        other => panic!("expected a complete state, got {:?}", other),
    }
}
