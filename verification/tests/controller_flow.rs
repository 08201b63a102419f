use listing_intake::controller::{handle, HandleOutcome};
use listing_intake::event::{InboundEvent, MeetingMethod, Selection};
use listing_intake::state::SessionState;
use listing_intake::store::SessionStore;

fn text(s: &str) -> InboundEvent {
    InboundEvent::Text(s.to_string())
}

fn prompt_of(outcome: HandleOutcome) -> String {
    match outcome {
        HandleOutcome::Prompt(p) => p.text,
        other => panic!("expected a prompt, got {:?}", other),
    }
}

#[test]
fn first_event_opens_a_session_and_asks_for_the_name() {
    let mut store = SessionStore::new();
    let p = prompt_of(handle(&mut store, 7, text("hello")));
    assert_eq!(p, "Provide the full device name, its color and kind:");
    assert_eq!(store.len(), 1);
    assert_eq!(store.get(7), Some(&SessionState::AwaitingDeviceName));
}

#[test]
fn a_rejection_persists_nothing() {
    let mut store = SessionStore::new();
    let _ = handle(&mut store, 7, text("hello"));
    let _ = handle(&mut store, 7, text("iPhone"));
    let before = format!("{:?}", store.get(7));
    match handle(&mut store, 7, text("7")) {
        HandleOutcome::Reprompt(p) => {
            assert!(p.text.starts_with("The number is outside the accepted range. "));
        },
        other => panic!("expected a reprompt, got {:?}", other),
    }
    assert_eq!(format!("{:?}", store.get(7)), before);
}

#[test]
fn cancel_deletes_the_session_whatever_was_accumulated() {
    let mut store = SessionStore::new();
    let _ = handle(&mut store, 7, text("hello"));
    let _ = handle(&mut store, 7, text("iPhone"));
    let _ = handle(&mut store, 7, text("4"));
    assert_eq!(store.len(), 1);
    let outcome = handle(&mut store, 7, InboundEvent::Cancel);
    assert_eq!(outcome, HandleOutcome::Cancelled);
    assert_eq!(store.len(), 0);
    assert_eq!(store.get(7), None);
}

#[test]
fn cancel_without_a_session_is_quietly_acknowledged() {
    let mut store = SessionStore::new();
    let outcome = handle(&mut store, 7, InboundEvent::Cancel);
    assert_eq!(outcome, HandleOutcome::Cancelled);
    assert_eq!(store.len(), 0);
}

#[test]
fn sessions_of_distinct_users_are_independent() {
    let mut store = SessionStore::new();
    let _ = handle(&mut store, 1, text("hi"));
    let _ = handle(&mut store, 2, text("hi"));
    let _ = handle(&mut store, 1, text("ThinkPad"));
    assert_eq!(
        store.get(1),
        Some(&SessionState::AwaitingDeviceState { device_name: "ThinkPad".to_string() })
    );
    assert_eq!(store.get(2), Some(&SessionState::AwaitingDeviceName));
}

#[test]
fn completion_hands_the_listing_over_and_destroys_the_session() {
    let mut store = SessionStore::new();
    let _ = handle(&mut store, 9, text("hi"));
    let _ = handle(&mut store, 9, text("iPhone 12 black"));
    let _ = handle(&mut store, 9, text("4"));
    let _ = handle(&mut store, 9, InboundEvent::Selection(Selection::NoComponents));
    let _ = handle(&mut store, 9, text("99.99"));
    let _ = handle(&mut store, 9, InboundEvent::Selection(Selection::Pickup));
    let _ = handle(&mut store, 9, InboundEvent::Photos(vec!["f1".to_string()]));
    let outcome = handle(&mut store, 9, text("minor scratches"));
    match outcome {
        HandleOutcome::Completed(listing) => {
            assert_eq!(listing.device_name, "iPhone 12 black");
            assert_eq!(listing.device_state, 4);
            assert_eq!(listing.components, "");
            assert_eq!(listing.price, 9999);
            assert_eq!(listing.meeting_method, MeetingMethod::Pickup);
            assert_eq!(listing.photos, vec!["f1".to_string()]);
            assert_eq!(listing.additional_info, "minor scratches");
        },
        other => panic!("expected a completed listing, got {:?}", other),
    }
    assert_eq!(store.len(), 0);
    assert_eq!(store.get(9), None);
}

#[test]
fn store_put_get_delete_contract() {
    let mut store = SessionStore::new();
    assert_eq!(store.get(3), None);
    store.put(3, SessionState::AwaitingDeviceName);
    assert_eq!(store.get(3), Some(&SessionState::AwaitingDeviceName));
    store.put(3, SessionState::AwaitingDeviceState { device_name: "x".to_string() });
    assert_eq!(
        store.get(3),
        Some(&SessionState::AwaitingDeviceState { device_name: "x".to_string() })
    );
    assert_eq!(store.len(), 1);
    store.delete(3);
    assert_eq!(store.get(3), None);
    assert_eq!(store.len(), 0);
}
