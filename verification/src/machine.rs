//! The dialogue state machine: a pure, deterministic function from the
//! current state and an inbound event to the next step of the conversation.

use vstd::prelude::*;
use vstd::string::StringExecFns;

use crate::event::{EventView, InboundEvent, MeetingMethod, OutboundPrompt, PromptView, Selection};
use crate::state::{adds_exactly_one_field, fields_of, state_wf, step_index, SessionState, StateView};
use crate::validate::{
    digits_val, has_visible_char, plain_number, price_accepted, price_minor_units,
    validate_components, validate_device_name, validate_meeting_choice, validate_photos,
    validate_price, validate_rating, ValidationError,
};

verus! {

/// What one step of the dialogue produced.
#[derive(Debug, PartialEq, Eq)]
pub enum TransitionResult {
    /// The input validated: the session moves to `next_state` and the user
    /// receives `outbound_prompt`, the question of the next step.
    Advance { next_state: SessionState, outbound_prompt: OutboundPrompt },
    /// The input failed validation: the session state is unchanged and the
    /// user receives the current step's instruction again, prefixed with a
    /// hint about the failure.
    Reject { reprompt: OutboundPrompt },
    /// The user abandoned the session: it is to be destroyed, no listing
    /// produced.
    Cancel,
}

/// The mathematical shape of a [`TransitionResult`].
pub enum ResultView {
    Advance { next: StateView, prompt: PromptView },
    Reject { reprompt: PromptView },
    Cancel,
}

impl View for TransitionResult {
    type V = ResultView;

    open spec fn view(&self) -> ResultView {
        match self {
            TransitionResult::Advance { next_state, outbound_prompt } => ResultView::Advance {
                next: next_state@,
                prompt: outbound_prompt@,
            },
            TransitionResult::Reject { reprompt } => ResultView::Reject { reprompt: reprompt@ },
            TransitionResult::Cancel => ResultView::Cancel,
        }
    }
}

/// The instruction the user sees when entering a state. Closed-choice
/// steps always carry their choices, so the transport renders selectable
/// controls instead of inviting free text.
pub open spec fn step_prompt(s: StateView) -> PromptView {
    match s {
        StateView::Start => PromptView {
            text: "Welcome! Send any message to offer a listing."@,
            choices: None,
        },
        StateView::AwaitingDeviceName => PromptView {
            text: "Provide the full device name, its color and kind:"@,
            choices: None,
        },
        StateView::AwaitingDeviceState { .. } => PromptView {
            text: "Rate the device condition on a scale from 1 to 5:"@,
            choices: Some(seq!["1"@, "2"@, "3"@, "4"@, "5"@]),
        },
        StateView::AwaitingComponents { .. } => PromptView {
            text: "List the components included with the device:"@,
            choices: Some(seq!["No components"@]),
        },
        StateView::AwaitingPrice { .. } => PromptView {
            text: "Provide the price:"@,
            choices: None,
        },
        StateView::AwaitingMeetingMethod { .. } => PromptView {
            text: "How would you like to organize the meeting?"@,
            choices: Some(seq!["Pickup"@, "Can meet"@]),
        },
        StateView::AwaitingPhotos { .. } => PromptView {
            text: "Provide photos of the device:"@,
            choices: None,
        },
        StateView::AwaitingAdditionalInfo { .. } => PromptView {
            text: "Provide additional information:"@,
            choices: Some(seq!["No additional info"@]),
        },
        StateView::Complete { .. } => PromptView {
            text: "Your listing is complete."@,
            choices: None,
        },
    }
}

/// The hint prefixed to a reprompt after a validation failure, one per
/// failure kind, so every rejection is specific and actionable.
pub open spec fn hint_of(e: ValidationError) -> Seq<char> {
    match e {
        ValidationError::EmptyText => "The message must contain some text. "@,
        ValidationError::NotANumber => "That does not read as a number. "@,
        ValidationError::OutOfRange { .. } => "The number is outside the accepted range. "@,
        ValidationError::UnknownSelection => "That choice is not available at this step. "@,
        ValidationError::NoPhotosAttached => "Attach at least one photo. "@,
    }
}

/// The hint used when the event's shape itself is wrong for the step
/// (text where photos are expected, and the like).
pub open spec fn shape_hint() -> Seq<char> {
    "A different kind of input is expected at this step. "@
}

/// An advance to `next`, prompting with the next step's instruction.
pub open spec fn advanced(next: StateView) -> ResultView {
    ResultView::Advance { next, prompt: step_prompt(next) }
}

/// A rejection at state `s`: the reprompt restates the step's instruction,
/// prefixed with the hint, keeping the step's choices.
pub open spec fn rejected(s: StateView, hint: Seq<char>) -> ResultView {
    ResultView::Reject {
        reprompt: PromptView {
            text: hint + step_prompt(s).text,
            choices: step_prompt(s).choices,
        },
    }
}

/// The full transition table of the dialogue: for every non-terminal state
/// and every event, exactly one outcome. Cancel is recognized before
/// anything else, from every state.
pub open spec fn spec_transition(s: StateView, e: EventView) -> ResultView
    recommends
        !(s is Complete),
{
    if e is Cancel {
        ResultView::Cancel
    } else {
        match s {
            StateView::Start => advanced(StateView::AwaitingDeviceName),
            StateView::AwaitingDeviceName => match e {
                EventView::Text(t) => if has_visible_char(t) {
                    advanced(StateView::AwaitingDeviceState { device_name: t })
                } else {
                    rejected(s, hint_of(ValidationError::EmptyText))
                },
                _ => rejected(s, shape_hint()),
            },
            StateView::AwaitingDeviceState { device_name } => match e {
                EventView::Text(t) => if plain_number(t) && 1 <= digits_val(t) <= 5 {
                    advanced(
                        StateView::AwaitingComponents {
                            device_name,
                            device_state: digits_val(t) as u8,
                        },
                    )
                } else if plain_number(t) {
                    rejected(s, hint_of(ValidationError::OutOfRange { min: 1, max: 5 }))
                } else {
                    rejected(s, hint_of(ValidationError::NotANumber))
                },
                EventView::Selection(Selection::Rating(n)) => if 1 <= n <= 5 {
                    advanced(StateView::AwaitingComponents { device_name, device_state: n })
                } else {
                    rejected(s, hint_of(ValidationError::OutOfRange { min: 1, max: 5 }))
                },
                EventView::Selection(_) => rejected(s, hint_of(ValidationError::UnknownSelection)),
                _ => rejected(s, shape_hint()),
            },
            StateView::AwaitingComponents { device_name, device_state } => match e {
                EventView::Text(t) => if has_visible_char(t) {
                    advanced(
                        StateView::AwaitingPrice { device_name, device_state, components: t },
                    )
                } else {
                    rejected(s, hint_of(ValidationError::EmptyText))
                },
                EventView::Selection(Selection::NoComponents) => advanced(
                    StateView::AwaitingPrice {
                        device_name,
                        device_state,
                        components: Seq::empty(),
                    },
                ),
                EventView::Selection(_) => rejected(s, hint_of(ValidationError::UnknownSelection)),
                _ => rejected(s, shape_hint()),
            },
            StateView::AwaitingPrice { device_name, device_state, components } => match e {
                EventView::Text(t) => if price_accepted(t) {
                    advanced(
                        StateView::AwaitingMeetingMethod {
                            device_name,
                            device_state,
                            components,
                            price: price_minor_units(t) as u64,
                        },
                    )
                } else {
                    rejected(s, hint_of(ValidationError::NotANumber))
                },
                EventView::Selection(_) => rejected(s, hint_of(ValidationError::UnknownSelection)),
                _ => rejected(s, shape_hint()),
            },
            StateView::AwaitingMeetingMethod { device_name, device_state, components, price } => {
                match e {
                    EventView::Selection(Selection::Pickup) => advanced(
                        StateView::AwaitingPhotos {
                            device_name,
                            device_state,
                            components,
                            price,
                            meeting_method: MeetingMethod::Pickup,
                        },
                    ),
                    EventView::Selection(Selection::CanMeet) => advanced(
                        StateView::AwaitingPhotos {
                            device_name,
                            device_state,
                            components,
                            price,
                            meeting_method: MeetingMethod::CanMeet,
                        },
                    ),
                    EventView::Selection(_) => rejected(
                        s,
                        hint_of(ValidationError::UnknownSelection),
                    ),
                    // Free text is rejected at this closed-choice step.
                    EventView::Text(_) => rejected(s, hint_of(ValidationError::UnknownSelection)),
                    _ => rejected(s, shape_hint()),
                }
            },
            StateView::AwaitingPhotos {
                device_name,
                device_state,
                components,
                price,
                meeting_method,
            } => match e {
                EventView::Photos(ps) => if ps.len() >= 1 {
                    advanced(
                        StateView::AwaitingAdditionalInfo {
                            device_name,
                            device_state,
                            components,
                            price,
                            meeting_method,
                            photos: ps,
                        },
                    )
                } else {
                    rejected(s, hint_of(ValidationError::NoPhotosAttached))
                },
                _ => rejected(s, shape_hint()),
            },
            StateView::AwaitingAdditionalInfo {
                device_name,
                device_state,
                components,
                price,
                meeting_method,
                photos,
            } => match e {
                EventView::Text(t) => if has_visible_char(t) {
                    advanced(
                        StateView::Complete {
                            device_name,
                            device_state,
                            components,
                            price,
                            meeting_method,
                            photos,
                            additional_info: t,
                        },
                    )
                } else {
                    rejected(s, hint_of(ValidationError::EmptyText))
                },
                EventView::Selection(Selection::NoAdditionalInfo) => advanced(
                    StateView::Complete {
                        device_name,
                        device_state,
                        components,
                        price,
                        meeting_method,
                        photos,
                        additional_info: Seq::empty(),
                    },
                ),
                EventView::Selection(_) => rejected(s, hint_of(ValidationError::UnknownSelection)),
                _ => rejected(s, shape_hint()),
            },
            // Never queried: `transition` excludes terminal states.
            StateView::Complete { .. } => ResultView::Cancel,
        }
    }
}

/// Builds the executable prompt of a state, matching [`step_prompt`].
fn prompt_for(state: &SessionState) -> (p: OutboundPrompt)
    ensures
        p@ == step_prompt(state@),
{
    match state {
        SessionState::Start => OutboundPrompt {
            text: "Welcome! Send any message to offer a listing.".to_owned(),
            choices: None,
        },
        SessionState::AwaitingDeviceName => OutboundPrompt {
            text: "Provide the full device name, its color and kind:".to_owned(),
            choices: None,
        },
        SessionState::AwaitingDeviceState { .. } => {
            let mut cs: Vec<String> = Vec::new();
            cs.push("1".to_owned());
            cs.push("2".to_owned());
            cs.push("3".to_owned());
            cs.push("4".to_owned());
            cs.push("5".to_owned());
            proof {
                assert(crate::event::views_of(cs@) =~= seq!["1"@, "2"@, "3"@, "4"@, "5"@]);
            }
            OutboundPrompt {
                text: "Rate the device condition on a scale from 1 to 5:".to_owned(),
                choices: Some(cs),
            }
        },
        SessionState::AwaitingComponents { .. } => {
            let mut cs: Vec<String> = Vec::new();
            cs.push("No components".to_owned());
            proof {
                assert(crate::event::views_of(cs@) =~= seq!["No components"@]);
            }
            OutboundPrompt {
                text: "List the components included with the device:".to_owned(),
                choices: Some(cs),
            }
        },
        SessionState::AwaitingPrice { .. } => OutboundPrompt {
            text: "Provide the price:".to_owned(),
            choices: None,
        },
        SessionState::AwaitingMeetingMethod { .. } => {
            let mut cs: Vec<String> = Vec::new();
            cs.push("Pickup".to_owned());
            cs.push("Can meet".to_owned());
            proof {
                assert(crate::event::views_of(cs@) =~= seq!["Pickup"@, "Can meet"@]);
            }
            OutboundPrompt {
                text: "How would you like to organize the meeting?".to_owned(),
                choices: Some(cs),
            }
        },
        SessionState::AwaitingPhotos { .. } => OutboundPrompt {
            text: "Provide photos of the device:".to_owned(),
            choices: None,
        },
        SessionState::AwaitingAdditionalInfo { .. } => OutboundPrompt {
            text: "Provide additional information:".to_owned(),
            choices: Some({
                let mut cs: Vec<String> = Vec::new();
                cs.push("No additional info".to_owned());
                proof {
                    assert(crate::event::views_of(cs@) =~= seq!["No additional info"@]);
                }
                cs
            }),
        },
        SessionState::Complete { .. } => OutboundPrompt {
            text: "Your listing is complete.".to_owned(),
            choices: None,
        },
    }
}

/// Builds the executable advance result, matching [`advanced`].
fn advance_to(next: SessionState) -> (r: TransitionResult)
    ensures
        r@ == advanced(next@),
{
    let outbound_prompt = prompt_for(&next);
    TransitionResult::Advance { next_state: next, outbound_prompt }
}

/// Builds the executable rejection, matching [`rejected`].
fn reject_with(state: &SessionState, hint: &str) -> (r: TransitionResult)
    ensures
        r@ == rejected(state@, hint@),
{
    let p = prompt_for(state);
    TransitionResult::Reject {
        reprompt: OutboundPrompt { text: hint.to_owned().concat(p.text.as_str()), choices: p.choices },
    }
}

/// The executable hint texts, matching [`hint_of`].
fn hint_str(e: ValidationError) -> (h: &'static str)
    ensures
        h@ == hint_of(e),
{
    match e {
        ValidationError::EmptyText => "The message must contain some text. ",
        ValidationError::NotANumber => "That does not read as a number. ",
        ValidationError::OutOfRange { .. } => "The number is outside the accepted range. ",
        ValidationError::UnknownSelection => "That choice is not available at this step. ",
        ValidationError::NoPhotosAttached => "Attach at least one photo. ",
    }
}

/// One step of the dialogue: validates `event` against the current state
/// and says exactly what happens next. Pure: the outcome is a function of
/// the two arguments, given by [`spec_transition`]. Terminal states take
/// no further transitions.
pub fn transition(state: &SessionState, event: InboundEvent) -> (r: TransitionResult)
    requires
        !(state@ is Complete),
    ensures
        r@ == spec_transition(state@, event@),
{
    if let InboundEvent::Cancel = &event {
        return TransitionResult::Cancel;
    }
    match state {
        SessionState::Start => advance_to(SessionState::AwaitingDeviceName),
        SessionState::AwaitingDeviceName => match event {
            InboundEvent::Text(t) => match validate_device_name(t.as_str()) {
                Ok(_) => advance_to(SessionState::AwaitingDeviceState { device_name: t }),
                Err(e) => reject_with(state, hint_str(e)),
            },
            _ => reject_with(state, shape_hint_str()),
        },
        SessionState::AwaitingDeviceState { device_name } => match event {
            InboundEvent::Text(t) => match validate_rating(t.as_str()) {
                Ok(v) => advance_to(
                    SessionState::AwaitingComponents {
                        device_name: device_name.clone(),
                        device_state: v,
                    },
                ),
                Err(e) => reject_with(state, hint_str(e)),
            },
            InboundEvent::Selection(Selection::Rating(n)) => {
                if 1 <= n && n <= 5 {
                    advance_to(
                        SessionState::AwaitingComponents {
                            device_name: device_name.clone(),
                            device_state: n,
                        },
                    )
                } else {
                    reject_with(
                        state,
                        hint_str(ValidationError::OutOfRange { min: 1, max: 5 }),
                    )
                }
            },
            InboundEvent::Selection(_) => reject_with(
                state,
                hint_str(ValidationError::UnknownSelection),
            ),
            _ => reject_with(state, shape_hint_str()),
        },
        SessionState::AwaitingComponents { device_name, device_state } => match event {
            InboundEvent::Text(t) => match validate_components(t.as_str()) {
                Ok(_) => advance_to(
                    SessionState::AwaitingPrice {
                        device_name: device_name.clone(),
                        device_state: *device_state,
                        components: t,
                    },
                ),
                Err(e) => reject_with(state, hint_str(e)),
            },
            InboundEvent::Selection(Selection::NoComponents) => advance_to(
                SessionState::AwaitingPrice {
                    device_name: device_name.clone(),
                    device_state: *device_state,
                    components: String::new(),
                },
            ),
            InboundEvent::Selection(_) => reject_with(
                state,
                hint_str(ValidationError::UnknownSelection),
            ),
            _ => reject_with(state, shape_hint_str()),
        },
        SessionState::AwaitingPrice { device_name, device_state, components } => match event {
            InboundEvent::Text(t) => match validate_price(t.as_str()) {
                Ok(v) => advance_to(
                    SessionState::AwaitingMeetingMethod {
                        device_name: device_name.clone(),
                        device_state: *device_state,
                        components: components.clone(),
                        price: v,
                    },
                ),
                Err(e) => reject_with(state, hint_str(e)),
            },
            InboundEvent::Selection(_) => reject_with(
                state,
                hint_str(ValidationError::UnknownSelection),
            ),
            _ => reject_with(state, shape_hint_str()),
        },
        SessionState::AwaitingMeetingMethod { device_name, device_state, components, price } => {
            match event {
                InboundEvent::Selection(sel) => match validate_meeting_choice(sel) {
                    Ok(m) => advance_to(
                        SessionState::AwaitingPhotos {
                            device_name: device_name.clone(),
                            device_state: *device_state,
                            components: components.clone(),
                            price: *price,
                            meeting_method: m,
                        },
                    ),
                    Err(e) => reject_with(state, hint_str(e)),
                },
                InboundEvent::Text(_) => reject_with(
                    state,
                    hint_str(ValidationError::UnknownSelection),
                ),
                _ => reject_with(state, shape_hint_str()),
            }
        },
        SessionState::AwaitingPhotos {
            device_name,
            device_state,
            components,
            price,
            meeting_method,
        } => match event {
            InboundEvent::Photos(ps) => match validate_photos(&ps) {
                Ok(_) => advance_to(
                    SessionState::AwaitingAdditionalInfo {
                        device_name: device_name.clone(),
                        device_state: *device_state,
                        components: components.clone(),
                        price: *price,
                        meeting_method: *meeting_method,
                        photos: ps,
                    },
                ),
                Err(e) => reject_with(state, hint_str(e)),
            },
            _ => reject_with(state, shape_hint_str()),
        },
        SessionState::AwaitingAdditionalInfo {
            device_name,
            device_state,
            components,
            price,
            meeting_method,
            photos,
        } => match event {
            InboundEvent::Text(t) => match validate_device_name(t.as_str()) {
                Ok(_) => advance_to(
                    SessionState::Complete {
                        device_name: device_name.clone(),
                        device_state: *device_state,
                        components: components.clone(),
                        price: *price,
                        meeting_method: *meeting_method,
                        photos: clone_photo_list(photos),
                        additional_info: t,
                    },
                ),
                Err(e) => reject_with(state, hint_str(e)),
            },
            InboundEvent::Selection(Selection::NoAdditionalInfo) => advance_to(
                SessionState::Complete {
                    device_name: device_name.clone(),
                    device_state: *device_state,
                    components: components.clone(),
                    price: *price,
                    meeting_method: *meeting_method,
                    photos: clone_photo_list(photos),
                    additional_info: String::new(),
                },
            ),
            InboundEvent::Selection(_) => reject_with(
                state,
                hint_str(ValidationError::UnknownSelection),
            ),
            _ => reject_with(state, shape_hint_str()),
        },
        // Excluded by the precondition; kept so the match stays total.
        SessionState::Complete { .. } => TransitionResult::Cancel,
    }
}

/// The executable shape hint, matching [`shape_hint`].
fn shape_hint_str() -> (h: &'static str)
    ensures
        h@ == shape_hint(),
{
    "A different kind of input is expected at this step. "
}

/// Copies a photo list; each reference keeps its characters.
fn clone_photo_list(photos: &Vec<String>) -> (r: Vec<String>)
    ensures
        r@ =~= photos@,
{
    let r = photos.clone();
    proof {
        assert forall|i: int| 0 <= i < r@.len() implies r@[i] == photos@[i] by {
            assert(vstd::pervasive::cloned::<String>(photos@[i], r@[i]));
        }
        assert(r@ =~= photos@);
    }
    r
}

/// Law: the state machine is deterministic. Any two results of the same
/// state and event are the same result.
pub proof fn lemma_transition_deterministic(
    s: StateView,
    e: EventView,
    r1: ResultView,
    r2: ResultView,
)
    requires
        r1 == spec_transition(s, e),
        r2 == spec_transition(s, e),
    ensures
        r1 == r2,
{
}

/// Law: cancelling is accepted from every non-terminal state, whatever
/// fields the session has accumulated, and yields destruction of the
/// session.
pub proof fn lemma_cancel_always_accepted(s: StateView)
    requires
        !(s is Complete),
    ensures
        spec_transition(s, EventView::Cancel) == ResultView::Cancel,
{
}

/// Law: an advance accumulates monotonically. From the opening state the
/// field set stays empty (the first step only asks the first question);
/// from every later state exactly one new validated field appears and all
/// earlier fields are kept unchanged.
pub proof fn lemma_advance_accumulates(s: StateView, e: EventView, nx: StateView)
    requires
        !(s is Complete),
        spec_transition(s, e) matches ResultView::Advance { next, .. } && next == nx,
    ensures
        s is Start ==> fields_of(nx) == fields_of(s),
        !(s is Start) ==> adds_exactly_one_field(fields_of(s), fields_of(nx)),
{
}

/// Law: no step is skipped and none is repeated. Every advance moves to
/// the state exactly one position further in the fixed sequence, so a
/// state is reachable only through its declared predecessor.
pub proof fn lemma_advance_steps_forward(s: StateView, e: EventView, nx: StateView)
    requires
        !(s is Complete),
        spec_transition(s, e) matches ResultView::Advance { next, .. } && next == nx,
    ensures
        step_index(nx) == step_index(s) + 1,
{
}

/// Law: a transition out of a well-formed state only ever advances into a
/// well-formed state, so no reachable state holds an unvalidated field.
pub proof fn lemma_transition_preserves_wf(s: StateView, e: EventView, nx: StateView)
    requires
        !(s is Complete),
        state_wf(s),
        spec_transition(s, e) matches ResultView::Advance { next, .. } && next == nx,
    ensures
        state_wf(nx),
{
}

} // verus!
