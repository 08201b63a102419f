//! The per-user dialogue state: one variant per step of the intake flow.

use vstd::prelude::*;

use crate::event::{views_of, MeetingMethod};
use crate::validate::has_visible_char;

verus! {

/// The conversation state of one session. Each variant carries exactly the
/// fields validated by the steps already passed, so a state with a later
/// field but a missing earlier one is unrepresentable.
#[derive(Debug, PartialEq, Eq)]
pub enum SessionState {
    /// No question asked yet.
    Start,
    /// The user was asked for the device name.
    AwaitingDeviceName,
    /// The user was asked for the condition rating.
    AwaitingDeviceState { device_name: String },
    /// The user was asked which components are included.
    AwaitingComponents { device_name: String, device_state: u8 },
    /// The user was asked for the price.
    AwaitingPrice { device_name: String, device_state: u8, components: String },
    /// The user was asked how to organize the meeting.
    AwaitingMeetingMethod {
        device_name: String,
        device_state: u8,
        components: String,
        price: u64,
    },
    /// The user was asked for photos.
    AwaitingPhotos {
        device_name: String,
        device_state: u8,
        components: String,
        price: u64,
        meeting_method: MeetingMethod,
    },
    /// The user was asked for additional information.
    AwaitingAdditionalInfo {
        device_name: String,
        device_state: u8,
        components: String,
        price: u64,
        meeting_method: MeetingMethod,
        photos: Vec<String>,
    },
    /// Terminal: every field collected; the session is ready to be
    /// assembled into a listing and destroyed.
    Complete {
        device_name: String,
        device_state: u8,
        components: String,
        price: u64,
        meeting_method: MeetingMethod,
        photos: Vec<String>,
        additional_info: String,
    },
}

/// The mathematical shape of a [`SessionState`]: strings become character
/// sequences, the photo list a sequence of such sequences.
pub enum StateView {
    Start,
    AwaitingDeviceName,
    AwaitingDeviceState { device_name: Seq<char> },
    AwaitingComponents { device_name: Seq<char>, device_state: u8 },
    AwaitingPrice { device_name: Seq<char>, device_state: u8, components: Seq<char> },
    AwaitingMeetingMethod {
        device_name: Seq<char>,
        device_state: u8,
        components: Seq<char>,
        price: u64,
    },
    AwaitingPhotos {
        device_name: Seq<char>,
        device_state: u8,
        components: Seq<char>,
        price: u64,
        meeting_method: MeetingMethod,
    },
    AwaitingAdditionalInfo {
        device_name: Seq<char>,
        device_state: u8,
        components: Seq<char>,
        price: u64,
        meeting_method: MeetingMethod,
        photos: Seq<Seq<char>>,
    },
    Complete {
        device_name: Seq<char>,
        device_state: u8,
        components: Seq<char>,
        price: u64,
        meeting_method: MeetingMethod,
        photos: Seq<Seq<char>>,
        additional_info: Seq<char>,
    },
}

impl View for SessionState {
    type V = StateView;

    open spec fn view(&self) -> StateView {
        match self {
            SessionState::Start => StateView::Start,
            SessionState::AwaitingDeviceName => StateView::AwaitingDeviceName,
            SessionState::AwaitingDeviceState { device_name } => StateView::AwaitingDeviceState {
                device_name: device_name@,
            },
            SessionState::AwaitingComponents { device_name, device_state } => {
                StateView::AwaitingComponents {
                    device_name: device_name@,
                    device_state: *device_state,
                }
            },
            SessionState::AwaitingPrice { device_name, device_state, components } => {
                StateView::AwaitingPrice {
                    device_name: device_name@,
                    device_state: *device_state,
                    components: components@,
                }
            },
            SessionState::AwaitingMeetingMethod { device_name, device_state, components, price } => {
                StateView::AwaitingMeetingMethod {
                    device_name: device_name@,
                    device_state: *device_state,
                    components: components@,
                    price: *price,
                }
            },
            SessionState::AwaitingPhotos {
                device_name,
                device_state,
                components,
                price,
                meeting_method,
            } => StateView::AwaitingPhotos {
                device_name: device_name@,
                device_state: *device_state,
                components: components@,
                price: *price,
                meeting_method: *meeting_method,
            },
            SessionState::AwaitingAdditionalInfo {
                device_name,
                device_state,
                components,
                price,
                meeting_method,
                photos,
            } => StateView::AwaitingAdditionalInfo {
                device_name: device_name@,
                device_state: *device_state,
                components: components@,
                price: *price,
                meeting_method: *meeting_method,
                photos: views_of(photos@),
            },
            SessionState::Complete {
                device_name,
                device_state,
                components,
                price,
                meeting_method,
                photos,
                additional_info,
            } => StateView::Complete {
                device_name: device_name@,
                device_state: *device_state,
                components: components@,
                price: *price,
                meeting_method: *meeting_method,
                photos: views_of(photos@),
                additional_info: additional_info@,
            },
        }
    }
}

impl SessionState {
    /// Whether the session has reached its terminal state. Exposed as an
    /// executable test so unverified callers can guard calls whose
    /// contracts exclude terminal states.
    pub fn is_complete(&self) -> (b: bool)
        ensures
            b == (self@ is Complete),
    {
        match self {
            SessionState::Complete { .. } => true,
            _ => false,
        }
    }
}

/// The accumulated fields of a state, each present or absent. The
/// per-variant field lists above collapse into this record for stating
/// how a transition grows the field set.
pub struct FieldsView {
    pub device_name: Option<Seq<char>>,
    pub device_state: Option<u8>,
    pub components: Option<Seq<char>>,
    pub price: Option<u64>,
    pub meeting_method: Option<MeetingMethod>,
    pub photos: Option<Seq<Seq<char>>>,
    pub additional_info: Option<Seq<char>>,
}

/// The fields a state has accumulated so far.
pub open spec fn fields_of(s: StateView) -> FieldsView {
    match s {
        StateView::Start | StateView::AwaitingDeviceName => FieldsView {
            device_name: None,
            device_state: None,
            components: None,
            price: None,
            meeting_method: None,
            photos: None,
            additional_info: None,
        },
        StateView::AwaitingDeviceState { device_name } => FieldsView {
            device_name: Some(device_name),
            device_state: None,
            components: None,
            price: None,
            meeting_method: None,
            photos: None,
            additional_info: None,
        },
        StateView::AwaitingComponents { device_name, device_state } => FieldsView {
            device_name: Some(device_name),
            device_state: Some(device_state),
            components: None,
            price: None,
            meeting_method: None,
            photos: None,
            additional_info: None,
        },
        StateView::AwaitingPrice { device_name, device_state, components } => FieldsView {
            device_name: Some(device_name),
            device_state: Some(device_state),
            components: Some(components),
            price: None,
            meeting_method: None,
            photos: None,
            additional_info: None,
        },
        StateView::AwaitingMeetingMethod { device_name, device_state, components, price } => {
            FieldsView {
                device_name: Some(device_name),
                device_state: Some(device_state),
                components: Some(components),
                price: Some(price),
                meeting_method: None,
                photos: None,
                additional_info: None,
            }
        },
        StateView::AwaitingPhotos {
            device_name,
            device_state,
            components,
            price,
            meeting_method,
        } => FieldsView {
            device_name: Some(device_name),
            device_state: Some(device_state),
            components: Some(components),
            price: Some(price),
            meeting_method: Some(meeting_method),
            photos: None,
            additional_info: None,
        },
        StateView::AwaitingAdditionalInfo {
            device_name,
            device_state,
            components,
            price,
            meeting_method,
            photos,
        } => FieldsView {
            device_name: Some(device_name),
            device_state: Some(device_state),
            components: Some(components),
            price: Some(price),
            meeting_method: Some(meeting_method),
            photos: Some(photos),
            additional_info: None,
        },
        StateView::Complete {
            device_name,
            device_state,
            components,
            price,
            meeting_method,
            photos,
            additional_info,
        } => FieldsView {
            device_name: Some(device_name),
            device_state: Some(device_state),
            components: Some(components),
            price: Some(price),
            meeting_method: Some(meeting_method),
            photos: Some(photos),
            additional_info: Some(additional_info),
        },
    }
}

/// The position of a state in the fixed sequence of steps, from the
/// opening state to the terminal one.
pub open spec fn step_index(s: StateView) -> int {
    match s {
        StateView::Start => 0,
        StateView::AwaitingDeviceName => 1,
        StateView::AwaitingDeviceState { .. } => 2,
        StateView::AwaitingComponents { .. } => 3,
        StateView::AwaitingPrice { .. } => 4,
        StateView::AwaitingMeetingMethod { .. } => 5,
        StateView::AwaitingPhotos { .. } => 6,
        StateView::AwaitingAdditionalInfo { .. } => 7,
        StateView::Complete { .. } => 8,
    }
}

/// The second field record extends the first by exactly one field: one
/// absent field becomes present, every other field is kept as it was.
pub open spec fn adds_exactly_one_field(a: FieldsView, b: FieldsView) -> bool {
    ||| {
        &&& a.device_name is None && b.device_name is Some
        &&& b.device_state == a.device_state
        &&& b.components == a.components
        &&& b.price == a.price
        &&& b.meeting_method == a.meeting_method
        &&& b.photos == a.photos
        &&& b.additional_info == a.additional_info
    }
    ||| {
        &&& b.device_name == a.device_name
        &&& a.device_state is None && b.device_state is Some
        &&& b.components == a.components
        &&& b.price == a.price
        &&& b.meeting_method == a.meeting_method
        &&& b.photos == a.photos
        &&& b.additional_info == a.additional_info
    }
    ||| {
        &&& b.device_name == a.device_name
        &&& b.device_state == a.device_state
        &&& a.components is None && b.components is Some
        &&& b.price == a.price
        &&& b.meeting_method == a.meeting_method
        &&& b.photos == a.photos
        &&& b.additional_info == a.additional_info
    }
    ||| {
        &&& b.device_name == a.device_name
        &&& b.device_state == a.device_state
        &&& b.components == a.components
        &&& a.price is None && b.price is Some
        &&& b.meeting_method == a.meeting_method
        &&& b.photos == a.photos
        &&& b.additional_info == a.additional_info
    }
    ||| {
        &&& b.device_name == a.device_name
        &&& b.device_state == a.device_state
        &&& b.components == a.components
        &&& b.price == a.price
        &&& a.meeting_method is None && b.meeting_method is Some
        &&& b.photos == a.photos
        &&& b.additional_info == a.additional_info
    }
    ||| {
        &&& b.device_name == a.device_name
        &&& b.device_state == a.device_state
        &&& b.components == a.components
        &&& b.price == a.price
        &&& b.meeting_method == a.meeting_method
        &&& a.photos is None && b.photos is Some
        &&& b.additional_info == a.additional_info
    }
    ||| {
        &&& b.device_name == a.device_name
        &&& b.device_state == a.device_state
        &&& b.components == a.components
        &&& b.price == a.price
        &&& b.meeting_method == a.meeting_method
        &&& b.photos == a.photos
        &&& a.additional_info is None && b.additional_info is Some
    }
}

/// Every field a state carries satisfies the validation of the step that
/// produced it: the device name shows something, the rating lies on the
/// five-point scale, at least one photo was attached. Established at
/// every transition, so no reachable state holds an unvalidated field.
pub open spec fn state_wf(s: StateView) -> bool {
    let f = fields_of(s);
    &&& (f.device_name matches Some(dn) ==> has_visible_char(dn))
    &&& (f.device_state matches Some(r) ==> 1 <= r <= 5)
    &&& (f.photos matches Some(ps) ==> ps.len() >= 1)
}

} // verus!
