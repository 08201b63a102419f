//! Inbound events and outbound prompts exchanged with the transport.

use vstd::prelude::*;

verus! {

/// The view of a sequence of strings: each element abstracted to its
/// character sequence.
pub open spec fn views_of(v: Seq<String>) -> Seq<Seq<char>> {
    v.map_values(|s: String| s@)
}

/// A closed choice the transport can offer as a selectable control.
/// Closed-choice steps (the condition rating, the meeting method, the
/// "none" markers) are answered with one of these tags, never with free
/// text, so every answer to such a step is classifiable.
#[derive(Clone, Copy, Debug, PartialEq, Eq)]
pub enum Selection {
    /// The buyer picks the item up.
    Pickup,
    /// Seller and buyer can meet.
    CanMeet,
    /// A condition rating on the five-point scale.
    Rating(u8),
    /// The seller has no components to include.
    NoComponents,
    /// The seller has no additional information to give.
    NoAdditionalInfo,
}

/// How the handover of a sold item is organized.
#[derive(Clone, Copy, Debug, PartialEq, Eq)]
pub enum MeetingMethod {
    Pickup,
    CanMeet,
}

/// One message arriving from the transport, tagged with its shape.
#[derive(Debug, PartialEq, Eq, Clone)]
pub enum InboundEvent {
    /// Free text typed by the user.
    Text(String),
    /// A selectable control the user pressed.
    Selection(Selection),
    /// One or more photo attachments, each an opaque reference.
    Photos(Vec<String>),
    /// The out-of-band request to abandon the session.
    Cancel,
}

/// The mathematical shape of an [`InboundEvent`]: strings become
/// character sequences.
pub enum EventView {
    Text(Seq<char>),
    Selection(Selection),
    Photos(Seq<Seq<char>>),
    Cancel,
}

impl View for InboundEvent {
    type V = EventView;

    open spec fn view(&self) -> EventView {
        match self {
            InboundEvent::Text(t) => EventView::Text(t@),
            InboundEvent::Selection(sel) => EventView::Selection(*sel),
            InboundEvent::Photos(ps) => EventView::Photos(views_of(ps@)),
            InboundEvent::Cancel => EventView::Cancel,
        }
    }
}

/// One message to send back to the user. For closed-choice steps the
/// prompt always carries `choices`, so the transport can render selectable
/// controls instead of inviting free text.
#[derive(Debug, PartialEq, Eq, Clone)]
pub struct OutboundPrompt {
    pub text: String,
    pub choices: Option<Vec<String>>,
}

/// The mathematical shape of an [`OutboundPrompt`].
pub struct PromptView {
    pub text: Seq<char>,
    pub choices: Option<Seq<Seq<char>>>,
}

impl View for OutboundPrompt {
    type V = PromptView;

    open spec fn view(&self) -> PromptView {
        PromptView {
            text: self.text@,
            choices: match &self.choices {
                Some(cs) => Some(views_of(cs@)),
                None => None,
            },
        }
    }
}

} // verus!
