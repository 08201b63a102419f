//! The listing assembler: projects a completed session into the immutable
//! record handed to the downstream posting collaborator.

use vstd::prelude::*;

use crate::event::{views_of, MeetingMethod};
use crate::state::{state_wf, SessionState, StateView};
use crate::validate::has_visible_char;

verus! {

/// The finalized, fully populated output of a completed session. Created
/// once, at session completion; the session is destroyed immediately
/// afterwards, so at most one listing arises per completed session.
#[derive(Debug, PartialEq, Eq)]
pub struct Listing {
    pub device_name: String,
    /// The condition rating on the five-point scale.
    pub device_state: u8,
    /// Free text; empty when the seller chose the "no components" marker.
    pub components: String,
    /// The price in minor units (hundredths).
    pub price: u64,
    pub meeting_method: MeetingMethod,
    /// Ordered photo references; at least one.
    pub photos: Vec<String>,
    /// Free text; empty when the seller chose the "no additional info"
    /// marker.
    pub additional_info: String,
}

/// The mathematical shape of a [`Listing`].
pub struct ListingView {
    pub device_name: Seq<char>,
    pub device_state: u8,
    pub components: Seq<char>,
    pub price: u64,
    pub meeting_method: MeetingMethod,
    pub photos: Seq<Seq<char>>,
    pub additional_info: Seq<char>,
}

impl View for Listing {
    type V = ListingView;

    open spec fn view(&self) -> ListingView {
        ListingView {
            device_name: self.device_name@,
            device_state: self.device_state,
            components: self.components@,
            price: self.price,
            meeting_method: self.meeting_method,
            photos: views_of(self.photos@),
            additional_info: self.additional_info@,
        }
    }
}

/// The listing a completed state projects to: field for field, no loss,
/// no transformation.
pub open spec fn listing_of(s: StateView) -> ListingView
    recommends
        s is Complete,
{
    match s {
        StateView::Complete {
            device_name,
            device_state,
            components,
            price,
            meeting_method,
            photos,
            additional_info,
        } => ListingView {
            device_name,
            device_state,
            components,
            price,
            meeting_method,
            photos,
            additional_info,
        },
        _ => ListingView {
            device_name: Seq::empty(),
            device_state: 0,
            components: Seq::empty(),
            price: 0,
            meeting_method: MeetingMethod::Pickup,
            photos: Seq::empty(),
            additional_info: Seq::empty(),
        },
    }
}

/// The validity a listing inherits from the session that produced it.
pub open spec fn listing_wf(l: ListingView) -> bool {
    &&& has_visible_char(l.device_name)
    &&& 1 <= l.device_state <= 5
    &&& l.photos.len() >= 1
}

/// Converts a completed session into its listing. A pure projection,
/// total and deterministic over completed states: the listing's fields
/// are exactly the state's fields. Invoking it on a non-terminal state is
/// a programmer error and excluded by the precondition.
pub fn assemble(state: SessionState) -> (l: Listing)
    requires
        state@ is Complete,
    ensures
        l@ == listing_of(state@),
        state_wf(state@) ==> listing_wf(l@),
{
    match state {
        SessionState::Complete {
            device_name,
            device_state,
            components,
            price,
            meeting_method,
            photos,
            additional_info,
        } => Listing {
            device_name,
            device_state,
            components,
            price,
            meeting_method,
            photos,
            additional_info,
        },
        // Excluded by the precondition; kept so the match stays total.
        _ => Listing {
            device_name: String::new(),
            device_state: 0,
            components: String::new(),
            price: 0,
            meeting_method: MeetingMethod::Pickup,
            photos: Vec::new(),
            additional_info: String::new(),
        },
    }
}

/// Law: assembly loses nothing and transforms nothing. Each field of the
/// listing of a completed state equals the state's field of the same name.
pub proof fn lemma_assemble_projects(s: StateView)
    requires
        s is Complete,
    ensures
        listing_of(s).device_name == s->Complete_device_name,
        listing_of(s).device_state == s->Complete_device_state,
        listing_of(s).components == s->Complete_components,
        listing_of(s).price == s->Complete_price,
        listing_of(s).meeting_method == s->Complete_meeting_method,
        listing_of(s).photos == s->Complete_photos,
        listing_of(s).additional_info == s->Complete_additional_info,
{
}

} // verus!
