//! The conversation controller: loads a user's session, runs the state
//! machine, persists the outcome, and says what to send back. All decision
//! logic lives in the state machine and the validators; this is the only
//! place sessions are read or written.

use vstd::prelude::*;

use crate::event::{EventView, InboundEvent, OutboundPrompt, PromptView};
use crate::listing::{assemble, listing_of, listing_wf, Listing, ListingView};
use crate::machine::{
    lemma_transition_preserves_wf, spec_transition, transition, ResultView, TransitionResult,
};
use crate::state::{state_wf, SessionState, StateView};
use crate::store::{store_wf, SessionStore, UserId};

verus! {

/// What handling one inbound event produced for the transport.
#[derive(Debug, PartialEq, Eq)]
pub enum HandleOutcome {
    /// The session advanced: send the next step's question.
    Prompt(OutboundPrompt),
    /// The input failed validation: send the reprompt; nothing was
    /// persisted.
    Reprompt(OutboundPrompt),
    /// The user cancelled: the session is deleted, no listing produced.
    Cancelled,
    /// The session reached its terminal state: the finished listing, ready
    /// for the downstream posting collaborator. The session is deleted.
    Completed(Listing),
}

/// The mathematical shape of a [`HandleOutcome`].
pub enum OutcomeView {
    Prompt(PromptView),
    Reprompt(PromptView),
    Cancelled,
    Completed(ListingView),
}

impl View for HandleOutcome {
    type V = OutcomeView;

    open spec fn view(&self) -> OutcomeView {
        match self {
            HandleOutcome::Prompt(p) => OutcomeView::Prompt(p@),
            HandleOutcome::Reprompt(p) => OutcomeView::Reprompt(p@),
            HandleOutcome::Cancelled => OutcomeView::Cancelled,
            HandleOutcome::Completed(l) => OutcomeView::Completed(l@),
        }
    }
}

/// The state an event finds: the stored session, or the opening state for
/// a user without one.
pub open spec fn loaded_state(m: Map<UserId, StateView>, user: UserId) -> StateView {
    if m.contains_key(user) {
        m[user]
    } else {
        StateView::Start
    }
}

/// The whole effect of handling one event: how the store changes and what
/// the transport receives, as dictated by the state machine's verdict on
/// the loaded state.
pub open spec fn handle_post(
    pre: Map<UserId, StateView>,
    post: Map<UserId, StateView>,
    user: UserId,
    e: EventView,
    r: OutcomeView,
) -> bool {
    match spec_transition(loaded_state(pre, user), e) {
        ResultView::Advance { next, prompt } => if next is Complete {
            &&& r matches OutcomeView::Completed(l) && l == listing_of(next)
            &&& post == pre.remove(user)
        } else {
            &&& r matches OutcomeView::Prompt(p) && p == prompt
            &&& post == pre.insert(user, next)
        },
        ResultView::Reject { reprompt } => {
            &&& r matches OutcomeView::Reprompt(p) && p == reprompt
            &&& post == pre
        },
        ResultView::Cancel => {
            &&& r is Cancelled
            &&& post == pre.remove(user)
        },
    }
}

/// Handles one inbound event for one user: load the session (opening a new
/// one if absent), run the state machine, persist on advance, delete on
/// cancel or completion, persist nothing on rejection.
pub fn handle(store: &mut SessionStore, user: UserId, event: InboundEvent) -> (r: HandleOutcome)
    requires
        store_wf(old(store)@),
    ensures
        store_wf(final(store)@),
        handle_post(old(store)@, final(store)@, user, event@, r@),
        r@ matches OutcomeView::Completed(l) ==> listing_wf(l),
{
    let ghost pre = store@;
    let current = match store.take(user) {
        Some(state) => state,
        None => SessionState::Start,
    };
    let ghost s0 = current@;
    proof {
        assert(s0 == loaded_state(pre, user));
        assert(!(s0 is Complete));
        assert(state_wf(s0));
    }
    match transition(&current, event) {
        TransitionResult::Advance { next_state, outbound_prompt } => {
            proof {
                lemma_transition_preserves_wf(s0, event@, next_state@);
            }
            if next_state.is_complete() {
                let listing = assemble(next_state);
                HandleOutcome::Completed(listing)
            } else {
                let ghost nxt = next_state@;
                store.put(user, next_state);
                proof {
                    assert(final(store)@ =~= pre.insert(user, nxt));
                }
                HandleOutcome::Prompt(outbound_prompt)
            }
        },
        TransitionResult::Reject { reprompt } => {
            // A rejection can only arise past the opening state, so the
            // session that was taken out existed and is put back unchanged.
            store.put(user, current);
            proof {
                assert(pre.contains_key(user));
                assert(final(store)@ =~= pre);
            }
            HandleOutcome::Reprompt(reprompt)
        },
        TransitionResult::Cancel => HandleOutcome::Cancelled,
    }
}

/// Law: a rejected input leaves no trace. Handling an event the machine
/// rejects changes no stored session, so re-issuing the same invalid input
/// meets the same state again and yields the very same rejection.
pub proof fn lemma_reject_is_stable(
    pre: Map<UserId, StateView>,
    post1: Map<UserId, StateView>,
    post2: Map<UserId, StateView>,
    user: UserId,
    e: EventView,
    r1: OutcomeView,
    r2: OutcomeView,
)
    requires
        spec_transition(loaded_state(pre, user), e) is Reject,
        handle_post(pre, post1, user, e, r1),
        handle_post(post1, post2, user, e, r2),
    ensures
        post1 == pre,
        post2 == pre,
        r2 == r1,
{
}

} // verus!
