//! The entry points of the HTTP service, as far as they compute.

use crate::interactions::dispatch::{Action, DispatchState, Dispatcher, Event, StateView, StatusCode};
use crate::model::interaction::Interaction;
use vstd::prelude::*;

verus! {

/// The body of the health check.
pub fn health() -> (r: &'static str)
    ensures
        r@ == "OK"@,
{
    "OK"
}

/// Takes a request through authentication, decoding and routing, up to the
/// first action that needs outside work or answers the request. `decode` reads
/// the body as an interaction; it runs only on a body whose signature has been
/// verified, and at most once.
pub fn interaction_callback<F: FnOnce(&Vec<u8>) -> Option<Interaction>>(
    dispatcher: &Dispatcher,
    signature: Option<String>,
    timestamp: Option<String>,
    body: Vec<u8>,
    decode: F,
) -> (r: (DispatchState, Action))
    requires
        call_requires(decode, (&body,)),
    ensures
        ({
            let arrived = dispatcher.next(
                StateView::Received,
                Event::Request { signature, timestamp, body },
            );
            if arrived.0 is Verified {
                exists|decoded: Option<Interaction>|
                    {
                        &&& #[trigger] call_ensures(decode, (&body,), decoded)
                        &&& (r.0.deep_view(), r.1.deep_view()) == dispatcher.next(
                            StateView::Verified,
                            Event::Decoded(decoded),
                        )
                    }
            } else {
                (r.0.deep_view(), r.1.deep_view()) == arrived
            }
        }),
{
    match (&signature, &timestamp) {
        (Some(s), Some(t)) => {
            if dispatcher.verifier.verify(s.as_str(), t.as_str(), body.as_slice()).is_err() {
                return (DispatchState::Rejected, Action::Reject(StatusCode::Unauthorized));
            }
        },
        _ => {
            return (DispatchState::Rejected, Action::Reject(StatusCode::BadRequest));
        },
    }
    let decoded = decode(&body);
    let r = dispatcher.step(DispatchState::Verified, Event::Decoded(decoded));
    assert(call_ensures(decode, (&body,), decoded) && (r.0.deep_view(), r.1.deep_view())
        == dispatcher.next(StateView::Verified, Event::Decoded(decoded)));
    r
}

} // verus!
