//! The stateful parts of the user interface.
//!
//! A component keeps a local cache that selected bus events fill. Drawing is
//! the host's business: it reads the cache, and reports what the user did by
//! calling the component's methods.

use vstd::prelude::*;
use crate::app_state::{AppState, AppStateView};
use crate::config::{FALLBACK_HOST, FALLBACK_PORT};
use crate::effects::{Effect, EffectView};
use crate::enums::{BroadcastMsg, BroadcastMsgView};
use crate::text::{last_index, parse_port, parse_u16, rfind, substring, to_chars};

pub mod agents_panel;
pub mod bottom_panel;
pub mod chat_input;
pub mod file_loader;
pub mod labels;
pub mod main_panel;
pub mod messages;
pub mod ollama_settings;
pub mod top_menu;
pub mod top_panel;

verus! {

/// The host and port that `url` names: what stands before its last colon,
/// and the port number that stands after it, if that is one.
pub open spec fn endpoint(url: Seq<char>) -> Option<(Seq<char>, u16)> {
    let colon = last_index(url, ':');
    if colon < 0 {
        None
    } else {
        match parse_u16(url.skip(colon + 1)) {
            Some(port) => Some((url.take(colon), port)),
            None => None,
        }
    }
}

/// The host and port at which the inference server is reached: those of the
/// configured address, or the fallback if there is no state or its address
/// does not end in a port.
pub open spec fn ollama_endpoint(state: Option<AppStateView>) -> (Seq<char>, u16) {
    match state {
        Some(shared) => match endpoint(shared.ollama_state.url) {
            Some(found) => found,
            None => (FALLBACK_HOST@, FALLBACK_PORT),
        },
        None => (FALLBACK_HOST@, FALLBACK_PORT),
    }
}

/// Splits the configured server address into host and port.
pub fn get_ollama_url(app_state: Option<&AppState>) -> (found: (String, u16))
    ensures
        (found.0@, found.1) == ollama_endpoint(app_state.deep_view()),
{
    if let Some(state) = app_state {
        let url = state.ollama_state.url.as_str();
        let chars = to_chars(url);
        if let Some(colon) = rfind(&chars, ':') {
            if let Some(port) = parse_port(&chars, colon + 1) {
                assert(chars@.take(colon as int) == chars@.subrange(0, colon as int));
                return (substring(url, 0, colon), port);
            }
        }
    }
    (FALLBACK_HOST.to_owned(), FALLBACK_PORT)
}

/// A part of the user interface that takes part in the event fan-out.
pub trait Component: View + Sized {
    /// The component after the event `msg`, `state` being the shared state
    /// that has already seen it.
    spec fn after(view: Self::V, msg: BroadcastMsgView, state: AppStateView) -> Self::V;

    /// What the component asks of the host in answer to `msg`.
    spec fn effects(view: Self::V, msg: BroadcastMsgView, state: AppStateView) -> Seq<EffectView>;

    /// Connects the component to the bus. Until then it emits nothing.
    fn register_tx(&mut self);

    /// Connects the component to the shared state. Until then it acts as if
    /// that state were absent.
    fn register_app_state(&mut self, app_state: &AppState);

    /// Starts the component once it is connected.
    fn init(&mut self, app_state: &AppState) -> Vec<Effect>;

    /// Handles one bus event. Every event is accepted; one that does not
    /// concern the component leaves it unchanged.
    fn update(&mut self, msg: BroadcastMsg, app_state: &AppState) -> (effects: Vec<Effect>)
        ensures
            final(self)@ == Self::after(old(self)@, msg@, app_state@),
            effects.deep_view() == Self::effects(old(self)@, msg@, app_state@),
    ;
}

} // verus!
