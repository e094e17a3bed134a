//! The text field in which the user writes to the active agent.

use vstd::prelude::*;
use crate::app_state::{AppState, AppStateView};
use crate::components::Component;
use crate::effects::{nothing, publish, published, Effect, EffectView};
use crate::enums::{BroadcastMsg, BroadcastMsgView, ChatMessage, ChatMessageView, MessageRole};

verus! {

/// The field's cache: the text typed so far.
#[derive(Debug, PartialEq, Eq)]
pub struct ChatInput {
    /// Whether the field has been connected to the bus.
    pub action_tx: bool,
    pub input_text: String,
}

pub struct ChatInputView {
    pub action_tx: bool,
    pub input_text: Seq<char>,
}

impl View for ChatInput {
    type V = ChatInputView;

    open spec fn view(&self) -> ChatInputView {
        ChatInputView { action_tx: self.action_tx, input_text: self.input_text@ }
    }
}

/// The event that carries the user's message `text`.
pub open spec fn user_message(text: Seq<char>) -> BroadcastMsgView {
    BroadcastMsgView::SendUserMessage(ChatMessageView { role: MessageRole::User, content: text })
}

impl ChatInput {
    /// The view of a fresh value: not connected, with nothing cached.
    pub open spec fn new_view() -> ChatInputView {
        ChatInputView { action_tx: false, input_text: Seq::empty() }
    }

    pub fn new() -> (input: Self)
        ensures
            input@ == Self::new_view(),
    {
        ChatInput { action_tx: false, input_text: String::new() }
    }

    fn send_user_msg(&self, msg: String) -> (effects: Vec<Effect>)
        ensures
            effects.deep_view() == published(self@.action_tx, user_message(msg@)),
    {
        publish(self.action_tx, BroadcastMsg::SendUserMessage(ChatMessage::user(msg)))
    }

    /// The user pressed Enter or "send": the text goes out as a user message
    /// and the field is emptied.
    pub fn submit(&mut self) -> (effects: Vec<Effect>)
        ensures
            final(self)@ == (ChatInputView { input_text: Seq::empty(), ..old(self)@ }),
            effects.deep_view() == published(
                old(self)@.action_tx,
                user_message(old(self)@.input_text),
            ),
    {
        let effects = self.send_user_msg(self.input_text.clone());
        self.input_text = String::new();
        effects
    }
}

impl Component for ChatInput {
    open spec fn after(view: ChatInputView, msg: BroadcastMsgView, state: AppStateView) -> ChatInputView {
        view
    }

    open spec fn effects(view: ChatInputView, msg: BroadcastMsgView, state: AppStateView) -> Seq<
        EffectView,
    > {
        Seq::empty()
    }

    fn register_tx(&mut self)
        ensures
            final(self)@ == (ChatInputView { action_tx: true, ..old(self)@ }),
    {
        self.action_tx = true;
    }

    fn register_app_state(&mut self, app_state: &AppState)
        ensures
            final(self)@ == old(self)@,
    {
    }

    fn init(&mut self, app_state: &AppState) -> (effects: Vec<Effect>)
        ensures
            final(self)@ == old(self)@,
            effects.deep_view() == Seq::<EffectView>::empty(),
    {
        nothing()
    }

    fn update(&mut self, _msg: BroadcastMsg, app_state: &AppState) -> (effects: Vec<Effect>) {
        nothing()
    }
}

} // verus!
