//! The bottom panel, which holds the chat input.

use vstd::prelude::*;
use crate::app_state::{AppState, AppStateView};
use crate::components::chat_input::{user_message, ChatInput, ChatInputView};
use crate::components::Component;
use crate::effects::{nothing, published, Effect, EffectView};
use crate::enums::{BroadcastMsg, BroadcastMsgView};

verus! {

#[derive(Debug, PartialEq, Eq)]
pub struct ChatBottomPanel {
    action_tx: bool,
    chat_input: ChatInput,
}

pub struct ChatBottomPanelView {
    pub action_tx: bool,
    pub chat_input: ChatInputView,
}

impl View for ChatBottomPanel {
    type V = ChatBottomPanelView;

    closed spec fn view(&self) -> ChatBottomPanelView {
        ChatBottomPanelView { action_tx: self.action_tx, chat_input: self.chat_input@ }
    }
}

impl ChatBottomPanel {
    /// The view of a fresh value: not connected, with nothing cached.
    pub open spec fn new_view() -> ChatBottomPanelView {
        ChatBottomPanelView {
            action_tx: false,
            chat_input: ChatInputView { action_tx: false, input_text: Seq::empty() },
        }
    }

    pub fn new() -> (panel: Self)
        ensures
            panel@ == Self::new_view(),
    {
        ChatBottomPanel { action_tx: false, chat_input: ChatInput::new() }
    }

    /// The text typed so far.
    pub fn input_text(&self) -> (text: &String)
        ensures
            text@ == self@.chat_input.input_text,
    {
        &self.chat_input.input_text
    }

    /// The user edited the chat input.
    pub fn set_input_text(&mut self, text: String)
        ensures
            final(self)@ == (ChatBottomPanelView {
                chat_input: ChatInputView { input_text: text@, ..old(self)@.chat_input },
                ..old(self)@
            }),
    {
        self.chat_input.input_text = text;
    }

    /// The user sent what the chat input holds.
    pub fn submit(&mut self) -> (effects: Vec<Effect>)
        ensures
            final(self)@ == (ChatBottomPanelView {
                chat_input: ChatInputView { input_text: Seq::empty(), ..old(self)@.chat_input },
                ..old(self)@
            }),
            effects.deep_view() == published(
                old(self)@.chat_input.action_tx,
                user_message(old(self)@.chat_input.input_text),
            ),
    {
        self.chat_input.submit()
    }
}

impl Component for ChatBottomPanel {
    open spec fn after(
        view: ChatBottomPanelView,
        msg: BroadcastMsgView,
        state: AppStateView,
    ) -> ChatBottomPanelView {
        view
    }

    open spec fn effects(
        view: ChatBottomPanelView,
        msg: BroadcastMsgView,
        state: AppStateView,
    ) -> Seq<EffectView> {
        Seq::empty()
    }

    fn register_tx(&mut self)
        ensures
            final(self)@ == (ChatBottomPanelView {
                action_tx: true,
                chat_input: ChatInputView { action_tx: true, ..old(self)@.chat_input },
            }),
    {
        self.chat_input.register_tx();
        self.action_tx = true;
    }

    fn register_app_state(&mut self, app_state: &AppState)
        ensures
            final(self)@ == old(self)@,
    {
    }

    fn init(&mut self, app_state: &AppState) -> (effects: Vec<Effect>)
        ensures
            final(self)@ == old(self)@,
            effects.deep_view() == Seq::<EffectView>::empty(),
    {
        nothing()
    }

    fn update(&mut self, msg: BroadcastMsg, app_state: &AppState) -> (effects: Vec<Effect>) {
        self.chat_input.update(msg, app_state)
    }
}

} // verus!
