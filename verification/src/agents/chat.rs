//! The plain chat agent: one model, no tools.

use vstd::prelude::*;
use crate::agents::{Agent, AgentState, AgentStateView};
use crate::app_state::{AppState, AppStateView};
use crate::components::Component;
use crate::effects::{nothing, publish, published, ChatRequest, Effect, EffectView};
use crate::enums::{AgentEnum, BroadcastMsg, BroadcastMsgView, ChatMessage, OllamaModel};

verus! {

/// The system prompt that the agent starts with.
pub const SYS_MSG: &'static str = "You are personal assistant. You will answer every question without hesitation. Keep your answers concise and informative.";

/// The chat agent.
#[derive(Debug, PartialEq, Eq)]
pub struct ChatAgent {
    pub state: AgentState,
}

impl View for ChatAgent {
    type V = AgentStateView;

    open spec fn view(&self) -> AgentStateView {
        self.state@
    }
}

impl ChatAgent {
    /// The view of an agent that is not connected, not bound and has said nothing.
    pub open spec fn new_view() -> AgentStateView {
        AgentStateView {
            kind: AgentEnum::Chat,
            action_tx: false,
            app_state: false,
            models: Seq::empty(),
            active_model: None,
            history: Seq::empty(),
            coordinator: None,
            sys_msg: SYS_MSG@,
            pending: 0,
        }
    }

    pub fn new() -> (agent: Self)
        ensures
            agent@ == Self::new_view(),
    {
        ChatAgent { state: AgentState::new(AgentEnum::Chat, SYS_MSG.to_owned()) }
    }

    /// The user edited the system prompt.
    pub fn set_sys_msg(&mut self, sys_msg: String)
        ensures
            final(self)@ == (AgentStateView { sys_msg: sys_msg@, ..old(self)@ }),
    {
        self.state.sys_msg = sys_msg;
    }

    /// The user chose `model` in the model list. A choice that differs from
    /// the active model empties the history and binds the agent to it.
    pub fn select_model(&mut self, model: OllamaModel, app_state: &AppState) -> (effects: Vec<Effect>)
        ensures
            final(self)@ == old(self)@.with_active_model(model@, app_state@),
            effects.deep_view() == if old(self)@.active_model == Some(model@) {
                Seq::empty()
            } else {
                old(self)@.bound_effects(model@)
            },
            final(self)@.active_model != old(self)@.active_model ==> final(self)@.history.len()
                == 0,
    {
        self.state.select_model(model, app_state)
    }

    fn msg_to_coordinator(&mut self, msg: ChatMessage) -> (effects: Vec<Effect>)
        ensures
            final(self)@ == old(self)@.asked(),
            effects.deep_view() == old(self)@.asked_effects(msg@),
    {
        self.state.msg_to_coordinator(msg)
    }

    /// Takes the outcome of the chat `request`: `response` is the model's
    /// reply, or none if the round trip failed. A reply is announced as the
    /// chat response; a failure is passed over in silence. Either way the
    /// request is no longer under way.
    pub fn send_chat_msg(&mut self, request: ChatRequest, response: Option<ChatMessage>) -> (effects: Vec<
        Effect,
    >)
        ensures
            final(self)@ == old(self)@.answered(request@, response.deep_view()),
            effects.deep_view() == match response {
                Some(reply) => published(
                    old(self)@.action_tx,
                    BroadcastMsgView::GetChatReponse(reply@),
                ),
                None => Seq::empty(),
            },
    {
        self.state.settle(&request, &response);
        match response {
            Some(reply) => publish(self.state.action_tx, BroadcastMsg::GetChatReponse(reply)),
            None => nothing(),
        }
    }
}

impl Agent for ChatAgent {
    open spec fn kind() -> AgentEnum {
        AgentEnum::Chat
    }

    fn name(&self) -> (name: &'static str)
        ensures
            name@ == "chat"@,
    {
        "chat"
    }

    fn description(&self) -> (description: &'static str)
        ensures
            description@ == "Simple chat agent"@,
    {
        "Simple chat agent"
    }

    fn agent(&self) -> (kind: AgentEnum) {
        AgentEnum::Chat
    }

    fn select_agent(&mut self, agent: AgentEnum, app_state: &AppState) -> (effects: Vec<Effect>)
        ensures
            final(self)@ == old(self)@.selected(agent, app_state@),
            effects.deep_view() == old(self)@.selected_effects(agent, app_state@),
            final(self)@.history.len() == 0,
    {
        self.state.select_agent(agent, app_state)
    }

    fn send_selected_agent(&self) -> (effects: Vec<Effect>)
        ensures
            effects.deep_view() == published(
                self@.action_tx,
                BroadcastMsgView::SelectAgent(self@.kind),
            ),
    {
        self.state.send_selected_agent()
    }
}

impl Component for ChatAgent {
    open spec fn after(view: AgentStateView, msg: BroadcastMsgView, state: AppStateView) -> AgentStateView {
        match msg {
            BroadcastMsgView::SelectAgent(agent) => view.selected(agent, state),
            BroadcastMsgView::OllamaModels(models) => view.with_models(models, state),
            BroadcastMsgView::SendUserMessage(_) => view.asked(),
            _ => view,
        }
    }

    open spec fn effects(view: AgentStateView, msg: BroadcastMsgView, state: AppStateView) -> Seq<
        EffectView,
    > {
        match msg {
            BroadcastMsgView::SelectAgent(agent) => view.selected_effects(agent, state),
            BroadcastMsgView::OllamaModels(models) => view.with_models_effects(models, state),
            BroadcastMsgView::SendUserMessage(turn) => view.asked_effects(turn),
            _ => Seq::empty(),
        }
    }

    fn register_tx(&mut self)
        ensures
            final(self)@ == (AgentStateView { action_tx: true, ..old(self)@ }),
    {
        self.state.action_tx = true;
    }

    fn register_app_state(&mut self, app_state: &AppState)
        ensures
            final(self)@ == (AgentStateView { app_state: true, ..old(self)@ }),
    {
        self.state.app_state = true;
    }

    fn init(&mut self, app_state: &AppState) -> (effects: Vec<Effect>)
        ensures
            final(self)@ == old(self)@,
            effects.deep_view() == Seq::<EffectView>::empty(),
    {
        nothing()
    }

    fn update(&mut self, msg: BroadcastMsg, app_state: &AppState) -> (effects: Vec<Effect>)
        ensures
            final(self)@.active_model != old(self)@.active_model ==> final(self)@.history.len()
                == 0,
    {
        match msg {
            BroadcastMsg::SelectAgent(agent) => self.select_agent(agent, app_state),
            BroadcastMsg::OllamaModels(models) => self.state.set_models(models, app_state),
            BroadcastMsg::SendUserMessage(msg) => self.msg_to_coordinator(msg),
            _ => nothing(),
        }
    }
}

} // verus!
