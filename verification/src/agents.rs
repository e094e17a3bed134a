//! The conversational pipelines.
//!
//! Each agent owns a connection handle to the inference server and a
//! conversation history. A user message makes it ask the host for one round
//! trip; the host reports the outcome, and the agent turns it into bus events.

use vstd::prelude::*;
use crate::app_state::{AppState, AppStateView};
use crate::components::{get_ollama_url, ollama_endpoint, Component};
use crate::effects::{
    nothing, only, publish, published, ChatRequest, ChatRequestView, Effect, EffectView,
};
use crate::enums::{
    has_model, AgentEnum, BroadcastMsg, BroadcastMsgView, ChatMessage, ChatMessageView,
    MessageRole, OllamaModel, OllamaModelView,
};
use crate::text::{blank, is_blank, str_eq};

pub mod chat;
pub mod images;
pub mod web_scrape;

verus! {

/// A connection handle: the server to talk to and the model bound to it.
#[derive(Debug, PartialEq, Eq)]
pub struct Coordinator {
    pub url: String,
    pub port: u16,
    pub model: String,
}

pub struct CoordinatorView {
    pub url: Seq<char>,
    pub port: u16,
    pub model: Seq<char>,
}

impl View for Coordinator {
    type V = CoordinatorView;

    open spec fn view(&self) -> CoordinatorView {
        CoordinatorView { url: self.url@, port: self.port, model: self.model@ }
    }
}

impl DeepView for Coordinator {
    type V = CoordinatorView;

    open spec fn deep_view(&self) -> CoordinatorView {
        self@
    }
}

/// What every agent keeps: its wiring, the models on offer, the model it
/// uses, its conversation, its connection handle, its system prompt, and the
/// number of requests that have not come back.
///
/// The history holds only turns that were exchanged with the model to which
/// the handle is bound: it is emptied whenever the handle or the active
/// model changes.
#[derive(Debug, PartialEq, Eq)]
pub struct AgentState {
    pub kind: AgentEnum,
    pub action_tx: bool,
    pub app_state: bool,
    pub models: Vec<OllamaModel>,
    pub active_model: Option<OllamaModel>,
    pub history: Vec<ChatMessage>,
    pub coordinator: Option<Coordinator>,
    pub sys_msg: String,
    pub pending: usize,
}

pub struct AgentStateView {
    pub kind: AgentEnum,
    pub action_tx: bool,
    pub app_state: bool,
    pub models: Seq<OllamaModelView>,
    pub active_model: Option<OllamaModelView>,
    pub history: Seq<ChatMessageView>,
    pub coordinator: Option<CoordinatorView>,
    pub sys_msg: Seq<char>,
    pub pending: usize,
}

impl View for AgentState {
    type V = AgentStateView;

    open spec fn view(&self) -> AgentStateView {
        AgentStateView {
            kind: self.kind,
            action_tx: self.action_tx,
            app_state: self.app_state,
            models: self.models.deep_view(),
            active_model: self.active_model.deep_view(),
            history: self.history.deep_view(),
            coordinator: self.coordinator.deep_view(),
            sys_msg: self.sys_msg@,
            pending: self.pending,
        }
    }
}

/// The turns that announce the system prompt `sys_msg`: one system turn, or
/// none if the prompt is blank.
pub open spec fn system_turns(sys_msg: Seq<char>) -> Seq<ChatMessageView> {
    if is_blank(sys_msg) {
        Seq::empty()
    } else {
        seq![ChatMessageView { role: MessageRole::System, content: sys_msg }]
    }
}

/// The turns that announce the system prompt `sys_msg`.
pub fn get_msg_vec(sys_msg: String) -> (msgs: Vec<ChatMessage>)
    ensures
        msgs.deep_view() == system_turns(sys_msg@),
{
    let mut msgs: Vec<ChatMessage> = Vec::new();
    assert(msgs.deep_view() == Seq::<ChatMessageView>::empty());
    if !blank(sys_msg.as_str()) {
        let turn = ChatMessage::new(MessageRole::System, sys_msg);
        msgs.push(turn);
        assert(msgs.deep_view() == seq![turn@]);
    }
    msgs
}

/// `n + 1`, or `n` where that does not fit.
pub open spec fn one_more(n: usize) -> usize {
    if n < usize::MAX {
        (n + 1) as usize
    } else {
        n
    }
}

/// `n - 1`, or zero for zero.
pub open spec fn one_less(n: usize) -> usize {
    if n > 0 {
        (n - 1) as usize
    } else {
        n
    }
}

impl AgentStateView {
    /// The shared state as the agent sees it: absent until it is connected.
    pub open spec fn shared(self, state: AppStateView) -> Option<AppStateView> {
        if self.app_state {
            Some(state)
        } else {
            None
        }
    }

    /// Whether the history, if it holds anything, has a handle to whose
    /// model its turns belong.
    pub open spec fn keeps_to_handle(self) -> bool {
        self.history.len() > 0 ==> self.coordinator is Some
    }

    /// Whether no request is under way.
    pub open spec fn is_idle(self) -> bool {
        self.pending == 0
    }

    /// The agent with a fresh handle bound to `model` and an empty history.
    pub open spec fn bound(self, model: OllamaModelView, state: AppStateView) -> AgentStateView {
        AgentStateView {
            coordinator: Some(
                CoordinatorView {
                    url: ollama_endpoint(self.shared(state)).0,
                    port: ollama_endpoint(self.shared(state)).1,
                    model: model.name,
                },
            ),
            history: Seq::empty(),
            ..self
        }
    }

    /// What binding to `model` announces.
    pub open spec fn bound_effects(self, model: OllamaModelView) -> Seq<EffectView> {
        published(self.action_tx, BroadcastMsgView::SelectAgentModel(model))
    }

    /// Whether the selection of this agent can bind it: it sees the shared
    /// state and the server offers a model.
    pub open spec fn can_bind(self, state: AppStateView) -> bool {
        self.app_state && state.ollama_state.models.len() > 0
    }

    /// The agent after the user selected `agent`. The history is emptied. If
    /// this is the agent selected, it binds to the server's first model,
    /// where there is one; if another is, it gives up its handle.
    pub open spec fn selected(self, agent: AgentEnum, state: AppStateView) -> AgentStateView {
        let cleared = AgentStateView { history: Seq::empty(), ..self };
        if agent == self.kind {
            if self.can_bind(state) {
                cleared.bound(state.ollama_state.models[0], state)
            } else {
                cleared
            }
        } else {
            AgentStateView { coordinator: None, ..cleared }
        }
    }

    /// What the selection of `agent` announces.
    pub open spec fn selected_effects(self, agent: AgentEnum, state: AppStateView) -> Seq<EffectView> {
        if agent == self.kind && self.can_bind(state) {
            self.bound_effects(state.ollama_state.models[0])
        } else {
            Seq::empty()
        }
    }

    /// Whether the active model has to be chosen anew among `models`: none is
    /// active, or the active one is not on offer any more.
    pub open spec fn needs_model(self, models: Seq<OllamaModelView>) -> bool {
        match self.active_model {
            Some(active) => !models.contains(active),
            None => true,
        }
    }

    /// The agent after the model list `models` arrived: of a list that is not
    /// empty, the first model becomes the active one if one has to be chosen,
    /// which empties the history.
    pub open spec fn offered(self, models: Seq<OllamaModelView>) -> AgentStateView {
        let listed = AgentStateView { models, ..self };
        if models.len() > 0 && self.needs_model(models) {
            AgentStateView { active_model: Some(models[0]), history: Seq::empty(), ..listed }
        } else {
            listed
        }
    }

    /// The agent after the model list `models` arrived and the selection was
    /// applied again.
    pub open spec fn with_models(self, models: Seq<OllamaModelView>, state: AppStateView) -> AgentStateView {
        if models.len() > 0 && self.app_state {
            self.offered(models).selected(state.active_agent, state)
        } else {
            self.offered(models)
        }
    }

    /// What the arrival of the model list `models` announces.
    pub open spec fn with_models_effects(self, models: Seq<OllamaModelView>, state: AppStateView) -> Seq<
        EffectView,
    > {
        if models.len() > 0 && self.app_state {
            self.offered(models).selected_effects(state.active_agent, state)
        } else {
            Seq::empty()
        }
    }

    /// The agent after the user chose `model` as the active model: a choice
    /// that differs from the active model binds the agent anew.
    pub open spec fn with_active_model(self, model: OllamaModelView, state: AppStateView) -> AgentStateView {
        if self.active_model == Some(model) {
            self
        } else {
            AgentStateView { active_model: Some(model), ..self }.bound(model, state)
        }
    }

    /// The full context of a request: the system prompt, if it is not blank,
    /// then the retained history, then the new turn.
    pub open spec fn context(self, turn: ChatMessageView) -> Seq<ChatMessageView> {
        system_turns(self.sys_msg) + self.history + seq![turn]
    }

    /// The agent after it was asked to chat: with a handle, one more request is under way.
    pub open spec fn asked(self) -> AgentStateView {
        if self.coordinator is Some {
            AgentStateView { pending: one_more(self.pending), ..self }
        } else {
            self
        }
    }

    /// What being asked `turn` asks of the host: with a handle, one chat
    /// request that carries the full context.
    pub open spec fn asked_effects(self, turn: ChatMessageView) -> Seq<EffectView> {
        match self.coordinator {
            Some(handle) => seq![
                EffectView::Chat(
                    ChatRequestView {
                        agent: self.kind,
                        url: handle.url,
                        port: handle.port,
                        model: handle.model,
                        messages: self.context(turn),
                    },
                ),
            ],
            None => Seq::empty(),
        }
    }

    /// Whether the exchange of `request` is kept in the history: the request
    /// is one of this agent and was made of the model to which the handle is
    /// bound now.
    pub open spec fn retains(self, request: ChatRequestView) -> bool {
        match self.coordinator {
            Some(handle) => request.agent == self.kind && handle.model == request.model
                && request.messages.len() > 0,
            None => false,
        }
    }

    /// The agent after the outcome of `request` came back: one request less
    /// is under way, and a reply is kept, behind the turn it answers, if the
    /// request was made of the model bound now.
    pub open spec fn answered(self, request: ChatRequestView, reply: Option<ChatMessageView>) -> AgentStateView {
        let settled = AgentStateView { pending: one_less(self.pending), ..self };
        match reply {
            Some(turn) if self.retains(request) => AgentStateView {
                history: self.history.push(request.messages.last()).push(turn),
                ..settled
            },
            _ => settled,
        }
    }
}

/// Whenever the arrival of a model list or the user's choice changes the
/// active model, the history is empty afterwards; and it is empty after every
/// selection of an agent.
pub proof fn lemma_model_change_clears_history(
    agent: AgentStateView,
    models: Seq<OllamaModelView>,
    model: OllamaModelView,
    selected: AgentEnum,
    state: AppStateView,
)
    ensures
        agent.with_models(models, state).active_model != agent.active_model ==> agent.with_models(
            models,
            state,
        ).history.len() == 0,
        agent.with_active_model(model, state).active_model != agent.active_model
            ==> agent.with_active_model(model, state).history.len() == 0,
        agent.selected(selected, state).history.len() == 0,
{
}

/// Whenever the handle of an agent changes, be it bound to another model,
/// bound anew or given up, the history is empty afterwards. Together with
/// the fact that a reply is kept only with the model bound on its arrival,
/// this keeps every turn of a history with the model of the present handle.
pub proof fn lemma_handle_change_clears_history(
    agent: AgentStateView,
    models: Seq<OllamaModelView>,
    model: OllamaModelView,
    selected: AgentEnum,
    request: ChatRequestView,
    reply: Option<ChatMessageView>,
    state: AppStateView,
)
    ensures
        agent.selected(selected, state).coordinator != agent.coordinator ==> agent.selected(
            selected,
            state,
        ).history.len() == 0,
        agent.with_models(models, state).coordinator != agent.coordinator ==> agent.with_models(
            models,
            state,
        ).history.len() == 0,
        agent.with_active_model(model, state).coordinator != agent.coordinator
            ==> agent.with_active_model(model, state).history.len() == 0,
        agent.asked().coordinator == agent.coordinator,
        agent.asked().history == agent.history,
        agent.answered(request, reply).coordinator == agent.coordinator,
{
}

/// An agent without a handle has an empty history, whatever happens to it:
/// the selection of an agent, the arrival of a model list, the choice of a
/// model, a question, or the outcome of a request.
pub proof fn lemma_history_needs_a_handle(
    agent: AgentStateView,
    models: Seq<OllamaModelView>,
    model: OllamaModelView,
    selected: AgentEnum,
    request: ChatRequestView,
    reply: Option<ChatMessageView>,
    state: AppStateView,
)
    requires
        agent.keeps_to_handle(),
    ensures
        agent.selected(selected, state).keeps_to_handle(),
        agent.with_models(models, state).keeps_to_handle(),
        agent.with_active_model(model, state).keeps_to_handle(),
        agent.asked().keeps_to_handle(),
        agent.answered(request, reply).keeps_to_handle(),
{
}

/// A reply is kept only with the model that is bound when it arrives: an
/// exchange with a model other than the bound one leaves the history as it is.
pub proof fn lemma_history_keeps_to_bound_model(
    agent: AgentStateView,
    request: ChatRequestView,
    reply: Option<ChatMessageView>,
)
    ensures
        agent.answered(request, reply).history != agent.history ==> agent.coordinator is Some
            && agent.coordinator->0.model == request.model && request.agent == agent.kind,
        agent.answered(request, reply).coordinator == agent.coordinator,
        agent.answered(request, reply).active_model == agent.active_model,
{
    match reply {
        Some(turn) => {
            if agent.retains(request) {
            } else {
            }
        },
        None => {},
    }
}

impl AgentState {
    /// An agent of the given kind that is not connected and not bound.
    pub fn new(kind: AgentEnum, sys_msg: String) -> (agent: Self)
        ensures
            agent@ == (AgentStateView {
                kind,
                action_tx: false,
                app_state: false,
                models: Seq::empty(),
                active_model: None,
                history: Seq::empty(),
                coordinator: None,
                sys_msg: sys_msg@,
                pending: 0,
            }),
    {
        let agent = AgentState {
            kind,
            action_tx: false,
            app_state: false,
            models: Vec::new(),
            active_model: None,
            history: Vec::new(),
            coordinator: None,
            sys_msg,
            pending: 0,
        };
        assert(agent.models.deep_view() == Seq::<OllamaModelView>::empty());
        assert(agent.history.deep_view() == Seq::<ChatMessageView>::empty());
        agent
    }

    fn clear_history(&mut self)
        ensures
            final(self)@ == (AgentStateView { history: Seq::empty(), ..old(self)@ }),
    {
        self.history = Vec::new();
        assert(self.history.deep_view() == Seq::<ChatMessageView>::empty());
    }

    /// Binds the agent to `active_model`: a fresh handle, an empty history,
    /// and the announcement of the model.
    pub fn get_coordinator(&mut self, active_model: OllamaModel, app_state: &AppState) -> (effects: Vec<
        Effect,
    >)
        ensures
            final(self)@ == old(self)@.bound(active_model@, app_state@),
            effects.deep_view() == old(self)@.bound_effects(active_model@),
    {
        let (url, port) = get_ollama_url(
            if self.app_state {
                Some(app_state)
            } else {
                None
            },
        );
        self.clear_history();
        self.coordinator = Some(Coordinator { url, port, model: active_model.name.clone() });
        publish(self.action_tx, BroadcastMsg::SelectAgentModel(active_model))
    }

    /// Binds the agent anew after its active model changed. The history is
    /// empty afterwards.
    pub fn change_active_model(&mut self, app_state: &AppState) -> (effects: Vec<Effect>)
        ensures
            final(self)@ == match old(self)@.active_model {
                Some(active) => old(self)@.bound(active, app_state@),
                None => old(self)@,
            },
            effects.deep_view() == match old(self)@.active_model {
                Some(active) => old(self)@.bound_effects(active),
                None => Seq::empty(),
            },
            old(self)@.active_model is Some ==> final(self)@.history.len() == 0,
    {
        let active = match &self.active_model {
            Some(active_model) => Some(active_model.clone()),
            None => None,
        };
        match active {
            Some(active_model) => self.get_coordinator(active_model, app_state),
            None => nothing(),
        }
    }

    /// The user chose `model` in the model list. A choice that differs from
    /// the active model becomes the active model and binds the agent anew,
    /// which empties the history.
    pub fn select_model(&mut self, model: OllamaModel, app_state: &AppState) -> (effects: Vec<Effect>)
        ensures
            final(self)@ == old(self)@.with_active_model(model@, app_state@),
            effects.deep_view() == if old(self)@.active_model == Some(model@) {
                Seq::empty()
            } else {
                old(self)@.bound_effects(model@)
            },
            final(self)@.active_model != old(self)@.active_model ==> final(self)@.history.len()
                == 0,
    {
        let unchanged = match &self.active_model {
            Some(active) => active.same(&model),
            None => false,
        };
        if unchanged {
            nothing()
        } else {
            self.active_model = Some(model);
            self.change_active_model(app_state)
        }
    }

    /// Applies the user's selection of `agent`.
    pub fn select_agent(&mut self, agent: AgentEnum, app_state: &AppState) -> (effects: Vec<Effect>)
        ensures
            final(self)@ == old(self)@.selected(agent, app_state@),
            effects.deep_view() == old(self)@.selected_effects(agent, app_state@),
            final(self)@.history.len() == 0,
    {
        self.clear_history();
        if agent == self.kind {
            if self.app_state && app_state.ollama_state.models.len() > 0 {
                let model = app_state.ollama_state.models[0].clone();
                assert(app_state@.ollama_state.models[0] == app_state.ollama_state.models[0]@);
                self.get_coordinator(model, app_state)
            } else {
                nothing()
            }
        } else {
            self.coordinator = None;
            nothing()
        }
    }

    /// Announces that the user selected this agent.
    pub fn send_selected_agent(&self) -> (effects: Vec<Effect>)
        ensures
            effects.deep_view() == published(
                self@.action_tx,
                BroadcastMsgView::SelectAgent(self@.kind),
            ),
    {
        publish(self.action_tx, BroadcastMsg::SelectAgent(self.kind))
    }

    /// Takes over the model list `models` and applies the selection again.
    pub fn set_models(&mut self, models: Vec<OllamaModel>, app_state: &AppState) -> (effects: Vec<
        Effect,
    >)
        ensures
            final(self)@ == old(self)@.with_models(models.deep_view(), app_state@),
            effects.deep_view() == old(self)@.with_models_effects(models.deep_view(), app_state@),
            final(self)@.active_model != old(self)@.active_model ==> final(self)@.history.len()
                == 0,
    {
        self.models = models;
        if self.models.len() > 0 {
            let keep = match &self.active_model {
                Some(active) => has_model(&self.models, active),
                None => false,
            };
            if !keep {
                assert(self.models.deep_view()[0] == self.models[0]@);
                self.active_model = Some(self.models[0].clone());
                self.clear_history();
            }
            if self.app_state {
                return self.select_agent(app_state.active_agent, app_state);
            }
        }
        nothing()
    }

    /// Asks for one chat round trip about `msg`, if the agent has a handle.
    pub fn msg_to_coordinator(&mut self, msg: ChatMessage) -> (effects: Vec<Effect>)
        ensures
            final(self)@ == old(self)@.asked(),
            effects.deep_view() == old(self)@.asked_effects(msg@),
    {
        match &self.coordinator {
            Some(handle) => {
                let mut msgs = get_msg_vec(self.sys_msg.clone());
                let ghost prompt = msgs.deep_view();
                let mut history = self.history.clone();
                msgs.append(&mut history);
                assert(msgs.deep_view() == prompt + self.history.deep_view());
                let ghost retained = msgs.deep_view();
                msgs.push(msg);
                assert(msgs.deep_view() == retained.push(msg@));
                assert(retained.push(msg@) == retained + seq![msg@]);
                let request = ChatRequest {
                    agent: self.kind,
                    url: handle.url.clone(),
                    port: handle.port,
                    model: handle.model.clone(),
                    messages: msgs,
                };
                if self.pending < usize::MAX {
                    self.pending = self.pending + 1;
                }
                only(Effect::Chat(request))
            },
            None => nothing(),
        }
    }

    /// Settles one request: `response` is the model's reply, or none if the
    /// round trip failed. The reply is kept in the history exactly if the
    /// request was made of the model that is bound now.
    pub fn settle(&mut self, request: &ChatRequest, response: &Option<ChatMessage>)
        ensures
            final(self)@ == old(self)@.answered(request@, response.deep_view()),
    {
        if self.pending > 0 {
            self.pending = self.pending - 1;
        }
        if let Some(reply) = response {
            let bound = match &self.coordinator {
                Some(handle) => request.agent == self.kind && str_eq(
                    handle.model.as_str(),
                    request.model.as_str(),
                ) && request.messages.len() > 0,
                None => false,
            };
            if bound {
                let ghost before = self.history.deep_view();
                let turn = request.messages[request.messages.len() - 1].clone();
                self.history.push(turn);
                self.history.push(reply.clone());
                assert(self.history.deep_view() == before.push(request@.messages.last()).push(
                    reply@,
                ));
            }
        }
    }

    /// Whether no request is under way.
    pub fn is_idle(&self) -> (idle: bool)
        ensures
            idle == self@.is_idle(),
    {
        self.pending == 0
    }
}

/// A conversational pipeline that the user can select.
pub trait Agent {
    /// The name shown for the agent.
    fn name(&self) -> &'static str;

    /// One sentence on what the agent is for.
    fn description(&self) -> &'static str;

    /// The kind of the agents of this type.
    spec fn kind() -> AgentEnum;

    /// The kind of the agent.
    fn agent(&self) -> (kind: AgentEnum)
        ensures
            kind == Self::kind(),
    ;

    /// Applies the user's selection of `agent`. The history is empty afterwards.
    fn select_agent(&mut self, agent: AgentEnum, app_state: &AppState) -> Vec<Effect>;

    /// Announces that the user selected this agent.
    fn send_selected_agent(&self) -> Vec<Effect>;
}

/// An agent that takes part in the event fan-out.
pub trait AgentComponent: Component + Agent {

}

impl<T: Component + Agent> AgentComponent for T {

}

} // verus!
