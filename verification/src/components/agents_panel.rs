//! The agent selector: it holds the three agents and hands every event to each of them.

use vstd::prelude::*;
use crate::agents::chat::ChatAgent;
use crate::agents::images::{ImageAgent, ImageAgentView};
use crate::agents::web_scrape::WebScrapeAgent;
use crate::agents::AgentStateView;
use crate::app_state::{AppState, AppStateView};
use crate::components::Component;
use crate::effects::{extend, Effect, EffectView};
use crate::enums::{BroadcastMsg, BroadcastMsgView};

verus! {

/// The three agents, in the order in which they are shown and served.
#[derive(Debug, PartialEq, Eq)]
pub struct AgentPanel {
    pub action_tx: bool,
    pub chat_agent: ChatAgent,
    pub websearch_agent: WebScrapeAgent,
    pub images_agent: ImageAgent,
}

pub struct AgentPanelView {
    pub action_tx: bool,
    pub chat_agent: AgentStateView,
    pub websearch_agent: AgentStateView,
    pub images_agent: ImageAgentView,
}

impl View for AgentPanel {
    type V = AgentPanelView;

    open spec fn view(&self) -> AgentPanelView {
        AgentPanelView {
            action_tx: self.action_tx,
            chat_agent: self.chat_agent@,
            websearch_agent: self.websearch_agent@,
            images_agent: self.images_agent@,
        }
    }
}

impl AgentPanel {
    /// The view of a fresh panel: three fresh agents.
    pub open spec fn new_view() -> AgentPanelView {
        AgentPanelView {
            action_tx: false,
            chat_agent: ChatAgent::new_view(),
            websearch_agent: WebScrapeAgent::new_view(),
            images_agent: ImageAgent::new_view(),
        }
    }

    pub fn new() -> (panel: Self)
        ensures
            panel@ == Self::new_view(),
    {
        let chat_agent = ChatAgent::new();
        let websearch_agent = WebScrapeAgent::new();
        let images_agent = ImageAgent::new();
        AgentPanel { action_tx: false, chat_agent, websearch_agent, images_agent }
    }
}

impl Component for AgentPanel {
    open spec fn after(view: AgentPanelView, msg: BroadcastMsgView, state: AppStateView) -> AgentPanelView {
        AgentPanelView {
            action_tx: view.action_tx,
            chat_agent: ChatAgent::after(view.chat_agent, msg, state),
            websearch_agent: WebScrapeAgent::after(view.websearch_agent, msg, state),
            images_agent: ImageAgent::after(view.images_agent, msg, state),
        }
    }

    open spec fn effects(view: AgentPanelView, msg: BroadcastMsgView, state: AppStateView) -> Seq<
        EffectView,
    > {
        ChatAgent::effects(view.chat_agent, msg, state) + WebScrapeAgent::effects(
            view.websearch_agent,
            msg,
            state,
        ) + ImageAgent::effects(view.images_agent, msg, state)
    }

    fn register_tx(&mut self)
        ensures
            final(self)@ == (AgentPanelView {
                action_tx: true,
                chat_agent: AgentStateView { action_tx: true, ..old(self)@.chat_agent },
                websearch_agent: AgentStateView { action_tx: true, ..old(self)@.websearch_agent },
                images_agent: ImageAgentView {
                    state: AgentStateView { action_tx: true, ..old(self)@.images_agent.state },
                    ..old(self)@.images_agent
                },
            }),
    {
        self.chat_agent.register_tx();
        self.websearch_agent.register_tx();
        self.images_agent.register_tx();
        self.action_tx = true;
    }

    fn register_app_state(&mut self, app_state: &AppState)
        ensures
            final(self)@ == (AgentPanelView {
                action_tx: old(self)@.action_tx,
                chat_agent: AgentStateView { app_state: true, ..old(self)@.chat_agent },
                websearch_agent: AgentStateView { app_state: true, ..old(self)@.websearch_agent },
                images_agent: ImageAgentView {
                    state: AgentStateView { app_state: true, ..old(self)@.images_agent.state },
                    ..old(self)@.images_agent
                },
            }),
    {
        self.chat_agent.register_app_state(app_state);
        self.websearch_agent.register_app_state(app_state);
        self.images_agent.register_app_state(app_state);
    }

    fn init(&mut self, app_state: &AppState) -> (effects: Vec<Effect>)
        ensures
            final(self)@ == old(self)@,
            effects.deep_view() == Seq::<EffectView>::empty(),
    {
        let mut effects = self.chat_agent.init(app_state);
        let web = self.websearch_agent.init(app_state);
        extend(&mut effects, web);
        let images = self.images_agent.init(app_state);
        extend(&mut effects, images);
        effects
    }

    /// Hands the event to the chat agent, then to the web agent, then to the image agent.
    fn update(&mut self, msg: BroadcastMsg, app_state: &AppState) -> (effects: Vec<Effect>) {
        let mut effects = self.chat_agent.update(msg.clone(), app_state);
        let web = self.websearch_agent.update(msg.clone(), app_state);
        extend(&mut effects, web);
        let images = self.images_agent.update(msg, app_state);
        extend(&mut effects, images);
        effects
    }
}

} // verus!
