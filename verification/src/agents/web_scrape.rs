//! The web agent: chat with a web search, a page scraper and a calculator at the model's hand.

use vstd::prelude::*;
use crate::agents::{Agent, AgentState, AgentStateView};
use crate::app_state::{AppState, AppStateView};
use crate::components::Component;
use crate::effects::{nothing, publish, published, ChatRequest, Effect, EffectView};
use crate::enums::{AgentEnum, BroadcastMsg, BroadcastMsgView, ChatMessage, OllamaModel};

verus! {

/// The system prompt that the agent starts with.
pub const SYS_MSG: &'static str = r##"  
## Role  
You are an AI assistant that processes and answers user questions based on structured Markdown content extracted from web pages. Your goal is to provide **accurate, concise, and well-formatted answers** using the information from the website.  

## Capabilities  
- **Understanding Markdown Content:** Analyze structured Markdown text to extract relevant details.  
- **Context-Aware Responses:** Answer questions based on the extracted information while maintaining clarity and accuracy.  
- **Summarization & Explanation:** Condense key points while preserving important details when summarizing.  
- **Direct Citation & Formatting:** Use proper Markdown formatting for readability (e.g., headings, lists, quotes, code blocks).  
- **Linking Back to Source:** Reference the original website or section when applicable.  

## Guidelines for Answering User Questions  
1. **Extract Relevant Information:**  
   - Locate key sections in the Markdown that answer the user's query.  
   - Provide a **direct answer** when possible.  
   - Summarize or reformat content for clarity if needed.  

2. **Use Clean and Readable Markdown:**  
   - Format responses using appropriate Markdown elements:  
     - **Bold important details**  
     - `Code` for technical terms  
     - > Blockquotes for excerpts  
     - Lists (`-` or `1.`) for structured points  
   - Maintain original section hierarchy when relevant.  

3. **Prioritize Accuracy & Completeness:**  
   - Avoid assumptions; answer strictly based on extracted content.  
   - If content is missing or unclear, state it explicitly.  

4. **Provide Context When Needed:**  
   - If summarization is requested, extract main points while retaining clarity.  
   - If a concept requires background knowledge, provide a brief explanation.  

5. **Handle Unanswerable Queries Gracefully:**  
   - If the Markdown lacks relevant information, respond with:  
     > "The extracted content does not contain details about that. Would you like me to check a different source?"  

## Example User Queries & Responses  

### Q: What is the main topic of this page?  
### A:  
```md  
The webpage discusses **[Main Topic]**, focusing on:  
- **Key aspect 1**  
- **Key aspect 2**  
- **Key aspect 3**  

For full details, refer to the original content."##;

/// The web agent.
#[derive(Debug, PartialEq, Eq)]
pub struct WebScrapeAgent {
    pub state: AgentState,
}

impl View for WebScrapeAgent {
    type V = AgentStateView;

    open spec fn view(&self) -> AgentStateView {
        self.state@
    }
}

impl WebScrapeAgent {
    /// The view of an agent that is not connected, not bound and has said nothing.
    pub open spec fn new_view() -> AgentStateView {
        AgentStateView {
            kind: AgentEnum::WebScrape,
            action_tx: false,
            app_state: false,
            models: Seq::empty(),
            active_model: None,
            history: Seq::empty(),
            coordinator: None,
            sys_msg: SYS_MSG@,
            pending: 0,
        }
    }

    pub fn new() -> (agent: Self)
        ensures
            agent@ == Self::new_view(),
    {
        WebScrapeAgent { state: AgentState::new(AgentEnum::WebScrape, SYS_MSG.to_owned()) }
    }

    /// The user edited the system prompt.
    pub fn set_sys_msg(&mut self, sys_msg: String)
        ensures
            final(self)@ == (AgentStateView { sys_msg: sys_msg@, ..old(self)@ }),
    {
        self.state.sys_msg = sys_msg;
    }

    /// The user chose `model` in the model list. A choice that differs from
    /// the active model empties the history and binds the agent to it.
    pub fn select_model(&mut self, model: OllamaModel, app_state: &AppState) -> (effects: Vec<Effect>)
        ensures
            final(self)@ == old(self)@.with_active_model(model@, app_state@),
            effects.deep_view() == if old(self)@.active_model == Some(model@) {
                Seq::empty()
            } else {
                old(self)@.bound_effects(model@)
            },
            final(self)@.active_model != old(self)@.active_model ==> final(self)@.history.len()
                == 0,
    {
        self.state.select_model(model, app_state)
    }

    fn msg_to_coordinator(&mut self, msg: ChatMessage) -> (effects: Vec<Effect>)
        ensures
            final(self)@ == old(self)@.asked(),
            effects.deep_view() == old(self)@.asked_effects(msg@),
    {
        self.state.msg_to_coordinator(msg)
    }

    /// Takes the outcome of the chat `request`: `response` is the model's
    /// reply, or none if the round trip failed. A reply is announced as the
    /// chat response; a failure is passed over in silence. Either way the
    /// request is no longer under way.
    pub fn send_chat_msg(&mut self, request: ChatRequest, response: Option<ChatMessage>) -> (effects: Vec<
        Effect,
    >)
        ensures
            final(self)@ == old(self)@.answered(request@, response.deep_view()),
            effects.deep_view() == match response {
                Some(reply) => published(
                    old(self)@.action_tx,
                    BroadcastMsgView::GetChatReponse(reply@),
                ),
                None => Seq::empty(),
            },
    {
        self.state.settle(&request, &response);
        match response {
            Some(reply) => publish(self.state.action_tx, BroadcastMsg::GetChatReponse(reply)),
            None => nothing(),
        }
    }
}

impl Agent for WebScrapeAgent {
    open spec fn kind() -> AgentEnum {
        AgentEnum::WebScrape
    }

    fn name(&self) -> (name: &'static str)
        ensures
            name@ == "Web Text Scraper"@,
    {
        "Web Text Scraper"
    }

    fn description(&self) -> (description: &'static str)
        ensures
            description@ == "Simple Web text scraper. Parsing HTML into a markdown and work with text from it."@,
    {
        "Simple Web text scraper. Parsing HTML into a markdown and work with text from it."
    }

    fn agent(&self) -> (kind: AgentEnum) {
        AgentEnum::WebScrape
    }

    fn select_agent(&mut self, agent: AgentEnum, app_state: &AppState) -> (effects: Vec<Effect>)
        ensures
            final(self)@ == old(self)@.selected(agent, app_state@),
            effects.deep_view() == old(self)@.selected_effects(agent, app_state@),
            final(self)@.history.len() == 0,
    {
        self.state.select_agent(agent, app_state)
    }

    fn send_selected_agent(&self) -> (effects: Vec<Effect>)
        ensures
            effects.deep_view() == published(
                self@.action_tx,
                BroadcastMsgView::SelectAgent(self@.kind),
            ),
    {
        self.state.send_selected_agent()
    }
}

impl Component for WebScrapeAgent {
    open spec fn after(view: AgentStateView, msg: BroadcastMsgView, state: AppStateView) -> AgentStateView {
        match msg {
            BroadcastMsgView::SelectAgent(agent) => view.selected(agent, state),
            BroadcastMsgView::OllamaModels(models) => view.with_models(models, state),
            BroadcastMsgView::SendUserMessage(_) => view.asked(),
            _ => view,
        }
    }

    open spec fn effects(view: AgentStateView, msg: BroadcastMsgView, state: AppStateView) -> Seq<
        EffectView,
    > {
        match msg {
            BroadcastMsgView::SelectAgent(agent) => view.selected_effects(agent, state),
            BroadcastMsgView::OllamaModels(models) => view.with_models_effects(models, state),
            BroadcastMsgView::SendUserMessage(turn) => view.asked_effects(turn),
            _ => Seq::empty(),
        }
    }

    fn register_tx(&mut self)
        ensures
            final(self)@ == (AgentStateView { action_tx: true, ..old(self)@ }),
    {
        self.state.action_tx = true;
    }

    fn register_app_state(&mut self, app_state: &AppState)
        ensures
            final(self)@ == (AgentStateView { app_state: true, ..old(self)@ }),
    {
        self.state.app_state = true;
    }

    fn init(&mut self, app_state: &AppState) -> (effects: Vec<Effect>)
        ensures
            final(self)@ == old(self)@,
            effects.deep_view() == Seq::<EffectView>::empty(),
    {
        nothing()
    }

    fn update(&mut self, msg: BroadcastMsg, app_state: &AppState) -> (effects: Vec<Effect>)
        ensures
            final(self)@.active_model != old(self)@.active_model ==> final(self)@.history.len()
                == 0,
    {
        match msg {
            BroadcastMsg::SelectAgent(agent) => self.select_agent(agent, app_state),
            BroadcastMsg::OllamaModels(models) => self.state.set_models(models, app_state),
            BroadcastMsg::SendUserMessage(msg) => self.msg_to_coordinator(msg),
            _ => nothing(),
        }
    }
}

} // verus!
