//! The chat panel: the turns of the conversation and the images found.

use vstd::prelude::*;
use crate::app_state::{AppState, AppStateView};
use crate::components::Component;
use crate::effects::{nothing, Effect, EffectView};
use crate::enums::{
    AgentEnum, BroadcastMsg, BroadcastMsgView, ChatMessageView, DeskMessage, DeskMessageView,
    ImagesStructuredView,
};

verus! {

/// The panel's cache: what to show, whether a reply is awaited, and the
/// agent whose conversation is shown.
#[derive(Debug, PartialEq, Eq)]
pub struct Messages {
    action_tx: bool,
    messages: Vec<DeskMessage>,
    recieving_message: bool,
    last_active_agent: Option<AgentEnum>,
}

pub struct MessagesView {
    pub action_tx: bool,
    pub messages: Seq<DeskMessageView>,
    pub recieving_message: bool,
    pub last_active_agent: Option<AgentEnum>,
}

impl View for Messages {
    type V = MessagesView;

    closed spec fn view(&self) -> MessagesView {
        MessagesView {
            action_tx: self.action_tx,
            messages: self.messages.deep_view(),
            recieving_message: self.recieving_message,
            last_active_agent: self.last_active_agent,
        }
    }
}

/// The entry that shows the turn `message`.
pub open spec fn text_entry(message: ChatMessageView) -> DeskMessageView {
    DeskMessageView { chat_message: Some(message), images: None }
}

/// The entry that shows the images `images`.
pub open spec fn image_entry(images: ImagesStructuredView) -> DeskMessageView {
    DeskMessageView { chat_message: None, images: Some(images) }
}

impl Messages {
    /// The view of a fresh value: not connected, with nothing cached.
    pub open spec fn new_view() -> MessagesView {
        MessagesView {
            action_tx: false,
            messages: Seq::empty(),
            recieving_message: false,
            last_active_agent: None,
        }
    }

    pub fn new() -> (panel: Self)
        ensures
            panel@ == Self::new_view(),
    {
        let messages: Vec<DeskMessage> = Vec::new();
        assert(messages.deep_view() == Seq::<DeskMessageView>::empty());
        Messages { action_tx: false, messages, recieving_message: false, last_active_agent: None }
    }

    /// The entries to show, oldest first.
    pub fn messages(&self) -> (entries: &Vec<DeskMessage>)
        ensures
            entries.deep_view() == self@.messages,
    {
        &self.messages
    }

    /// Whether the typing indicator is shown.
    pub fn recieving_message(&self) -> (waiting: bool)
        ensures
            waiting == self@.recieving_message,
    {
        self.recieving_message
    }

    fn show(&mut self, entry: DeskMessage)
        ensures
            final(self)@ == (MessagesView {
                messages: old(self)@.messages.push(entry@),
                ..old(self)@
            }),
    {
        let ghost before = self.messages.deep_view();
        self.messages.push(entry);
        assert(self.messages.deep_view() == before.push(entry@));
    }

    fn clear(&mut self)
        ensures
            final(self)@ == (MessagesView { messages: Seq::empty(), ..old(self)@ }),
    {
        self.messages = Vec::new();
        assert(self.messages.deep_view() == Seq::<DeskMessageView>::empty());
    }
}

impl Component for Messages {
    open spec fn after(view: MessagesView, msg: BroadcastMsgView, state: AppStateView) -> MessagesView {
        match msg {
            BroadcastMsgView::SendUserMessage(m) => MessagesView {
                messages: view.messages.push(text_entry(m)),
                recieving_message: true,
                ..view
            },
            BroadcastMsgView::GetChatReponse(m) => MessagesView {
                messages: view.messages.push(text_entry(m)),
                recieving_message: false,
                ..view
            },
            BroadcastMsgView::GetChatSubReponse(m) => MessagesView {
                messages: view.messages.push(text_entry(m)),
                ..view
            },
            BroadcastMsgView::SelectAgent(agent) => if view.last_active_agent == Some(agent) {
                view
            } else {
                MessagesView { messages: Seq::empty(), last_active_agent: Some(agent), ..view }
            },
            BroadcastMsgView::SelectAgentModel(_) => MessagesView { messages: Seq::empty(), ..view },
            BroadcastMsgView::GetFoundImages(files) => MessagesView {
                messages: view.messages.push(image_entry(files)),
                recieving_message: false,
                ..view
            },
            _ => view,
        }
    }

    open spec fn effects(view: MessagesView, msg: BroadcastMsgView, state: AppStateView) -> Seq<
        EffectView,
    > {
        Seq::empty()
    }

    fn register_tx(&mut self)
        ensures
            final(self)@ == (MessagesView { action_tx: true, ..old(self)@ }),
    {
        self.action_tx = true;
    }

    fn register_app_state(&mut self, app_state: &AppState)
        ensures
            final(self)@ == old(self)@,
    {
    }

    fn init(&mut self, app_state: &AppState) -> (effects: Vec<Effect>)
        ensures
            final(self)@ == old(self)@,
            effects.deep_view() == Seq::<EffectView>::empty(),
    {
        nothing()
    }

    /// Shows what was said and found. A user message starts the wait for a
    /// reply; a final reply or a set of found images ends it. A change of
    /// agent or of model empties the panel.
    fn update(&mut self, msg: BroadcastMsg, app_state: &AppState) -> (effects: Vec<Effect>) {
        match msg {
            BroadcastMsg::SendUserMessage(m) => {
                self.show(DeskMessage { chat_message: Some(m), images: None });
                self.recieving_message = true;
            },
            BroadcastMsg::GetChatReponse(m) => {
                self.show(DeskMessage { chat_message: Some(m), images: None });
                self.recieving_message = false;
            },
            BroadcastMsg::GetChatSubReponse(m) => {
                self.show(DeskMessage { chat_message: Some(m), images: None });
            },
            BroadcastMsg::SelectAgent(agent) => {
                let same = match self.last_active_agent {
                    Some(a) => a == agent,
                    None => false,
                };
                if !same {
                    self.last_active_agent = Some(agent);
                    self.clear();
                }
            },
            BroadcastMsg::SelectAgentModel(_model) => {
                self.clear();
            },
            BroadcastMsg::GetFoundImages(files) => {
                self.show(DeskMessage { chat_message: None, images: Some(files) });
                self.recieving_message = false;
            },
            _ => {},
        }
        nothing()
    }
}

} // verus!
