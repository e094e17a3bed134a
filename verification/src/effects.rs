//! What a handler asks of its host.
//!
//! Handlers never touch the network, the disk or the bus themselves: each
//! returns the list of effects to perform. The host performs them in order and
//! hands what comes back to the function named on each variant.

use vstd::prelude::*;
use crate::enums::{
    AgentEnum, BroadcastMsg, BroadcastMsgView, ChatMessage, ChatMessageView, DirectoryFiles,
    DirectoryFilesView, ImageBase64Search, ImageBase64SearchView, ImagesStructured,
    ImagesStructuredView,
};

verus! {

/// One chat-completion round trip for an agent.
#[derive(Debug, PartialEq, Eq)]
pub struct ChatRequest {
    /// The agent that asks; it decides which tools the model may call.
    pub agent: AgentEnum,
    pub url: String,
    pub port: u16,
    pub model: String,
    /// The full context, in the order in which it is sent.
    pub messages: Vec<ChatMessage>,
}

pub struct ChatRequestView {
    pub agent: AgentEnum,
    pub url: Seq<char>,
    pub port: u16,
    pub model: Seq<char>,
    pub messages: Seq<ChatMessageView>,
}

impl View for ChatRequest {
    type V = ChatRequestView;

    open spec fn view(&self) -> ChatRequestView {
        ChatRequestView {
            agent: self.agent,
            url: self.url@,
            port: self.port,
            model: self.model@,
            messages: self.messages.deep_view(),
        }
    }
}

/// What the text of a finished generation is for.
#[derive(Debug, PartialEq, Eq)]
pub enum Reply {
    /// It classifies the intent of the given user message.
    Intent(ChatMessage),
    /// It is the user's request, rephrased as a question about one picture.
    Rephrased,
    /// It answers the question for the given image.
    Vision(String, ImageBase64Search),
    /// It lists the labels of the given file.
    Labels(String),
    /// It is a structured image list.
    Structured,
}

pub enum ReplyView {
    Intent(ChatMessageView),
    Rephrased,
    Vision(Seq<char>, ImageBase64SearchView),
    Labels(Seq<char>),
    Structured,
}

impl View for Reply {
    type V = ReplyView;

    open spec fn view(&self) -> ReplyView {
        match self {
            Reply::Intent(message) => ReplyView::Intent(message@),
            Reply::Rephrased => ReplyView::Rephrased,
            Reply::Vision(prompt, image) => ReplyView::Vision(prompt@, image@),
            Reply::Labels(file) => ReplyView::Labels(file@),
            Reply::Structured => ReplyView::Structured,
        }
    }
}

impl ReplyView {
    /// The event that a generation with this purpose feeds back when it ends
    /// with the text `response`; `images` is the structured reading of that
    /// text, where it has one.
    pub open spec fn event(self, response: Seq<char>, images: Option<ImagesStructuredView>) -> Option<
        BroadcastMsgView,
    > {
        match self {
            ReplyView::Intent(message) => Some(
                BroadcastMsgView::GetDescriptionImageSearch(response, message),
            ),
            ReplyView::Rephrased => Some(BroadcastMsgView::GetRephraseImageSearchPrompt(response)),
            ReplyView::Vision(prompt, image) => Some(
                BroadcastMsgView::GetVisionSeachResult(prompt, response, image),
            ),
            ReplyView::Labels(file) => Some(BroadcastMsgView::GetLabelsForImage(file, response)),
            ReplyView::Structured => match images {
                Some(found) => Some(BroadcastMsgView::GetFoundImages(found)),
                None => None,
            },
        }
    }
}

impl Reply {
    /// Turns the text of a successful generation into the event that continues
    /// the pipeline. A structured reply whose text could not be read as an
    /// image list yields no event.
    pub fn event(self, response: String, images: Option<ImagesStructured>) -> (event: Option<
        BroadcastMsg,
    >)
        ensures
            event.deep_view() == self@.event(response@, images.deep_view()),
    {
        match self {
            Reply::Intent(message) => Some(BroadcastMsg::GetDescriptionImageSearch(response, message)),
            Reply::Rephrased => Some(BroadcastMsg::GetRephraseImageSearchPrompt(response)),
            Reply::Vision(prompt, image) => Some(
                BroadcastMsg::GetVisionSeachResult(prompt, response, image),
            ),
            Reply::Labels(file) => Some(BroadcastMsg::GetLabelsForImage(file, response)),
            Reply::Structured => match images {
                Some(found) => Some(BroadcastMsg::GetFoundImages(found)),
                None => None,
            },
        }
    }
}

/// One single-turn generation.
#[derive(Debug, PartialEq, Eq)]
pub struct GenerationRequest {
    pub url: String,
    pub port: u16,
    pub model: String,
    pub prompt: String,
    pub system: Option<String>,
    pub image: Option<ImageBase64Search>,
    /// Whether the model is to decode deterministically: the request is sent
    /// with temperature zero, so that the same question gets the same answer.
    pub deterministic: bool,
    /// Whether the reply must follow the schema of a structured image list.
    pub structured: bool,
    pub reply: Reply,
}

pub struct GenerationRequestView {
    pub url: Seq<char>,
    pub port: u16,
    pub model: Seq<char>,
    pub prompt: Seq<char>,
    pub system: Option<Seq<char>>,
    pub image: Option<ImageBase64SearchView>,
    pub deterministic: bool,
    pub structured: bool,
    pub reply: ReplyView,
}

impl View for GenerationRequest {
    type V = GenerationRequestView;

    open spec fn view(&self) -> GenerationRequestView {
        GenerationRequestView {
            url: self.url@,
            port: self.port,
            model: self.model@,
            prompt: self.prompt@,
            system: self.system.deep_view(),
            image: self.image.deep_view(),
            deterministic: self.deterministic,
            structured: self.structured,
            reply: self.reply@,
        }
    }
}

/// A request to the host.
#[derive(Debug, PartialEq, Eq)]
pub enum Effect {
    /// Put the event on the bus.
    Emit(BroadcastMsg),
    /// Fetch the given URL and report to `OllamaState::check_ollama_url`.
    CheckOllamaUrl(String),
    /// Fetch the model list from the given URL and report to `OllamaState::get_tags`.
    GetTags(String),
    /// Send the chat and report to the asking agent's `send_chat_msg`.
    Chat(ChatRequest),
    /// Send the generation; on success put `reply.event(..)` on the bus.
    Generate(GenerationRequest),
    /// Read the file and report to `Labeler::label_image`.
    ReadLabelImage(String),
    /// Read the files and report to `ImageAgent::start_vision_search` with the given prompt.
    ReadSearchImages(String, Vec<String>),
    /// Walk the directory and report to `FileLoader::search_images_on_path`.
    SearchDirectory(String),
    /// Decode the files and report to `FileLoader::create_thumbnails`.
    CreateThumbnails(DirectoryFiles),
    /// Put the event on the bus once a second, for as long as the bus lives.
    Repeat(BroadcastMsg),
}

pub enum EffectView {
    Emit(BroadcastMsgView),
    CheckOllamaUrl(Seq<char>),
    GetTags(Seq<char>),
    Chat(ChatRequestView),
    Generate(GenerationRequestView),
    ReadLabelImage(Seq<char>),
    ReadSearchImages(Seq<char>, Seq<Seq<char>>),
    SearchDirectory(Seq<char>),
    CreateThumbnails(DirectoryFilesView),
    Repeat(BroadcastMsgView),
}

impl View for Effect {
    type V = EffectView;

    open spec fn view(&self) -> EffectView {
        match self {
            Effect::Emit(event) => EffectView::Emit(event@),
            Effect::CheckOllamaUrl(url) => EffectView::CheckOllamaUrl(url@),
            Effect::GetTags(url) => EffectView::GetTags(url@),
            Effect::Chat(request) => EffectView::Chat(request@),
            Effect::Generate(request) => EffectView::Generate(request@),
            Effect::ReadLabelImage(file) => EffectView::ReadLabelImage(file@),
            Effect::ReadSearchImages(prompt, paths) => EffectView::ReadSearchImages(
                prompt@,
                paths.deep_view(),
            ),
            Effect::SearchDirectory(path) => EffectView::SearchDirectory(path@),
            Effect::CreateThumbnails(files) => EffectView::CreateThumbnails(files@),
            Effect::Repeat(event) => EffectView::Repeat(event@),
        }
    }
}

impl DeepView for Effect {
    type V = EffectView;

    open spec fn deep_view(&self) -> EffectView {
        self@
    }
}

impl Clone for ChatRequest {
    fn clone(&self) -> (copy: Self)
        ensures
            copy@ == self@,
    {
        ChatRequest {
            agent: self.agent,
            url: self.url.clone(),
            port: self.port,
            model: self.model.clone(),
            messages: self.messages.clone(),
        }
    }
}

impl Clone for Reply {
    fn clone(&self) -> (copy: Self)
        ensures
            copy@ == self@,
    {
        match self {
            Reply::Intent(message) => Reply::Intent(message.clone()),
            Reply::Rephrased => Reply::Rephrased,
            Reply::Vision(prompt, image) => Reply::Vision(prompt.clone(), image.clone()),
            Reply::Labels(file) => Reply::Labels(file.clone()),
            Reply::Structured => Reply::Structured,
        }
    }
}

impl Clone for GenerationRequest {
    fn clone(&self) -> (copy: Self)
        ensures
            copy@ == self@,
    {
        GenerationRequest {
            url: self.url.clone(),
            port: self.port,
            model: self.model.clone(),
            prompt: self.prompt.clone(),
            system: match &self.system {
                Some(text) => Some(text.clone()),
                None => None,
            },
            image: match &self.image {
                Some(image) => Some(image.clone()),
                None => None,
            },
            deterministic: self.deterministic,
            structured: self.structured,
            reply: self.reply.clone(),
        }
    }
}

impl Clone for Effect {
    fn clone(&self) -> (copy: Self)
        ensures
            copy@ == self@,
    {
        match self {
            Effect::Emit(event) => Effect::Emit(event.clone()),
            Effect::CheckOllamaUrl(url) => Effect::CheckOllamaUrl(url.clone()),
            Effect::GetTags(url) => Effect::GetTags(url.clone()),
            Effect::Chat(request) => Effect::Chat(request.clone()),
            Effect::Generate(request) => Effect::Generate(request.clone()),
            Effect::ReadLabelImage(file) => Effect::ReadLabelImage(file.clone()),
            Effect::ReadSearchImages(prompt, paths) => Effect::ReadSearchImages(
                prompt.clone(),
                paths.clone(),
            ),
            Effect::SearchDirectory(path) => Effect::SearchDirectory(path.clone()),
            Effect::CreateThumbnails(files) => Effect::CreateThumbnails(files.clone()),
            Effect::Repeat(event) => Effect::Repeat(event.clone()),
        }
    }
}

/// `event` on the bus if `connected`, else nothing.
pub open spec fn published(connected: bool, event: BroadcastMsgView) -> Seq<EffectView> {
    if connected {
        seq![EffectView::Emit(event)]
    } else {
        Seq::empty()
    }
}

/// No effect.
pub fn nothing() -> (effects: Vec<Effect>)
    ensures
        effects.deep_view() == Seq::<EffectView>::empty(),
{
    let effects: Vec<Effect> = Vec::new();
    assert(effects.deep_view() == Seq::<EffectView>::empty());
    effects
}

/// The one effect `effect`.
pub fn only(effect: Effect) -> (effects: Vec<Effect>)
    ensures
        effects.deep_view() == seq![effect@],
{
    let mut effects: Vec<Effect> = Vec::new();
    effects.push(effect);
    assert(effects.deep_view() == seq![effect@]);
    effects
}

/// Puts `event` on the bus if the sender is connected to it.
pub fn publish(connected: bool, event: BroadcastMsg) -> (effects: Vec<Effect>)
    ensures
        effects.deep_view() == published(connected, event@),
{
    if connected {
        only(Effect::Emit(event))
    } else {
        nothing()
    }
}

/// The events among `effects` that go back on the bus, in their order.
pub open spec fn emitted(effects: Seq<EffectView>) -> Seq<BroadcastMsgView>
    decreases effects.len(),
{
    if effects.len() == 0 {
        Seq::empty()
    } else {
        let head = emitted(effects.drop_last());
        match effects.last() {
            EffectView::Emit(event) => head.push(event),
            _ => head,
        }
    }
}

/// The effects among `effects` that only the host can perform, in their order.
pub open spec fn requested(effects: Seq<EffectView>) -> Seq<EffectView>
    decreases effects.len(),
{
    if effects.len() == 0 {
        Seq::empty()
    } else {
        let head = requested(effects.drop_last());
        match effects.last() {
            EffectView::Emit(_) => head,
            other => head.push(other),
        }
    }
}

/// Events and requests of two lists in a row are those of the first list
/// followed by those of the second.
pub proof fn lemma_separate_concat(a: Seq<EffectView>, b: Seq<EffectView>)
    ensures
        emitted(a + b) == emitted(a) + emitted(b),
        requested(a + b) == requested(a) + requested(b),
    decreases b.len(),
{
    if b.len() == 0 {
        assert(a + b == a);
    } else {
        lemma_separate_concat(a, b.drop_last());
        assert((a + b).drop_last() == a + b.drop_last());
        assert((a + b).last() == b.last());
    }
}

/// A published event is the one event of its list, which requests nothing.
pub proof fn lemma_separate_published(connected: bool, event: BroadcastMsgView)
    ensures
        emitted(published(connected, event)) == if connected {
            seq![event]
        } else {
            Seq::empty()
        },
        requested(published(connected, event)) == Seq::<EffectView>::empty(),
{
    if connected {
        let list = published(connected, event);
        assert(list.drop_last() == Seq::<EffectView>::empty());
        assert(emitted(list) == emitted(list.drop_last()).push(event));
        assert(requested(list) == requested(list.drop_last()));
    }
}

/// Parts the events for the bus from the requests to the host.
pub fn separate(effects: Vec<Effect>) -> (parts: (Vec<BroadcastMsg>, Vec<Effect>))
    ensures
        parts.0.deep_view() == emitted(effects.deep_view()),
        parts.1.deep_view() == requested(effects.deep_view()),
{
    let mut events: Vec<BroadcastMsg> = Vec::new();
    let mut requests: Vec<Effect> = Vec::new();
    let mut i: usize = 0;
    assert(effects.deep_view().take(0) == Seq::<EffectView>::empty());
    assert(events.deep_view() == Seq::<BroadcastMsgView>::empty());
    assert(requests.deep_view() == Seq::<EffectView>::empty());
    while i < effects.len()
        invariant
            i <= effects.len(),
            events.deep_view() == emitted(effects.deep_view().take(i as int)),
            requests.deep_view() == requested(effects.deep_view().take(i as int)),
        decreases effects.len() - i,
    {
        let ghost next = effects.deep_view().take(i + 1);
        let ghost sent = events.deep_view();
        let ghost asked = requests.deep_view();
        assert(next.drop_last() == effects.deep_view().take(i as int));
        assert(next.last() == effects[i as int]@);
        match &effects[i] {
            Effect::Emit(event) => {
                events.push(event.clone());
                assert(events.deep_view() == sent.push(event@));
            },
            other => {
                requests.push(other.clone());
                assert(requests.deep_view() == asked.push(other@));
            },
        }
        i += 1;
    }
    assert(effects.deep_view().take(i as int) == effects.deep_view());
    (events, requests)
}

/// Appends `more` to `effects`, keeping the order of both.
pub fn extend(effects: &mut Vec<Effect>, more: Vec<Effect>)
    ensures
        final(effects).deep_view() == old(effects).deep_view() + more.deep_view(),
{
    let mut more = more;
    effects.append(&mut more);
}

} // verus!
