//! The image agent: finds images with the model's tools, and searches the
//! images found for what the user describes by asking a vision model about
//! each of them in turn.

use vstd::prelude::*;
use crate::agents::{Agent, AgentState, AgentStateView};
use crate::app_state::{AppState, AppStateView};
use crate::components::{get_ollama_url, ollama_endpoint, Component};
use crate::effects::{
    extend, nothing, only, publish, published, ChatRequest, Effect, EffectView,
    GenerationRequest, GenerationRequestView, Reply, ReplyView,
};
use crate::enums::{
    AgentEnum, BroadcastMsg, BroadcastMsgView, ChatMessage, ChatMessageView, ImageBase64Search,
    ImageBase64SearchView, ImageStructured, ImageStructuredView, ImagesStructured,
    ImagesStructuredView, MessageRole, OllamaModel,
};
use crate::ollama_state::first_vision_model;
use crate::text::{contains, find_in, str_eq, to_ascii_lower, to_chars};
use crate::utils::{encoded_all, img_paths_to_base64, ImageFile};

verus! {

/// The system prompt that the agent starts with.
pub const SYS_MSG: &'static str = r##"  
You are helpul desktop assistant mainly used for searching or listing images.
If you will not find any images from given path you will output only: I din't find any Images.
If you'll get any images from toll call response only with list of those images with format '- name of image file: absolute path'"##;

/// The system prompt of the vision model that checks one image.
pub const VISION_SYS_MSG: &'static str = r##"You are an AI vision model. 
        You will receive an image and a question asking whether a specific object or feature is present in the image. 
        Respond only with 'true' if it is present or 'false' if it is not. 
        Do not provide any additional explanations or details."##;

/// The system prompt of the intent classifier.
pub const INTENT_SYS_MSG: &'static str = r##"You are not AI Assistant.You are an AI agent that determines whether 
        the user is requesting an image containing a specific object, person, or scenery. 
        Respond with 'true' if the user's request includes a description of what should be present in the image. 
        Otherwise, respond with 'false'. Only return 'true' or 'false' without any explanation."##;

/// The system prompt of the step that rephrases the user's request.
pub const REPHRASE_SYS_MSG: &'static str = r##"
            You are not AI Assistant. 
            Your only task is to rephrase user prompt with description of what to find on pictures 
            into a question prompt in format 'Is {description} on this picture?'"##;

/// What is added to the question that goes with each image.
pub const VISION_PROMPT_SUFFIX: &'static str = ". Answer alway only with 'true' or 'false'.";

/// The classifier's answer that stands for a search by description.
pub const SEARCH_INTENT: &'static str = "true";

/// The name given to each image that a sweep found.
pub const FOUND_IMAGE_NAME: &'static str = "test";

/// The extension given to each image that a sweep found.
pub const FOUND_IMAGE_EXTENSION: &'static str = "png";

/// Whether a vision model's answer counts as a yes: it holds `yes` or
/// `true`, in capitals or small letters, anywhere in its text.
pub open spec fn affirmative(answer: Seq<char>) -> bool {
    contains(to_ascii_lower(answer), "yes"@) || contains(to_ascii_lower(answer), "true"@)
}

/// Whether a vision model's answer counts as a yes.
pub fn is_affirmative(answer: &str) -> (yes: bool)
    ensures
        yes == affirmative(answer@),
{
    let text = to_chars(answer);
    let yes = to_chars("yes");
    let truth = to_chars("true");
    find_in(&text, &yes, true) || find_in(&text, &truth, true)
}

/// The image agent with its index of found images and the working set of a sweep.
///
/// A sweep takes its images from the end of `images_to_search`, so the image
/// that was added last is checked first.
#[derive(Debug, PartialEq, Eq)]
pub struct ImageAgent {
    pub state: AgentState,
    pub all_found_images: Option<ImagesStructured>,
    pub images_to_search: Vec<ImageBase64Search>,
    pub images_found: Vec<ImageBase64Search>,
}

pub struct ImageAgentView {
    pub state: AgentStateView,
    pub all_found_images: Option<ImagesStructuredView>,
    pub images_to_search: Seq<ImageBase64SearchView>,
    pub images_found: Seq<ImageBase64SearchView>,
}

impl View for ImageAgent {
    type V = ImageAgentView;

    open spec fn view(&self) -> ImageAgentView {
        ImageAgentView {
            state: self.state@,
            all_found_images: self.all_found_images.deep_view(),
            images_to_search: self.images_to_search.deep_view(),
            images_found: self.images_found.deep_view(),
        }
    }
}

/// The images `found` as a structured list, in their order.
pub open spec fn found_list(found: Seq<ImageBase64SearchView>) -> ImagesStructuredView {
    ImagesStructuredView {
        images: Seq::new(
            found.len(),
            |i: int|
                ImageStructuredView {
                    path: found[i].path,
                    name: FOUND_IMAGE_NAME@,
                    extension: FOUND_IMAGE_EXTENSION@,
                },
        ),
    }
}

/// The paths of the images of `index`, in their order.
pub open spec fn indexed_paths(index: ImagesStructuredView) -> Seq<Seq<char>> {
    Seq::new(index.images.len(), |i: int| index.images[i].path)
}

/// The request that asks the vision model `model` the question `prompt` about `image`.
pub open spec fn vision_request(
    endpoint: (Seq<char>, u16),
    model: Seq<char>,
    prompt: Seq<char>,
    image: ImageBase64SearchView,
) -> GenerationRequestView {
    GenerationRequestView {
        url: endpoint.0,
        port: endpoint.1,
        model,
        prompt: prompt + VISION_PROMPT_SUFFIX@,
        system: Some(VISION_SYS_MSG@),
        image: Some(image),
        deterministic: true,
        structured: false,
        reply: ReplyView::Vision(prompt, image),
    }
}

impl ImageAgentView {
    /// A generation by the active model, if the agent is connected to the
    /// bus and has an active model; nothing otherwise.
    pub open spec fn generation(
        self,
        state: AppStateView,
        prompt: Seq<char>,
        system: Option<Seq<char>>,
        structured: bool,
        reply: ReplyView,
    ) -> Seq<EffectView> {
        match self.state.active_model {
            Some(model) if self.state.action_tx => seq![
                EffectView::Generate(
                    GenerationRequestView {
                        url: ollama_endpoint(self.state.shared(state)).0,
                        port: ollama_endpoint(self.state.shared(state)).1,
                        model: model.name,
                        prompt,
                        system,
                        image: None,
                        deterministic: true,
                        structured,
                        reply,
                    },
                ),
            ],
            _ => Seq::empty(),
        }
    }

    /// The vision model that a sweep uses, if the server offers one.
    pub open spec fn vision_model(self, state: AppStateView) -> Option<Seq<char>> {
        match self.state.shared(state) {
            Some(shared) => first_vision_model(shared.ollama_state.models),
            None => None,
        }
    }

    /// The agent after the found images `found` arrived: they become the
    /// index if there is none yet; an index that exists stays as it is.
    pub open spec fn indexed(self, found: ImagesStructuredView) -> ImageAgentView {
        match self.all_found_images {
            Some(_) => self,
            None => ImageAgentView { all_found_images: Some(found), ..self },
        }
    }

    /// Whether the classifier's `answer` starts a search by description:
    /// it says so, and there is an index to search.
    pub open spec fn searches(self, answer: Seq<char>) -> bool {
        answer == SEARCH_INTENT@ && self.all_found_images is Some
    }

    /// The agent with a sweep's working set replaced: exactly `images` remain
    /// to be checked and nothing is found yet. Nothing of an earlier sweep is kept.
    pub open spec fn reset(self, images: Seq<ImageBase64SearchView>) -> ImageAgentView {
        ImageAgentView { images_to_search: images, images_found: Seq::empty(), ..self }
    }

    /// The agent after the answer `answer` about `image`: a yes adds the
    /// image to those found.
    pub open spec fn validated(self, answer: Seq<char>, image: ImageBase64SearchView) -> ImageAgentView {
        if affirmative(answer) {
            ImageAgentView { images_found: self.images_found.push(image), ..self }
        } else {
            self
        }
    }

    /// The agent after the next step of a sweep: the last remaining image is
    /// taken. Without a vision model the question goes to the chat instead.
    pub open spec fn stepped(self, state: AppStateView) -> ImageAgentView {
        if self.images_to_search.len() > 0 {
            let taken = ImageAgentView {
                images_to_search: self.images_to_search.drop_last(),
                ..self
            };
            match self.vision_model(state) {
                Some(_) => taken,
                None => ImageAgentView { state: self.state.asked(), ..taken },
            }
        } else {
            self
        }
    }

    /// What the next step of a sweep asks of the host: one vision request
    /// about the image taken, or, with no image remaining, the announcement
    /// of the images found.
    pub open spec fn step_effects(self, prompt: Seq<char>, state: AppStateView) -> Seq<EffectView> {
        if self.images_to_search.len() > 0 {
            match self.vision_model(state) {
                Some(model) => if self.state.action_tx {
                    seq![
                        EffectView::Generate(
                            vision_request(
                                ollama_endpoint(self.state.shared(state)),
                                model,
                                prompt,
                                self.images_to_search.last(),
                            ),
                        ),
                    ]
                } else {
                    Seq::empty()
                },
                None => self.state.asked_effects(
                    ChatMessageView { role: MessageRole::User, content: prompt },
                ),
            }
        } else {
            published(
                self.state.action_tx,
                BroadcastMsgView::GetFoundImages(found_list(self.images_found)),
            )
        }
    }

    /// What the rephrased question `prompt` asks of the host: to read the
    /// indexed images, if there is an index.
    pub open spec fn load_effects(self, prompt: Seq<char>) -> Seq<EffectView> {
        match self.all_found_images {
            Some(index) => seq![EffectView::ReadSearchImages(prompt, indexed_paths(index))],
            None => Seq::empty(),
        }
    }
}

/// A sweep that starts replaces the working set of the sweep before it: the
/// images to check are exactly the new ones, nothing counts as found, and
/// nothing of what remained or was found before has any influence.
pub proof fn lemma_new_sweep_replaces_old(
    agent: ImageAgentView,
    remaining: Seq<ImageBase64SearchView>,
    found: Seq<ImageBase64SearchView>,
    images: Seq<ImageBase64SearchView>,
)
    ensures
        agent.reset(images).images_to_search == images,
        agent.reset(images).images_found == Seq::<ImageBase64SearchView>::empty(),
        (ImageAgentView { images_to_search: remaining, images_found: found, ..agent }).reset(
            images,
        ) == agent.reset(images),
{
}

/// Whenever an event changes the active model of the image agent, its
/// history is empty afterwards.
pub proof fn lemma_model_change_clears_history(
    agent: ImageAgentView,
    msg: BroadcastMsgView,
    state: AppStateView,
)
    ensures
        ImageAgent::after(agent, msg, state).state.active_model != agent.state.active_model
            ==> ImageAgent::after(agent, msg, state).state.history.len() == 0,
{
}

impl ImageAgent {
    /// The view of an agent that is not connected, not bound, has no index and no sweep.
    pub open spec fn new_view() -> ImageAgentView {
        ImageAgentView {
            state: AgentStateView {
                kind: AgentEnum::Images,
                action_tx: false,
                app_state: false,
                models: Seq::empty(),
                active_model: None,
                history: Seq::empty(),
                coordinator: None,
                sys_msg: SYS_MSG@,
                pending: 0,
            },
            all_found_images: None,
            images_to_search: Seq::empty(),
            images_found: Seq::empty(),
        }
    }

    pub fn new() -> (agent: Self)
        ensures
            agent@ == Self::new_view(),
    {
        let agent = ImageAgent {
            state: AgentState::new(AgentEnum::Images, SYS_MSG.to_owned()),
            all_found_images: None,
            images_to_search: Vec::new(),
            images_found: Vec::new(),
        };
        assert(agent.images_to_search.deep_view() == Seq::<ImageBase64SearchView>::empty());
        assert(agent.images_found.deep_view() == Seq::<ImageBase64SearchView>::empty());
        agent
    }

    /// The user edited the system prompt.
    pub fn set_sys_msg(&mut self, sys_msg: String)
        ensures
            final(self)@ == (ImageAgentView {
                state: AgentStateView { sys_msg: sys_msg@, ..old(self)@.state },
                ..old(self)@
            }),
    {
        self.state.sys_msg = sys_msg;
    }

    /// The user chose `model` in the model list. A choice that differs from
    /// the active model empties the history and binds the agent to it.
    pub fn select_model(&mut self, model: OllamaModel, app_state: &AppState) -> (effects: Vec<Effect>)
        ensures
            final(self)@ == (ImageAgentView {
                state: old(self)@.state.with_active_model(model@, app_state@),
                ..old(self)@
            }),
            effects.deep_view() == if old(self)@.state.active_model == Some(model@) {
                Seq::empty()
            } else {
                old(self)@.state.bound_effects(model@)
            },
            final(self)@.state.active_model != old(self)@.state.active_model ==> final(self)@.state.history.len() == 0,
    {
        self.state.select_model(model, app_state)
    }

    fn msg_to_coordinator(&mut self, msg: ChatMessage) -> (effects: Vec<Effect>)
        ensures
            final(self)@ == (ImageAgentView { state: old(self)@.state.asked(), ..old(self)@ }),
            effects.deep_view() == old(self)@.state.asked_effects(msg@),
    {
        self.state.msg_to_coordinator(msg)
    }

    /// A generation by the active model.
    fn generate(
        &self,
        app_state: &AppState,
        prompt: String,
        system: Option<String>,
        structured: bool,
        reply: Reply,
    ) -> (effects: Vec<Effect>)
        ensures
            effects.deep_view() == self@.generation(
                app_state@,
                prompt@,
                system.deep_view(),
                structured,
                reply@,
            ),
    {
        let (url, port) = get_ollama_url(
            if self.state.app_state {
                Some(app_state)
            } else {
                None
            },
        );
        if self.state.action_tx {
            if let Some(model) = &self.state.active_model {
                return only(
                    Effect::Generate(
                        GenerationRequest {
                            url,
                            port,
                            model: model.name.clone(),
                            prompt,
                            system,
                            image: None,
                            deterministic: true,
                            structured,
                            reply,
                        },
                    ),
                );
            }
        }
        nothing()
    }

    fn msg_to_vision(
        &self,
        model_name: String,
        prompt: String,
        img: ImageBase64Search,
        app_state: &AppState,
    ) -> (effects: Vec<Effect>)
        ensures
            effects.deep_view() == if self@.state.action_tx {
                seq![
                    EffectView::Generate(
                        vision_request(
                            ollama_endpoint(self@.state.shared(app_state@)),
                            model_name@,
                            prompt@,
                            img@,
                        ),
                    ),
                ]
            } else {
                Seq::empty()
            },
    {
        let (url, port) = get_ollama_url(
            if self.state.app_state {
                Some(app_state)
            } else {
                None
            },
        );
        if self.state.action_tx {
            only(
                Effect::Generate(
                    GenerationRequest {
                        url,
                        port,
                        model: model_name,
                        prompt: prompt.clone().concat(VISION_PROMPT_SUFFIX),
                        system: Some(VISION_SYS_MSG.to_owned()),
                        image: Some(img.clone()),
                        deterministic: true,
                        structured: false,
                        reply: Reply::Vision(prompt, img),
                    },
                ),
            )
        } else {
            nothing()
        }
    }

    fn get_vision_model(&self, app_state: &AppState) -> (name: Option<String>)
        ensures
            name.deep_view() == self@.vision_model(app_state@),
    {
        if self.state.app_state {
            app_state.ollama_state.first_vision_model()
        } else {
            None
        }
    }

    fn image_to_coordinator(&mut self, prompt: String, img: ImageBase64Search, app_state: &AppState) -> (effects:
        Vec<Effect>)
        ensures
            final(self)@ == match old(self)@.vision_model(app_state@) {
                Some(_) => old(self)@,
                None => ImageAgentView { state: old(self)@.state.asked(), ..old(self)@ },
            },
            effects.deep_view() == match old(self)@.vision_model(app_state@) {
                Some(model) => if old(self)@.state.action_tx {
                    seq![
                        EffectView::Generate(
                            vision_request(
                                ollama_endpoint(old(self)@.state.shared(app_state@)),
                                model,
                                prompt@,
                                img@,
                            ),
                        ),
                    ]
                } else {
                    Seq::empty()
                },
                None => old(self)@.state.asked_effects(
                    ChatMessageView { role: MessageRole::User, content: prompt@ },
                ),
            },
    {
        match self.get_vision_model(app_state) {
            Some(vision_model) => self.msg_to_vision(vision_model, prompt, img, app_state),
            None => self.msg_to_coordinator(ChatMessage::new(MessageRole::User, prompt)),
        }
    }

    /// Takes the outcome of the tool chat `request`: `response` is the
    /// model's reply, or none if the round trip failed. A reply is shown as
    /// an intermediate response, and its text is handed on to be read as a
    /// list of images.
    pub fn send_chat_msg(&mut self, request: ChatRequest, response: Option<ChatMessage>) -> (effects: Vec<
        Effect,
    >)
        ensures
            final(self)@ == (ImageAgentView {
                state: old(self)@.state.answered(request@, response.deep_view()),
                ..old(self)@
            }),
            effects.deep_view() == match response {
                Some(reply) => published(
                    old(self)@.state.action_tx,
                    BroadcastMsgView::GetChatSubReponse(reply@),
                ) + published(
                    old(self)@.state.action_tx,
                    BroadcastMsgView::GetStructuredOutput(reply@.content),
                ),
                None => Seq::empty(),
            },
    {
        self.state.settle(&request, &response);
        match response {
            Some(reply) => {
                let content = reply.content.clone();
                let mut effects = publish(
                    self.state.action_tx,
                    BroadcastMsg::GetChatSubReponse(reply),
                );
                let more = publish(self.state.action_tx, BroadcastMsg::GetStructuredOutput(content));
                extend(&mut effects, more);
                effects
            },
            None => nothing(),
        }
    }

    /// Asks the active model whether `msg` describes what to find on images.
    fn decide_search_msg(&self, msg: ChatMessage, app_state: &AppState) -> (effects: Vec<Effect>)
        ensures
            effects.deep_view() == self@.generation(
                app_state@,
                msg@.content,
                Some(INTENT_SYS_MSG@),
                false,
                ReplyView::Intent(msg@),
            ),
    {
        self.generate(
            app_state,
            msg.content.clone(),
            Some(INTENT_SYS_MSG.to_owned()),
            false,
            Reply::Intent(msg),
        )
    }

    /// Asks the active model to turn `msg` into a structured list of images.
    fn get_structured_output(&self, msg: String, app_state: &AppState) -> (effects: Vec<Effect>)
        ensures
            effects.deep_view() == self@.generation(
                app_state@,
                msg@,
                None,
                true,
                ReplyView::Structured,
            ),
    {
        self.generate(app_state, msg, None, true, Reply::Structured)
    }

    /// Asks the active model to rephrase `msg` as a question about one picture.
    fn search_images_by_vision(&self, msg: ChatMessage, app_state: &AppState) -> (effects: Vec<Effect>)
        ensures
            effects.deep_view() == self@.generation(
                app_state@,
                msg@.content,
                Some(REPHRASE_SYS_MSG@),
                false,
                ReplyView::Rephrased,
            ),
    {
        self.generate(
            app_state,
            msg.content,
            Some(REPHRASE_SYS_MSG.to_owned()),
            false,
            Reply::Rephrased,
        )
    }

    /// Asks the host to read the indexed images for a sweep with the question `prompt`.
    fn load_search_images(&self, prompt: String) -> (effects: Vec<Effect>)
        ensures
            effects.deep_view() == self@.load_effects(prompt@),
    {
        match &self.all_found_images {
            Some(index) => {
                let mut paths: Vec<String> = Vec::new();
                let mut i: usize = 0;
                while i < index.images.len()
                    invariant
                        i <= index.images.len(),
                        paths.len() == i,
                        forall|k: int| 0 <= k < i ==> paths.deep_view()[k] == index@.images[k].path,
                    decreases index.images.len() - i,
                {
                    let ghost before = paths.deep_view();
                    paths.push(index.images[i].path.clone());
                    assert(paths.deep_view() == before.push(index@.images[i as int].path));
                    i += 1;
                }
                assert(paths.deep_view() == indexed_paths(index@));
                only(Effect::ReadSearchImages(prompt, paths))
            },
            None => nothing(),
        }
    }

    /// Replaces the working set of a sweep: exactly `images` remain to be
    /// checked, and nothing is found yet. What remained of an earlier sweep
    /// is discarded.
    pub fn reset_vision_search(&mut self, images: Vec<ImageBase64Search>)
        ensures
            final(self)@ == old(self)@.reset(images.deep_view()),
    {
        self.images_to_search = images;
        self.images_found = Vec::new();
        assert(self.images_found.deep_view() == Seq::<ImageBase64SearchView>::empty());
    }

    /// Starts a sweep with the question `prompt` over the images that the
    /// host read: `files` holds, for each indexed image, its bytes or none
    /// if it could not be read. Unreadable images are left out. A sweep that
    /// was under way is replaced, not merged.
    pub fn start_vision_search(&mut self, prompt: String, files: &Vec<ImageFile>, app_state: &AppState) -> (effects:
        Vec<Effect>)
        ensures
            final(self)@ == old(self)@.reset(encoded_all(files.deep_view())).stepped(app_state@),
            effects.deep_view() == old(self)@.reset(encoded_all(files.deep_view())).step_effects(
                prompt@,
                app_state@,
            ),
    {
        let base64_images = img_paths_to_base64(files);
        self.reset_vision_search(base64_images);
        self.next_vision_search(prompt, app_state)
    }

    /// Takes the next image of the sweep, or ends the sweep if none remains.
    fn next_vision_search(&mut self, prompt: String, app_state: &AppState) -> (effects: Vec<Effect>)
        ensures
            final(self)@ == old(self)@.stepped(app_state@),
            effects.deep_view() == old(self)@.step_effects(prompt@, app_state@),
    {
        let ghost before = self.images_to_search.deep_view();
        if let Some(img) = self.images_to_search.pop() {
            assert(self.images_to_search.deep_view() == before.drop_last());
            assert(img@ == before.last());
            self.image_to_coordinator(prompt, img, app_state)
        } else {
            self.finished_image_search()
        }
    }

    /// Counts the image `img` as found if `answer` is a yes.
    pub fn validate_checked_image(&mut self, answer: String, img: ImageBase64Search)
        ensures
            final(self)@ == old(self)@.validated(answer@, img@),
    {
        if is_affirmative(answer.as_str()) {
            let ghost before = self.images_found.deep_view();
            self.images_found.push(img);
            assert(self.images_found.deep_view() == before.push(img@));
        }
    }

    fn finished_image_search(&self) -> (effects: Vec<Effect>)
        ensures
            effects.deep_view() == published(
                self@.state.action_tx,
                BroadcastMsgView::GetFoundImages(found_list(self@.images_found)),
            ),
    {
        if self.state.action_tx {
            let mut ims: Vec<ImageStructured> = Vec::new();
            let mut i: usize = 0;
            while i < self.images_found.len()
                invariant
                    i <= self.images_found.len(),
                    ims.len() == i,
                    forall|k: int|
                        0 <= k < i ==> ims.deep_view()[k] == found_list(self@.images_found).images[k],
                decreases self.images_found.len() - i,
            {
                let ghost before = ims.deep_view();
                let image = ImageStructured {
                    path: self.images_found[i].path.clone(),
                    name: FOUND_IMAGE_NAME.to_owned(),
                    extension: FOUND_IMAGE_EXTENSION.to_owned(),
                };
                ims.push(image);
                assert(ims.deep_view() == before.push(image@));
                i += 1;
            }
            assert(ims.deep_view() == found_list(self@.images_found).images);
            publish(true, BroadcastMsg::GetFoundImages(ImagesStructured { images: ims }))
        } else {
            nothing()
        }
    }
}

impl Agent for ImageAgent {
    open spec fn kind() -> AgentEnum {
        AgentEnum::Images
    }

    fn name(&self) -> (name: &'static str)
        ensures
            name@ == "Images"@,
    {
        "Images"
    }

    fn description(&self) -> (description: &'static str)
        ensures
            description@ == "Searching images in local PC"@,
    {
        "Searching images in local PC"
    }

    fn agent(&self) -> (kind: AgentEnum) {
        AgentEnum::Images
    }

    fn select_agent(&mut self, agent: AgentEnum, app_state: &AppState) -> (effects: Vec<Effect>)
        ensures
            final(self)@ == (ImageAgentView {
                state: old(self)@.state.selected(agent, app_state@),
                ..old(self)@
            }),
            effects.deep_view() == old(self)@.state.selected_effects(agent, app_state@),
            final(self)@.state.history.len() == 0,
    {
        self.state.select_agent(agent, app_state)
    }

    fn send_selected_agent(&self) -> (effects: Vec<Effect>)
        ensures
            effects.deep_view() == published(
                self@.state.action_tx,
                BroadcastMsgView::SelectAgent(self@.state.kind),
            ),
    {
        self.state.send_selected_agent()
    }
}

impl Component for ImageAgent {
    open spec fn after(view: ImageAgentView, msg: BroadcastMsgView, state: AppStateView) -> ImageAgentView {
        match msg {
            BroadcastMsgView::SelectAgent(agent) => ImageAgentView {
                state: view.state.selected(agent, state),
                ..view
            },
            BroadcastMsgView::OllamaModels(models) => ImageAgentView {
                state: view.state.with_models(models, state),
                ..view
            },
            BroadcastMsgView::GetFoundImages(found) => view.indexed(found),
            BroadcastMsgView::GetDescriptionImageSearch(answer, _) => if view.searches(answer) {
                view
            } else {
                ImageAgentView { state: view.state.asked(), ..view }
            },
            BroadcastMsgView::GetVisionSeachResult(_, answer, image) => view.validated(
                answer,
                image,
            ).stepped(state),
            _ => view,
        }
    }

    open spec fn effects(view: ImageAgentView, msg: BroadcastMsgView, state: AppStateView) -> Seq<
        EffectView,
    > {
        match msg {
            BroadcastMsgView::SelectAgent(agent) => view.state.selected_effects(agent, state),
            BroadcastMsgView::OllamaModels(models) => view.state.with_models_effects(models, state),
            BroadcastMsgView::SendUserMessage(turn) => view.generation(
                state,
                turn.content,
                Some(INTENT_SYS_MSG@),
                false,
                ReplyView::Intent(turn),
            ),
            BroadcastMsgView::GetStructuredOutput(text) => view.generation(
                state,
                text,
                None,
                true,
                ReplyView::Structured,
            ),
            BroadcastMsgView::GetDescriptionImageSearch(answer, turn) => if view.searches(answer) {
                view.generation(
                    state,
                    turn.content,
                    Some(REPHRASE_SYS_MSG@),
                    false,
                    ReplyView::Rephrased,
                )
            } else {
                view.state.asked_effects(turn)
            },
            BroadcastMsgView::GetRephraseImageSearchPrompt(prompt) => view.load_effects(prompt),
            BroadcastMsgView::GetVisionSeachResult(prompt, answer, image) => view.validated(
                answer,
                image,
            ).step_effects(prompt, state),
            _ => Seq::empty(),
        }
    }

    fn register_tx(&mut self)
        ensures
            final(self)@ == (ImageAgentView {
                state: AgentStateView { action_tx: true, ..old(self)@.state },
                ..old(self)@
            }),
    {
        self.state.action_tx = true;
    }

    fn register_app_state(&mut self, app_state: &AppState)
        ensures
            final(self)@ == (ImageAgentView {
                state: AgentStateView { app_state: true, ..old(self)@.state },
                ..old(self)@
            }),
    {
        self.state.app_state = true;
    }

    fn init(&mut self, app_state: &AppState) -> (effects: Vec<Effect>)
        ensures
            final(self)@ == old(self)@,
            effects.deep_view() == Seq::<EffectView>::empty(),
    {
        nothing()
    }

    /// Runs the search pipeline one step further. A user message is
    /// classified; a positive classification with an index at hand is
    /// rephrased, any other goes to the tool chat; a rephrased question
    /// starts the reading of the indexed images; each answer of the vision
    /// model is counted and followed by the next image, and after the last
    /// image the images found are announced.
    fn update(&mut self, msg: BroadcastMsg, app_state: &AppState) -> (effects: Vec<Effect>)
        ensures
            final(self)@.state.active_model != old(self)@.state.active_model ==> final(self)@.state.history.len() == 0,
    {
        match msg {
            BroadcastMsg::SelectAgent(agent) => self.select_agent(agent, app_state),
            BroadcastMsg::OllamaModels(models) => self.state.set_models(models, app_state),
            BroadcastMsg::SendUserMessage(msg) => self.decide_search_msg(msg, app_state),
            BroadcastMsg::GetStructuredOutput(msg) => self.get_structured_output(msg, app_state),
            BroadcastMsg::GetFoundImages(json) => {
                if self.all_found_images.is_none() {
                    self.all_found_images = Some(json);
                }
                nothing()
            },
            BroadcastMsg::GetDescriptionImageSearch(is_by_desc, msg) => {
                if str_eq(is_by_desc.as_str(), SEARCH_INTENT) && self.all_found_images.is_some() {
                    self.search_images_by_vision(msg, app_state)
                } else {
                    self.msg_to_coordinator(msg)
                }
            },
            BroadcastMsg::GetRephraseImageSearchPrompt(prompt) => self.load_search_images(prompt),
            BroadcastMsg::GetVisionSeachResult(prompt, answer, img) => {
                self.validate_checked_image(answer, img);
                self.next_vision_search(prompt, app_state)
            },
            _ => nothing(),
        }
    }
}

} // verus!
