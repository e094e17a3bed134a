//! The settings popup of the inference server: its address and its models.

use vstd::prelude::*;
use crate::app_state::{AppState, AppStateView};
use crate::components::Component;
use crate::effects::{nothing, only, publish, published, Effect, EffectView};
use crate::enums::{BroadcastMsg, BroadcastMsgView, OllamaModel, OllamaModelView};

verus! {

/// Whether the URL rule of the settings form accepts `url`, as
/// `garde::rules::url::Url::validate_url` decides it.
pub uninterp spec fn url_rule_accepts(url: Seq<char>) -> bool;

/// `garde::rules::url::Url::validate_url`, the test behind garde's `url`
/// rule, parses the text as a URL and succeeds exactly if the parse does.
/// The verdict depends on the text alone; it is named by
/// [`url_rule_accepts`] and nothing more is claimed about it.
#[verifier::external_body]
fn url_rule(url: &str) -> (accepted: bool)
    ensures
        accepted == url_rule_accepts(url@),
{
    garde::rules::url::Url::validate_url(&url).is_ok()
}

/// The address field of the settings form.
#[derive(Debug, PartialEq, Eq)]
pub struct OllamaURL {
    pub url: String,
}

impl OllamaURL {
    /// Whether the field holds a URL.
    pub fn validate(&self) -> (valid: bool)
        ensures
            valid == url_rule_accepts(self.url@),
    {
        url_rule(self.url.as_str())
    }
}

/// The popup's cache: the address being edited and the models to list.
#[derive(Debug, PartialEq, Eq)]
pub struct OllamaSettings {
    url: OllamaURL,
    models: Vec<OllamaModel>,
    action_tx: bool,
}

pub struct OllamaSettingsView {
    pub url: Seq<char>,
    pub models: Seq<OllamaModelView>,
    pub action_tx: bool,
}

impl View for OllamaSettings {
    type V = OllamaSettingsView;

    closed spec fn view(&self) -> OllamaSettingsView {
        OllamaSettingsView {
            url: self.url.url@,
            models: self.models.deep_view(),
            action_tx: self.action_tx,
        }
    }
}

impl OllamaSettingsView {
    /// What opening the popup asks for: the current address and model list.
    pub open spec fn refresh(self) -> Seq<EffectView> {
        published(self.action_tx, BroadcastMsgView::GetOllamaURL) + published(
            self.action_tx,
            BroadcastMsgView::GetOllamaModels,
        )
    }

    /// What submitting the form asks for: the edited address becomes the
    /// server address if it passed validation.
    pub open spec fn submitted(self, valid: bool) -> Seq<EffectView> {
        published(self.action_tx && valid, BroadcastMsgView::SetOllamaURL(self.url))
    }
}

impl OllamaSettings {
    /// The view of a fresh value: not connected, with nothing cached.
    pub open spec fn new_view() -> OllamaSettingsView {
        OllamaSettingsView {
            url: Seq::empty(),
            models: Seq::empty(),
            action_tx: false,
        }
    }

    pub fn new() -> (settings: Self)
        ensures
            settings@ == Self::new_view(),
    {
        let models: Vec<OllamaModel> = Vec::new();
        assert(models.deep_view() == Seq::<OllamaModelView>::empty());
        OllamaSettings { url: OllamaURL { url: String::new() }, models, action_tx: false }
    }

    /// The address as it stands in the form.
    pub fn url(&self) -> (url: &String)
        ensures
            url@ == self@.url,
    {
        &self.url.url
    }

    /// The models to list.
    pub fn models(&self) -> (models: &Vec<OllamaModel>)
        ensures
            models.deep_view() == self@.models,
    {
        &self.models
    }

    /// The user edited the address field.
    pub fn set_url(&mut self, url: String)
        ensures
            final(self)@ == (OllamaSettingsView { url: url@, ..old(self)@ }),
    {
        self.url.url = url;
    }

    /// The event that the status poll puts on the bus at each tick.
    pub fn period_ollama_status(&self) -> (effects: Vec<Effect>)
        ensures
            effects.deep_view() == published(self@.action_tx, BroadcastMsgView::GetOllamaRunning),
    {
        publish(self.action_tx, BroadcastMsg::GetOllamaRunning)
    }

    /// The user opened the popup.
    pub fn open(&self) -> (effects: Vec<Effect>)
        ensures
            effects.deep_view() == self@.refresh(),
    {
        let mut effects = publish(self.action_tx, BroadcastMsg::GetOllamaURL);
        let models = publish(self.action_tx, BroadcastMsg::GetOllamaModels);
        crate::effects::extend(&mut effects, models);
        effects
    }

    /// The user pressed "save" and the form's validation said `valid`.
    pub fn submit(&self, valid: bool) -> (effects: Vec<Effect>)
        ensures
            effects.deep_view() == self@.submitted(valid),
    {
        publish(self.action_tx && valid, BroadcastMsg::SetOllamaURL(self.url.url.clone()))
    }

    /// The user pressed "save": the address is validated and, if it is a URL, announced.
    pub fn save(&self) -> (effects: Vec<Effect>)
        ensures
            effects.deep_view() == self@.submitted(url_rule_accepts(self@.url)),
    {
        let valid = self.url.validate();
        self.submit(valid)
    }
}

impl Component for OllamaSettings {
    open spec fn after(
        view: OllamaSettingsView,
        msg: BroadcastMsgView,
        state: AppStateView,
    ) -> OllamaSettingsView {
        match msg {
            BroadcastMsgView::OllamaURL(url) => OllamaSettingsView { url, ..view },
            BroadcastMsgView::OllamaModels(models) => OllamaSettingsView { models, ..view },
            _ => view,
        }
    }

    open spec fn effects(
        view: OllamaSettingsView,
        msg: BroadcastMsgView,
        state: AppStateView,
    ) -> Seq<EffectView> {
        Seq::empty()
    }

    fn register_tx(&mut self)
        ensures
            final(self)@ == (OllamaSettingsView { action_tx: true, ..old(self)@ }),
    {
        self.action_tx = true;
    }

    fn register_app_state(&mut self, app_state: &AppState)
        ensures
            final(self)@ == old(self)@,
    {
    }

    /// Starts the status poll: one request for a probe each second.
    fn init(&mut self, app_state: &AppState) -> (effects: Vec<Effect>)
        ensures
            final(self)@ == old(self)@,
            effects.deep_view() == if old(self)@.action_tx {
                seq![EffectView::Repeat(BroadcastMsgView::GetOllamaRunning)]
            } else {
                Seq::empty()
            },
    {
        if self.action_tx {
            only(Effect::Repeat(BroadcastMsg::GetOllamaRunning))
        } else {
            nothing()
        }
    }

    fn update(&mut self, msg: BroadcastMsg, app_state: &AppState) -> (effects: Vec<Effect>) {
        match msg {
            BroadcastMsg::OllamaURL(url) => {
                self.url.url = url;
            },
            BroadcastMsg::OllamaModels(models) => {
                self.models = models;
            },
            _ => {},
        }
        nothing()
    }
}

} // verus!
