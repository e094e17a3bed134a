//! The connection settings of the inference server and the models it offers.

use vstd::prelude::*;
use crate::config::{OLLAMA_NOT_RUNNING, OLLAMA_RUNNING_BODY, VISION_FAMILY};
use crate::effects::{Effect, EffectView};
use crate::enums::{BroadcastMsg, BroadcastMsgView, OllamaModel, OllamaModelView, OllamaTagsResult};
use crate::text::{list_contains, str_eq};

verus! {

/// The server's address, the models it reported last, and whether this state
/// has been connected to the bus.
#[derive(Debug, PartialEq, Eq)]
pub struct OllamaState {
    /// Whether this state has been connected to the bus.
    pub action_tx: bool,
    pub url: String,
    pub models: Vec<OllamaModel>,
}

pub struct OllamaStateView {
    pub action_tx: bool,
    pub url: Seq<char>,
    pub models: Seq<OllamaModelView>,
}

impl View for OllamaState {
    type V = OllamaStateView;

    open spec fn view(&self) -> OllamaStateView {
        OllamaStateView { action_tx: self.action_tx, url: self.url@, models: self.models.deep_view() }
    }
}

/// The address of the model list of the server at `url`.
pub open spec fn tags_url(url: Seq<char>) -> Seq<char> {
    url + "/api/tags"@
}

/// Whether a model can read images: its family tags hold the vision marker.
pub open spec fn is_vision_model(model: OllamaModelView) -> bool {
    model.details.families.contains(VISION_FAMILY@)
}

/// The models of `models` that can read images, in their order.
pub open spec fn vision_models(models: Seq<OllamaModelView>) -> Seq<OllamaModelView> {
    models.filter(|m: OllamaModelView| is_vision_model(m))
}

/// The name of the first model of `models` that can read images, if there is one.
pub open spec fn first_vision_model(models: Seq<OllamaModelView>) -> Option<Seq<char>> {
    let able = vision_models(models);
    if able.len() > 0 {
        Some(able[0].name)
    } else {
        None
    }
}

impl OllamaStateView {
    /// The two background requests that follow a start or a change of address.
    pub open spec fn probes(self) -> Seq<EffectView> {
        seq![EffectView::CheckOllamaUrl(self.url), EffectView::GetTags(tags_url(self.url))]
    }

    /// `event` on the bus, if this state is connected to it.
    pub open spec fn publish(self, event: BroadcastMsgView) -> Seq<EffectView> {
        if self.action_tx {
            seq![EffectView::Emit(event)]
        } else {
            Seq::empty()
        }
    }

    /// The state after `msg`.
    pub open spec fn reduce(self, msg: BroadcastMsgView) -> OllamaStateView {
        match msg {
            BroadcastMsgView::SetOllamaURL(url) => OllamaStateView { url, ..self },
            BroadcastMsgView::SetOllamaModels(models) => OllamaStateView { models, ..self },
            _ => self,
        }
    }

    /// What `msg` asks of the host.
    pub open spec fn effects(self, msg: BroadcastMsgView) -> Seq<EffectView> {
        match msg {
            BroadcastMsgView::SetOllamaURL(url) => self.reduce(msg).probes(),
            BroadcastMsgView::SetOllamaModels(models) => self.publish(
                BroadcastMsgView::OllamaModels(models),
            ),
            BroadcastMsgView::GetOllamaURL => self.publish(BroadcastMsgView::OllamaURL(self.url)),
            BroadcastMsgView::GetOllamaModels => self.publish(
                BroadcastMsgView::OllamaModels(self.models),
            ),
            BroadcastMsgView::GetOllamaRunning => seq![EffectView::CheckOllamaUrl(self.url)],
            _ => Seq::empty(),
        }
    }

    /// The event that reports a finished connectivity probe: `status` is the
    /// body that came back, or none if the request failed.
    pub open spec fn probe_event(self, status: Option<Seq<char>>) -> Option<BroadcastMsgView> {
        if !self.action_tx {
            None
        } else {
            match status {
                Some(body) => if body == OLLAMA_RUNNING_BODY@ {
                    Some(BroadcastMsgView::OllamaRunning(Ok(())))
                } else {
                    None
                },
                None => Some(BroadcastMsgView::OllamaRunning(Err(OLLAMA_NOT_RUNNING@))),
            }
        }
    }
}

impl OllamaState {
    /// The state at startup: the stored address where there is one, else `url`; no models yet.
    pub fn new(stored: Option<String>, url: String) -> (state: Self)
        ensures
            state@ == (OllamaStateView {
                action_tx: false,
                url: match stored {
                    Some(saved) => saved@,
                    None => url@,
                },
                models: Seq::empty(),
            }),
    {
        let models: Vec<OllamaModel> = Vec::new();
        assert(models.deep_view() == Seq::<OllamaModelView>::empty());
        match stored {
            Some(saved) => OllamaState { action_tx: false, url: saved, models },
            None => OllamaState { action_tx: false, url, models },
        }
    }

    /// Asks for the first connectivity probe and the first model list.
    pub fn init(&mut self) -> (effects: Vec<Effect>)
        ensures
            final(self)@ == old(self)@,
            effects.deep_view() == old(self)@.probes(),
    {
        let mut effects: Vec<Effect> = Vec::new();
        effects.push(self.send_check_ollama_url());
        effects.push(self.send_get_tags());
        assert(effects.deep_view() == self@.probes());
        effects
    }

    /// The models that can read images, in the order in which the server listed them.
    pub fn get_vision_models(&self) -> (found: Vec<OllamaModel>)
        ensures
            found.deep_view() == vision_models(self@.models),
    {
        let mut found: Vec<OllamaModel> = Vec::new();
        let mut i: usize = 0;
        assert(self.models.deep_view().take(0) == Seq::<OllamaModelView>::empty());
        assert(found.deep_view() == Seq::<OllamaModelView>::empty());
        proof {
            reveal(Seq::filter);
        }
        while i < self.models.len()
            invariant
                i <= self.models.len(),
                found.deep_view() == vision_models(self.models.deep_view().take(i as int)),
            decreases self.models.len() - i,
        {
            let ghost seen = self.models.deep_view().take(i as int);
            let ghost before = found.deep_view();
            let model = &self.models[i];
            proof {
                seen.lemma_filter_push(model@, |m: OllamaModelView| is_vision_model(m));
                assert(self.models.deep_view().take(i + 1) == seen.push(model@));
            }
            if list_contains(&model.details.families, VISION_FAMILY) {
                found.push(model.clone());
                assert(found.deep_view() == before.push(model@));
            }
            i += 1;
        }
        assert(self.models.deep_view().take(i as int) == self.models.deep_view());
        found
    }

    /// The name of the first model that can read images, if the server offers one.
    pub fn first_vision_model(&self) -> (name: Option<String>)
        ensures
            name.deep_view() == first_vision_model(self@.models),
    {
        let able = self.get_vision_models();
        if able.len() > 0 {
            assert(able.deep_view()[0] == able[0]@);
            Some(able[0].name.clone())
        } else {
            None
        }
    }

    /// Applies one bus event: a new address or a new model list is stored, and
    /// requests for either are answered on the bus.
    pub fn update(&mut self, msg: BroadcastMsg) -> (effects: Vec<Effect>)
        ensures
            final(self)@ == old(self)@.reduce(msg@),
            effects.deep_view() == old(self)@.effects(msg@),
    {
        let mut effects: Vec<Effect> = Vec::new();
        assert(effects.deep_view() == Seq::<EffectView>::empty());
        match msg {
            BroadcastMsg::SetOllamaURL(url) => {
                effects = self.set_ollama_url(url);
            },
            BroadcastMsg::SetOllamaModels(models) => {
                self.models = models;
                if self.action_tx {
                    effects.push(Effect::Emit(BroadcastMsg::OllamaModels(self.models.clone())));
                    assert(effects.deep_view() == old(self)@.effects(msg@));
                }
            },
            BroadcastMsg::GetOllamaURL => {
                if self.action_tx {
                    effects.push(Effect::Emit(BroadcastMsg::OllamaURL(self.url.clone())));
                    assert(effects.deep_view() == old(self)@.effects(msg@));
                }
            },
            BroadcastMsg::GetOllamaModels => {
                if self.action_tx {
                    effects.push(Effect::Emit(BroadcastMsg::OllamaModels(self.models.clone())));
                    assert(effects.deep_view() == old(self)@.effects(msg@));
                }
            },
            BroadcastMsg::GetOllamaRunning => {
                effects.push(self.send_check_ollama_url());
                assert(effects.deep_view() == old(self)@.effects(msg@));
            },
            _ => {},
        }
        effects
    }

    fn send_check_ollama_url(&self) -> (effect: Effect)
        ensures
            effect@ == EffectView::CheckOllamaUrl(self@.url),
    {
        Effect::CheckOllamaUrl(self.url.clone())
    }

    /// Turns the outcome of a connectivity probe into the event that reports
    /// it. `status` is the body of the answer, or none if the request failed.
    /// An answer with another body than the server's greeting reports nothing.
    pub fn check_ollama_url(&self, status: Option<String>) -> (event: Option<BroadcastMsg>)
        ensures
            event.deep_view() == self@.probe_event(status.deep_view()),
    {
        if !self.action_tx {
            return None;
        }
        match status {
            Some(body) => {
                if str_eq(body.as_str(), OLLAMA_RUNNING_BODY) {
                    Some(BroadcastMsg::OllamaRunning(Ok(())))
                } else {
                    None
                }
            },
            None => Some(BroadcastMsg::OllamaRunning(Err(OLLAMA_NOT_RUNNING.to_owned()))),
        }
    }

    fn set_ollama_url(&mut self, url: String) -> (effects: Vec<Effect>)
        ensures
            final(self)@ == (OllamaStateView { url: url@, ..old(self)@ }),
            effects.deep_view() == final(self)@.probes(),
    {
        self.url = url;
        let mut effects: Vec<Effect> = Vec::new();
        effects.push(self.send_check_ollama_url());
        effects.push(self.send_get_tags());
        assert(effects.deep_view() == self@.probes());
        effects
    }

    fn send_get_tags(&self) -> (effect: Effect)
        ensures
            effect@ == EffectView::GetTags(tags_url(self@.url)),
    {
        Effect::GetTags(self.url.clone().concat("/api/tags"))
    }

    /// Turns the outcome of a model-list request into the event that stores
    /// it. `tags` is the list that came back, or none if the request failed.
    pub fn get_tags(&self, tags: Option<OllamaTagsResult>) -> (event: Option<BroadcastMsg>)
        ensures
            event.deep_view() == match tags {
                Some(list) if self@.action_tx => Some(BroadcastMsgView::SetOllamaModels(list@.models)),
                _ => None,
            },
    {
        match tags {
            Some(list) => {
                if self.action_tx {
                    Some(BroadcastMsg::SetOllamaModels(list.models))
                } else {
                    None
                }
            },
            None => None,
        }
    }

    /// Connects this state to the bus: from now on it publishes.
    pub fn register_tx(&mut self)
        ensures
            final(self)@ == (OllamaStateView { action_tx: true, ..old(self)@ }),
    {
        self.action_tx = true;
    }
}

} // verus!
