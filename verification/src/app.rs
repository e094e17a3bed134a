//! The dispatch loop.
//!
//! The host drains the bus once per frame and hands the events over in the
//! order in which they arrived. Each event is applied to the shared state
//! first; then every component receives its own copy, in a fixed order. What
//! the handlers ask for is returned to the host, in the same order.

use vstd::prelude::*;
use crate::agents::chat::ChatAgent;
use crate::agents::images::{found_list, ImageAgent, ImageAgentView};
use crate::agents::web_scrape::WebScrapeAgent;
use crate::agents::AgentStateView;
use crate::app_state::{AppState, AppStateView};
use crate::components::agents_panel::{AgentPanel, AgentPanelView};
use crate::components::bottom_panel::{ChatBottomPanel, ChatBottomPanelView};
use crate::components::chat_input::ChatInputView;
use crate::components::file_loader::{thumbnail_requests, FileLoader, FileLoaderView};
use crate::components::ollama_settings::OllamaSettingsView;
use crate::ollama_state::OllamaStateView;
use crate::components::labels::{Labeler, LabelerView};
use crate::components::main_panel::{MainPanel, MainPanelView};
use crate::components::messages::{Messages, MessagesView};
use crate::components::top_menu::{TopMenu, TopMenuView};
use crate::components::top_panel::{TopPanel, TopPanelView};
use crate::components::Component;
use crate::effects::{
    emitted, extend, lemma_separate_concat, lemma_separate_published, requested, separate,
    Effect, EffectView,
};
use crate::enums::{AgentEnum, BroadcastMsg, BroadcastMsgView};

verus! {

/// The application: the shared state and the components, in the order in
/// which they are served.
#[derive(Debug, PartialEq, Eq)]
pub struct DeskApp {
    pub app_state: AppState,
    pub top_menu: TopMenu,
    pub top_panel: TopPanel,
    pub main_panel: MainPanel,
    pub file_loader: FileLoader,
    pub labeler: Labeler,
    pub agent_panel: AgentPanel,
    pub messages: Messages,
    pub bottom_panel: ChatBottomPanel,
}

pub struct DeskAppView {
    pub app_state: AppStateView,
    pub top_menu: TopMenuView,
    pub top_panel: TopPanelView,
    pub main_panel: MainPanelView,
    pub file_loader: FileLoaderView,
    pub labeler: LabelerView,
    pub agent_panel: AgentPanelView,
    pub messages: MessagesView,
    pub bottom_panel: ChatBottomPanelView,
}

impl View for DeskApp {
    type V = DeskAppView;

    open spec fn view(&self) -> DeskAppView {
        DeskAppView {
            app_state: self.app_state@,
            top_menu: self.top_menu@,
            top_panel: self.top_panel@,
            main_panel: self.main_panel@,
            file_loader: self.file_loader@,
            labeler: self.labeler@,
            agent_panel: self.agent_panel@,
            messages: self.messages@,
            bottom_panel: self.bottom_panel@,
        }
    }
}

impl DeskAppView {
    /// The application before it is wired, around the shared state `state`.
    pub open spec fn fresh(state: AppStateView) -> DeskAppView {
        DeskAppView {
            app_state: state,
            top_menu: TopMenu::new_view(),
            top_panel: TopPanel::new_view(),
            main_panel: MainPanel::new_view(),
            file_loader: FileLoader::new_view(),
            labeler: Labeler::new_view(),
            agent_panel: AgentPanel::new_view(),
            messages: Messages::new_view(),
            bottom_panel: ChatBottomPanel::new_view(),
        }
    }

    /// The shared state once it is connected to the bus.
    pub open spec fn wired_state(self) -> AppStateView {
        AppStateView {
            action_tx: true,
            ollama_state: OllamaStateView { action_tx: true, ..self.app_state.ollama_state },
            ..self.app_state
        }
    }

    /// The application once it is wired and started: everything is connected
    /// to the bus and sees the shared state, the top bar lists the tracked
    /// directories and has counted their files.
    pub open spec fn started(self) -> DeskAppView {
        let state = self.wired_state();
        DeskAppView {
            app_state: state,
            top_menu: TopMenuView { action_tx: true, ..self.top_menu },
            top_panel: TopPanelView {
                action_tx: true,
                app_state: true,
                picked_directories: state.directories,
                ollama_button: OllamaSettingsView { action_tx: true, ..self.top_panel.ollama_button },
                ..self.top_panel
            }.recounted(state),
            main_panel: MainPanelView { action_tx: true, app_state: true, ..self.main_panel },
            file_loader: FileLoaderView { action_tx: true, app_state: true },
            labeler: LabelerView { action_tx: true, app_state: true, ..self.labeler },
            agent_panel: AgentPanelView {
                action_tx: true,
                chat_agent: AgentStateView {
                    action_tx: true,
                    app_state: true,
                    ..self.agent_panel.chat_agent
                },
                websearch_agent: AgentStateView {
                    action_tx: true,
                    app_state: true,
                    ..self.agent_panel.websearch_agent
                },
                images_agent: ImageAgentView {
                    state: AgentStateView {
                        action_tx: true,
                        app_state: true,
                        ..self.agent_panel.images_agent.state
                    },
                    ..self.agent_panel.images_agent
                },
            },
            messages: MessagesView { action_tx: true, ..self.messages },
            bottom_panel: ChatBottomPanelView {
                action_tx: true,
                chat_input: ChatInputView { action_tx: true, ..self.bottom_panel.chat_input },
            },
        }
    }

    /// What the start asks of the host: the first probe of the server and
    /// its model list, the status poll, and the thumbnails of every
    /// directory that is tracked already.
    pub open spec fn start_effects(self) -> Seq<EffectView> {
        self.app_state.ollama_state.probes().push(
            EffectView::Repeat(BroadcastMsgView::GetOllamaRunning),
        ) + thumbnail_requests(self.app_state.dir_files)
    }

    /// The application after the event `msg`: the shared state is reduced
    /// first, and every component handles the event against the reduced state.
    #[verifier::opaque]
    pub open spec fn after(self, msg: BroadcastMsgView) -> DeskAppView {
        let state = self.app_state.reduce(msg);
        DeskAppView {
            app_state: state,
            top_menu: TopMenu::after(self.top_menu, msg, state),
            top_panel: TopPanel::after(self.top_panel, msg, state),
            main_panel: MainPanel::after(self.main_panel, msg, state),
            file_loader: FileLoader::after(self.file_loader, msg, state),
            labeler: Labeler::after(self.labeler, msg, state),
            agent_panel: AgentPanel::after(self.agent_panel, msg, state),
            messages: Messages::after(self.messages, msg, state),
            bottom_panel: ChatBottomPanel::after(self.bottom_panel, msg, state),
        }
    }

    /// What the event `msg` asks of the host: the requests of the shared
    /// state, then those of each component, in the order of the components.
    #[verifier::opaque]
    pub open spec fn effects(self, msg: BroadcastMsgView) -> Seq<EffectView> {
        let state = self.app_state.reduce(msg);
        self.app_state.effects(msg) + TopMenu::effects(self.top_menu, msg, state)
            + TopPanel::effects(self.top_panel, msg, state) + MainPanel::effects(
            self.main_panel,
            msg,
            state,
        ) + FileLoader::effects(self.file_loader, msg, state) + Labeler::effects(
            self.labeler,
            msg,
            state,
        ) + AgentPanel::effects(self.agent_panel, msg, state) + Messages::effects(
            self.messages,
            msg,
            state,
        ) + ChatBottomPanel::effects(self.bottom_panel, msg, state)
    }

    /// The application once the bus is quiet: after the events of `queue`
    /// and after every event that their handling puts on the bus, each
    /// handled in the order in which it reached the bus.
    pub open spec fn settled(self, queue: Seq<BroadcastMsgView>) -> DeskAppView
        decreases total_weight(queue),
    {
        if queue.len() == 0 {
            self
        } else {
            proof {
                lemma_step_lightens(self, queue);
            }
            self.after(queue[0]).settled(queue.drop_first() + emitted(self.effects(queue[0])))
        }
    }

    /// What is left for the host to do once the bus is quiet, in the order
    /// in which it was asked for.
    pub open spec fn settled_requests(self, queue: Seq<BroadcastMsgView>) -> Seq<EffectView>
        decreases total_weight(queue),
    {
        if queue.len() == 0 {
            Seq::empty()
        } else {
            proof {
                lemma_step_lightens(self, queue);
            }
            requested(self.effects(queue[0])) + self.after(queue[0]).settled_requests(
                queue.drop_first() + emitted(self.effects(queue[0])),
            )
        }
    }

    /// The events that were handled until the bus was quiet, in their order.
    pub open spec fn settled_trace(self, queue: Seq<BroadcastMsgView>) -> Seq<BroadcastMsgView>
        decreases total_weight(queue),
    {
        if queue.len() == 0 {
            Seq::empty()
        } else {
            proof {
                lemma_step_lightens(self, queue);
            }
            seq![queue[0]] + self.after(queue[0]).settled_trace(
                queue.drop_first() + emitted(self.effects(queue[0])),
            )
        }
    }

    /// The application after the events `msgs`, handled in their order.
    pub open spec fn after_all(self, msgs: Seq<BroadcastMsgView>) -> DeskAppView
        decreases msgs.len(),
    {
        if msgs.len() == 0 {
            self
        } else {
            self.after_all(msgs.drop_last()).after(msgs.last())
        }
    }

    /// What the events `msgs` ask of the host, in the order of the events.
    pub open spec fn effects_all(self, msgs: Seq<BroadcastMsgView>) -> Seq<EffectView>
        decreases msgs.len(),
    {
        if msgs.len() == 0 {
            Seq::empty()
        } else {
            self.effects_all(msgs.drop_last()) + self.after_all(msgs.drop_last()).effects(
                msgs.last(),
            )
        }
    }
}

/// After a drain, the shared state is what its reducer makes of the events,
/// applied one after the other in the order of their arrival. No component
/// has a part in it.
pub proof fn lemma_drain_reduces_in_order(app: DeskAppView, msgs: Seq<BroadcastMsgView>)
    ensures
        app.after_all(msgs).app_state == app.app_state.reduce_all(msgs),
    decreases msgs.len(),
{
    reveal(DeskAppView::after);
    if msgs.len() > 0 {
        lemma_drain_reduces_in_order(app, msgs.drop_last());
    }
}

/// A drain of two batches, one after the other, is a drain of both at once.
pub proof fn lemma_drain_composes(app: DeskAppView, first: Seq<BroadcastMsgView>, second: Seq<BroadcastMsgView>)
    ensures
        app.after_all(first + second) == app.after_all(first).after_all(second),
        app.effects_all(first + second) == app.effects_all(first) + app.after_all(
            first,
        ).effects_all(second),
    decreases second.len(),
{
    if second.len() == 0 {
        assert(first + second == first);
    } else {
        lemma_drain_composes(app, first, second.drop_last());
        assert((first + second).drop_last() == first + second.drop_last());
        assert((first + second).last() == second.last());
    }
}

/// How far an event is from the end of the chain of events that its
/// handling can put on the bus at once: an event of rank zero emits nothing,
/// and every event emits only events of lower rank.
pub open spec fn rank(msg: BroadcastMsgView) -> nat {
    match msg {
        BroadcastMsgView::SetOllamaModels(_) => 2,
        BroadcastMsgView::GetOllamaModels => 2,
        BroadcastMsgView::OllamaModels(_) => 1,
        BroadcastMsgView::SelectAgent(_) => 1,
        BroadcastMsgView::GetOllamaURL => 1,
        BroadcastMsgView::StartLabeling => 1,
        BroadcastMsgView::GetLabelsForImage(_, _) => 1,
        BroadcastMsgView::GetVisionSeachResult(_, _, _) => 1,
        _ => 0,
    }
}

/// The weight of one event in a queue: four times that of an event of the next lower rank.
pub open spec fn weight(msg: BroadcastMsgView) -> nat {
    if rank(msg) == 0 {
        1
    } else if rank(msg) == 1 {
        4
    } else {
        16
    }
}

/// The weight of a queue: the sum of the weights of its events.
pub open spec fn total_weight(queue: Seq<BroadcastMsgView>) -> nat
    decreases queue.len(),
{
    if queue.len() == 0 {
        0
    } else {
        total_weight(queue.drop_last()) + weight(queue.last())
    }
}

/// The weight of two queues in a row is the sum of their weights.
pub proof fn lemma_weight_concat(a: Seq<BroadcastMsgView>, b: Seq<BroadcastMsgView>)
    ensures
        total_weight(a + b) == total_weight(a) + total_weight(b),
    decreases b.len(),
{
    if b.len() == 0 {
        assert(a + b == a);
    } else {
        lemma_weight_concat(a, b.drop_last());
        assert((a + b).drop_last() == a + b.drop_last());
        assert((a + b).last() == b.last());
    }
}

/// Settling the bus is a drain of the events that were handled on the way:
/// the application ends as if those events had arrived in one batch, and the
/// shared state is its reducer applied to them in their order.
pub proof fn lemma_settling_is_a_drain(app: DeskAppView, queue: Seq<BroadcastMsgView>)
    ensures
        app.settled(queue) == app.after_all(app.settled_trace(queue)),
        app.settled(queue).app_state == app.app_state.reduce_all(app.settled_trace(queue)),
        app.settled_requests(queue) == requested(app.effects_all(app.settled_trace(queue))),
    decreases total_weight(queue),
{
    if queue.len() > 0 {
        let first = seq![queue[0]];
        let rest = queue.drop_first() + emitted(app.effects(queue[0]));
        let next = app.after(queue[0]);
        lemma_step_lightens(app, queue);
        lemma_settling_is_a_drain(next, rest);
        lemma_drain_composes(app, first, next.settled_trace(rest));
        assert(first.drop_last() == Seq::<BroadcastMsgView>::empty());
        assert(first.last() == queue[0]);
        assert(app.after_all(first.drop_last()) == app);
        assert(app.effects_all(first.drop_last()) == Seq::<EffectView>::empty());
        assert(app.after_all(first) == next);
        assert(app.effects_all(first) == Seq::<EffectView>::empty() + app.effects(queue[0]));
        assert(Seq::<EffectView>::empty() + app.effects(queue[0]) == app.effects(queue[0]));
        lemma_separate_concat(app.effects(queue[0]), next.effects_all(next.settled_trace(rest)));
    }
    lemma_drain_reduces_in_order(app, app.settled_trace(queue));
}

/// A queue of at most `n` events weighs at most `n` times the weight that
/// bounds each of its events.
proof fn lemma_weight_bound(queue: Seq<BroadcastMsgView>, bound: nat)
    requires
        forall|i: int| 0 <= i < queue.len() ==> weight(#[trigger] queue[i]) <= bound,
    ensures
        total_weight(queue) <= queue.len() * bound,
    decreases queue.len(),
{
    if queue.len() > 0 {
        lemma_weight_bound(queue.drop_last(), bound);
        assert(weight(queue.last()) <= bound);
        assert((queue.len() - 1) * bound + bound == queue.len() * bound) by (nonlinear_arith);
    }
}

/// The events that the handling of an event puts on the bus weigh less than
/// the event itself.
pub proof fn lemma_emits_weigh_less(app: DeskAppView, msg: BroadcastMsgView)
    ensures
        total_weight(emitted(app.effects(msg))) < weight(msg),
{
    let emits = emitted(app.effects(msg));
    lemma_emits_lower_rank(app, msg);
    if rank(msg) == 0 {
        assert(emits.len() == 0) by {
            if emits.len() > 0 {
                assert(rank(emits[0]) < rank(msg));
            }
        }
    } else {
        let bound: nat = if rank(msg) == 1 {
            1
        } else {
            4
        };
        assert forall|i: int| 0 <= i < emits.len() implies weight(#[trigger] emits[i])
            <= bound by {
            assert(rank(emits[i]) < rank(msg));
        }
        lemma_weight_bound(emits, bound);
        assert(emits.len() * bound <= 3 * bound) by (nonlinear_arith)
            requires
                emits.len() <= 3,
        ;
    }
}

/// Handling the first event of a queue leaves a lighter queue: the rest of
/// the queue, followed by what the handling put on the bus.
pub proof fn lemma_step_lightens(app: DeskAppView, queue: Seq<BroadcastMsgView>)
    requires
        queue.len() > 0,
    ensures
        total_weight(queue.drop_first() + emitted(app.effects(queue[0]))) < total_weight(queue),
{
    lemma_emits_weigh_less(app, queue[0]);
    lemma_weight_concat(queue.drop_first(), emitted(app.effects(queue[0])));
    lemma_weight_concat(seq![queue[0]], queue.drop_first());
    assert(seq![queue[0]] + queue.drop_first() == queue);
    let first = seq![queue[0]];
    assert(first.drop_last() == Seq::<BroadcastMsgView>::empty());
    assert(total_weight(first.drop_last()) == 0);
    assert(total_weight(first) == total_weight(first.drop_last()) + weight(first.last()));
}

/// Handling an event puts at most three events on the bus, each of a lower
/// rank than the event handled.
pub proof fn lemma_emits_lower_rank(app: DeskAppView, msg: BroadcastMsgView)
    ensures
        emitted(app.effects(msg)).len() <= 3,
        forall|i: int|
            0 <= i < emitted(app.effects(msg)).len() ==> rank(
                #[trigger] emitted(app.effects(msg))[i],
            ) < rank(msg),
{
    reveal(DeskAppView::effects);
    let state = app.app_state.reduce(msg);
    let shared = app.app_state.effects(msg);
    let menu = TopMenu::effects(app.top_menu, msg, state);
    let top = TopPanel::effects(app.top_panel, msg, state);
    let main = MainPanel::effects(app.main_panel, msg, state);
    let loader = FileLoader::effects(app.file_loader, msg, state);
    let labeler = Labeler::effects(app.labeler, msg, state);
    let chat = ChatAgent::effects(app.agent_panel.chat_agent, msg, state);
    let web = WebScrapeAgent::effects(app.agent_panel.websearch_agent, msg, state);
    let images = ImageAgent::effects(app.agent_panel.images_agent, msg, state);
    let agents = AgentPanel::effects(app.agent_panel, msg, state);
    let messages = Messages::effects(app.messages, msg, state);
    let bottom = ChatBottomPanel::effects(app.bottom_panel, msg, state);
    lemma_separate_concat(shared, menu);
    lemma_separate_concat(shared + menu, top);
    lemma_separate_concat(shared + menu + top, main);
    lemma_separate_concat(shared + menu + top + main, loader);
    lemma_separate_concat(shared + menu + top + main + loader, labeler);
    lemma_separate_concat(shared + menu + top + main + loader + labeler, agents);
    lemma_separate_concat(shared + menu + top + main + loader + labeler + agents, messages);
    lemma_separate_concat(
        shared + menu + top + main + loader + labeler + agents + messages,
        bottom,
    );
    lemma_separate_concat(chat, web);
    lemma_separate_concat(chat + web, images);
    lemma_shared_emits(app.app_state, msg);
    lemma_labeler_emits(app.labeler, msg, state);
    lemma_agent_emits(app.agent_panel.chat_agent, msg, state);
    lemma_agent_emits(app.agent_panel.websearch_agent, msg, state);
    lemma_image_agent_emits(app.agent_panel.images_agent, msg, state);
    assert(emitted(menu) == Seq::<BroadcastMsgView>::empty());
    assert(emitted(top) == Seq::<BroadcastMsgView>::empty());
    assert(emitted(main) == Seq::<BroadcastMsgView>::empty());
    assert(emitted(messages) == Seq::<BroadcastMsgView>::empty());
    assert(emitted(bottom) == Seq::<BroadcastMsgView>::empty());
    lemma_no_emit_in_one(loader);
}

/// A list of at most one effect that is no event for the bus emits nothing.
proof fn lemma_no_emit_in_one(effects: Seq<EffectView>)
    requires
        effects.len() <= 1,
        effects.len() == 1 ==> !(effects[0] is Emit),
    ensures
        emitted(effects) == Seq::<BroadcastMsgView>::empty(),
{
    if effects.len() == 1 {
        assert(effects.drop_last() == Seq::<EffectView>::empty());
        assert(emitted(effects) == emitted(effects.drop_last()));
    }
}

/// What the shared state puts on the bus: at most one event, of a lower rank.
proof fn lemma_shared_emits(state: AppStateView, msg: BroadcastMsgView)
    ensures
        emitted(state.effects(msg)).len() <= 1,
        emitted(state.effects(msg)).len() == 1 ==> rank(emitted(state.effects(msg))[0]) < rank(
            msg,
        ),
        emitted(state.effects(msg)).len() == 1 ==> (msg is SetOllamaModels || msg is GetOllamaURL
            || msg is GetOllamaModels),
{
    let server = state.ollama_state;
    match msg {
        BroadcastMsgView::SetOllamaURL(url) => {
            let probes = server.reduce(msg).probes();
            assert(probes.drop_last().drop_last() == Seq::<EffectView>::empty());
            assert(emitted(probes.drop_last()) == emitted(probes.drop_last().drop_last()));
            assert(emitted(probes) == emitted(probes.drop_last()));
        },
        BroadcastMsgView::SetOllamaModels(models) => {
            lemma_separate_published(server.action_tx, BroadcastMsgView::OllamaModels(models));
        },
        BroadcastMsgView::GetOllamaURL => {
            lemma_separate_published(server.action_tx, BroadcastMsgView::OllamaURL(server.url));
        },
        BroadcastMsgView::GetOllamaModels => {
            lemma_separate_published(
                server.action_tx,
                BroadcastMsgView::OllamaModels(server.models),
            );
        },
        BroadcastMsgView::GetOllamaRunning => {
            lemma_no_emit_in_one(state.effects(msg));
        },
        _ => {},
    }
}

/// What the labeler puts on the bus: at most the end of the sweep, and only
/// when a sweep starts or labels arrive.
proof fn lemma_labeler_emits(labeler: LabelerView, msg: BroadcastMsgView, state: AppStateView)
    ensures
        emitted(Labeler::effects(labeler, msg, state)).len() <= 1,
        emitted(Labeler::effects(labeler, msg, state)).len() == 1 ==> (msg is StartLabeling
            || msg is GetLabelsForImage) && emitted(Labeler::effects(labeler, msg, state))[0]
            == BroadcastMsgView::FinishLabeling,
{
    lemma_separate_published(labeler.action_tx, BroadcastMsgView::FinishLabeling);
    match msg {
        BroadcastMsgView::StartLabeling => {
            lemma_no_emit_in_one(
                seq![EffectView::ReadLabelImage(labeler.loaded(state).files_to_label.last())],
            );
        },
        BroadcastMsgView::GetLabelsForImage(_, _) => {
            lemma_no_emit_in_one(seq![EffectView::ReadLabelImage(labeler.files_to_label.last())]);
        },
        _ => {},
    }
}

/// What binding an agent puts on the bus: at most the bound model.
proof fn lemma_bound_emits(agent: AgentStateView, selected: AgentEnum, state: AppStateView)
    ensures
        emitted(agent.selected_effects(selected, state)).len() <= 1,
        emitted(agent.selected_effects(selected, state)).len() == 1 ==> emitted(
            agent.selected_effects(selected, state),
        )[0] is SelectAgentModel,
{
    if selected == agent.kind && agent.can_bind(state) {
        lemma_separate_published(
            agent.action_tx,
            BroadcastMsgView::SelectAgentModel(state.ollama_state.models[0]),
        );
    }
}

/// What a chat or web agent puts on the bus: at most the model it binds to,
/// and only when an agent is selected or a model list arrives.
proof fn lemma_agent_emits(agent: AgentStateView, msg: BroadcastMsgView, state: AppStateView)
    ensures
        emitted(ChatAgent::effects(agent, msg, state)).len() <= 1,
        emitted(ChatAgent::effects(agent, msg, state)).len() == 1 ==> (msg is SelectAgent
            || msg is OllamaModels) && emitted(ChatAgent::effects(agent, msg, state))[0]
            is SelectAgentModel,
        WebScrapeAgent::effects(agent, msg, state) == ChatAgent::effects(agent, msg, state),
{
    match msg {
        BroadcastMsgView::SelectAgent(selected) => {
            lemma_bound_emits(agent, selected, state);
        },
        BroadcastMsgView::OllamaModels(models) => {
            lemma_bound_emits(agent.offered(models), state.active_agent, state);
        },
        BroadcastMsgView::SendUserMessage(turn) => {
            lemma_no_emit_in_one(agent.asked_effects(turn));
        },
        _ => {},
    }
}

/// What the image agent puts on the bus: at most the model it binds to or
/// the images that a sweep found.
proof fn lemma_image_agent_emits(agent: ImageAgentView, msg: BroadcastMsgView, state: AppStateView)
    ensures
        emitted(ImageAgent::effects(agent, msg, state)).len() <= 1,
        emitted(ImageAgent::effects(agent, msg, state)).len() == 1 ==> {
            ||| (msg is SelectAgent || msg is OllamaModels) && emitted(
                ImageAgent::effects(agent, msg, state),
            )[0] is SelectAgentModel
            ||| msg is GetVisionSeachResult && emitted(ImageAgent::effects(agent, msg, state))[0]
                is GetFoundImages
        },
{
    match msg {
        BroadcastMsgView::SelectAgent(selected) => {
            lemma_bound_emits(agent.state, selected, state);
        },
        BroadcastMsgView::OllamaModels(models) => {
            lemma_bound_emits(agent.state.offered(models), state.active_agent, state);
        },
        BroadcastMsgView::GetVisionSeachResult(prompt, answer, image) => {
            let swept = agent.validated(answer, image);
            if swept.images_to_search.len() > 0 {
                lemma_no_emit_in_one(swept.step_effects(prompt, state));
            } else {
                lemma_separate_published(
                    swept.state.action_tx,
                    BroadcastMsgView::GetFoundImages(found_list(swept.images_found)),
                );
            }
        },
        _ => {
            lemma_no_emit_in_one(ImageAgent::effects(agent, msg, state));
        },
    }
}

impl DeskApp {
    /// The application before it is wired: the shared state as it was stored
    /// at the last shutdown, or a fresh one, and components that know nothing yet.
    pub fn new(stored: Option<AppState>) -> (app: Self)
        ensures
            app@ == DeskAppView::fresh(
                match stored {
                    Some(saved) => saved@,
                    None => AppStateView::fresh(),
                },
            ),
    {
        DeskApp {
            app_state: AppState::new(stored),
            top_menu: TopMenu::new(),
            top_panel: TopPanel::new(),
            main_panel: MainPanel::new(),
            file_loader: FileLoader::new(),
            labeler: Labeler::new(),
            agent_panel: AgentPanel::new(),
            messages: Messages::new(),
            bottom_panel: ChatBottomPanel::new(),
        }
    }

    /// Wires the application: everything is connected to the bus and to the
    /// shared state, and then started. Returns what the start asks of the host.
    pub fn init(&mut self) -> (effects: Vec<Effect>)
        ensures
            final(self)@ == old(self)@.started(),
            effects.deep_view() == old(self)@.start_effects(),
    {
        self.register_tx();
        self.register_app_state();
        let mut effects = self.app_state.init();
        let started = self.init_components();
        extend(&mut effects, started);
        effects
    }

    fn init_components(&mut self) -> (effects: Vec<Effect>)
        ensures
            final(self)@ == (DeskAppView {
                top_panel: old(self)@.top_panel.recounted(old(self)@.app_state),
                ..old(self)@
            }),
            effects.deep_view() == (if old(self)@.top_panel.ollama_button.action_tx {
                seq![EffectView::Repeat(BroadcastMsgView::GetOllamaRunning)]
            } else {
                Seq::empty()
            }) + thumbnail_requests(old(self)@.file_loader.visible(old(self)@.app_state)),
    {
        let mut effects = self.top_menu.init(&self.app_state);
        let more = self.top_panel.init(&self.app_state);
        extend(&mut effects, more);
        let more = self.main_panel.init(&self.app_state);
        extend(&mut effects, more);
        let more = self.file_loader.init(&self.app_state);
        extend(&mut effects, more);
        let more = self.labeler.init(&self.app_state);
        extend(&mut effects, more);
        let more = self.agent_panel.init(&self.app_state);
        extend(&mut effects, more);
        let more = self.messages.init(&self.app_state);
        extend(&mut effects, more);
        let more = self.bottom_panel.init(&self.app_state);
        extend(&mut effects, more);
        effects
    }

    fn register_app_state(&mut self)
        ensures
            final(self)@ == (DeskAppView {
                top_panel: TopPanelView {
                    app_state: true,
                    picked_directories: old(self)@.app_state.directories,
                    ..old(self)@.top_panel
                },
                main_panel: MainPanelView { app_state: true, ..old(self)@.main_panel },
                file_loader: FileLoaderView { app_state: true, ..old(self)@.file_loader },
                labeler: LabelerView { app_state: true, ..old(self)@.labeler },
                agent_panel: AgentPanelView {
                    action_tx: old(self)@.agent_panel.action_tx,
                    chat_agent: AgentStateView {
                        app_state: true,
                        ..old(self)@.agent_panel.chat_agent
                    },
                    websearch_agent: AgentStateView {
                        app_state: true,
                        ..old(self)@.agent_panel.websearch_agent
                    },
                    images_agent: ImageAgentView {
                        state: AgentStateView {
                            app_state: true,
                            ..old(self)@.agent_panel.images_agent.state
                        },
                        ..old(self)@.agent_panel.images_agent
                    },
                },
                ..old(self)@
            }),
    {
        self.top_menu.register_app_state(&self.app_state);
        self.top_panel.register_app_state(&self.app_state);
        self.main_panel.register_app_state(&self.app_state);
        self.file_loader.register_app_state(&self.app_state);
        self.labeler.register_app_state(&self.app_state);
        self.agent_panel.register_app_state(&self.app_state);
        self.messages.register_app_state(&self.app_state);
        self.bottom_panel.register_app_state(&self.app_state);
    }

    fn register_tx(&mut self)
        ensures
            final(self)@ == (DeskAppView {
                app_state: old(self)@.wired_state(),
                top_menu: TopMenuView { action_tx: true, ..old(self)@.top_menu },
                top_panel: TopPanelView {
                    action_tx: true,
                    ollama_button: OllamaSettingsView {
                        action_tx: true,
                        ..old(self)@.top_panel.ollama_button
                    },
                    ..old(self)@.top_panel
                },
                main_panel: MainPanelView { action_tx: true, ..old(self)@.main_panel },
                file_loader: FileLoaderView { action_tx: true, ..old(self)@.file_loader },
                labeler: LabelerView { action_tx: true, ..old(self)@.labeler },
                agent_panel: AgentPanelView {
                    action_tx: true,
                    chat_agent: AgentStateView {
                        action_tx: true,
                        ..old(self)@.agent_panel.chat_agent
                    },
                    websearch_agent: AgentStateView {
                        action_tx: true,
                        ..old(self)@.agent_panel.websearch_agent
                    },
                    images_agent: ImageAgentView {
                        state: AgentStateView {
                            action_tx: true,
                            ..old(self)@.agent_panel.images_agent.state
                        },
                        ..old(self)@.agent_panel.images_agent
                    },
                },
                messages: MessagesView { action_tx: true, ..old(self)@.messages },
                bottom_panel: ChatBottomPanelView {
                    action_tx: true,
                    chat_input: ChatInputView {
                        action_tx: true,
                        ..old(self)@.bottom_panel.chat_input
                    },
                },
            }),
    {
        self.app_state.register_tx();
        self.top_menu.register_tx();
        self.top_panel.register_tx();
        self.main_panel.register_tx();
        self.file_loader.register_tx();
        self.labeler.register_tx();
        self.agent_panel.register_tx();
        self.messages.register_tx();
        self.bottom_panel.register_tx();
    }

    /// Handles one event: the shared state first, then each component in
    /// its place, each with its own copy of the event.
    pub fn dispatch(&mut self, msg: BroadcastMsg) -> (effects: Vec<Effect>)
        ensures
            final(self)@ == old(self)@.after(msg@),
            effects.deep_view() == old(self)@.effects(msg@),
    {
        proof {
            reveal(DeskAppView::after);
            reveal(DeskAppView::effects);
        }
        let mut effects = self.app_state.update(msg.clone());
        let more = self.top_menu.update(msg.clone(), &self.app_state);
        extend(&mut effects, more);
        let more = self.top_panel.update(msg.clone(), &self.app_state);
        extend(&mut effects, more);
        let more = self.main_panel.update(msg.clone(), &self.app_state);
        extend(&mut effects, more);
        let more = self.file_loader.update(msg.clone(), &self.app_state);
        extend(&mut effects, more);
        let more = self.labeler.update(msg.clone(), &self.app_state);
        extend(&mut effects, more);
        let more = self.agent_panel.update(msg.clone(), &self.app_state);
        extend(&mut effects, more);
        let more = self.messages.update(msg.clone(), &self.app_state);
        extend(&mut effects, more);
        let more = self.bottom_panel.update(msg, &self.app_state);
        extend(&mut effects, more);
        effects
    }

    /// Handles the events of one drain of the bus until the bus is quiet:
    /// the events `msgs`, and behind them every event that a handler puts on
    /// the bus, in the order in which they reach it. Returns what is left
    /// for the host to do. The work always ends: no event can set off an
    /// endless chain of events.
    pub fn settle(&mut self, msgs: Vec<BroadcastMsg>) -> (requests: Vec<Effect>)
        ensures
            final(self)@ == old(self)@.settled(msgs.deep_view()),
            requests.deep_view() == old(self)@.settled_requests(msgs.deep_view()),
    {
        let mut queue = msgs;
        let mut head: usize = 0;
        let mut requests: Vec<Effect> = Vec::new();
        assert(queue.deep_view().skip(0) == queue.deep_view());
        assert(requests.deep_view() == Seq::<EffectView>::empty());
        while head < queue.len()
            invariant
                head <= queue.len(),
                old(self)@.settled(msgs.deep_view()) == self@.settled(
                    queue.deep_view().skip(head as int),
                ),
                old(self)@.settled_requests(msgs.deep_view()) == requests.deep_view()
                    + self@.settled_requests(queue.deep_view().skip(head as int)),
            decreases total_weight(queue.deep_view().skip(head as int)),
        {
            let ghost app = self@;
            let ghost waiting = queue.deep_view().skip(head as int);
            let ghost asked = requests.deep_view();
            let ghost stored = queue.deep_view();
            let effects = self.dispatch(queue[head].clone());
            let (mut events, more) = separate(effects);
            head += 1;
            queue.append(&mut events);
            extend(&mut requests, more);
            proof {
                assert(waiting[0] == stored[head - 1]);
                assert(queue.deep_view() == stored + emitted(app.effects(waiting[0])));
                assert(queue.deep_view().skip(head as int) == waiting.drop_first() + emitted(
                    app.effects(waiting[0]),
                ));
                lemma_step_lightens(app, waiting);
                assert(asked + (requested(app.effects(waiting[0])) + self@.settled_requests(
                    queue.deep_view().skip(head as int),
                )) == asked + requested(app.effects(waiting[0])) + self@.settled_requests(
                    queue.deep_view().skip(head as int),
                ));
            }
        }
        assert(queue.deep_view().skip(head as int) == Seq::<BroadcastMsgView>::empty());
        assert(requests.deep_view() + Seq::<EffectView>::empty() == requests.deep_view());
        requests
    }

    /// Handles the events that one drain of the bus yielded, in the order of
    /// their arrival. Afterwards the shared state is the cumulative effect
    /// of its reducer over these events, in that order.
    pub fn update(&mut self, msgs: Vec<BroadcastMsg>) -> (effects: Vec<Effect>)
        ensures
            final(self)@ == old(self)@.after_all(msgs.deep_view()),
            final(self)@.app_state == old(self)@.app_state.reduce_all(msgs.deep_view()),
            effects.deep_view() == old(self)@.effects_all(msgs.deep_view()),
    {
        let mut effects: Vec<Effect> = Vec::new();
        let mut i: usize = 0;
        assert(msgs.deep_view().take(0) == Seq::<BroadcastMsgView>::empty());
        assert(effects.deep_view() == Seq::<EffectView>::empty());
        while i < msgs.len()
            invariant
                i <= msgs.len(),
                self@ == old(self)@.after_all(msgs.deep_view().take(i as int)),
                effects.deep_view() == old(self)@.effects_all(msgs.deep_view().take(i as int)),
            decreases msgs.len() - i,
        {
            let ghost seen = msgs.deep_view().take(i as int);
            let ghost next = msgs.deep_view().take(i + 1);
            assert(next.drop_last() == seen);
            assert(next.last() == msgs[i as int]@);
            let more = self.dispatch(msgs[i].clone());
            extend(&mut effects, more);
            i += 1;
        }
        assert(msgs.deep_view().take(i as int) == msgs.deep_view());
        proof {
            lemma_drain_reduces_in_order(old(self)@, msgs.deep_view());
        }
        effects
    }
}

} // verus!
