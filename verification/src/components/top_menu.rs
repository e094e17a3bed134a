//! The menu bar: the application menu and the format filter.

use vstd::prelude::*;
use crate::app_state::{AppState, AppStateView};
use crate::components::Component;
use crate::effects::{nothing, Effect, EffectView};
use crate::enums::{BroadcastMsg, BroadcastMsgView};

verus! {

/// The menu bar's cache: one check mark per supported image format.
#[derive(Debug, PartialEq, Eq)]
pub struct TopMenu {
    action_tx: bool,
    formats_checks: Vec<bool>,
}

pub struct TopMenuView {
    pub action_tx: bool,
    pub formats_checks: Seq<bool>,
}

impl View for TopMenu {
    type V = TopMenuView;

    closed spec fn view(&self) -> TopMenuView {
        TopMenuView { action_tx: self.action_tx, formats_checks: self.formats_checks@ }
    }
}

impl TopMenu {
    /// The view of a fresh value: not connected, with nothing cached.
    pub open spec fn new_view() -> TopMenuView {
        TopMenuView { action_tx: false, formats_checks: seq![false, false, false] }
    }

    /// A menu with no format checked.
    pub fn new() -> (menu: Self)
        ensures
            menu@ == Self::new_view(),
    {
        let mut formats_checks: Vec<bool> = Vec::new();
        formats_checks.push(false);
        formats_checks.push(false);
        formats_checks.push(false);
        assert(formats_checks@ == seq![false, false, false]);
        TopMenu { action_tx: false, formats_checks }
    }

    /// The check marks, in the order of the supported formats.
    pub fn formats_checks(&self) -> (checks: &Vec<bool>)
        ensures
            checks@ == self@.formats_checks,
    {
        &self.formats_checks
    }

    /// The user set or cleared the check mark of format `index`. An index
    /// beyond the list changes nothing.
    pub fn check_format(&mut self, index: usize, checked: bool)
        ensures
            final(self)@ == if index < old(self)@.formats_checks.len() {
                TopMenuView {
                    formats_checks: old(self)@.formats_checks.update(index as int, checked),
                    ..old(self)@
                }
            } else {
                old(self)@
            },
    {
        if index < self.formats_checks.len() {
            self.formats_checks.set(index, checked);
        }
    }
}

impl Component for TopMenu {
    open spec fn after(view: TopMenuView, msg: BroadcastMsgView, state: AppStateView) -> TopMenuView {
        view
    }

    open spec fn effects(view: TopMenuView, msg: BroadcastMsgView, state: AppStateView) -> Seq<
        EffectView,
    > {
        Seq::empty()
    }

    fn register_tx(&mut self)
        ensures
            final(self)@ == (TopMenuView { action_tx: true, ..old(self)@ }),
    {
        self.action_tx = true;
    }

    fn register_app_state(&mut self, app_state: &AppState)
        ensures
            final(self)@ == old(self)@,
    {
    }

    fn init(&mut self, app_state: &AppState) -> (effects: Vec<Effect>)
        ensures
            final(self)@ == old(self)@,
            effects.deep_view() == Seq::<EffectView>::empty(),
    {
        nothing()
    }

    fn update(&mut self, msg: BroadcastMsg, app_state: &AppState) -> (effects: Vec<Effect>) {
        nothing()
    }
}

} // verus!
