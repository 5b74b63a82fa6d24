//! What a configuration makes the manager do.

use vstd::prelude::*;

use crate::config::{Config, MonitorConfig, WorkspaceConfig};
use crate::model::monitor::MonitorView;
use crate::model::state::StateView;
use crate::model::workspace::WorkspaceView;
use crate::rules::{MatchingRule, MatchingRuleView, WindowInfoView};

verus! {

/// `true` when one of the rules of a list in the file matches the window.
pub open spec fn some_rule_matches(
    rules: Option<Vec<MatchingRule>>,
    info: WindowInfoView,
) -> bool {
    rules is Some && exists|i: int|
        0 <= i < rules->0@.len() && (#[trigger] rules->0@[i])@.matches_window(info)
}

/// The two lists hold the same rules in the same order.
pub open spec fn lists(rules: Option<Vec<MatchingRule>>, views: Seq<MatchingRuleView>) -> bool {
    match rules {
        Some(rules) => {
            &&& views.len() == rules@.len()
            &&& forall|i: int| 0 <= i < rules@.len() ==> #[trigger] views[i] == rules@[i]@
        },
        None => views.len() == 0,
    }
}

proof fn some_listed_rule_matches(
    rules: Option<Vec<MatchingRule>>,
    views: Seq<MatchingRuleView>,
    info: WindowInfoView,
)
    requires
        lists(rules, views),
    ensures
        crate::seqs::any(views, crate::rules::matching(info)) <==> some_rule_matches(rules, info),
{
    let p = crate::rules::matching(info);
    if crate::seqs::any(views, p) {
        let i = choose|i: int| 0 <= i < views.len() && p(#[trigger] views[i]);
        assert(rules->0@[i]@.matches_window(info));
    }
    if some_rule_matches(rules, info) {
        let i = choose|i: int|
            0 <= i < rules->0@.len() && (#[trigger] rules->0@[i])@.matches_window(info);
        assert(p(views[i]));
    }
}

impl Config {
    /// After a configuration is applied, a window is left alone exactly when one of
    /// its ignore rules matches, whatever its other rules say. Of the others, those
    /// that one of its float rules matches float, and all the rest are tiled.
    pub proof fn the_rules_of_the_file_decide(&self, state: StateView, info: WindowInfoView)
        ensures
            self.configured(state).rules.decide(info) is Ignore <==> some_rule_matches(
                self.ignore_rules,
                info,
            ),
            self.configured(state).rules.decide(info) is Float <==> !some_rule_matches(
                self.ignore_rules,
                info,
            ) && some_rule_matches(self.floating_applications, info),
            self.configured(state).rules.decide(info) is Tile <==> !some_rule_matches(
                self.ignore_rules,
                info,
            ) && !some_rule_matches(self.floating_applications, info),
    {
        let rules = self.configured(state).rules;
        some_listed_rule_matches(self.ignore_rules, rules.own_ignore_rules, info);
        some_listed_rule_matches(self.ignore_rules, rules.ignore_rules, info);
        some_listed_rule_matches(self.floating_applications, rules.floating_applications, info);
    }

    /// Every rule list of the file is the list of that name afterwards, and the
    /// ignore rules are the user's own as well.
    pub proof fn every_list_keeps_its_rules(&self, state: StateView)
        ensures
            ({
                let rules = self.configured(state).rules;
                &&& lists(self.ignore_rules, rules.ignore_rules)
                &&& lists(self.ignore_rules, rules.own_ignore_rules)
                &&& lists(self.manage_rules, rules.manage_rules)
                &&& lists(self.floating_applications, rules.floating_applications)
                &&& lists(
                    self.tray_and_multi_window_applications,
                    rules.tray_and_multi_window_applications,
                )
                &&& lists(
                    self.object_name_change_applications,
                    rules.object_name_change_applications,
                )
                &&& lists(self.border_overflow_applications, rules.border_overflow_applications)
                &&& lists(self.layered_whitelist, rules.layered_whitelist)
                &&& lists(self.transparency_ignore_rules, rules.transparency_ignore_rules)
                &&& lists(self.slow_application_identifiers, rules.slow_application_identifiers)
            }),
    {
    }

    /// A setting the file names has that value afterwards.
    pub proof fn a_set_key_sets_its_value(&self, state: StateView)
        ensures
            ({
                let after = self.configured(state);
                &&& self.window_hiding_behaviour matches Some(v) ==> after.window_hiding_behaviour
                    == v
                &&& self.cross_monitor_move_behaviour matches Some(v)
                    ==> after.cross_monitor_move_behaviour == v
                &&& self.unmanaged_window_operation_behaviour matches Some(v)
                    ==> after.unmanaged_window_operation_behaviour == v
                &&& self.window_container_behaviour matches Some(v)
                    ==> after.window_container_behaviour == v
                &&& self.focus_follows_mouse matches Some(v) ==> after.focus_follows_mouse == Some(
                    v,
                )
                &&& self.mouse_follows_focus matches Some(v) ==> after.mouse_follows_focus == v
                &&& self.float_override matches Some(v) ==> after.float_override == v
                &&& self.resize_delta matches Some(v) ==> after.resize_delta == v
                &&& self.minimum_window_width matches Some(v) ==> after.minimum_window_width == v
                &&& self.minimum_window_height matches Some(v) ==> after.minimum_window_height == v
                &&& self.default_workspace_padding matches Some(v)
                    ==> after.default_workspace_padding == v
                &&& self.default_container_padding matches Some(v)
                    ==> after.default_container_padding == v
                &&& self.work_area_offset matches Some(v) ==> after.work_area_offset == Some(v)
                &&& self.work_area_offset is None && self.global_work_area_offset is Some
                    ==> after.work_area_offset == self.global_work_area_offset
                &&& after.is_paused == state.is_paused
                &&& after.scale_padding_with_dpi == state.scale_padding_with_dpi
                &&& after.pending_windows == state.pending_windows
            }),
    {
    }
}

impl Config {
    /// A setting the file leaves out stays as it was.
    pub proof fn what_the_file_leaves_out_stays(&self, state: StateView)
        ensures
            ({
                let after = self.configured(state);
                &&& self.window_hiding_behaviour is None ==> after.window_hiding_behaviour
                    == state.window_hiding_behaviour
                &&& self.cross_monitor_move_behaviour is None
                    ==> after.cross_monitor_move_behaviour == state.cross_monitor_move_behaviour
                &&& self.unmanaged_window_operation_behaviour is None
                    ==> after.unmanaged_window_operation_behaviour
                    == state.unmanaged_window_operation_behaviour
                &&& self.window_container_behaviour is None ==> after.window_container_behaviour
                    == state.window_container_behaviour
                &&& self.focus_follows_mouse is None ==> after.focus_follows_mouse
                    == state.focus_follows_mouse
                &&& self.mouse_follows_focus is None ==> after.mouse_follows_focus
                    == state.mouse_follows_focus
                &&& self.float_override is None ==> after.float_override == state.float_override
                &&& self.resize_delta is None ==> after.resize_delta == state.resize_delta
                &&& self.minimum_window_width is None ==> after.minimum_window_width
                    == state.minimum_window_width
                &&& self.minimum_window_height is None ==> after.minimum_window_height
                    == state.minimum_window_height
                &&& self.default_workspace_padding is None ==> after.default_workspace_padding
                    == state.default_workspace_padding
                &&& self.default_container_padding is None ==> after.default_container_padding
                    == state.default_container_padding
                &&& self.work_area_offset is None && self.global_work_area_offset is None
                    ==> after.work_area_offset == state.work_area_offset
            }),
    {
    }
}

/// `after` is `before` with what an entry of the file sets on it, and nothing else.
pub open spec fn takes_settings(
    entry: WorkspaceConfig,
    before: WorkspaceView,
    after: WorkspaceView,
) -> bool {
    &&& match entry.name {
        Some(name) => after.name == Some(name@),
        None => after.name == before.name,
    }
    &&& match entry.layout {
        Some(layout) => after.layout == layout,
        None => after.layout == before.layout,
    }
    &&& match entry.layout_rules {
        Some(rules) => after.layout_rules == rules@,
        None => after.layout_rules == before.layout_rules,
    }
    &&& match entry.workspace_padding {
        Some(padding) => after.workspace_padding == Some(padding),
        None => after.workspace_padding == before.workspace_padding,
    }
    &&& match entry.container_padding {
        Some(padding) => after.container_padding == Some(padding),
        None => after.container_padding == before.container_padding,
    }
    &&& match entry.apply_window_based_work_area_offset {
        Some(applies) => after.apply_window_based_work_area_offset == applies,
        None => after.apply_window_based_work_area_offset
            == before.apply_window_based_work_area_offset,
    }
    &&& match entry.float_override {
        Some(floats) => after.float_override == floats,
        None => after.float_override == before.float_override,
    }
    &&& after.layout_flip == before.layout_flip
    &&& after.tile == before.tile
    &&& after.containers == before.containers
    &&& after.floating_windows == before.floating_windows
}

/// The entry of a monitor sets its workspaces one for one, in order.
pub open spec fn shapes(entry: MonitorConfig, before: MonitorView, after: MonitorView) -> bool {
    let (old, new) = (before.workspaces.elements, after.workspaces.elements);
    &&& new.len() == if entry.workspaces@.len() > old.len() {
        entry.workspaces@.len()
    } else {
        old.len()
    }
    &&& forall|w: int|
        0 <= w < entry.workspaces@.len() ==> takes_settings(
            entry.workspaces@[w],
            if w < old.len() {
                old[w]
            } else {
                WorkspaceView::fresh()
            },
            #[trigger] new[w],
        )
    &&& forall|w: int| entry.workspaces@.len() <= w < new.len() ==> #[trigger] new[w] == old[w]
    &&& match entry.work_area_offset {
        Some(offset) => after.work_area_offset == Some(offset),
        None => after.work_area_offset == before.work_area_offset,
    }
    &&& match entry.window_based_work_area_offset {
        Some(offset) => after.window_based_work_area_offset == Some(offset),
        None => after.window_based_work_area_offset == before.window_based_work_area_offset,
    }
    &&& match entry.window_based_work_area_offset_limit {
        Some(limit) => after.window_based_work_area_offset_limit == limit,
        None => after.window_based_work_area_offset_limit
            == before.window_based_work_area_offset_limit,
    }
}

impl MonitorConfig {
    /// A monitor gets the workspaces its entry lists, each with what is set there.
    pub proof fn an_entry_shapes_a_monitor(&self, monitor: MonitorView)
        ensures
            shapes(*self, monitor, self.configured(monitor)),
    {
    }
}

impl Config {
    /// Every entry shapes the monitor it is assigned to, and a monitor no entry is
    /// assigned to is left alone.
    pub proof fn every_entry_shapes_its_monitor(&self, state: StateView, m: int)
        requires
            0 <= m < state.monitors.elements.len(),
        ensures
            ({
                let slots = self.assignments(state.monitors.elements);
                let (before, after) = (
                    state.monitors.elements[m],
                    self.configured(state).monitors.elements[m],
                );
                &&& slots.len() == self.entries().len()
                &&& forall|e: int|
                    0 <= e < slots.len() && #[trigger] slots[e] == Some(m) ==> shapes(
                        self.entries()[e],
                        before,
                        after,
                    )
                &&& (forall|e: int| 0 <= e < slots.len() ==> #[trigger] slots[e] != Some(m))
                    ==> after == before
            }),
    {
        let slots = self.assignments(state.monitors.elements);
        let n = self.entries().len() as int;
        self.one_slot_per_entry(state.monitors.elements);
        self.each_monitor_is_grown(state.monitors, n);
        assert forall|e: int| 0 <= e < slots.len() && #[trigger] slots[e] == Some(m) implies shapes(
            self.entries()[e],
            state.monitors.elements[m],
            self.configured(state).monitors.elements[m],
        ) by {
            self.an_entry_shapes_its_monitor(state.monitors, e, n);
            self.entries()[e].an_entry_shapes_a_monitor(state.monitors.elements[m]);
        }
    }
}

} // verus!
