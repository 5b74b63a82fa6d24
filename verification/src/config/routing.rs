//! Which workspace a rule of the configuration sends a window to.

use vstd::prelude::*;

use crate::config::{
    listed, routes_across, routes_by, routes_on, routes_to, Config, MonitorConfig, Route,
    WorkspaceConfig,
};
use crate::model::monitor::MonitorView;
use crate::rules::{MatchingRule, MatchingRuleView};

verus! {

/// The rule stands in that list of the file.
pub open spec fn is_listed(rules: Option<Vec<MatchingRule>>, rule: MatchingRuleView) -> bool {
    rules is Some && exists|i: int| 0 <= i < rules->0@.len() && (#[trigger] rules->0@[i])@ == rule
}

/// The route is one that a workspace entry asks for: to that monitor and workspace, by
/// one of its initial rules when it counts the first time only, and by one of its
/// other rules when it counts every time.
pub open spec fn leads_to(
    entry: WorkspaceConfig,
    monitor: int,
    workspace: int,
    route: Route,
) -> bool {
    &&& route.0 == monitor
    &&& route.1 == workspace
    &&& route.3 ==> is_listed(entry.initial_workspace_rules, route.2)
    &&& !route.3 ==> is_listed(entry.workspace_rules, route.2)
}

proof fn routes_of_a_list(
    rules: Option<Vec<MatchingRule>>,
    monitor: int,
    workspace: int,
    initial: bool,
    route: Route,
)
    ensures
        routes_by(listed(rules), monitor, workspace, initial).contains(route) <==> route.0
            == monitor && route.1 == workspace && route.3 == initial && is_listed(rules, route.2),
{
    let views = listed(rules);
    let routes = routes_by(views, monitor, workspace, initial);
    if routes.contains(route) {
        let i = choose|i: int| 0 <= i < routes.len() && routes[i] == route;
        assert(rules->0@[i]@ == route.2);
    }
    if route.0 == monitor && route.1 == workspace && route.3 == initial && is_listed(
        rules,
        route.2,
    ) {
        let i = choose|i: int| 0 <= i < rules->0@.len() && (#[trigger] rules->0@[i])@ == route.2;
        assert(routes[i] == route);
    }
}

proof fn in_either(a: Seq<Route>, b: Seq<Route>, route: Route)
    ensures
        (a + b).contains(route) <==> a.contains(route) || b.contains(route),
{
    if a.contains(route) {
        let i = choose|i: int| 0 <= i < a.len() && a[i] == route;
        assert((a + b)[i] == route);
    }
    if b.contains(route) {
        let i = choose|i: int| 0 <= i < b.len() && b[i] == route;
        assert((a + b)[a.len() + i] == route);
    }
    if (a + b).contains(route) {
        let i = choose|i: int| 0 <= i < (a + b).len() && (a + b)[i] == route;
        if i < a.len() {
            assert(a[i] == route);
        } else {
            assert(b[i - a.len()] == route);
        }
    }
}

proof fn routes_of_a_monitor(entries: Seq<WorkspaceConfig>, monitor: int, n: int, route: Route)
    requires
        0 <= n <= entries.len(),
    ensures
        routes_on(entries, monitor, n).contains(route) <==> 0 <= route.1 < n && leads_to(
            entries[route.1],
            monitor,
            route.1,
            route,
        ),
    decreases n,
{
    if n > 0 {
        let entry = entries[n - 1];
        routes_of_a_monitor(entries, monitor, n - 1, route);
        in_either(routes_on(entries, monitor, n - 1), routes_to(entry, monitor, n - 1), route);
        in_either(
            routes_by(listed(entry.initial_workspace_rules), monitor, n - 1, true),
            routes_by(listed(entry.workspace_rules), monitor, n - 1, false),
            route,
        );
        routes_of_a_list(entry.initial_workspace_rules, monitor, n - 1, true, route);
        routes_of_a_list(entry.workspace_rules, monitor, n - 1, false, route);
    }
}

/// The route is one that the entry `e` of the file asks for.
pub open spec fn is_asked_for(
    entries: Seq<MonitorConfig>,
    slots: Seq<Option<int>>,
    e: int,
    route: Route,
) -> bool {
    &&& slots[e] is Some
    &&& 0 <= route.1 < entries[e].workspaces@.len()
    &&& leads_to(entries[e].workspaces@[route.1], slots[e]->0, route.1, route)
}

proof fn routes_of_the_file(
    entries: Seq<MonitorConfig>,
    slots: Seq<Option<int>>,
    n: int,
    route: Route,
)
    requires
        0 <= n <= entries.len(),
        slots.len() == entries.len(),
    ensures
        routes_across(entries, slots, n).contains(route) <==> exists|e: int|
            0 <= e < n && #[trigger] is_asked_for(entries, slots, e, route),
    decreases n,
{
    if n > 0 {
        routes_of_the_file(entries, slots, n - 1, route);
        let all = entries[n - 1].workspaces@;
        let last = match slots[n - 1] {
            Some(monitor) => routes_on(all, monitor, all.len() as int),
            None => Seq::empty(),
        };
        if let Some(monitor) = slots[n - 1] {
            routes_of_a_monitor(all, monitor, all.len() as int, route);
        }
        assert(last.contains(route) <==> is_asked_for(entries, slots, n - 1, route));
        in_either(routes_across(entries, slots, n - 1), last, route);
        if exists|e: int| 0 <= e < n && #[trigger] is_asked_for(entries, slots, e, route) {
            let e = choose|e: int| 0 <= e < n && #[trigger] is_asked_for(entries, slots, e, route);
            if e < n - 1 {
                assert(exists|e: int|
                    0 <= e < n - 1 && #[trigger] is_asked_for(entries, slots, e, route));
            }
        }
    }
}

impl Config {
    /// Every rule written under a workspace of an entry with a display sends a window
    /// to that workspace of that display, and there is no other route.
    pub proof fn a_rule_leads_to_the_workspace_it_stands_under(
        &self,
        monitors: Seq<MonitorView>,
        route: Route,
    )
        ensures
            ({
                let slots = self.assignments(monitors);
                routes_across(self.entries(), slots, self.entries().len() as int).contains(route)
                    <==> exists|e: int|
                    0 <= e < self.entries().len() && #[trigger] is_asked_for(
                        self.entries(),
                        slots,
                        e,
                        route,
                    )
            }),
    {
        self.one_slot_per_entry(monitors);
        routes_of_the_file(
            self.entries(),
            self.assignments(monitors),
            self.entries().len() as int,
            route,
        );
    }
}

} // verus!
