//! Which display a preference of the configuration is about.

use vstd::prelude::*;

use crate::config::assign::is_pinned_to;
use crate::config::Config;
use crate::geometry::Rect;
use crate::model::monitor::MonitorView;
use crate::ops::outcome::unclaimed;
use crate::seqs::first_when_any;

verus! {

/// The file prefers the display that goes by `id` for an entry.
pub open spec fn prefers_display(config: Config, entry: int, id: Seq<char>) -> bool {
    &&& config.display_index_preferences is Some
    &&& config.display_index_preferences->0@.dom().contains(entry as usize)
    &&& config.display_index_preferences->0@[entry as usize]@ == id
}

/// The file says nothing about a display for an entry, and prefers the one that
/// covers `rect`.
pub open spec fn prefers_place(config: Config, entry: int, rect: Rect) -> bool {
    &&& config.display_index_preferences is Some
        ==> !config.display_index_preferences->0@.dom().contains(entry as usize)
    &&& config.monitor_index_preferences is Some
    &&& config.monitor_index_preferences->0@.dom().contains(entry as usize)
    &&& config.monitor_index_preferences->0@[entry as usize] == rect
}

/// The display goes by that text: by its device id, its name or its device.
pub open spec fn goes_by(monitor: MonitorView, id: Seq<char>) -> bool {
    id.len() > 0 && (monitor.device_id == id || monitor.name == id || monitor.device == id)
}

impl Config {
    /// An entry with a preferred display configures one that goes by that text, and
    /// an entry with a preferred place the one that covers it. Neither configures any
    /// other.
    pub proof fn a_preference_is_about_its_display(
        &self,
        monitors: Seq<MonitorView>,
        entry: int,
        id: Seq<char>,
        rect: Rect,
    )
        requires
            0 <= entry < self.entries().len(),
            self.assignments(monitors)[entry] is Some,
        ensures
            ({
                let at = self.assignments(monitors)[entry]->0;
                &&& prefers_display(*self, entry, id) ==> 0 <= at < monitors.len() && goes_by(
                    monitors[at],
                    id,
                )
                &&& prefers_place(*self, entry, rect) ==> 0 <= at < monitors.len()
                    && monitors[at].size == rect
            }),
    {
        if prefers_display(*self, entry, id) || prefers_place(*self, entry, rect) {
            self.a_pin_is_never_ignored(monitors, entry);
        }
    }

    /// A display that an entry prefers, and no entry before it, goes to an entry: a
    /// preference that can be met is met.
    pub proof fn a_preference_that_can_be_met_is_met(
        &self,
        monitors: Seq<MonitorView>,
        entry: int,
        at: int,
        id: Seq<char>,
    )
        requires
            0 <= entry < self.entries().len(),
            0 <= at < monitors.len(),
            prefers_display(*self, entry, id),
            goes_by(monitors[at], id),
            forall|other: int|
                0 <= other < entry ==> !is_pinned_to(#[trigger] self.pin(other))(
                    Some(monitors[at]),
                ),
        ensures
            self.assignments(monitors)[entry] is Some,
    {
        self.slots_come_in_order(monitors, self.entries().len() as int, entry);
        self.pins_come_in_order(monitors, self.entries().len() as int, entry);
        let before = self.pinned(monitors, entry);
        self.pinned_in_range(monitors, entry);
        if before.contains(Some(at)) {
            let other = choose|other: int| 0 <= other < before.len() && before[other] == Some(at);
            self.pins_come_in_order(monitors, entry, other);
            first_when_any(
                unclaimed(monitors, self.pinned(monitors, other)),
                is_pinned_to(self.pin(other)),
            );
        }
        let slots = unclaimed(monitors, before);
        first_when_any(slots, is_pinned_to(self.pin(entry)));
        assert(is_pinned_to(self.pin(entry))(slots[at]));
    }
}

} // verus!
