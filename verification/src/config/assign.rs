//! Which monitor each `monitors` entry configures.

use vstd::prelude::*;

use crate::config::Config;
use crate::geometry::Rect;
use crate::model::monitor::{index_opt, Monitor, MonitorView};
use crate::model::state::State;
use crate::ops::is_blank;
use crate::ops::outcome::unclaimed;
use crate::ops::reconcile::claim_views;
use crate::seqs::{first_idx, first_is, first_is_none, first_when_any};
use crate::text::same;

verus! {

/// `true` when a display preference names this monitor.
pub open spec fn names(monitor: MonitorView, id: Seq<char>) -> bool {
    ||| monitor.device_id.len() > 0 && monitor.device_id == id
    ||| monitor.name.len() > 0 && monitor.name == id
    ||| monitor.device.len() > 0 && monitor.device == id
}

/// What an entry is pinned to: a display, a rectangle, or nothing.
pub ghost enum Pin {
    /// A display, by one of its identifiers.
    Display(Seq<char>),
    /// The display that covers exactly this rectangle.
    At(Rect),
    /// Nothing.
    Nowhere,
}

/// Holds of an unclaimed monitor the pin is about.
pub open spec fn is_pinned_to(pin: Pin) -> spec_fn(Option<MonitorView>) -> bool {
    |slot: Option<MonitorView>|
        slot is Some && match pin {
            Pin::Display(id) => names(slot->0, id),
            Pin::At(rect) => slot->0.size == rect,
            Pin::Nowhere => false,
        }
}

/// Holds of a monitor nobody claimed.
pub open spec fn is_free() -> spec_fn(Option<MonitorView>) -> bool {
    |slot: Option<MonitorView>| slot is Some
}

impl Config {
    /// What an entry is pinned to. A display counts more than a rectangle.
    pub open spec fn pin(&self, entry: int) -> Pin {
        match self.display_index_preferences {
            Some(displays) => if displays@.dom().contains(entry as usize) {
                Pin::Display(displays@[entry as usize]@)
            } else {
                self.rect_pin(entry)
            },
            None => self.rect_pin(entry),
        }
    }

    /// The rectangle an entry is pinned to.
    pub open spec fn rect_pin(&self, entry: int) -> Pin {
        match self.monitor_index_preferences {
            Some(rects) => if rects@.dom().contains(entry as usize) {
                Pin::At(rects@[entry as usize])
            } else {
                Pin::Nowhere
            },
            None => Pin::Nowhere,
        }
    }

    /// Where the pins put the first `n` entries: each on the first monitor it
    /// names that nobody claimed before it.
    pub open spec fn pinned(&self, monitors: Seq<MonitorView>, n: int) -> Seq<Option<int>>
        decreases n,
    {
        if n <= 0 {
            Seq::empty()
        } else {
            let before = self.pinned(monitors, n - 1);
            before.push(first_idx(unclaimed(monitors, before), is_pinned_to(self.pin(n - 1))))
        }
    }

    /// Where an entry without a pin goes: to the monitor at its own position
    /// when nobody claimed it, and to the first one nobody claimed otherwise.
    pub open spec fn fallback(free: Seq<Option<MonitorView>>, entry: int) -> Option<int> {
        if entry < free.len() && free[entry] is Some {
            Some(entry)
        } else {
            first_idx(free, is_free())
        }
    }

    /// Which monitor each of the first `n` entries configures.
    pub open spec fn assigned(&self, monitors: Seq<MonitorView>, n: int) -> Seq<Option<int>>
        decreases n,
    {
        if n <= 0 {
            Seq::empty()
        } else {
            let pinned = self.pinned(monitors, self.entries().len() as int);
            let before = self.assigned(monitors, n - 1);
            before.push(
                if self.pin(n - 1) is Nowhere {
                    Config::fallback(unclaimed(monitors, pinned + before), n - 1)
                } else {
                    pinned[n - 1]
                },
            )
        }
    }

    /// Which monitor each entry configures, if any.
    pub open spec fn assignments(&self, monitors: Seq<MonitorView>) -> Seq<Option<int>> {
        self.assigned(monitors, self.entries().len() as int)
    }

    /// There is one slot per pin, and what it holds is a monitor.
    pub proof fn pinned_in_range(&self, monitors: Seq<MonitorView>, n: int)
        requires
            0 <= n,
        ensures
            self.pinned(monitors, n).len() == n,
            forall|i: int|
                0 <= i < n && (#[trigger] self.pinned(monitors, n)[i]) is Some ==> 0
                    <= self.pinned(monitors, n)[i]->0 < monitors.len(),
        decreases n,
    {
        if n > 0 {
            self.pinned_in_range(monitors, n - 1);
            let before = self.pinned(monitors, n - 1);
            first_when_any(unclaimed(monitors, before), is_pinned_to(self.pin(n - 1)));
        }
    }

    proof fn assigned_in_range(&self, monitors: Seq<MonitorView>, n: int)
        requires
            0 <= n <= self.entries().len(),
        ensures
            self.assigned(monitors, n).len() == n,
            forall|i: int|
                0 <= i < n && (#[trigger] self.assigned(monitors, n)[i]) is Some ==> 0
                    <= self.assigned(monitors, n)[i]->0 < monitors.len(),
        decreases n,
    {
        let pinned = self.pinned(monitors, self.entries().len() as int);
        self.pinned_in_range(monitors, self.entries().len() as int);
        if n > 0 {
            self.assigned_in_range(monitors, n - 1);
            let before = self.assigned(monitors, n - 1);
            first_when_any(unclaimed(monitors, pinned + before), is_free());
        }
    }

    /// There is one slot per entry, and what it holds is a monitor.
    pub proof fn one_slot_per_entry(&self, monitors: Seq<MonitorView>)
        ensures
            self.assignments(monitors).len() == self.entries().len(),
            forall|i: int|
                0 <= i < self.entries().len() && (#[trigger] self.assignments(monitors)[i]) is Some
                    ==> 0 <= self.assignments(monitors)[i]->0 < monitors.len(),
    {
        self.assigned_in_range(monitors, self.entries().len() as int);
    }
}

/// `true` when a display preference names this monitor.
///
/// See [`Config::monitor_assignments`] for why these three fields and in this
/// order.
fn names_display(monitor: &Monitor, id: &str) -> (r: bool)
    ensures
        r == names(monitor@, id@),
{
    (!is_blank(monitor.device_id.as_str()) && same(monitor.device_id.as_str(), id)) || (!is_blank(
        monitor.name.as_str(),
    ) && same(monitor.name.as_str(), id)) || (!is_blank(monitor.device.as_str()) && same(
        monitor.device.as_str(),
        id,
    ))
}

/// The flags that say which monitors are claimed.
spec fn flags(claimed: Seq<bool>, monitors: Seq<MonitorView>, claims: Seq<Option<int>>) -> bool {
    &&& claimed.len() == monitors.len()
    &&& forall|i: int| 0 <= i < claimed.len() ==> #[trigger] claimed[i] == claims.contains(Some(i))
}

proof fn one_more_claim(claims: Seq<Option<int>>, claim: Option<int>, i: int)
    ensures
        claims.push(claim).contains(Some(i)) <==> claims.contains(Some(i)) || claim == Some(i),
{
    if claims.contains(Some(i)) {
        let k = choose|k: int| 0 <= k < claims.len() && claims[k] == Some(i);
        assert(claims.push(claim)[k] == Some(i));
    }
    if claim == Some(i) {
        assert(claims.push(claim)[claims.len() as int] == Some(i));
    }
    if claims.push(claim).contains(Some(i)) {
        let k = choose|k: int|
            0 <= k < claims.push(claim).len() && claims.push(claim)[k] == Some(i);
        if k < claims.len() {
            assert(claims[k] == Some(i));
        }
    }
}

proof fn claims_of_both(a: Seq<Option<int>>, b: Seq<Option<int>>, i: int)
    ensures
        (a + b).contains(Some(i)) <==> a.contains(Some(i)) || b.contains(Some(i)),
{
    if a.contains(Some(i)) {
        let k = choose|k: int| 0 <= k < a.len() && a[k] == Some(i);
        assert((a + b)[k] == Some(i));
    }
    if b.contains(Some(i)) {
        let k = choose|k: int| 0 <= k < b.len() && b[k] == Some(i);
        assert((a + b)[a.len() + k] == Some(i));
    }
    if (a + b).contains(Some(i)) {
        let k = choose|k: int| 0 <= k < (a + b).len() && (a + b)[k] == Some(i);
        if k < a.len() {
            assert(a[k] == Some(i));
        } else {
            assert(b[k - a.len()] == Some(i));
        }
    }
}

/// The pin of an entry, as the file holds it.
enum PinRef<'a> {
    Display(&'a str),
    At(Rect),
    Nowhere,
}

impl<'a> PinRef<'a> {
    spec fn pin(&self) -> Pin {
        match self {
            PinRef::Display(id) => Pin::Display(id@),
            PinRef::At(rect) => Pin::At(*rect),
            PinRef::Nowhere => Pin::Nowhere,
        }
    }

    fn is_about(&self, monitor: &Monitor) -> (r: bool)
        ensures
            r == is_pinned_to(self.pin())(Some(monitor@)),
    {
        match self {
            PinRef::Display(id) => names_display(monitor, id),
            PinRef::At(rect) => monitor.size == *rect,
            PinRef::Nowhere => false,
        }
    }
}

impl Config {
    fn read_pin(&self, entry: usize) -> (r: PinRef<'_>)
        ensures
            r.pin() == self.pin(entry as int),
    {
        if let Some(displays) = &self.display_index_preferences {
            if let Some(id) = displays.get(&entry) {
                return PinRef::Display(id.as_str());
            }
        }
        if let Some(rects) = &self.monitor_index_preferences {
            if let Some(rect) = rects.get(&entry) {
                return PinRef::At(*rect);
            }
        }
        PinRef::Nowhere
    }

    /// Resolves which monitor of `state` each `monitors` entry configures.
    ///
    /// The result has one slot per entry, holding the index of the monitor
    /// that entry configures, or `None` when the entry is held back and
    /// configures nothing at all this time. No monitor is ever assigned twice.
    ///
    /// An entry is matched by `display_index_preferences` first, then by
    /// `monitor_index_preferences`, then by its own position, because that is
    /// the order from the most stable identifier to the least stable one. A
    /// display id survives a reboot, a cable swap and a `DisplayPort`
    /// renegotiation. A rectangle survives those too, but not moving a display
    /// around the virtual desktop or changing its resolution. The position
    /// survives nothing: Windows hands the monitors out in the order it
    /// enumerated them, and a renegotiation can reverse that order, which is
    /// how a portrait panel's workspaces, layouts and padding end up on a 4K
    /// screen.
    ///
    /// An entry that names a display or a rectangle which is not attached is
    /// held back rather than falling through to the positional match: a monitor
    /// that is configured by nothing simply keeps the workspaces it already has
    /// until its display is back. An entry that names both keys is decided by
    /// the display id alone, the stronger of the two statements, and held when
    /// that display is missing.
    ///
    /// An entry that names neither key takes the monitor at its own position
    /// when no pinned entry claimed it, and the first monitor still unclaimed
    /// otherwise. In a file with no preferences at all that is exactly the
    /// positional match: entry `n` configures monitor `n`.
    ///
    /// # What a display preference is compared against
    ///
    /// The value is compared against [`Monitor::device_id`], then
    /// [`Monitor::name`], then [`Monitor::device`]. Those are the identifiers
    /// the model already recognises a display by, in the order
    /// [`State::reconcile_monitors`] prefers them, so a pin cannot name a
    /// different display than the one the daemon carried across a
    /// reconfiguration.
    ///
    /// [`Monitor::device_id`] is a model name and never a serial number. Two
    /// panels of the same model therefore carry the same id, and this key cannot
    /// tell them apart: the first unclaimed one wins, and the other entry falls
    /// back to the monitor left over. Pin at least one of two identical panels
    /// by rectangle instead.
    #[must_use]
    pub fn monitor_assignments(&self, state: &State) -> (r: Vec<Option<usize>>)
        ensures
            claim_views(r@) == self.assignments(state@.monitors.elements),
    {
        let count = match &self.monitors {
            Some(monitors) => monitors.len(),
            None => 0,
        };
        let monitors = state.monitors.elements();
        let ghost views = state@.monitors.elements;
        proof {
            state.monitors.view_of_items();
        }
        let mut claimed: Vec<bool> = Vec::new();
        for i in 0..monitors.len()
            invariant
                claimed@.len() == i,
                forall|j: int| 0 <= j < i ==> !(#[trigger] claimed@[j]),
        {
            claimed.push(false);
        }
        let mut pinned: Vec<Option<usize>> = Vec::new();
        assert(claim_views(pinned@) =~= Seq::<Option<int>>::empty());
        for entry in 0..count
            invariant
                monitors@.map_values(|m: Monitor| m@) == views,
                monitors@.len() == views.len(),
                claim_views(pinned@) == self.pinned(views, entry as int),
                flags(claimed@, views, claim_views(pinned@)),
        {
            let ghost before = claim_views(pinned@);
            let pin = self.read_pin(entry);
            let found = first_pinned(monitors, &claimed, &pin, Ghost(before));
            proof {
                first_when_any(unclaimed(views, before), is_pinned_to(pin.pin()));
                assert forall|i: int| 0 <= i < views.len() implies #[trigger] before.push(
                    index_opt(found),
                ).contains(Some(i)) == (before.contains(Some(i)) || index_opt(found) == Some(
                    i,
                )) by {
                    one_more_claim(before, index_opt(found), i);
                }
            }
            if let Some(at) = found {
                claimed.set(at, true);
            }
            pinned.push(found);
            assert(claim_views(pinned@) =~= before.push(index_opt(found)));
        }
        let ghost pins = claim_views(pinned@);
        let mut assigned: Vec<Option<usize>> = Vec::new();
        assert(claim_views(assigned@) =~= Seq::<Option<int>>::empty());
        assert(pins + Seq::<Option<int>>::empty() =~= pins);
        proof {
            self.pinned_in_range(views, count as int);
        }
        for entry in 0..count
            invariant
                count == self.entries().len(),
                pinned@.len() == count,
                pins == claim_views(pinned@),
                pins == self.pinned(views, count as int),
                claim_views(assigned@) == self.assigned(views, entry as int),
                flags(claimed@, views, pins + claim_views(assigned@)),
        {
            let ghost before = claim_views(assigned@);
            let slot = match self.read_pin(entry) {
                PinRef::Nowhere => first_free(&claimed, entry, Ghost(views), Ghost(pins + before)),
                _ => pinned[entry],
            };
            proof {
                assert(pins[entry as int] == index_opt(pinned@[entry as int]));
                first_when_any(unclaimed(views, pins + before), is_free());
                assert forall|i: int| 0 <= i < views.len() implies #[trigger] (pins + before.push(
                    index_opt(slot),
                )).contains(Some(i)) == ((pins + before).contains(Some(i)) || index_opt(slot)
                    == Some(i)) by {
                    assert(pins + before.push(index_opt(slot)) =~= (pins + before).push(
                        index_opt(slot),
                    ));
                    one_more_claim(pins + before, index_opt(slot), i);
                }
            }
            if let Some(at) = slot {
                if at < claimed.len() {
                    claimed.set(at, true);
                }
            }
            assigned.push(slot);
            assert(claim_views(assigned@) =~= before.push(index_opt(slot)));
        }
        assigned
    }
}

fn first_pinned(
    monitors: &[Monitor],
    claimed: &Vec<bool>,
    pin: &PinRef<'_>,
    Ghost(claims): Ghost<Seq<Option<int>>>,
) -> (r: Option<usize>)
    requires
        flags(claimed@, monitors@.map_values(|m: Monitor| m@), claims),
    ensures
        index_opt(r) == first_idx(
            unclaimed(monitors@.map_values(|m: Monitor| m@), claims),
            is_pinned_to(pin.pin()),
        ),
        r matches Some(at) ==> at < monitors@.len(),
{
    let ghost slots = unclaimed(monitors@.map_values(|m: Monitor| m@), claims);
    for at in 0..monitors.len()
        invariant
            flags(claimed@, monitors@.map_values(|m: Monitor| m@), claims),
            slots == unclaimed(monitors@.map_values(|m: Monitor| m@), claims),
            forall|j: int| 0 <= j < at ==> !is_pinned_to(pin.pin())(#[trigger] slots[j]),
    {
        assert(slots[at as int] == if claimed@[at as int] {
            None
        } else {
            Some(monitors@[at as int]@)
        });
        if !claimed[at] && pin.is_about(&monitors[at]) {
            proof {
                first_is(slots, is_pinned_to(pin.pin()), at as int);
            }
            return Some(at);
        }
    }
    proof {
        first_is_none(slots, is_pinned_to(pin.pin()));
    }
    None
}

fn first_free(
    claimed: &Vec<bool>,
    entry: usize,
    Ghost(monitors): Ghost<Seq<MonitorView>>,
    Ghost(claims): Ghost<Seq<Option<int>>>,
) -> (r: Option<usize>)
    requires
        flags(claimed@, monitors, claims),
    ensures
        index_opt(r) == Config::fallback(unclaimed(monitors, claims), entry as int),
{
    let ghost slots = unclaimed(monitors, claims);
    if entry < claimed.len() && !claimed[entry] {
        return Some(entry);
    }
    for at in 0..claimed.len()
        invariant
            flags(claimed@, monitors, claims),
            slots == unclaimed(monitors, claims),
            !(entry < claimed@.len() && !claimed@[entry as int]),
            forall|j: int| 0 <= j < at ==> !is_free()(#[trigger] slots[j]),
    {
        assert(slots[at as int] is Some == !claimed@[at as int]);
        if !claimed[at] {
            proof {
                first_is(slots, is_free(), at as int);
            }
            return Some(at);
        }
    }
    proof {
        first_is_none(slots, is_free());
    }
    None
}

// -- laws -------------------------------------------------------------------

impl Config {
    /// An entry with a pin configures a monitor the pin is about, or none at all.
    pub proof fn a_pin_is_never_ignored(&self, monitors: Seq<MonitorView>, entry: int)
        requires
            0 <= entry < self.entries().len(),
            !(self.pin(entry) is Nowhere),
        ensures
            self.assignments(monitors)[entry] matches Some(at) ==> 0 <= at < monitors.len()
                && is_pinned_to(self.pin(entry))(Some(monitors[at])),
    {
        self.slots_come_in_order(monitors, self.entries().len() as int, entry);
        self.pins_come_in_order(monitors, self.entries().len() as int, entry);
        let before = self.pinned(monitors, entry);
        self.pinned_in_range(monitors, entry);
        first_when_any(unclaimed(monitors, before), is_pinned_to(self.pin(entry)));
    }

    /// A pin goes by the pins before it.
    pub proof fn pins_come_in_order(&self, monitors: Seq<MonitorView>, n: int, entry: int)
        requires
            0 <= entry < n,
        ensures
            self.pinned(monitors, n)[entry] == first_idx(
                unclaimed(monitors, self.pinned(monitors, entry)),
                is_pinned_to(self.pin(entry)),
            ),
        decreases n,
    {
        self.pinned_in_range(monitors, n - 1);
        if entry < n - 1 {
            self.pins_come_in_order(monitors, n - 1, entry);
        }
    }

    /// An entry without a pin goes by the pins and the entries before it, and one with a
    /// pin by the pins alone.
    pub proof fn slots_come_in_order(&self, monitors: Seq<MonitorView>, n: int, entry: int)
        requires
            0 <= entry < n <= self.entries().len(),
        ensures
            ({
                let pinned = self.pinned(monitors, self.entries().len() as int);
                self.assigned(monitors, n)[entry] == if self.pin(entry) is Nowhere {
                    Config::fallback(
                        unclaimed(monitors, pinned + self.assigned(monitors, entry)),
                        entry,
                    )
                } else {
                    pinned[entry]
                }
            }),
        decreases n,
    {
        self.assigned_in_range(monitors, n - 1);
        if entry < n - 1 {
            self.slots_come_in_order(monitors, n - 1, entry);
        }
    }

    /// No monitor is ever assigned twice.
    pub proof fn no_monitor_is_assigned_twice(&self, monitors: Seq<MonitorView>, a: int, b: int)
        requires
            0 <= a < b < self.entries().len(),
            self.assignments(monitors)[a] is Some,
        ensures
            self.assignments(monitors)[a] != self.assignments(monitors)[b],
    {
        let n = self.entries().len() as int;
        let pinned = self.pinned(monitors, n);
        let slots = self.assignments(monitors);
        self.one_slot_per_entry(monitors);
        self.pinned_in_range(monitors, n);
        self.slots_come_in_order(monitors, n, a);
        self.slots_come_in_order(monitors, n, b);
        let at = slots[a]->0;
        if slots[b] == Some(at) {
            if self.pin(b) is Nowhere {
                let before = self.assigned(monitors, b);
                self.assigned_in_range(monitors, b);
                self.assigned_is_a_start(monitors, n, b);
                assert(before[a] == Some(at));
                claims_of_both(pinned, before, at);
                let free = unclaimed(monitors, pinned + before);
                first_when_any(free, is_free());
                assert(free[at] is None);
            } else if self.pin(a) is Nowhere {
                let before = self.assigned(monitors, a);
                claims_of_both(pinned, before, at);
                assert(pinned[b] == Some(at));
                let free = unclaimed(monitors, pinned + before);
                first_when_any(free, is_free());
                assert(free[at] is None);
            } else {
                self.pins_come_in_order(monitors, n, a);
                self.pins_come_in_order(monitors, n, b);
                let before = self.pinned(monitors, b);
                self.pinned_in_range(monitors, b);
                self.pins_come_in_order(monitors, b, a);
                assert(before[a] == Some(at));
                let free = unclaimed(monitors, before);
                first_when_any(free, is_pinned_to(self.pin(b)));
                assert(free[at] is None);
            }
        }
    }

    proof fn assigned_is_a_start(&self, monitors: Seq<MonitorView>, n: int, k: int)
        requires
            0 <= k <= n <= self.entries().len(),
        ensures
            self.assigned(monitors, n).take(k) == self.assigned(monitors, k),
        decreases n,
    {
        self.assigned_in_range(monitors, n);
        self.assigned_in_range(monitors, k);
        if k < n {
            self.assigned_in_range(monitors, n - 1);
            self.assigned_is_a_start(monitors, n - 1, k);
            assert(self.assigned(monitors, n).take(k) =~= self.assigned(monitors, n - 1).take(k));
        } else {
            assert(self.assigned(monitors, n).take(k) =~= self.assigned(monitors, n));
        }
    }

    /// In a file with no preferences at all, entry `n` configures monitor `n`.
    pub proof fn without_preferences_the_position_decides(
        &self,
        monitors: Seq<MonitorView>,
        entry: int,
    )
        requires
            forall|i: int| 0 <= i < self.entries().len() ==> #[trigger] self.pin(i) is Nowhere,
            0 <= entry < self.entries().len(),
        ensures
            self.assignments(monitors)[entry] == if entry < monitors.len() {
                Some(entry)
            } else {
                None
            },
    {
        let n = self.entries().len() as int;
        self.nothing_is_pinned(monitors, n);
        self.positions_are_taken(monitors, n);
    }

    proof fn nothing_is_pinned(&self, monitors: Seq<MonitorView>, n: int)
        requires
            0 <= n <= self.entries().len(),
            forall|i: int| 0 <= i < self.entries().len() ==> #[trigger] self.pin(i) is Nowhere,
        ensures
            forall|i: int| 0 <= i < n ==> (#[trigger] self.pinned(monitors, n)[i]) is None,
            self.pinned(monitors, n).len() == n,
        decreases n,
    {
        if n > 0 {
            self.nothing_is_pinned(monitors, n - 1);
            let before = self.pinned(monitors, n - 1);
            assert(self.pin(n - 1) is Nowhere);
            first_when_any(unclaimed(monitors, before), is_pinned_to(self.pin(n - 1)));
        }
    }

    proof fn positions_are_taken(&self, monitors: Seq<MonitorView>, n: int)
        requires
            0 <= n <= self.entries().len(),
            forall|i: int| 0 <= i < self.entries().len() ==> #[trigger] self.pin(i) is Nowhere,
            forall|i: int|
                0 <= i < self.entries().len() ==> (#[trigger] self.pinned(
                    monitors,
                    self.entries().len() as int,
                )[i]) is None,
        ensures
            self.assigned(monitors, n).len() == n,
            forall|i: int|
                0 <= i < n ==> #[trigger] self.assigned(monitors, n)[i] == if i < monitors.len() {
                    Some(i)
                } else {
                    None
                },
        decreases n,
    {
        if n > 0 {
            self.positions_are_taken(monitors, n - 1);
            let all = self.entries().len() as int;
            let pinned = self.pinned(monitors, all);
            self.pinned_in_range(monitors, all);
            let before = self.assigned(monitors, n - 1);
            let free = unclaimed(monitors, pinned + before);
            assert(self.pin(n - 1) is Nowhere);
            if n - 1 < monitors.len() {
                claims_of_both(pinned, before, n - 1);
                assert(!pinned.contains(Some(n - 1)));
                assert(!before.contains(Some(n - 1)));
                assert(free[n - 1] is Some);
            } else {
                assert forall|j: int| 0 <= j < free.len() implies !is_free()(
                    #[trigger] free[j],
                ) by {
                    claims_of_both(pinned, before, j);
                    assert(before[j] == Some(j));
                }
                first_is_none(free, is_free());
            }
        }
    }
}

} // verus!
