//! A workspace: a ring of containers plus everything that is not tiled.

use std::collections::BTreeMap;

use vstd::prelude::*;

use crate::geometry::{nearest, nearest_in_direction, Direction, Rect};
use crate::layout::{Flip, Layout, MinSize, MIN_TILE_SIZE};
use crate::model::areas::{lies_inside, own_or};
use crate::model::container::{
    alone, find_window, focused_on, holds, idx_of, inserted, stacked, top_of, without, Container,
    ContainerView,
};
use crate::model::ring::{CycleDirection, Ring, RingView};
use crate::model::scale::{scale_padding, scaled, Scale};
use crate::model::window::{has_id, ids_of, Window, WindowId, WindowView};
use crate::seqs::{any, first_idx, first_is, first_is_none, first_when_any};
use crate::text::owned;

verus! {

/// Where a window came from, so it can be put back when a mode is toggled off.
#[derive(Debug, Clone, Copy, PartialEq, Eq, Structural)]
pub struct Restore {
    /// The window holding the spot this one came out of: the sibling it shared
    /// a stack with, or the container it sat behind when it had a tile to
    /// itself. `None` means it was the first container in the ring.
    ///
    /// A handle and not an index on purpose. The ring keeps changing shape
    /// while a window is maximized, because windows close and containers are
    /// promoted, stacked and inserted, and every one of those shifts the
    /// indices to their right. An index taken before all that hands the window
    /// back into a stranger's stack; a handle still points at the container
    /// the user left it in.
    pub anchor: Option<WindowId>,
    /// The index inside that container's stack, or in the floating list.
    pub window: usize,
    /// `true` when the window was alone and its container went away with it.
    pub own_container: bool,
    /// `true` when the window came out of the floating list.
    pub floating: bool,
}

/// What a [`Workspace`] holds.
#[verifier::ext_equal]
pub ghost struct WorkspaceView {
    /// The workspace name, as configured.
    pub name: Option<Seq<char>>,
    /// The layout used when no layout rule applies.
    pub layout: Layout,
    /// Which axes the layout is mirrored on.
    pub layout_flip: Flip,
    /// Layout per container count.
    pub layout_rules: Map<usize, Layout>,
    /// The tiled containers.
    pub containers: RingView<ContainerView>,
    /// Windows that are managed but never tiled.
    pub floating_windows: RingView<WindowView>,
    /// `true` when the focus is on the floating windows, if there are any.
    pub focus_is_floating: bool,
    /// The container that is currently filling the whole workspace, if any.
    pub monocle_container: Option<ContainerView>,
    /// The window the monocled container goes back behind.
    pub monocle_restore: Option<WindowId>,
    /// The window that is currently maximized, if any.
    pub maximized_window: Option<WindowView>,
    /// Where the maximized window came from.
    pub maximized_restore: Option<Restore>,
    /// Padding around the whole workspace.
    pub workspace_padding: Option<i32>,
    /// Padding around each container.
    pub container_padding: Option<i32>,
    /// The width a tile may never shrink below.
    pub minimum_window_width: i32,
    /// The height a tile may never shrink below.
    pub minimum_window_height: i32,
    /// `false` turns tiling off.
    pub tile: bool,
    /// `true` makes every new window float.
    pub float_override: bool,
    /// `true` applies the monitor's window based work area offset here.
    pub apply_window_based_work_area_offset: bool,
    /// Per container per edge pixel deltas.
    pub resize_dimensions: Seq<Option<Rect>>,
    /// The rectangles from the last layout update, one per container.
    pub latest_layout: Seq<Rect>,
}

/// The view of an optional value.
pub open spec fn opt<T: View>(o: Option<T>) -> Option<T::V> {
    match o {
        Some(t) => Some(t@),
        None => None,
    }
}

/// The deltas cut or filled up to `len` entries.
pub open spec fn fitted(resize: Seq<Option<Rect>>, len: int) -> Seq<Option<Rect>> {
    Seq::new(
        len as nat,
        |i: int|
            if i < resize.len() {
                resize[i]
            } else {
                None
            },
    )
}

/// The deltas without the one at `idx`.
pub open spec fn dropped(resize: Seq<Option<Rect>>, idx: int) -> Seq<Option<Rect>> {
    if 0 <= idx < resize.len() {
        resize.remove(idx)
    } else {
        resize
    }
}

/// The deltas with room made for a new container at `idx`.
pub open spec fn with_room(resize: Seq<Option<Rect>>, idx: int) -> Seq<Option<Rect>> {
    resize.insert(
        if idx <= resize.len() {
            idx
        } else {
            resize.len() as int
        },
        None,
    )
}

/// The windows of the containers, container by container.
pub open spec fn windows_in(containers: Seq<ContainerView>) -> Seq<WindowView>
    decreases containers.len(),
{
    if containers.len() == 0 {
        Seq::empty()
    } else {
        windows_in(containers.drop_last()) + containers.last().elements
    }
}

/// The visible windows of the containers, in order.
pub open spec fn tops(containers: Seq<ContainerView>) -> Seq<WindowId>
    decreases containers.len(),
{
    if containers.len() == 0 {
        Seq::empty()
    } else {
        match top_of(containers.last()) {
            Some(id) => tops(containers.drop_last()).push(id),
            None => tops(containers.drop_last()),
        }
    }
}

/// The windows stacked one after the other into one container.
pub open spec fn stack_of(windows: Seq<WindowView>) -> ContainerView
    decreases windows.len(),
{
    if windows.len() == 0 {
        ContainerView::empty()
    } else {
        stacked(stack_of(windows.drop_last()), windows.last())
    }
}

/// Every window in a container of its own.
pub open spec fn all_alone(windows: Seq<WindowView>) -> Seq<ContainerView> {
    windows.map_values(|w: WindowView| alone(w))
}

/// `key` is the highest key of a rule for at most `len` containers.
pub open spec fn is_highest_rule(rules: Map<usize, Layout>, len: int, key: usize) -> bool {
    &&& rules.dom().contains(key)
    &&& key <= len
    &&& forall|other: usize| #[trigger]
        rules.dom().contains(other) && other <= len ==> other <= key
}

/// The layout for `len` containers: the rule with the highest key that is at
/// most `len`, or `layout` when there is none.
pub open spec fn layout_for(rules: Map<usize, Layout>, layout: Layout, len: int) -> Layout {
    if exists|key: usize| is_highest_rule(rules, len, key) {
        rules[choose|key: usize| is_highest_rule(rules, len, key)]
    } else {
        layout
    }
}

/// The containers a workspace hands over: the tiled ones, then the monocled
/// one, then the maximized window in a container of its own.
pub open spec fn handed_over(
    containers: Seq<ContainerView>,
    monocle: Option<ContainerView>,
    maximized: Option<WindowView>,
) -> Seq<ContainerView> {
    let tiled = match monocle {
        Some(c) => containers.push(c),
        None => containers,
    };
    match maximized {
        Some(w) => if any(tiled, holds(w.id)) {
            tiled
        } else {
            tiled.push(alone(w))
        },
        None => tiled,
    }
}

impl WorkspaceView {
    /// An empty workspace with the default settings.
    pub open spec fn fresh() -> Self {
        WorkspaceView {
            name: None,
            layout: Layout::Bsp,
            layout_flip: Flip::none(),
            layout_rules: Map::empty(),
            containers: RingView::empty(),
            floating_windows: RingView::empty(),
            focus_is_floating: false,
            monocle_container: None,
            monocle_restore: None,
            maximized_window: None,
            maximized_restore: None,
            workspace_padding: None,
            container_padding: None,
            minimum_window_width: MIN_TILE_SIZE,
            minimum_window_height: MIN_TILE_SIZE,
            tile: true,
            float_override: false,
            apply_window_based_work_area_offset: false,
            resize_dimensions: Seq::empty(),
            latest_layout: Seq::empty(),
        }
    }

    /// The index of the container holding a window.
    pub open spec fn container_idx(self, id: WindowId) -> Option<int> {
        first_idx(self.containers.elements, holds(id))
    }

    /// `true` when the focused window is a floating one.
    pub open spec fn floating_focus(self) -> bool {
        self.focus_is_floating && self.floating_windows.len() > 0
    }

    /// `true` when the workspace holds no window at all.
    pub open spec fn holds_nothing(self) -> bool {
        &&& self.containers.len() == 0
        &&& self.floating_windows.len() == 0
        &&& self.monocle_container is None
        &&& self.maximized_window is None
    }

    /// The windows outside the container ring: the monocled ones, the maximized
    /// one and the floating ones.
    pub open spec fn windows_outside(self) -> Seq<WindowView> {
        (match self.monocle_container {
            Some(c) => c.elements,
            None => Seq::empty(),
        }) + (match self.maximized_window {
            Some(w) => seq![w],
            None => Seq::empty(),
        }) + self.floating_windows.elements
    }

    /// Every window the workspace knows about, tiled or not.
    pub open spec fn all_windows(self) -> Seq<WindowView> {
        windows_in(self.containers.elements) + self.windows_outside()
    }

    /// `true` when the window lives in this workspace.
    pub open spec fn has_window(self, id: WindowId) -> bool {
        any(self.all_windows(), has_id(id))
    }

    /// The handles that have to be on screen when this workspace is shown.
    pub open spec fn visible(self) -> Seq<WindowId> {
        (match (self.maximized_window, self.monocle_container) {
            (Some(w), _) => seq![w.id],
            (None, Some(c)) => match top_of(c) {
                Some(id) => seq![id],
                None => Seq::empty(),
            },
            (None, None) => tops(self.containers.elements),
        }) + ids_of(self.floating_windows.elements)
    }

    /// The handle of the focused window, whatever mode the workspace is in.
    pub open spec fn focused_id(self) -> Option<WindowId> {
        match (self.maximized_window, self.monocle_container) {
            (Some(w), _) => Some(w.id),
            (None, Some(c)) => top_of(c),
            (None, None) => if self.floating_focus() {
                top_of(self.floating_windows)
            } else {
                match self.containers.current() {
                    Some(c) => top_of(c),
                    None => None,
                }
            },
        }
    }

    /// The workspace with the focus on a container, unchanged when out of range.
    pub open spec fn focus_container(self, idx: int) -> Self {
        if 0 <= idx < self.containers.len() {
            WorkspaceView {
                containers: self.containers.focus(idx),
                focus_is_floating: false,
                ..self
            }
        } else {
            self
        }
    }

    /// The workspace with every focus pointing at a window. Nothing changes
    /// when the window is not here.
    pub open spec fn focus_window(self, id: WindowId) -> Self {
        if self.maximized_window is Some && self.maximized_window->0.id == id {
            self
        } else if self.monocle_container is Some && holds(id)(self.monocle_container->0) {
            WorkspaceView {
                monocle_container: Some(focused_on(self.monocle_container->0, id)),
                ..self
            }
        } else if idx_of(self.floating_windows.elements, id) is Some {
            WorkspaceView {
                floating_windows: focused_on(self.floating_windows, id),
                focus_is_floating: true,
                ..self
            }
        } else {
            match self.container_idx(id) {
                Some(idx) => WorkspaceView {
                    containers: self.containers.focus(idx).with(
                        idx,
                        focused_on(self.containers.elements[idx], id),
                    ),
                    focus_is_floating: false,
                    ..self
                },
                None => self,
            }
        }
    }

    /// The layout in force for `len` containers.
    pub open spec fn resolved(self, len: int) -> Layout {
        layout_for(self.layout_rules, self.layout, len)
    }

    /// The area the containers are laid out in.
    pub open spec fn area(self, work_area: Rect, default_padding: i32, scale: Scale) -> Rect {
        let padding = match self.workspace_padding {
            Some(p) => p,
            None => default_padding,
        };
        work_area.padded_clamped(scaled(padding as int, scale))
    }

    /// The padding around each container, in physical pixels.
    pub open spec fn gap(self, default_padding: i32, scale: Scale) -> i32 {
        let padding = match self.container_padding {
            Some(p) => p,
            None => default_padding,
        };
        scaled(padding as int, scale)
    }

    /// The floor of a tile, in physical pixels.
    pub open spec fn min_tile(self, scale: Scale) -> MinSize {
        MinSize {
            width: scaled(self.minimum_window_width as int, scale),
            height: scaled(self.minimum_window_height as int, scale),
        }
    }

    /// The workspace after a layout update.
    pub open spec fn laid_out(
        self,
        work_area: Rect,
        default_workspace_padding: i32,
        default_container_padding: i32,
        scale: Scale,
    ) -> Self {
        let len = self.containers.len();
        let resize = fitted(self.resize_dimensions, len);
        WorkspaceView {
            resize_dimensions: resize,
            latest_layout: if self.tile {
                self.resolved(len).arrangement(
                    self.area(work_area, default_workspace_padding, scale),
                    len,
                    self.gap(default_container_padding, scale),
                    self.layout_flip,
                    resize,
                    self.min_tile(scale),
                )
            } else {
                Seq::empty()
            },
            ..self
        }
    }

    /// The workspace with the delta of one container replaced.
    pub open spec fn with_delta(self, idx: int, delta: Option<Rect>) -> Self {
        let resize = if self.resize_dimensions.len() < self.containers.len() {
            fitted(self.resize_dimensions, self.containers.len())
        } else {
            self.resize_dimensions
        };
        WorkspaceView {
            resize_dimensions: if 0 <= idx < resize.len() {
                resize.update(idx, delta)
            } else {
                resize
            },
            ..self
        }
    }

    /// The delta of one container.
    pub open spec fn delta(self, idx: int) -> Option<Rect> {
        if 0 <= idx < self.resize_dimensions.len() {
            self.resize_dimensions[idx]
        } else {
            None
        }
    }

    /// The rectangle of one container, as of the last layout update.
    pub open spec fn rect(self, idx: int) -> Option<Rect> {
        if 0 <= idx < self.latest_layout.len() {
            Some(self.latest_layout[idx])
        } else {
            None
        }
    }

    /// The workspace with a container put in at `idx` and focused.
    pub open spec fn insert_container(self, idx: int, container: ContainerView) -> Self {
        WorkspaceView {
            containers: self.containers.insert_focused(idx, container),
            resize_dimensions: fitted(
                with_room(self.resize_dimensions, self.containers.slot(idx)),
                self.containers.len() + 1,
            ),
            focus_is_floating: false,
            ..self
        }
    }

    /// The workspace with a window in a container of its own at the end. A
    /// window that is already tiled only gets its container focused.
    pub open spec fn add_window(self, window: WindowView) -> Self {
        match self.container_idx(window.id) {
            Some(idx) => WorkspaceView {
                containers: self.containers.focus(idx),
                focus_is_floating: false,
                ..self
            },
            None => WorkspaceView {
                containers: self.containers.push_focused(alone(window)),
                resize_dimensions: fitted(self.resize_dimensions, self.containers.len() + 1),
                focus_is_floating: false,
                ..self
            },
        }
    }

    /// The workspace with a window in a container of its own at `idx`. A window
    /// that is already tiled only gets its container focused.
    pub open spec fn insert_window(self, idx: int, window: WindowView) -> Self {
        match self.container_idx(window.id) {
            Some(existing) => WorkspaceView {
                containers: self.containers.focus(existing),
                focus_is_floating: false,
                ..self
            },
            None => self.insert_container(idx, alone(window)),
        }
    }

    /// The workspace with a window in the floating list and focused there.
    pub open spec fn add_floating(self, window: WindowView) -> Self {
        WorkspaceView {
            floating_windows: stacked(self.floating_windows, window),
            focus_is_floating: true,
            ..self
        }
    }

    /// The workspace without the container at `idx`.
    pub open spec fn remove_container(self, idx: int) -> Self {
        if 0 <= idx < self.containers.len() {
            WorkspaceView {
                containers: self.containers.remove(idx),
                resize_dimensions: dropped(self.resize_dimensions, idx),
                ..self
            }
        } else {
            self
        }
    }

    /// The workspace without the floating window at `idx`.
    pub open spec fn remove_floating(self, idx: int) -> Self {
        let floating = self.floating_windows.remove(idx);
        WorkspaceView {
            floating_windows: floating,
            focus_is_floating: self.focus_is_floating && floating.len() > 0,
            ..self
        }
    }

    /// The workspace with a window taken out of the container at `idx`, and the
    /// container too when that leaves it empty.
    pub open spec fn take_from(self, idx: int, rest: ContainerView) -> Self {
        if rest.len() == 0 {
            self.remove_container(idx)
        } else {
            WorkspaceView { containers: self.containers.with(idx, rest), ..self }
        }
    }

    /// The workspace without a window, and the window.
    pub open spec fn remove_window(self, id: WindowId) -> (Self, Option<WindowView>) {
        if self.maximized_window is Some && self.maximized_window->0.id == id {
            (
                WorkspaceView { maximized_window: None, maximized_restore: None, ..self },
                self.maximized_window,
            )
        } else if self.monocle_container is Some && holds(id)(self.monocle_container->0) {
            let container = self.monocle_container->0;
            let window = container.at(idx_of(container.elements, id)->0);
            let rest = without(container, id);
            if rest.len() == 0 {
                (WorkspaceView { monocle_container: None, monocle_restore: None, ..self }, window)
            } else {
                (WorkspaceView { monocle_container: Some(rest), ..self }, window)
            }
        } else {
            match idx_of(self.floating_windows.elements, id) {
                Some(idx) => (self.remove_floating(idx), self.floating_windows.at(idx)),
                None => match self.container_idx(id) {
                    Some(idx) => {
                        let container = self.containers.elements[idx];
                        (
                            self.take_from(idx, without(container, id)),
                            container.at(idx_of(container.elements, id)->0),
                        )
                    },
                    None => (self, None),
                },
            }
        }
    }

    /// The workspace with the containers appended one after the other.
    pub open spec fn append_containers(self, incoming: Seq<ContainerView>) -> Self
        decreases incoming.len(),
    {
        if incoming.len() == 0 {
            self
        } else {
            let before = self.append_containers(incoming.drop_last());
            before.insert_container(before.containers.len(), incoming.last())
        }
    }

    /// The containers a workspace hands over when it is absorbed.
    pub open spec fn containers_to_hand_over(self) -> Seq<ContainerView> {
        handed_over(self.containers.elements, self.monocle_container, self.maximized_window)
    }

    /// The workspace with everything `other` holds appended, and the focus left
    /// where it was.
    pub open spec fn absorb(self, other: Self) -> Self {
        let grown = self.append_containers(other.containers_to_hand_over());
        WorkspaceView {
            containers: grown.containers.focus(
                if self.containers.len() > 0 {
                    self.containers.focused
                } else {
                    0
                },
            ),
            floating_windows: RingView {
                elements: self.floating_windows.elements + other.floating_windows.elements,
                focused: self.floating_windows.focused,
            },
            focus_is_floating: self.floating_focus(),
            ..grown
        }
    }

    /// The window in front of the container at `idx`, which holds the spot
    /// behind it.
    pub open spec fn anchor_before(self, idx: int) -> Option<WindowId> {
        match self.containers.at(idx - 1) {
            Some(c) => top_of(c),
            None => None,
        }
    }

    /// The index right behind the container holding `anchor`.
    pub open spec fn slot_behind(self, anchor: Option<WindowId>) -> int {
        match anchor {
            None => 0,
            Some(id) => match self.container_idx(id) {
                Some(idx) => idx + 1,
                None => self.containers.len(),
            },
        }
    }

    /// The workspace after monocle mode was toggled.
    pub open spec fn toggle_monocle(self) -> Self {
        match self.monocle_container {
            Some(container) => {
                let off = WorkspaceView {
                    monocle_container: None,
                    monocle_restore: None,
                    ..self
                };
                off.insert_container(off.slot_behind(self.monocle_restore), container)
            },
            None => if self.maximized_window is Some || self.containers.len() == 0 {
                self
            } else {
                WorkspaceView {
                    monocle_container: self.containers.current(),
                    monocle_restore: self.anchor_before(self.containers.focused),
                    focus_is_floating: false,
                    ..self.remove_container(self.containers.focused)
                }
            },
        }
    }

    /// The workspace with the maximized window put back where it came from.
    pub open spec fn unmaximize(self) -> Self {
        let window = self.maximized_window->0;
        let off = WorkspaceView { maximized_window: None, maximized_restore: None, ..self };
        match self.maximized_restore {
            None => off.add_window(window),
            Some(restore) => if restore.floating {
                WorkspaceView {
                    floating_windows: off.floating_windows.insert_focused(
                        restore.window as int,
                        window,
                    ),
                    focus_is_floating: true,
                    ..off
                }
            } else if restore.own_container {
                off.insert_container(off.slot_behind(restore.anchor), alone(window))
            } else {
                match restore.anchor {
                    Some(id) => match off.container_idx(id) {
                        Some(idx) => WorkspaceView {
                            containers: off.containers.focus(idx).with(
                                idx,
                                inserted(
                                    off.containers.elements[idx],
                                    restore.window as int,
                                    window,
                                ),
                            ),
                            focus_is_floating: false,
                            ..off
                        },
                        None => off.add_window(window),
                    },
                    None => off.add_window(window),
                }
            },
        }
    }

    /// The workspace with its focused window maximized, unchanged when there is
    /// none or monocle mode is on.
    pub open spec fn maximize(self) -> Self {
        if self.monocle_container is Some {
            self
        } else if self.floating_focus() {
            WorkspaceView {
                maximized_window: self.floating_windows.current(),
                maximized_restore: Some(
                    Restore {
                        anchor: None,
                        window: self.floating_windows.focused as usize,
                        own_container: false,
                        floating: true,
                    },
                ),
                ..self.remove_floating(self.floating_windows.focused)
            }
        } else {
            match self.containers.current() {
                None => self,
                Some(container) => if container.len() == 0 {
                    self
                } else {
                    let idx = self.containers.focused;
                    let rest = container.remove(container.focused);
                    let taken = self.take_from(idx, rest);
                    WorkspaceView {
                        maximized_window: container.current(),
                        maximized_restore: Some(
                            Restore {
                                anchor: if rest.len() == 0 {
                                    taken.anchor_before(idx)
                                } else {
                                    top_of(rest)
                                },
                                window: container.focused as usize,
                                own_container: rest.len() == 0,
                                floating: false,
                            },
                        ),
                        ..taken
                    }
                },
            }
        }
    }

    /// The workspace after maximize was toggled.
    pub open spec fn toggle_maximize(self) -> Self {
        if self.maximized_window is Some {
            self.unmaximize()
        } else {
            self.maximize()
        }
    }

    /// The workspace after the focused window was toggled between tiled and
    /// floating.
    pub open spec fn toggle_float(self) -> Self {
        if self.floating_focus() {
            let off = self.remove_floating(self.floating_windows.focused);
            off.insert_container(
                if off.containers.len() == 0 {
                    0
                } else {
                    off.containers.focused + 1
                },
                alone(self.floating_windows.current()->0),
            )
        } else {
            match self.focused_id() {
                Some(id) => {
                    let (rest, window) = self.remove_window(id);
                    match window {
                        Some(w) => rest.add_floating(w),
                        None => rest,
                    }
                },
                None => self,
            }
        }
    }

    /// The workspace with a window moved into the floating list.
    pub open spec fn float_window(self, id: WindowId) -> Self {
        if idx_of(self.floating_windows.elements, id) is Some {
            self
        } else {
            let (rest, window) = self.remove_window(id);
            match window {
                Some(w) => rest.add_floating(w),
                None => rest,
            }
        }
    }

    /// `true` when there is a container to move to the front.
    pub open spec fn can_promote(self) -> bool {
        self.containers.len() >= 2 && self.containers.focused != 0
    }

    /// The workspace with the focused container at the front of the ring, the
    /// deltas left at their positions.
    pub open spec fn promote(self) -> Self {
        if self.can_promote() {
            WorkspaceView {
                containers: self.containers.remove(self.containers.focused).insert_focused(
                    0,
                    self.containers.current()->0,
                ),
                resize_dimensions: fitted(self.resize_dimensions, self.containers.len()),
                focus_is_floating: false,
                ..self
            }
        } else {
            self
        }
    }

    /// The workspace with the focused container swapped with the one at `idx`,
    /// the deltas left at their positions.
    pub open spec fn swap_focused(self, idx: int) -> Self {
        if idx != self.containers.focused && 0 <= idx < self.containers.len() {
            WorkspaceView {
                containers: self.containers.swap(self.containers.focused, idx).focus(idx),
                focus_is_floating: false,
                ..self
            }
        } else {
            self
        }
    }

    /// `true` when the focused window shares its container.
    pub open spec fn can_unstack(self) -> bool {
        self.containers.current() is Some && self.containers.current()->0.len() > 1
    }

    /// The workspace with the focused window in a container of its own, right
    /// behind the stack it came out of.
    pub open spec fn unstack(self) -> Self {
        if self.can_unstack() {
            let idx = self.containers.focused;
            let container = self.containers.current()->0;
            let rest = WorkspaceView {
                containers: self.containers.with(idx, container.remove(container.focused)),
                ..self
            };
            rest.insert_container(idx + 1, alone(container.current()->0))
        } else {
            self
        }
    }

    /// The workspace with every container collapsed into one stack.
    pub open spec fn stack_all(self) -> Self {
        if self.containers.len() < 2 {
            self
        } else {
            let stack = stack_of(windows_in(self.containers.elements));
            WorkspaceView {
                containers: RingView::over(
                    seq![
                        match self.focused_id() {
                            Some(id) => focused_on(stack, id),
                            None => stack,
                        },
                    ],
                ),
                resize_dimensions: seq![None],
                focus_is_floating: self.floating_focus(),
                ..self
            }
        }
    }

    /// `true` when some container holds more than one window.
    pub open spec fn has_stack(self) -> bool {
        any(self.containers.elements, |c: ContainerView| c.len() > 1)
    }

    /// The workspace with every window in a container of its own.
    pub open spec fn unstack_all(self) -> Self {
        if !self.has_stack() {
            self
        } else {
            let containers = all_alone(windows_in(self.containers.elements));
            let idx = match self.focused_id() {
                Some(id) => match first_idx(containers, holds(id)) {
                    Some(idx) => idx,
                    None => 0,
                },
                None => 0,
            };
            WorkspaceView {
                containers: RingView::over(containers).focus(idx),
                resize_dimensions: fitted(Seq::empty(), containers.len() as int),
                focus_is_floating: self.floating_focus(),
                ..self
            }
        }
    }

    /// `true` when the focused window can be stacked onto the container at `target`.
    pub open spec fn can_stack_into(self, target: int) -> bool {
        &&& target != self.containers.focused
        &&& 0 <= target < self.containers.len()
        &&& self.containers.current()->0.len() > 0
    }

    /// The workspace with the focused window on top of the container at `target`.
    pub open spec fn stack_into(self, target: int) -> Self {
        if self.can_stack_into(target) {
            let from = self.containers.focused;
            let container = self.containers.current()->0;
            let rest = container.remove(container.focused);
            let taken = self.take_from(from, rest);
            let at = if rest.len() == 0 && target > from {
                target - 1
            } else {
                target
            };
            WorkspaceView {
                containers: taken.containers.with(
                    at,
                    stacked(taken.containers.elements[at], container.current()->0),
                ).focus(at),
                focus_is_floating: false,
                ..taken
            }
        } else {
            self
        }
    }
}

/// A window is in some of the containers exactly when one of them holds it.
pub proof fn tiled_when_held(containers: Seq<ContainerView>, id: WindowId)
    ensures
        any(windows_in(containers), has_id(id)) <==> any(containers, holds(id)),
    decreases containers.len(),
{
    if containers.len() > 0 {
        let head = containers.drop_last();
        let last = containers.last();
        tiled_when_held(head, id);
        any_in_either(windows_in(head), last.elements, has_id(id));
        any_in_either(head, seq![last], holds(id));
        assert(head + seq![last] =~= containers);
        assert(any(seq![last], holds(id)) <==> holds(id)(last)) by {
            if holds(id)(last) {
                assert(holds(id)(seq![last][0]));
            }
        }
    }
}

/// `p` holds of something in two sequences together exactly when it does in one
/// of them.
pub proof fn any_in_either<V>(a: Seq<V>, b: Seq<V>, p: spec_fn(V) -> bool)
    ensures
        any(a + b, p) <==> any(a, p) || any(b, p),
{
    if any(a, p) {
        let i = choose|i: int| 0 <= i < a.len() && p(#[trigger] a[i]);
        assert(p((a + b)[i]));
    }
    if any(b, p) {
        let i = choose|i: int| 0 <= i < b.len() && p(#[trigger] b[i]);
        assert(p((a + b)[a.len() + i]));
    }
    if any(a + b, p) {
        let i = choose|i: int| 0 <= i < (a + b).len() && p(#[trigger] (a + b)[i]);
        if i < a.len() {
            assert(p(a[i]));
        } else {
            assert(p(b[i - a.len()]));
        }
    }
}

impl WorkspaceView {
    /// A window lives here exactly when it is maximized, monocled, floating or
    /// tiled here.
    pub proof fn window_is_somewhere(self, id: WindowId)
        ensures
            self.has_window(id) <==> {
                ||| self.maximized_window is Some && self.maximized_window->0.id == id
                ||| self.monocle_container is Some && holds(id)(self.monocle_container->0)
                ||| idx_of(self.floating_windows.elements, id) is Some
                ||| self.container_idx(id) is Some
            },
    {
        let lifted = match self.monocle_container {
            Some(c) => c.elements,
            None => Seq::empty(),
        };
        let big = match self.maximized_window {
            Some(w) => seq![w],
            None => Seq::empty(),
        };
        let floating = self.floating_windows.elements;
        tiled_when_held(self.containers.elements, id);
        any_in_either(windows_in(self.containers.elements), self.windows_outside(), has_id(id));
        any_in_either(lifted + big, floating, has_id(id));
        any_in_either(lifted, big, has_id(id));
        if self.maximized_window is Some && self.maximized_window->0.id == id {
            assert(has_id(id)(big[0]));
        }
        first_when_any(floating, has_id(id));
        first_when_any(self.containers.elements, holds(id));
    }
}

impl WorkspaceView {
    /// A window that lives here can be taken out, and it is that window.
    pub proof fn a_held_window_can_be_taken(self, id: WindowId)
        requires
            self.has_window(id),
        ensures
            self.remove_window(id).1 is Some,
            self.remove_window(id).1->0.id == id,
    {
        self.window_is_somewhere(id);
        if self.monocle_container is Some {
            first_when_any(self.monocle_container->0.elements, has_id(id));
        }
        first_when_any(self.floating_windows.elements, has_id(id));
        first_when_any(self.containers.elements, holds(id));
        if self.container_idx(id) is Some {
            first_when_any(self.containers.elements[self.container_idx(id)->0].elements, has_id(id));
        }
    }
}

/// A workspace: the containers it tiles plus its floating, monocle and
/// maximized exceptions.
///
/// The container ring holds only the tiled containers. A window that is
/// floating, maximized or in monocle mode has been lifted out of that ring and
/// is stored on its own, which is what keeps the layout arithmetic simple.
#[derive(Debug, Clone, PartialEq, Eq)]
pub struct Workspace {
    /// The workspace name, as configured. `None` means "show the index".
    pub name: Option<String>,
    /// The layout used when no layout rule applies.
    pub layout: Layout,
    /// Which axes the layout is mirrored on.
    pub layout_flip: Flip,
    /// Layout per container count: the rule with the highest key that is at
    /// most the current container count wins.
    pub layout_rules: BTreeMap<usize, Layout>,
    /// The tiled containers.
    pub containers: Ring<Container>,
    /// Windows that are managed but never tiled.
    pub floating_windows: Ring<Window>,
    /// `true` when the focused window is one of the floating ones.
    pub focus_is_floating: bool,
    /// The container that is currently filling the whole workspace, if any.
    pub monocle_container: Option<Container>,
    /// The window the monocled container goes back behind, or `None` when it
    /// was the first in the ring. A handle for the same reason as
    /// [`Restore::anchor`].
    pub monocle_restore: Option<WindowId>,
    /// The window that is currently maximized, if any.
    pub maximized_window: Option<Window>,
    /// Where the maximized window came from.
    pub maximized_restore: Option<Restore>,
    /// Padding around the whole workspace. `None` uses the global default.
    pub workspace_padding: Option<i32>,
    /// Padding around each container. `None` uses the global default.
    pub container_padding: Option<i32>,
    /// The width a tile of this workspace may never shrink below, in logical
    /// pixels.
    ///
    /// Carried here because the layout is computed from the workspace. The
    /// value is the global `minimum_window_width`, which the state stamps on
    /// every time it hands a workspace out, so a workspace created on demand
    /// long after the configuration was read still tiles to the configured
    /// floor.
    pub minimum_window_width: i32,
    /// The height a tile of this workspace may never shrink below, in logical
    /// pixels. The counterpart of [`Workspace::minimum_window_width`].
    pub minimum_window_height: i32,
    /// `false` turns tiling off for this workspace without unmanaging anything.
    pub tile: bool,
    /// `true` makes every new window float.
    pub float_override: bool,
    /// `true` applies the monitor's window based work area offset here.
    pub apply_window_based_work_area_offset: bool,
    /// Per container per edge pixel deltas from the resize commands.
    ///
    /// Always the same length as the container ring after a layout update.
    pub resize_dimensions: Vec<Option<Rect>>,
    /// The rectangles from the last layout update, one per container.
    ///
    /// The daemon diffs against this to work out which windows actually have
    /// to move, and the directional focus commands read it to find neighbours.
    pub latest_layout: Vec<Rect>,
}

impl View for Workspace {
    type V = WorkspaceView;

    open spec fn view(&self) -> WorkspaceView {
        WorkspaceView {
            name: opt(self.name),
            layout: self.layout,
            layout_flip: self.layout_flip,
            layout_rules: self.layout_rules@,
            containers: self.containers@,
            floating_windows: self.floating_windows@,
            focus_is_floating: self.focus_is_floating,
            monocle_container: opt(self.monocle_container),
            monocle_restore: self.monocle_restore,
            maximized_window: opt(self.maximized_window),
            maximized_restore: self.maximized_restore,
            workspace_padding: self.workspace_padding,
            container_padding: self.container_padding,
            minimum_window_width: self.minimum_window_width,
            minimum_window_height: self.minimum_window_height,
            tile: self.tile,
            float_override: self.float_override,
            apply_window_based_work_area_offset: self.apply_window_based_work_area_offset,
            resize_dimensions: self.resize_dimensions@,
            latest_layout: self.latest_layout@,
        }
    }
}

impl Default for Workspace {
    fn default() -> (r: Self)
        ensures
            r@ == WorkspaceView::fresh(),
    {
        let r = Workspace {
            name: None,
            layout: Layout::Bsp,
            layout_flip: Flip::none(),
            layout_rules: BTreeMap::new(),
            containers: Ring::new(),
            floating_windows: Ring::new(),
            focus_is_floating: false,
            monocle_container: None,
            monocle_restore: None,
            maximized_window: None,
            maximized_restore: None,
            workspace_padding: None,
            container_padding: None,
            minimum_window_width: MIN_TILE_SIZE,
            minimum_window_height: MIN_TILE_SIZE,
            tile: true,
            float_override: false,
            apply_window_based_work_area_offset: false,
            resize_dimensions: Vec::new(),
            latest_layout: Vec::new(),
        };
        assert(r@ =~= WorkspaceView::fresh());
        r
    }
}

/// Cuts the deltas or fills them up to `len` entries.
fn fit(resize: &mut Vec<Option<Rect>>, len: usize)
    ensures
        final(resize)@ == fitted(old(resize)@, len as int),
{
    while resize.len() > len
        invariant
            resize@ == old(resize)@.take(resize@.len() as int),
            resize@.len() <= old(resize)@.len(),
            old(resize)@.len() > len ==> resize@.len() >= len,
            old(resize)@.len() <= len ==> resize@.len() == old(resize)@.len(),
        decreases resize@.len(),
    {
        resize.pop();
        assert(resize@ =~= old(resize)@.take(resize@.len() as int));
    }
    while resize.len() < len
        invariant
            resize@.len() <= len,
            resize@.len() < len ==> resize@.len() >= old(resize)@.len(),
            resize@ == fitted(old(resize)@, resize@.len() as int),
        decreases len - resize@.len(),
    {
        resize.push(None);
        assert(resize@ =~= fitted(old(resize)@, resize@.len() as int));
    }
    assert(resize@ =~= fitted(old(resize)@, len as int));
}

/// Drops the delta at `idx`, when there is one.
fn drop_delta(resize: &mut Vec<Option<Rect>>, idx: usize)
    ensures
        final(resize)@ == dropped(old(resize)@, idx as int),
{
    if idx < resize.len() {
        resize.remove(idx);
    }
}

/// The containers a workspace with these parts hands over.
fn hand_over(
    containers: Ring<Container>,
    monocle: Option<Container>,
    maximized: Option<Window>,
) -> (r: Vec<Container>)
    ensures
        r@.map_values(|c: Container| c@) == handed_over(
            containers@.elements,
            opt(monocle),
            opt(maximized),
        ),
{
    let mut incoming: Vec<Container> = containers.into_vec();
    if let Some(container) = monocle {
        let ghost before = incoming@;
        incoming.push(container);
        assert(incoming@.map_values(|c: Container| c@) =~= before.map_values(
            |c: Container| c@,
        ).push(container@));
    }
    if let Some(window) = maximized {
        let ghost tiled = incoming@.map_values(|c: Container| c@);
        for i in 0..incoming.len()
            invariant
                tiled == incoming@.map_values(|c: Container| c@),
                tiled.len() == incoming@.len(),
                forall|j: int| 0 <= j < i ==> !holds(window@.id)(#[trigger] tiled[j]),
                tiled == (match opt(monocle) {
                    Some(c) => containers@.elements.push(c),
                    None => containers@.elements,
                }),
                opt(maximized) == Some(window@),
        {
            assert(tiled[i as int] == incoming@[i as int]@);
            if incoming[i].contains(window.id) {
                assert(any(tiled, holds(window@.id)));
                return incoming;
            }
        }
        assert(!any(tiled, holds(window@.id)));
        // A maximized window that was alone is not in any container.
        let ghost plain = incoming@;
        incoming.push(Container::from_window(window));
        assert(incoming@.map_values(|c: Container| c@) =~= plain.map_values(
            |c: Container| c@,
        ).push(alone(window@)));
    }
    incoming
}

/// Finds a window in a ring of containers by its handle.
pub fn find_container(containers: &Ring<Container>, id: WindowId) -> (r: Option<usize>)
    ensures
        match r {
            Some(idx) => first_idx(containers@.elements, holds(id)) == Some(idx as int) && idx
                < containers@.len() && idx < usize::MAX && holds(id)(containers@.elements[idx as int]),
            None => first_idx(containers@.elements, holds(id)) is None,
        },
        r is Some == any(containers@.elements, holds(id)),
{
    proof {
        containers.view_of_items();
    }
    let elements = containers.elements();
    for idx in 0..elements.len()
        invariant
            elements@.map_values(|t: Container| t@) == containers@.elements,
            elements@.len() == containers@.elements.len(),
            forall|j: int| 0 <= j < idx ==> !holds(id)(#[trigger] containers@.elements[j]),
    {
        assert(containers@.elements[idx as int] == elements@[idx as int]@);
        if elements[idx].contains(id) {
            proof {
                first_is(containers@.elements, holds(id), idx as int);
            }
            return Some(idx);
        }
    }
    proof {
        first_is_none(containers@.elements, holds(id));
    }
    None
}

/// The windows of some containers, container by container.
fn gather(containers: Vec<Container>) -> (r: Vec<Window>)
    ensures
        r@.map_values(|w: Window| w@) == windows_in(containers@.map_values(|c: Container| c@)),
{
    let ghost all = containers@.map_values(|c: Container| c@);
    let mut windows: Vec<Window> = Vec::new();
    let mut rest = containers;
    let ghost mut done: int = 0;
    assert(windows@.map_values(|w: Window| w@) =~= windows_in(all.take(0)));
    while rest.len() > 0
        invariant
            0 <= done <= all.len(),
            rest@.map_values(|c: Container| c@) == all.skip(done),
            windows@.map_values(|w: Window| w@) == windows_in(all.take(done)),
        decreases rest@.len(),
    {
        let ghost before = rest@.map_values(|c: Container| c@);
        let mut container = rest.remove(0);
        assert(container@ == before[0]);
        assert(rest@.map_values(|c: Container| c@) =~= before.skip(1));
        let mut more = container.drain();
        let ghost head = windows@;
        let ghost tail = more@;
        windows.append(&mut more);
        assert(windows@.map_values(|w: Window| w@) =~= head.map_values(|w: Window| w@)
            + tail.map_values(|w: Window| w@));
        proof {
            assert(all.skip(done)[0] == all[done]);
            assert(all.take(done + 1).drop_last() =~= all.take(done));
            assert(all.skip(done).skip(1) =~= all.skip(done + 1));
            done = done + 1;
        }
    }
    assert(all.take(done) =~= all);
    windows
}

impl Workspace {
    /// An empty workspace with the default layout.
    #[must_use]
    pub fn new() -> (r: Self)
        ensures
            r@ == WorkspaceView::fresh(),
    {
        Workspace::default()
    }

    /// An empty workspace with a name.
    #[must_use]
    pub fn named(name: &str) -> (r: Self)
        ensures
            r@ == (WorkspaceView { name: Some(name@), ..WorkspaceView::fresh() }),
    {
        let mut workspace = Workspace::default();
        workspace.name = Some(owned(name));
        workspace
    }

    // -- containers ---------------------------------------------------------

    /// The tiled containers.
    #[must_use]
    pub fn containers(&self) -> (r: &Ring<Container>)
        ensures
            r@ == self@.containers,
    {
        &self.containers
    }

    /// The tiled containers, mutably.
    ///
    /// Reordering through this bypasses the resize deltas, so prefer the named
    /// operations where one exists.
    pub fn containers_mut(&mut self) -> (r: &mut Ring<Container>)
        ensures
            (*r)@ == old(self)@.containers,
            final(self)@ == (WorkspaceView { containers: (*final(r))@, ..old(self)@ }),
    {
        &mut self.containers
    }

    /// The index of the focused container.
    #[must_use]
    pub fn focused_container_idx(&self) -> (r: usize)
        ensures
            r == self@.containers.focused,
            r < usize::MAX,
            self@.containers.len() > 0 ==> r < self@.containers.len(),
    {
        self.containers.focused_idx()
    }

    /// The focused container.
    #[must_use]
    pub fn focused_container(&self) -> (r: Option<&Container>)
        ensures
            match r {
                Some(c) => self@.containers.current() == Some(c@),
                None => self@.containers.current() is None,
            },
    {
        self.containers.focused()
    }

    /// The focused container, mutably.
    pub fn focused_container_mut(&mut self) -> (r: Option<&mut Container>)
        ensures
            match r {
                Some(c) => old(self)@.containers.current() == Some((*c)@) && final(self)@ == (
                WorkspaceView {
                    containers: old(self)@.containers.with(
                        old(self)@.containers.focused,
                        (*final(c))@,
                    ),
                    ..old(self)@
                }) && old(self)@.containers.len() > 0,
                None => old(self)@.containers.current() is None && final(self)@ == old(self)@
                    && old(self)@.containers.len() == 0,
            },
    {
        self.containers.focused_mut()
    }

    /// Focuses a container by index. Returns `false` when out of range.
    pub fn focus_container(&mut self, idx: usize) -> (r: bool)
        ensures
            r == (idx < old(self)@.containers.len()),
            final(self)@ == old(self)@.focus_container(idx as int),
    {
        let ok = self.containers.focus(idx);
        if ok {
            self.focus_is_floating = false;
        }
        ok
    }

    /// The container holding a window, by index.
    #[must_use]
    pub fn container_idx_for_window(&self, id: WindowId) -> (r: Option<usize>)
        ensures
            match r {
                Some(idx) => self@.container_idx(id) == Some(idx as int) && idx < usize::MAX && idx
                    < self@.containers.len() && holds(id)(self@.containers.elements[idx as int]),
                None => self@.container_idx(id) is None,
            },
    {
        find_container(&self.containers, id)
    }

    // -- floating, monocle, maximized ---------------------------------------

    /// The windows that are managed but never tiled.
    #[must_use]
    pub fn floating_windows(&self) -> (r: &Ring<Window>)
        ensures
            r@ == self@.floating_windows,
    {
        &self.floating_windows
    }

    /// The floating windows, mutably.
    pub fn floating_windows_mut(&mut self) -> (r: &mut Ring<Window>)
        ensures
            (*r)@ == old(self)@.floating_windows,
            final(self)@ == (WorkspaceView { floating_windows: (*final(r))@, ..old(self)@ }),
    {
        &mut self.floating_windows
    }

    /// `true` when the focused window is a floating one.
    #[must_use]
    pub fn focus_is_floating(&self) -> (r: bool)
        ensures
            r == self@.floating_focus(),
    {
        self.focus_is_floating && !self.floating_windows.is_empty()
    }

    /// The container that fills the whole workspace, if monocle mode is on.
    #[must_use]
    pub fn monocle_container(&self) -> (r: Option<&Container>)
        ensures
            match r {
                Some(c) => self@.monocle_container == Some(c@),
                None => self@.monocle_container is None,
            },
    {
        self.monocle_container.as_ref()
    }

    /// `true` when monocle mode is on.
    #[must_use]
    pub fn is_monocle(&self) -> (r: bool)
        ensures
            r == (self@.monocle_container is Some),
    {
        self.monocle_container.is_some()
    }

    /// The maximized window, if there is one.
    #[must_use]
    pub fn maximized_window(&self) -> (r: Option<&Window>)
        ensures
            match r {
                Some(w) => self@.maximized_window == Some(w@),
                None => self@.maximized_window is None,
            },
    {
        self.maximized_window.as_ref()
    }

    /// `true` when a window is maximized.
    #[must_use]
    pub fn is_maximized(&self) -> (r: bool)
        ensures
            r == (self@.maximized_window is Some),
    {
        self.maximized_window.is_some()
    }

    // -- membership ---------------------------------------------------------

    /// `true` when the workspace holds no window at all.
    #[must_use]
    pub fn is_empty(&self) -> (r: bool)
        ensures
            r == self@.holds_nothing(),
    {
        self.containers.is_empty() && self.floating_windows.is_empty()
            && self.monocle_container.is_none() && self.maximized_window.is_none()
    }

    /// Every window the workspace knows about, tiled or not.
    #[must_use]
    pub fn all_windows(&self) -> (r: Vec<&Window>)
        ensures
            r@.map_values(|w: &Window| w@) == self@.all_windows(),
    {
        let mut all: Vec<&Window> = Vec::new();
        let containers = self.containers.elements();
        assert(all@.map_values(|w: &Window| w@) =~= windows_in(
            self@.containers.elements.take(0),
        ));
        for i in 0..containers.len()
            invariant
                containers@.map_values(|c: Container| c@) == self@.containers.elements,
                all@.map_values(|w: &Window| w@) == windows_in(
                    self@.containers.elements.take(i as int),
                ),
        {
            assert(self@.containers.elements.take(i + 1).drop_last()
                =~= self@.containers.elements.take(i as int));
            assert(self@.containers.elements[i as int] == containers@[i as int]@);
            push_windows(&mut all, containers[i].windows());
        }
        assert(self@.containers.elements.take(containers@.len() as int)
            =~= self@.containers.elements);
        let ghost tiled = windows_in(self@.containers.elements);
        if let Some(container) = &self.monocle_container {
            push_windows(&mut all, container.windows());
        }
        let ghost lifted = match self@.monocle_container {
            Some(c) => c.elements,
            None => Seq::empty(),
        };
        assert(all@.map_values(|w: &Window| w@) =~= tiled + lifted);
        if let Some(window) = &self.maximized_window {
            all.push(window);
        }
        let ghost big = match self@.maximized_window {
            Some(w) => seq![w],
            None => Seq::empty(),
        };
        assert(all@.map_values(|w: &Window| w@) =~= tiled + lifted + big);
        push_windows(&mut all, &self.floating_windows);
        assert(all@.map_values(|w: &Window| w@) =~= self@.all_windows());
        all
    }

    /// Every window handle the workspace knows about.
    #[must_use]
    pub fn all_window_ids(&self) -> (r: Vec<WindowId>)
        ensures
            r@ == ids_of(self@.all_windows()),
    {
        let all = self.all_windows();
        let mut ids: Vec<WindowId> = Vec::new();
        for i in 0..all.len()
            invariant
                all@.map_values(|w: &Window| w@) == self@.all_windows(),
                ids@ == ids_of(self@.all_windows().take(i as int)),
        {
            ids.push(all[i].id);
            assert(self@.all_windows()[i as int] == all@[i as int]@);
            assert(ids@ =~= ids_of(self@.all_windows().take(i + 1)));
        }
        assert(self@.all_windows().take(all@.len() as int) =~= self@.all_windows());
        ids
    }

    /// `true` when the window lives in this workspace.
    #[must_use]
    pub fn contains_window(&self, id: WindowId) -> (r: bool)
        ensures
            r == self@.has_window(id),
    {
        self.window(id).is_some()
    }

    /// The window with that handle, wherever it is.
    #[must_use]
    pub fn window(&self, id: WindowId) -> (r: Option<&Window>)
        ensures
            match r {
                Some(w) => idx_of(self@.all_windows(), id) matches Some(idx)
                    && self@.all_windows()[idx] == w@ && w.id == id,
                None => idx_of(self@.all_windows(), id) is None,
            },
            r is Some == self@.has_window(id),
    {
        let all = self.all_windows();
        for i in 0..all.len()
            invariant
                all@.map_values(|w: &Window| w@) == self@.all_windows(),
                all@.len() == self@.all_windows().len(),
                forall|j: int| 0 <= j < i ==> !has_id(id)(#[trigger] self@.all_windows()[j]),
        {
            assert(self@.all_windows()[i as int] == all@[i as int]@);
            if all[i].id == id {
                proof {
                    first_is(self@.all_windows(), has_id(id), i as int);
                }
                return Some(all[i]);
            }
        }
        proof {
            first_is_none(self@.all_windows(), has_id(id));
        }
        None
    }

    /// The handles that have to be on screen when this workspace is shown.
    #[must_use]
    pub fn visible_window_ids(&self) -> (r: Vec<WindowId>)
        ensures
            r@ == self@.visible(),
    {
        let mut ids: Vec<WindowId> = Vec::new();
        if let Some(window) = &self.maximized_window {
            ids.push(window.id);
            assert(ids@ =~= seq![window@.id]);
        } else if let Some(container) = &self.monocle_container {
            if let Some(id) = container.focused_window_id() {
                ids.push(id);
                assert(ids@ =~= seq![id]);
            }
        } else {
            let containers = self.containers.elements();
            for i in 0..containers.len()
                invariant
                    containers@.map_values(|c: Container| c@) == self@.containers.elements,
                    ids@ == tops(self@.containers.elements.take(i as int)),
            {
                assert(self@.containers.elements.take(i + 1).drop_last()
                    =~= self@.containers.elements.take(i as int));
                assert(self@.containers.elements[i as int] == containers@[i as int]@);
                if let Some(id) = containers[i].focused_window_id() {
                    ids.push(id);
                }
            }
            assert(self@.containers.elements.take(containers@.len() as int)
                =~= self@.containers.elements);
        }
        let ghost tiled = ids@;
        let floating = self.floating_windows.elements();
        for i in 0..floating.len()
            invariant
                floating@.map_values(|w: Window| w@) == self@.floating_windows.elements,
                ids@ == tiled + ids_of(self@.floating_windows.elements.take(i as int)),
        {
            ids.push(floating[i].id);
            assert(self@.floating_windows.elements[i as int] == floating@[i as int]@);
            assert(ids@ =~= tiled + ids_of(self@.floating_windows.elements.take(i + 1)));
        }
        assert(self@.floating_windows.elements.take(floating@.len() as int)
            =~= self@.floating_windows.elements);
        ids
    }

    /// The handles that have to be hidden while this workspace is shown: the
    /// windows buried in a stack, and everything a monocle or a maximize
    /// covers.
    #[must_use]
    pub fn hidden_window_ids(&self) -> (r: Vec<WindowId>)
        ensures
            r@ == crate::model::changes::not_in(ids_of(self@.all_windows()), self@.visible()),
    {
        let visible = self.visible_window_ids();
        let all = self.all_window_ids();
        let mut hidden: Vec<WindowId> = Vec::new();
        crate::model::changes::extend_without(&mut hidden, all.as_slice(), visible.as_slice());
        assert(hidden@ =~= crate::model::changes::not_in(all@, visible@));
        hidden
    }

    // -- focus --------------------------------------------------------------

    /// The handle of the focused window, whatever mode the workspace is in.
    #[must_use]
    pub fn focused_window_id(&self) -> (r: Option<WindowId>)
        ensures
            r == self@.focused_id(),
    {
        if let Some(window) = &self.maximized_window {
            return Some(window.id);
        }
        if let Some(container) = &self.monocle_container {
            return container.focused_window_id();
        }
        if self.focus_is_floating() {
            return match self.floating_windows.focused() {
                Some(window) => Some(window.id),
                None => None,
            };
        }
        match self.containers.focused() {
            Some(container) => container.focused_window_id(),
            None => None,
        }
    }

    /// Points every focus index at `id`. Returns `false` when the window is not
    /// in this workspace.
    pub fn focus_window(&mut self, id: WindowId) -> (r: bool)
        ensures
            final(self)@ == old(self)@.focus_window(id),
            r == old(self)@.has_window(id),
    {
        proof {
            self@.window_is_somewhere(id);
        }
        if let Some(window) = &self.maximized_window {
            if window.id == id {
                return true;
            }
        }
        if let Some(container) = &mut self.monocle_container {
            if container.focus_window(id) {
                return true;
            }
        }
        if let Some(idx) = find_window(&self.floating_windows, id) {
            self.floating_windows.focus(idx);
            self.focus_is_floating = true;
            return true;
        }
        if let Some(idx) = self.container_idx_for_window(id) {
            self.containers.focus(idx);
            self.focus_is_floating = false;
            if let Some(container) = self.containers.focused_mut() {
                container.focus_window(id);
            }
            return true;
        }
        false
    }

    // -- layout -------------------------------------------------------------

    /// The layout that applies to `len` containers, honouring the layout rules.
    #[must_use]
    pub fn resolve_layout(&self, len: usize) -> (r: Layout)
        ensures
            r == self@.resolved(len as int),
    {
        let mut key: usize = len;
        loop
            invariant
                key <= len,
                forall|other: usize| #[trigger]
                    self.layout_rules@.dom().contains(other) && other <= len ==> other <= key,
            decreases key,
        {
            if let Some(layout) = self.layout_rules.get(&key) {
                proof {
                    assert(self.layout_rules@.dom().contains(key));
                    assert(is_highest_rule(self.layout_rules@, len as int, key));
                    let chosen = choose|k: usize|
                        is_highest_rule(self.layout_rules@, len as int, k);
                    assert(is_highest_rule(self.layout_rules@, len as int, chosen));
                    assert(chosen == key);
                }
                return *layout;
            }
            assert(!self.layout_rules@.dom().contains(key));
            if key == 0 {
                return self.layout;
            }
            key = key - 1;
        }
    }

    /// The layout in force right now.
    #[must_use]
    pub fn effective_layout(&self) -> (r: Layout)
        ensures
            r == self@.resolved(self@.containers.len()),
    {
        self.resolve_layout(self.containers.len())
    }

    /// The work area with the workspace padding taken off.
    #[must_use]
    pub fn tiling_area(&self, work_area: Rect, default_workspace_padding: i32) -> (r: Rect)
        ensures
            r == self@.area(work_area, default_workspace_padding, Scale::one()),
    {
        self.tiling_area_scaled(work_area, default_workspace_padding, Scale::one())
    }

    /// The work area with the workspace padding taken off, in the physical
    /// pixels of a display with that scale factor.
    ///
    /// The padding is configured in logical pixels, so a 14 pixel padding on a
    /// display at 150 percent scaling takes 21 physical pixels off each side.
    #[must_use]
    pub fn tiling_area_scaled(
        &self,
        work_area: Rect,
        default_workspace_padding: i32,
        scale: Scale,
    ) -> (r: Rect)
        ensures
            r == self@.area(work_area, default_workspace_padding, scale),
    {
        let padding = match self.workspace_padding {
            Some(padding) => padding,
            None => default_workspace_padding,
        };
        work_area.padded_clamped(scale_padding(padding, scale))
    }

    /// The rectangle a monocle or maximized window fills.
    #[must_use]
    pub fn full_rect(
        &self,
        work_area: Rect,
        default_workspace_padding: i32,
        default_container_padding: i32,
    ) -> (r: Rect)
        ensures
            r == self@.area(work_area, default_workspace_padding, Scale::one()).padded_clamped(
                self@.gap(default_container_padding, Scale::one()),
            ),
            ({
                let outer = own_or(self@.workspace_padding, default_workspace_padding);
                let inner = own_or(self@.container_padding, default_container_padding);
                let both = outer + inner;
                &&& 0 <= outer && 0 <= inner
                &&& 2 * both < work_area.right - work_area.left <= i32::MAX
                &&& 2 * both < work_area.bottom - work_area.top <= i32::MAX
            }) ==> ({
                let both = own_or(self@.workspace_padding, default_workspace_padding) + own_or(
                    self@.container_padding,
                    default_container_padding,
                );
                lies_inside(work_area, r, both, both, both, both)
            }),
    {
        self.full_rect_scaled(
            work_area,
            default_workspace_padding,
            default_container_padding,
            Scale::one(),
        )
    }

    /// The rectangle a monocle or maximized window fills, with both paddings
    /// scaled for a display that is not at 96 DPI.
    #[must_use]
    pub fn full_rect_scaled(
        &self,
        work_area: Rect,
        default_workspace_padding: i32,
        default_container_padding: i32,
        scale: Scale,
    ) -> (r: Rect)
        ensures
            r == self@.area(work_area, default_workspace_padding, scale).padded_clamped(
                self@.gap(default_container_padding, scale),
            ),
    {
        let padding = match self.container_padding {
            Some(padding) => padding,
            None => default_container_padding,
        };
        self.tiling_area_scaled(work_area, default_workspace_padding, scale).padded_clamped(
            scale_padding(padding, scale),
        )
    }

    /// The floor a tile of this workspace may not shrink below, in logical
    /// pixels, per axis.
    ///
    /// Every cut a layout makes divides exactly one axis, so each takes the
    /// floor that belongs to it: a width of 300 and a height of 200 means no
    /// tile narrower than 300 and none shorter than 200, rather than 300 on
    /// both.
    ///
    /// An absurd value is not clamped here. The layouts scale a minimum that
    /// cannot fit back down themselves, so a minimum larger than the screen
    /// still tiles the area exactly instead of overflowing it.
    #[must_use]
    pub fn minimum_tile_size(&self) -> (r: MinSize)
        ensures
            r == (MinSize {
                width: self@.minimum_window_width,
                height: self@.minimum_window_height,
            }),
    {
        MinSize { width: self.minimum_window_width, height: self.minimum_window_height }
    }

    /// Recomputes the tiled rectangles and stores them in `latest_layout`.
    ///
    /// Returns the new rectangles. A workspace with tiling turned off gets an
    /// empty layout, which tells the daemon to move nothing.
    pub fn update_layout(
        &mut self,
        work_area: Rect,
        default_workspace_padding: i32,
        default_container_padding: i32,
    ) -> (r: &[Rect])
        ensures
            final(self)@ == old(self)@.laid_out(
                work_area,
                default_workspace_padding,
                default_container_padding,
                Scale::one(),
            ),
            r@ == final(self)@.latest_layout,
    {
        self.update_layout_scaled(
            work_area,
            default_workspace_padding,
            default_container_padding,
            Scale::one(),
        )
    }

    /// Recomputes the tiled rectangles for a display with that scale factor.
    ///
    /// Both paddings and the minimum tile size are logical pixel values, so
    /// they are multiplied by `scale` before the layout runs. A scale of 100
    /// percent is exactly [`Workspace::update_layout`]. The minimum is
    /// [`Workspace::minimum_tile_size`], which is
    /// [`MIN_TILE_SIZE`] until a configuration says otherwise.
    pub fn update_layout_scaled(
        &mut self,
        work_area: Rect,
        default_workspace_padding: i32,
        default_container_padding: i32,
        scale: Scale,
    ) -> (r: &[Rect])
        ensures
            final(self)@ == old(self)@.laid_out(
                work_area,
                default_workspace_padding,
                default_container_padding,
                scale,
            ),
            r@ == final(self)@.latest_layout,
    {
        let len = self.containers.len();
        fit(&mut self.resize_dimensions, len);
        if self.tile {
            let area = self.tiling_area_scaled(work_area, default_workspace_padding, scale);
            let padding = match self.container_padding {
                Some(padding) => padding,
                None => default_container_padding,
            };
            let min = self.minimum_tile_size();
            let rects = self.resolve_layout(len).calculate_with_min(
                area,
                len,
                scale_padding(padding, scale),
                self.layout_flip,
                self.resize_dimensions.as_slice(),
                MinSize {
                    width: scale_padding(min.width, scale),
                    height: scale_padding(min.height, scale),
                },
            );
            self.latest_layout = rects;
        } else {
            self.latest_layout = Vec::new();
        }
        assert(self@ =~= old(self)@.laid_out(
            work_area,
            default_workspace_padding,
            default_container_padding,
            scale,
        ));
        self.latest_layout.as_slice()
    }

    /// The rectangles from the last [`Workspace::update_layout`].
    #[must_use]
    pub fn latest_layout(&self) -> (r: &[Rect])
        ensures
            r@ == self@.latest_layout,
    {
        self.latest_layout.as_slice()
    }

    /// Overwrites the cached layout. Only useful in tests and when restoring a
    /// saved state.
    pub fn set_latest_layout(&mut self, rects: Vec<Rect>)
        ensures
            final(self)@ == (WorkspaceView { latest_layout: rects@, ..old(self)@ }),
    {
        self.latest_layout = rects;
    }

    /// The index of the container that lies in `direction` from the focused
    /// one, according to the last layout update.
    #[must_use]
    pub fn container_idx_in_direction(&self, direction: Direction) -> (r: Option<usize>)
        ensures
            match r {
                Some(idx) => nearest(
                    self@.latest_layout,
                    self@.containers.focused,
                    direction,
                ) == Some(idx as int),
                None => nearest(self@.latest_layout, self@.containers.focused, direction) is None,
            },
    {
        nearest_in_direction(
            self.latest_layout.as_slice(),
            self.containers.focused_idx(),
            direction,
        )
    }

    /// Drops every resize delta, returning the layout to its default sizes.
    pub fn clear_resize_dimensions(&mut self)
        ensures
            final(self)@ == (WorkspaceView {
                resize_dimensions: fitted(Seq::empty(), old(self)@.containers.len()),
                ..old(self)@
            }),
    {
        self.resize_dimensions = Vec::new();
        let len = self.containers.len();
        fit(&mut self.resize_dimensions, len);
    }

    /// Replaces the delta for one container.
    pub fn set_resize_dimension(&mut self, idx: usize, delta: Option<Rect>)
        ensures
            final(self)@ == old(self)@.with_delta(idx as int, delta),
    {
        let len = self.containers.len();
        if self.resize_dimensions.len() < len {
            fit(&mut self.resize_dimensions, len);
        }
        if idx < self.resize_dimensions.len() {
            self.resize_dimensions[idx] = delta;
        }
    }

    /// The delta for one container.
    #[must_use]
    pub fn resize_dimension(&self, idx: usize) -> (r: Option<Rect>)
        ensures
            r == self@.delta(idx as int),
    {
        if idx < self.resize_dimensions.len() {
            self.resize_dimensions[idx]
        } else {
            None
        }
    }

    /// The rectangle of one container, as of the last layout update.
    #[must_use]
    pub fn rect_of_container(&self, idx: usize) -> (r: Option<Rect>)
        ensures
            r == self@.rect(idx as int),
    {
        if idx < self.latest_layout.len() {
            Some(self.latest_layout[idx])
        } else {
            None
        }
    }
}

/// Appends the windows of a ring.
fn push_windows<'a>(all: &mut Vec<&'a Window>, windows: &'a Ring<Window>)
    ensures
        final(all)@.map_values(|w: &Window| w@) == old(all)@.map_values(|w: &Window| w@)
            + windows@.elements,
{
    let ghost head = all@.map_values(|w: &Window| w@);
    let elements = windows.elements();
    for i in 0..elements.len()
        invariant
            elements@.map_values(|w: Window| w@) == windows@.elements,
            all@.map_values(|w: &Window| w@) == head + windows@.elements.take(i as int),
    {
        let ghost before = all@;
        all.push(&elements[i]);
        assert(windows@.elements[i as int] == elements@[i as int]@);
        assert(all@.map_values(|w: &Window| w@) =~= before.map_values(|w: &Window| w@).push(
            elements@[i as int]@,
        ));
        assert(all@.map_values(|w: &Window| w@) =~= head + windows@.elements.take(i + 1));
    }
    assert(windows@.elements.take(elements@.len() as int) =~= windows@.elements);
}

impl Workspace {
    // -- adding and removing windows ----------------------------------------

    /// Adds a window in its own container at the end and focuses it.
    pub fn add_window(&mut self, window: Window) -> (r: usize)
        ensures
            final(self)@ == old(self)@.add_window(window@),
            r == final(self)@.containers.focused,
    {
        if let Some(idx) = self.container_idx_for_window(window.id) {
            self.containers.focus(idx);
            self.focus_is_floating = false;
            return idx;
        }
        let idx = self.containers.push_focused(Container::from_window(window));
        let len = self.containers.len();
        fit(&mut self.resize_dimensions, len);
        self.focus_is_floating = false;
        idx
    }

    /// Adds a window in its own container next to the focused one.
    pub fn insert_window(&mut self, idx: usize, window: Window) -> (r: usize)
        ensures
            final(self)@ == old(self)@.insert_window(idx as int, window@),
            r == final(self)@.containers.focused,
    {
        if let Some(existing) = self.container_idx_for_window(window.id) {
            self.containers.focus(existing);
            self.focus_is_floating = false;
            return existing;
        }
        self.insert_container(idx, Container::from_window(window))
    }

    /// Adds a window to the floating list and focuses it.
    pub fn add_floating_window(&mut self, window: Window)
        ensures
            final(self)@ == old(self)@.add_floating(window@),
    {
        if let Some(idx) = find_window(&self.floating_windows, window.id) {
            self.floating_windows.focus(idx);
        } else {
            self.floating_windows.push_focused(window);
        }
        self.focus_is_floating = true;
    }

    fn remove_floating_at(&mut self, idx: usize) -> (r: Option<Window>)
        ensures
            final(self)@ == old(self)@.remove_floating(idx as int),
            opt(r) == old(self)@.floating_windows.at(idx as int),
    {
        let window = self.floating_windows.remove(idx);
        if self.floating_windows.is_empty() {
            self.focus_is_floating = false;
        }
        window
    }

    fn remove_container_at(&mut self, idx: usize) -> (r: Option<Container>)
        ensures
            final(self)@ == old(self)@.remove_container(idx as int),
            opt(r) == old(self)@.containers.at(idx as int),
    {
        match self.containers.remove(idx) {
            Some(container) => {
                drop_delta(&mut self.resize_dimensions, idx);
                Some(container)
            },
            None => None,
        }
    }

    /// Drops the container at `idx` when it is empty.
    fn drop_if_empty(&mut self, idx: usize) -> (r: bool)
        requires
            idx < old(self)@.containers.len(),
        ensures
            r == (old(self)@.containers.elements[idx as int].len() == 0),
            r ==> final(self)@ == old(self)@.remove_container(idx as int),
            !r ==> final(self)@ == old(self)@,
    {
        let empty = match self.containers.get(idx) {
            Some(container) => container.is_empty(),
            None => false,
        };
        if empty {
            self.remove_container_at(idx);
        }
        empty
    }

    /// Removes a window from wherever it is in this workspace.
    ///
    /// Containers that end up empty are dropped, and monocle or maximize mode
    /// is switched off when its window disappears.
    pub fn remove_window(&mut self, id: WindowId) -> (r: Option<Window>)
        ensures
            (final(self)@, opt(r)) == old(self)@.remove_window(id),
    {
        let maximized = match &self.maximized_window {
            Some(window) => window.id == id,
            None => false,
        };
        if maximized {
            self.maximized_restore = None;
            return self.maximized_window.take();
        }
        let monocled = match &self.monocle_container {
            Some(container) => container.contains(id),
            None => false,
        };
        if monocled {
            let window = match &mut self.monocle_container {
                Some(container) => container.remove_window(id),
                None => None,
            };
            let empty = match &self.monocle_container {
                Some(container) => container.is_empty(),
                None => false,
            };
            if empty {
                self.monocle_container = None;
                self.monocle_restore = None;
            }
            return window;
        }
        if let Some(idx) = find_window(&self.floating_windows, id) {
            return self.remove_floating_at(idx);
        }
        match self.container_idx_for_window(id) {
            None => None,
            Some(idx) => {
                let ghost container = self@.containers.elements[idx as int];
                let window = match self.containers.get_mut(idx) {
                    Some(container) => container.remove_window(id),
                    None => None,
                };
                let ghost rest = without(container, id);
                assert(self@.containers == old(self)@.containers.with(idx as int, rest));
                self.drop_if_empty(idx);
                proof {
                    if rest.len() == 0 {
                        assert(self@.containers.elements =~= old(self)@.containers.elements.remove(
                            idx as int,
                        ));
                    }
                    first_when_any(container.elements, has_id(id));
                }
                assert(self@ == old(self)@.take_from(idx as int, rest));
                window
            },
        }
    }

    /// Removes and returns the focused window.
    pub fn remove_focused_window(&mut self) -> (r: Option<Window>)
        ensures
            match old(self)@.focused_id() {
                Some(id) => (final(self)@, opt(r)) == old(self)@.remove_window(id),
                None => final(self)@ == old(self)@ && r is None,
            },
    {
        match self.focused_window_id() {
            Some(id) => self.remove_window(id),
            None => None,
        }
    }

    /// Removes the focused container and returns it.
    pub fn remove_focused_container(&mut self) -> (r: Option<Container>)
        ensures
            final(self)@ == old(self)@.remove_container(old(self)@.containers.focused),
            opt(r) == old(self)@.containers.current(),
    {
        let idx = self.containers.focused_idx();
        self.remove_container_at(idx)
    }

    /// Puts a whole container back into the ring at `idx` and focuses it.
    pub fn insert_container(&mut self, idx: usize, container: Container) -> (r: usize)
        ensures
            final(self)@ == old(self)@.insert_container(idx as int, container@),
            r == final(self)@.containers.focused,
    {
        let at = self.containers.insert_focused(idx, container);
        let slot = at.min(self.resize_dimensions.len());
        self.resize_dimensions.insert(slot, None);
        let len = self.containers.len();
        fit(&mut self.resize_dimensions, len);
        self.focus_is_floating = false;
        at
    }

    fn append_all(&mut self, incoming: Vec<Container>)
        ensures
            final(self)@ == old(self)@.append_containers(incoming@.map_values(|c: Container| c@)),
    {
        let ghost all = incoming@.map_values(|c: Container| c@);
        let mut rest = incoming;
        let ghost mut done: int = 0;
        while rest.len() > 0
            invariant
                0 <= done <= all.len(),
                rest@.map_values(|c: Container| c@) == all.skip(done),
                self@ == old(self)@.append_containers(all.take(done)),
            decreases rest@.len(),
        {
            let ghost before = rest@.map_values(|c: Container| c@);
            let container = rest.remove(0);
            assert(container@ == before[0]);
            assert(rest@.map_values(|c: Container| c@) =~= before.skip(1));
            let at = self.containers.len();
            self.insert_container(at, container);
            proof {
                assert(all.skip(done)[0] == all[done]);
                assert(all.take(done + 1).drop_last() =~= all.take(done));
                assert(all.skip(done).skip(1) =~= all.skip(done + 1));
                done = done + 1;
            }
        }
        assert(all.take(done) =~= all);
    }

    /// Appends everything another workspace holds to this one.
    ///
    /// Containers keep their order and their stacks, floating windows stay
    /// floating, and a monocle or maximized window arrives as a plain
    /// container: those modes belong to the workspace the window is leaving,
    /// not to the window. The focus stays where it already was here, so
    /// taking in the windows of a display that was unplugged does not steal
    /// it.
    ///
    /// This is how the daemon rescues the windows of a monitor that is gone,
    /// workspace by workspace rather than window by window, so the containers,
    /// the stacks and the floating list survive the unplug.
    pub fn absorb(&mut self, other: Workspace)
        ensures
            final(self)@ == old(self)@.absorb(other@),
    {
        let restore = self.containers.focused_idx();
        let had_containers = !self.containers.is_empty();
        let floating = self.focus_is_floating();
        let incoming = hand_over(other.containers, other.monocle_container, other.maximized_window);
        self.append_all(incoming);
        proof {
            append_keeps_the_rest(old(self)@, other@.containers_to_hand_over());
        }
        self.append_floating(other.floating_windows);
        if had_containers {
            self.containers.focus(restore);
        } else {
            self.containers.focus(0);
        }
        self.focus_is_floating = floating;
    }

    fn append_floating(&mut self, windows: Ring<Window>)
        ensures
            final(self)@ == (WorkspaceView {
                floating_windows: RingView {
                    elements: old(self)@.floating_windows.elements + windows@.elements,
                    focused: old(self)@.floating_windows.focused,
                },
                ..old(self)@
            }),
    {
        let mut rest = windows.into_vec();
        let ghost start = self@;
        let ghost all = windows@.elements;
        let ghost mut done: int = 0;
        assert(all.take(0) =~= Seq::<WindowView>::empty());
        assert(all.skip(0) =~= all);
        while rest.len() > 0
            invariant
                0 <= done <= all.len(),
                rest@.map_values(|w: Window| w@) == all.skip(done),
                self@ == (WorkspaceView {
                    floating_windows: RingView {
                        elements: start.floating_windows.elements + all.take(done),
                        focused: start.floating_windows.focused,
                    },
                    ..start
                }),
            decreases rest@.len(),
        {
            let ghost before = rest@.map_values(|w: Window| w@);
            let window = rest.remove(0);
            assert(window@ == before[0]);
            assert(rest@.map_values(|w: Window| w@) =~= before.skip(1));
            self.floating_windows.push(window);
            proof {
                assert(all.skip(done)[0] == all[done]);
                assert(all.skip(done).skip(1) =~= all.skip(done + 1));
                assert((start.floating_windows.elements + all.take(done)).push(all[done])
                    =~= start.floating_windows.elements + all.take(done + 1));
                done = done + 1;
            }
        }
        assert(all.skip(done).len() == 0);
        assert(all.take(done) =~= all);
    }

    // -- modes --------------------------------------------------------------

    /// The window holding the spot in front of the container at `idx`, so a
    /// container that is lifted out of the ring can find its way back after
    /// the ring has moved. `None` when it is the first container.
    fn anchor_before(&self, idx: usize) -> (r: Option<WindowId>)
        ensures
            r == self@.anchor_before(idx as int),
    {
        if idx == 0 {
            return None;
        }
        match self.containers.get(idx - 1) {
            Some(container) => container.focused_window_id(),
            None => None,
        }
    }

    /// The index right behind the container holding `anchor`: the front of the
    /// ring when there is no anchor, the back when the anchor itself is gone.
    fn slot_behind(&self, anchor: Option<WindowId>) -> (r: usize)
        ensures
            r == self@.slot_behind(anchor),
    {
        match anchor {
            None => 0,
            Some(id) => match self.container_idx_for_window(id) {
                Some(idx) => idx + 1,
                None => self.containers.len(),
            },
        }
    }

    /// Turns monocle mode on for the focused container, or off again.
    ///
    /// Returns `true` when monocle mode is on afterwards.
    pub fn toggle_monocle(&mut self) -> (r: bool)
        ensures
            final(self)@ == old(self)@.toggle_monocle(),
            r == (final(self)@.monocle_container is Some),
    {
        if let Some(container) = self.monocle_container.take() {
            let anchor = self.monocle_restore.take();
            let at = self.slot_behind(anchor);
            self.insert_container(at, container);
            false
        } else {
            // The mirror of the guard in `toggle_maximize`. Maximize is the
            // other mode that lifts a window out of the ring, so while it is on
            // the ring's focused container is not the window the user is
            // looking at: monocling it would lift a hidden window out, leave
            // the workspace in two exclusive modes at once, and the follow-up
            // un-maximize would then send its restore to the monocled window
            // instead, stranding the maximized one at full size for good.
            if self.is_maximized() {
                return false;
            }
            let anchor = self.anchor_before(self.containers.focused_idx());
            if let Some(container) = self.remove_focused_container() {
                self.monocle_container = Some(container);
                self.monocle_restore = anchor;
                self.focus_is_floating = false;
                true
            } else {
                false
            }
        }
    }

    fn put_back(&mut self, window: Window, restore: Option<Restore>)
        requires
            old(self)@.maximized_window is None,
            old(self)@.maximized_restore is None,
        ensures
            final(self)@ == (WorkspaceView {
                maximized_window: Some(window@),
                maximized_restore: restore,
                ..old(self)@
            }).unmaximize(),
    {
        match restore {
            Some(restore) => {
                if restore.floating {
                    self.floating_windows.insert_focused(restore.window, window);
                    self.focus_is_floating = true;
                } else if !restore.own_container {
                    let target = match restore.anchor {
                        Some(id) => self.container_idx_for_window(id),
                        None => None,
                    };
                    match target {
                        Some(idx) => {
                            self.containers.focus(idx);
                            self.focus_is_floating = false;
                            if let Some(target) = self.containers.get_mut(idx) {
                                target.insert_window(restore.window, window);
                            }
                        },
                        // Everything it shared the stack with is gone, so there
                        // is no stack left to rejoin.
                        None => {
                            self.add_window(window);
                        },
                    }
                } else {
                    let at = self.slot_behind(restore.anchor);
                    self.insert_container(at, Container::from_window(window));
                }
            },
            None => {
                self.add_window(window);
            },
        }
    }

    /// Maximizes the focused window, or restores the maximized one.
    ///
    /// Returns `true` when a window is maximized afterwards. Un-maximizing puts
    /// the window back where it came from when that spot still exists, and next
    /// to it otherwise. Monocle mode refuses the maximize, because it already
    /// fills the workspace and the two modes are exclusive.
    pub fn toggle_maximize(&mut self) -> (r: bool)
        ensures
            final(self)@ == old(self)@.toggle_maximize(),
            r == (final(self)@.maximized_window is Some),
    {
        if let Some(window) = self.maximized_window.take() {
            let restore = self.maximized_restore.take();
            self.put_back(window, restore);
            return false;
        }
        // Monocle is the other mode that lifts a container out of the ring, so
        // while it is on the ring's focused container is never the window the
        // user is looking at. Maximizing it would blow up a hidden window,
        // hide the monocled one behind it and leave the workspace in two
        // exclusive modes at once. A monocle already fills the workspace,
        // which is all a maximize would do, so this refuses instead.

        if self.is_monocle() {
            return false;
        }
        if self.focus_is_floating() {
            let window_idx = self.floating_windows.focused_idx();
            match self.remove_floating_at(window_idx) {
                Some(window) => {
                    self.maximized_window = Some(window);
                    self.maximized_restore = Some(
                        Restore {
                            anchor: None,
                            window: window_idx,
                            own_container: false,
                            floating: true,
                        },
                    );
                    return true;
                },
                None => {
                    return false;
                },
            }
        }
        let container_idx = self.containers.focused_idx();
        if self.containers.is_empty() {
            return false;
        }
        let ghost container = self@.containers.current()->0;
        let (window_idx, taken, sibling) = match self.containers.get_mut(container_idx) {
            Some(container) => {
                proof {
                    container.view_is_wf();
                }
                let window_idx = container.windows().focused_idx();
                let window = container.remove_focused_window();
                (window_idx, window, container.focused_window_id())
            },
            None => (0, None, None),
        };
        let ghost rest = container.remove(container.focused);
        assert(self@.containers == old(self)@.containers.with(container_idx as int, rest));
        match taken {
            None => {
                assert(rest == container);
                assert(self@.containers.elements =~= old(self)@.containers.elements);
                false
            },
            Some(window) => {
                // The sibling that stays behind holds the spot for the way back.
                let own_container = self.drop_if_empty(container_idx);
                proof {
                    if rest.len() == 0 {
                        assert(self@.containers.elements =~= old(self)@.containers.elements.remove(
                            container_idx as int,
                        ));
                    }
                    assert(self@ == old(self)@.take_from(container_idx as int, rest));
                }
                let anchor = if own_container {
                    self.anchor_before(container_idx)
                } else {
                    sibling
                };
                self.maximized_window = Some(window);
                self.maximized_restore = Some(
                    Restore { anchor, window: window_idx, own_container, floating: false },
                );
                true
            },
        }
    }

    /// Moves the focused window between the tiled containers and the floating
    /// list.
    ///
    /// Returns `true` when the window floats afterwards.
    pub fn toggle_float(&mut self) -> (r: bool)
        ensures
            final(self)@ == old(self)@.toggle_float(),
            r == (!old(self)@.floating_focus() && old(self)@.focused_id() is Some && old(
                self,
            )@.remove_window(old(self)@.focused_id()->0).1 is Some),
    {
        if self.focus_is_floating() {
            let at = self.floating_windows.focused_idx();
            if let Some(window) = self.remove_floating_at(at) {
                let idx = self.containers.focused_idx();
                let at = if self.containers.is_empty() {
                    0
                } else {
                    idx + 1
                };
                self.insert_container(at, Container::from_window(window));
            }
            return false;
        }
        if let Some(window) = self.remove_focused_window() {
            self.add_floating_window(window);
            return true;
        }
        false
    }

    /// Moves a specific window into the floating list.
    pub fn float_window(&mut self, id: WindowId) -> (r: bool)
        ensures
            final(self)@ == old(self)@.float_window(id),
            r == (idx_of(old(self)@.floating_windows.elements, id) is None && old(
                self,
            )@.remove_window(id).1 is Some),
    {
        if find_window(&self.floating_windows, id).is_some() {
            return false;
        }
        match self.remove_window(id) {
            Some(window) => {
                self.add_floating_window(window);
                true
            },
            None => false,
        }
    }

    // -- rearranging --------------------------------------------------------

    /// Moves the focused container to the front of the ring.
    ///
    /// Resize deltas stay with the position, not with the container, the same
    /// rule [`Workspace::swap_focused_container`] follows: rearranging windows
    /// does not drag the layout's proportions along with them.
    ///
    /// Returns `false` when there is nothing to promote.
    pub fn promote_focused_container(&mut self) -> (r: bool)
        ensures
            r == old(self)@.can_promote(),
            final(self)@ == old(self)@.promote(),
    {
        let from = self.containers.focused_idx();
        if self.containers.len() < 2 || from == 0 {
            return false;
        }
        match self.containers.remove(from) {
            None => false,
            Some(container) => {
                self.containers.insert_focused(0, container);
                let len = self.containers.len();
                fit(&mut self.resize_dimensions, len);
                self.focus_is_floating = false;
                true
            },
        }
    }

    /// Swaps the focused container with the one at `idx` and follows it.
    ///
    /// Resize deltas stay with the position, not with the container, so moving
    /// a window around does not drag the layout's proportions along with it.
    pub fn swap_focused_container(&mut self, idx: usize) -> (r: bool)
        ensures
            r == (idx != old(self)@.containers.focused && idx < old(self)@.containers.len()),
            final(self)@ == old(self)@.swap_focused(idx as int),
    {
        let from = self.containers.focused_idx();
        if from == idx || !self.containers.swap(from, idx) {
            return false;
        }
        self.containers.focus(idx);
        self.focus_is_floating = false;
        true
    }

    /// Moves the focused window out of its stack into a container of its own,
    /// placed right after it.
    ///
    /// Returns `false` when the focused window is not part of a stack.
    pub fn unstack_focused_window(&mut self) -> (r: bool)
        ensures
            r == old(self)@.can_unstack(),
            final(self)@ == old(self)@.unstack(),
    {
        let idx = self.containers.focused_idx();
        let stack = match self.containers.get(idx) {
            Some(container) => {
                proof {
                    container.view_is_wf();
                }
                container.is_stack()
            },
            None => false,
        };
        if !stack {
            return false;
        }
        let window = match self.containers.get_mut(idx) {
            Some(container) => container.remove_focused_window(),
            None => None,
        };
        match window {
            None => false,
            Some(window) => {
                self.insert_container(idx + 1, Container::from_window(window));
                true
            },
        }
    }

    fn take_every_window(&mut self) -> (r: Vec<Window>)
        ensures
            final(self)@ == (WorkspaceView { containers: RingView::empty(), ..old(self)@ }),
            r@.map_values(|w: Window| w@) == windows_in(old(self)@.containers.elements),
    {
        let mut containers = Ring::new();
        std::mem::swap(&mut containers, &mut self.containers);
        gather(containers.into_vec())
    }

    /// Collapses every tiled container into one stack, in the order the
    /// containers are in.
    ///
    /// The focused window keeps the focus, which is what makes this usable as
    /// a toggle: stack everything to read one window at a time, unstack to get
    /// the tiling back, and the window you were looking at is still the one in
    /// front.
    ///
    /// Floating windows are left alone. They are not in the container ring, so
    /// collapsing the ring has nothing to say about them.
    ///
    /// Returns `false` when there is nothing to collapse.
    pub fn stack_all(&mut self) -> (r: bool)
        ensures
            r == (old(self)@.containers.len() >= 2),
            final(self)@ == old(self)@.stack_all(),
    {
        if self.containers.len() < 2 {
            return false;
        }
        let focused = self.focused_window_id();
        let floating = self.focus_is_floating();
        let mut windows = self.take_every_window();
        let ghost all = windows@.map_values(|w: Window| w@);
        let mut stack = Container::new();
        let ghost mut done: int = 0;
        while windows.len() > 0
            invariant
                0 <= done <= all.len(),
                windows@.map_values(|w: Window| w@) == all.skip(done),
                stack@ == stack_of(all.take(done)),
            decreases windows@.len(),
        {
            let ghost before = windows@.map_values(|w: Window| w@);
            let window = windows.remove(0);
            assert(window@ == before[0]);
            assert(windows@.map_values(|w: Window| w@) =~= before.skip(1));
            stack.add_window(window);
            proof {
                assert(all.skip(done)[0] == all[done]);
                assert(all.take(done + 1).drop_last() =~= all.take(done));
                assert(all.skip(done).skip(1) =~= all.skip(done + 1));
                done = done + 1;
            }
        }
        assert(all.take(done) =~= all);
        if let Some(id) = focused {
            stack.focus_window(id);
        }
        let ghost one = stack@;
        self.containers.push(stack);
        self.containers.focus(0);
        assert(self@.containers =~= RingView::over(seq![one]));
        self.resize_dimensions = vec![None];
        assert(self.resize_dimensions@ =~= seq![None]);
        self.focus_is_floating = floating;
        true
    }

    fn any_stack(&self) -> (r: bool)
        ensures
            r == self@.has_stack(),
    {
        let containers = self.containers.elements();
        for i in 0..containers.len()
            invariant
                containers@.map_values(|c: Container| c@) == self@.containers.elements,
                forall|j: int| 0 <= j < i ==> (#[trigger] self@.containers.elements[j]).len() <= 1,
        {
            assert(self@.containers.elements[i as int] == containers@[i as int]@);
            if containers[i].is_stack() {
                return true;
            }
        }
        false
    }

    /// Gives every window in every stack a container of its own.
    ///
    /// The reverse of [`Workspace::stack_all`], and the way out of a workspace
    /// somebody stacked by hand one window at a time. Order is preserved, so a
    /// stack of three becomes three neighbouring containers in the order they
    /// were stacked.
    ///
    /// Returns `false` when no container holds more than one window.
    pub fn unstack_all(&mut self) -> (r: bool)
        ensures
            r == old(self)@.has_stack(),
            final(self)@ == old(self)@.unstack_all(),
    {
        if !self.any_stack() {
            return false;
        }
        let focused = self.focused_window_id();
        let floating = self.focus_is_floating();
        let mut windows = self.take_every_window();
        let ghost all = windows@.map_values(|w: Window| w@);
        let ghost base = self@;
        let ghost mut done: int = 0;
        assert(all_alone(all.take(0)) =~= Seq::<ContainerView>::empty());
        while windows.len() > 0
            invariant
                0 <= done <= all.len(),
                windows@.map_values(|w: Window| w@) == all.skip(done),
                self@ == (WorkspaceView {
                    containers: RingView::over(all_alone(all.take(done))),
                    ..base
                }),
            decreases windows@.len(),
        {
            let ghost before = windows@.map_values(|w: Window| w@);
            let window = windows.remove(0);
            assert(window@ == before[0]);
            assert(windows@.map_values(|w: Window| w@) =~= before.skip(1));
            self.containers.push(Container::from_window(window));
            proof {
                assert(all.skip(done)[0] == all[done]);
                assert(all.skip(done).skip(1) =~= all.skip(done + 1));
                assert(all_alone(all.take(done)).push(alone(all[done])) =~= all_alone(
                    all.take(done + 1),
                ));
                done = done + 1;
            }
        }
        assert(all.take(done) =~= all);
        self.resize_dimensions = Vec::new();
        let len = self.containers.len();
        fit(&mut self.resize_dimensions, len);
        // The focus follows the window, not the position: the window that was
        // on top of a stack is somewhere in the middle of the ring now.

        let idx = match focused {
            Some(id) => match self.container_idx_for_window(id) {
                Some(idx) => idx,
                None => 0,
            },
            None => 0,
        };
        self.containers.focus(idx);
        self.focus_is_floating = floating;
        true
    }

    /// Moves the focused window into the container at `target`, stacking it on
    /// top.
    ///
    /// Returns `false` when there is no such container or it is the one the
    /// window is already in.
    pub fn stack_focused_window_into(&mut self, target: usize) -> (r: bool)
        ensures
            r == old(self)@.can_stack_into(target as int),
            final(self)@ == old(self)@.stack_into(target as int),
    {
        let from = self.containers.focused_idx();
        if from == target || target >= self.containers.len() {
            return false;
        }
        let ghost container = self@.containers.current()->0;
        let taken = match self.containers.get_mut(from) {
            Some(container) => {
                proof {
                    container.view_is_wf();
                }
                container.remove_focused_window()
            },
            None => None,
        };
        let ghost rest = container.remove(container.focused);
        assert(self@.containers == old(self)@.containers.with(from as int, rest));
        match taken {
            None => {
                assert(rest == container);
                assert(self@.containers.elements =~= old(self)@.containers.elements);
                false
            },
            Some(window) => {
                let dropped = self.drop_if_empty(from);
                proof {
                    if rest.len() == 0 {
                        assert(self@.containers.elements =~= old(self)@.containers.elements.remove(
                            from as int,
                        ));
                    }
                    assert(self@ == old(self)@.take_from(from as int, rest));
                }
                let at = if dropped && target > from {
                    target - 1
                } else {
                    target
                };
                if let Some(container) = self.containers.get_mut(at) {
                    container.add_window(window);
                }
                self.containers.focus(at);
                self.focus_is_floating = false;
                true
            },
        }
    }

    /// Moves the focus one container along the ring, wrapping.
    pub fn cycle_container_focus(&mut self, direction: CycleDirection) -> (r: Option<usize>)
        ensures
            final(self)@ == (WorkspaceView {
                containers: old(self)@.containers.cycle_focus(direction),
                focus_is_floating: false,
                ..old(self)@
            }),
            match r {
                Some(idx) => old(self)@.containers.len() > 0 && idx
                    == final(self)@.containers.focused,
                None => old(self)@.containers.len() == 0,
            },
    {
        self.focus_is_floating = false;
        self.containers.cycle_focus(direction)
    }

    /// Swaps the focused container with its neighbour in the ring and follows it.
    pub fn cycle_container_move(&mut self, direction: CycleDirection) -> (r: Option<usize>)
        ensures
            final(self)@ == (WorkspaceView {
                containers: old(self)@.containers.move_focused(direction),
                focus_is_floating: false,
                ..old(self)@
            }),
            match r {
                Some(idx) => old(self)@.containers.len() > 0 && idx
                    == final(self)@.containers.focused,
                None => old(self)@.containers.len() == 0,
            },
    {
        self.focus_is_floating = false;
        self.containers.move_focused(direction)
    }
}

/// Appending containers leaves everything else but the deltas and the floating
/// focus alone.
pub proof fn append_keeps_the_rest(workspace: WorkspaceView, incoming: Seq<ContainerView>)
    ensures
        ({
            let grown = workspace.append_containers(incoming);
            grown == WorkspaceView {
                containers: grown.containers,
                resize_dimensions: grown.resize_dimensions,
                focus_is_floating: grown.focus_is_floating,
                ..workspace
            }
        }),
        workspace.append_containers(incoming).containers.elements
            == workspace.containers.elements + incoming,
        incoming.len() > 0 ==> workspace.append_containers(incoming).containers.focused
            == workspace.containers.len() + incoming.len() - 1,
        incoming.len() == 0 ==> workspace.append_containers(incoming) == workspace,
    decreases incoming.len(),
{
    if incoming.len() > 0 {
        append_keeps_the_rest(workspace, incoming.drop_last());
        assert(workspace.containers.elements + incoming.drop_last().push(incoming.last())
            =~= (workspace.containers.elements + incoming.drop_last()).push(incoming.last()));
        let before = workspace.append_containers(incoming.drop_last());
        assert(before.containers.elements.insert(before.containers.len(), incoming.last())
            =~= before.containers.elements.push(incoming.last()));
        assert(workspace.append_containers(incoming).containers.elements
            =~= workspace.containers.elements + incoming);
    } else {
        assert(workspace.containers.elements + incoming =~= workspace.containers.elements);
    }
}

} // verus!
