//! What two sets of changes are together.

use vstd::prelude::*;

use crate::model::changes::{with_refs, ChangesView, WorkspaceRef};
use crate::model::window::WindowId;

verus! {

proof fn the_references_of_both(a: Seq<WorkspaceRef>, b: Seq<WorkspaceRef>, target: WorkspaceRef)
    ensures
        with_refs(a, b).contains(target) <==> a.contains(target) || b.contains(target),
        a.no_duplicates() ==> with_refs(a, b).no_duplicates(),
    decreases b.len(),
{
    if b.len() > 0 {
        let head = b.drop_last();
        the_references_of_both(a, head, target);
        let before = with_refs(a, head);
        let last = b.last();
        assert(b =~= head.push(last));
        assert(b.contains(target) <==> head.contains(target) || last == target) by {
            if head.contains(target) {
                let i = choose|i: int| 0 <= i < head.len() && head[i] == target;
                assert(b[i] == target);
            }
            if last == target {
                assert(b[b.len() - 1] == target);
            }
        }
        if !before.contains(last) {
            let after = before.push(last);
            assert(after.contains(target) <==> before.contains(target) || last == target) by {
                if before.contains(target) {
                    let i = choose|i: int| 0 <= i < before.len() && before[i] == target;
                    assert(after[i] == target);
                }
                if last == target {
                    assert(after[before.len() as int] == target);
                }
            }
            the_references_of_both(a, head, last);
        }
    }
}

proof fn the_handles_of_both(a: Seq<WindowId>, b: Seq<WindowId>, id: WindowId)
    ensures
        (a + b).contains(id) <==> a.contains(id) || b.contains(id),
{
    if a.contains(id) {
        let i = choose|i: int| 0 <= i < a.len() && a[i] == id;
        assert((a + b)[i] == id);
    }
    if b.contains(id) {
        let i = choose|i: int| 0 <= i < b.len() && b[i] == id;
        assert((a + b)[a.len() + i] == id);
    }
}

/// What either set of changes asks for, both together ask for: every layout, every
/// window to show, hide, minimize or restore.
pub proof fn both_are_done(
    first: ChangesView,
    second: ChangesView,
    id: WindowId,
    target: WorkspaceRef,
)
    ensures
        ({
            let both = first.merge(second);
            &&& both.retiled.contains(target) <==> first.retiled.contains(target)
                || second.retiled.contains(target)
            &&& first.retiled.no_duplicates() ==> both.retiled.no_duplicates()
            &&& both.show.contains(id) <==> first.show.contains(id) || second.show.contains(id)
            &&& both.hide.contains(id) <==> first.hide.contains(id) || second.hide.contains(id)
            &&& both.minimize.contains(id) <==> first.minimize.contains(id)
                || second.minimize.contains(id)
            &&& both.restore.contains(id) <==> first.restore.contains(id)
                || second.restore.contains(id)
            &&& both.focused_monitor_changed <==> first.focused_monitor_changed
                || second.focused_monitor_changed
        }),
{
    the_references_of_both(first.retiled, second.retiled, target);
    the_handles_of_both(first.show, second.show, id);
    the_handles_of_both(first.hide, second.hide, id);
    the_handles_of_both(first.minimize, second.minimize, id);
    the_handles_of_both(first.restore, second.restore, id);
}

/// Of two windows that are to get the focus, to be maximized or to be closed, and of
/// two places for the cursor, the later one counts.
pub proof fn the_later_word_counts(first: ChangesView, second: ChangesView)
    ensures
        second.focus is Some ==> first.merge(second).focus == second.focus,
        second.focus is None ==> first.merge(second).focus == first.focus,
        second.maximize is Some ==> first.merge(second).maximize == second.maximize,
        second.maximize is None ==> first.merge(second).maximize == first.maximize,
        second.close is Some ==> first.merge(second).close == second.close,
        second.close is None ==> first.merge(second).close == first.close,
        second.warp_mouse_to is Some ==> first.merge(second).warp_mouse_to == second.warp_mouse_to,
        second.warp_mouse_to is None ==> first.merge(second).warp_mouse_to == first.warp_mouse_to,
{
}

/// Nothing is lost or added with no changes.
pub proof fn no_changes_change_nothing(changes: ChangesView)
    ensures
        changes.merge(ChangesView::none()) == changes,
{
    let both = changes.merge(ChangesView::none());
    assert(both.show =~= changes.show);
    assert(both.hide =~= changes.hide);
    assert(both.minimize =~= changes.minimize);
    assert(both.restore =~= changes.restore);
}

} // verus!
