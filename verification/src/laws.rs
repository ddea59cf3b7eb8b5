use vstd::prelude::*;

use crate::ids::WindowId;
use crate::platform::Platform;
use crate::state::{DrawPlan, MasonryStateView, SurfaceSize};
use crate::resize::{ResizeDirection, ResizeEdge};
use crate::signals::{SignalEffect, SignalKind};
use crate::window::{NewWindow, Window};

verus! {

/// Whether the compositor may hand out `handle` for the oldest waiting
/// window of `v` and `window` is the state built for it: a window waits,
/// nothing is open or drawn under the handle, and the state carries the
/// waiting window's id.
pub open spec fn fresh_creation<P: Platform>(
    v: MasonryStateView<P>,
    handle: u64,
    window: Window<P>,
) -> bool {
    &&& v.pending.len() > 0
    &&& !v.windows.contains_key(handle)
    &&& !v.surfaces.contains_key(handle)
    &&& window.window_id == v.pending[0].id
}

/// The state after the oldest waiting window of `v` was opened under
/// `handle` with this window state.
pub open spec fn created<P: Platform>(
    v: MasonryStateView<P>,
    handle: u64,
    window: Window<P>,
) -> MasonryStateView<P> {
    v.after_take_pending().after_open_window(handle, window)
}

/// The state `v` with its oldest waiting window gone from the queue.
pub open spec fn served<P: Platform>(v: MasonryStateView<P>) -> MasonryStateView<P> {
    MasonryStateView { pending: v.pending.drop_first(), ..v }
}

/// Once the oldest waiting window has been created, it can be accessed by
/// the id the application chose: the id leads to the window's handle, the
/// window is open there, and it carries the id.
pub proof fn lemma_created_window_reachable_by_id<P: Platform>(
    v: MasonryStateView<P>,
    handle: u64,
    window: Window<P>,
)
    requires
        fresh_creation(v, handle, window),
    ensures
        created(v, handle, window).is_open(v.pending[0].id),
        created(v, handle, window).handles[v.pending[0].id.0] == handle,
        created(v, handle, window).windows[handle] == window,
        created(v, handle, window).windows[handle].window_id == v.pending[0].id,
        created(v, handle, window).pending == v.pending.drop_first(),
{
}

/// Closing a window by its id undoes its creation: the windows, surfaces
/// and handles are as before it was created, and only the queue has moved
/// on.
pub proof fn lemma_close_window_undoes_create<P: Platform>(
    v: MasonryStateView<P>,
    handle: u64,
    window: Window<P>,
)
    requires
        v.wf(),
        fresh_creation(v, handle, window),
    ensures
        created(v, handle, window).after_close_window(v.pending[0].id) == served(v),
{
    let id = v.pending[0].id;
    assert((v.pending + v.requested)[0] == v.pending[0]);
    assert(!v.handles.contains_key(id.0));
    let after = created(v, handle, window).after_close_window(id);
    assert(after.handles =~= v.handles);
    assert(after.windows =~= v.windows);
    assert(after.surfaces =~= v.surfaces);
}

/// The compositor closing a window's handle undoes its creation in the same
/// way.
pub proof fn lemma_close_handle_undoes_create<P: Platform>(
    v: MasonryStateView<P>,
    handle: u64,
    window: Window<P>,
)
    requires
        v.wf(),
        fresh_creation(v, handle, window),
    ensures
        created(v, handle, window).after_close_handle(handle) == served(v),
{
    let id = v.pending[0].id;
    assert((v.pending + v.requested)[0] == v.pending[0]);
    assert(!v.handles.contains_key(id.0));
    let after = created(v, handle, window).after_close_handle(handle);
    assert(after.handles =~= v.handles);
    assert(after.windows =~= v.windows);
    assert(after.surfaces =~= v.surfaces);
}

/// A closed window cannot be found again: its id has no handle and nothing
/// is open or drawn under the handle it had.
pub proof fn lemma_closed_window_is_gone<P: Platform>(v: MasonryStateView<P>, window_id: WindowId)
    requires
        v.is_open(window_id),
    ensures
        !v.after_close_window(window_id).handles.contains_key(window_id.0),
        !v.after_close_window(window_id).is_open(window_id),
        !v.after_close_window(window_id).windows.contains_key(v.handles[window_id.0]),
        !v.after_close_window(window_id).surfaces.contains_key(v.handles[window_id.0]),
{
}

/// In a consistent state no two open windows carry the same id, an id has
/// a handle exactly when its window is open, and every surface belongs to
/// an open window.
pub proof fn lemma_consistent_state<P: Platform>(
    v: MasonryStateView<P>,
    h1: u64,
    h2: u64,
    window_id: WindowId,
)
    requires
        v.wf(),
    ensures
        v.windows.contains_key(h1) && v.windows.contains_key(h2) && v.windows[h1].window_id
            == v.windows[h2].window_id ==> h1 == h2,
        v.is_open(window_id) <==> v.handles.contains_key(window_id.0),
        v.surfaces.contains_key(h1) ==> v.windows.contains_key(h1),
{
}

/// Changing an open window in place keeps the state consistent, as long as
/// the window keeps its id (as [`crate::state::MasonryState::window_mut`]
/// and the other accessors allow).
pub proof fn lemma_changed_window_keeps_consistency<P: Platform>(
    v: MasonryStateView<P>,
    handle: u64,
    window: Window<P>,
)
    requires
        v.wf(),
        v.windows.contains_key(handle),
        window.window_id == v.windows[handle].window_id,
    ensures
        v.with_window(handle, window).wf(),
{
    let after = v.with_window(handle, window);
    assert(after.pending + after.requested == v.pending + v.requested);
}

/// A surface is only ever created for an open window that has an area and
/// no surface yet; and a window without area never keeps a surface.
pub proof fn lemma_surfaces_only_for_visible_windows<P: Platform>(
    v: MasonryStateView<P>,
    handle: u64,
    size: SurfaceSize,
    configured: Option<SurfaceSize>,
)
    ensures
        v.draw_plan(handle, size, configured) == DrawPlan::CreateSurface ==> {
            &&& size.width > 0
            &&& size.height > 0
            &&& v.windows.contains_key(handle)
            &&& !v.surfaces.contains_key(handle)
        },
        v.draw_plan(handle, size, configured) == DrawPlan::ZeroSize ==> !v.without_surface(
            handle,
        ).surfaces.contains_key(handle),
        (size.width == 0 || size.height == 0) ==> v.draw_plan(handle, size, configured)
            != DrawPlan::ResizeSurface && v.draw_plan(handle, size, configured)
            != DrawPlan::ReuseSurface,
{
}

/// Drawing an open window with an area reuses its surface exactly when the
/// surface was configured with the window's current width and height, and
/// resizes it otherwise (a change of the height alone, or of the width
/// alone, calls for a resize); a window without a surface gets one created;
/// a window without area is not drawn; nothing is drawn without a window.
pub proof fn lemma_draw_plan_follows_sizes<P: Platform>(
    v: MasonryStateView<P>,
    handle: u64,
    size: SurfaceSize,
    configured: Option<SurfaceSize>,
)
    ensures
        !v.windows.contains_key(handle) ==> v.draw_plan(handle, size, configured)
            == DrawPlan::NoWindow,
        v.windows.contains_key(handle) && (size.width == 0 || size.height == 0) ==> v.draw_plan(
            handle,
            size,
            configured,
        ) == DrawPlan::ZeroSize,
        v.windows.contains_key(handle) && size.width > 0 && size.height > 0
            && !v.surfaces.contains_key(handle) ==> v.draw_plan(handle, size, configured)
            == DrawPlan::CreateSurface,
        v.windows.contains_key(handle) && size.width > 0 && size.height > 0
            && v.surfaces.contains_key(handle) ==> {
            &&& (v.draw_plan(handle, size, configured) == DrawPlan::ReuseSurface) <==> (
            configured is Some && configured->0.width == size.width && configured->0.height
                == size.height)
            &&& (v.draw_plan(handle, size, configured) == DrawPlan::ResizeSurface) <==> !(
            configured is Some && configured->0.width == size.width && configured->0.height
                == size.height)
        },
{
}

/// A window is redrawn after a round exactly when one of the round's
/// signals from it asked for a redraw or for an animation frame: each of
/// those two signals puts the window's handle among the redraws, every
/// other signal leaves the redraws as they were.
pub proof fn lemma_redraw_and_anim_frame_requests_redraw(
    redraws: Set<u64>,
    handle: u64,
    signal: SignalKind,
)
    ensures
        ({
            let after = if crate::signals::requests_redraw(signal) {
                redraws.insert(handle)
            } else {
                redraws
            };
            &&& after.contains(handle) <==> (redraws.contains(handle) || signal
                == SignalKind::RequestRedraw || signal == SignalKind::RequestAnimFrame)
            &&& forall|h: u64| #[trigger] after.contains(h) ==> h == handle || redraws.contains(h)
            &&& forall|h: u64| #[trigger] redraws.contains(h) ==> after.contains(h)
        }),
{
}

/// While the screen is not locked, a drag-resize signal starts an
/// interactive resize from the edge or corner on the sides the direction
/// points to (never from no edge), and the same edge as the direction
/// translation gives; while it is locked, nothing happens.
pub proof fn lemma_drag_resize_uses_matching_edge(dir: ResizeDirection)
    ensures
        crate::signals::signal_effect(SignalKind::DragResizeWindow(dir), false) is DragResizeWindow,
        ({
            let edge = crate::signals::signal_effect(SignalKind::DragResizeWindow(dir), false)->0;
            &&& crate::resize::edge_matches_direction(edge, dir)
            &&& edge != ResizeEdge::NoEdge
            &&& edge == crate::resize::wayland_edge_of(dir)
        }),
        crate::signals::signal_effect(SignalKind::DragResizeWindow(dir), true)
            == SignalEffect::Nothing,
{
}

/// The windows that join the queue are the accepted requests, every one of
/// them and in the order they were made: the requests kept by their
/// acceptance, with the acceptance dropped.
pub proof fn lemma_accepted_windows_are_the_accepted_requests<P: Platform>(
    requests: Seq<(NewWindow<P>, bool)>,
)
    ensures
        crate::state::accepted_windows(requests) == requests.filter(
            |r: (NewWindow<P>, bool)| r.1,
        ).map_values(|r: (NewWindow<P>, bool)| r.0),
    decreases requests.len(),
{
    reveal(Seq::filter);
    if requests.len() > 0 {
        lemma_accepted_windows_are_the_accepted_requests(requests.drop_last());
        let rest = requests.drop_last().filter(|r: (NewWindow<P>, bool)| r.1);
        if requests.last().1 {
            assert(rest.push(requests.last()).map_values(|r: (NewWindow<P>, bool)| r.0)
                =~= rest.map_values(|r: (NewWindow<P>, bool)| r.0).push(requests.last().0));
        }
    } else {
        assert(requests.filter(|r: (NewWindow<P>, bool)| r.1).map_values(
            |r: (NewWindow<P>, bool)| r.0,
        ) =~= Seq::<NewWindow<P>>::empty());
    }
}

/// Queueing requests makes the queue grow by one window for each accepted
/// request: when all of them were accepted, every window joins, in order.
pub proof fn lemma_all_accepted_all_queued<P: Platform>(
    v: MasonryStateView<P>,
    requests: Seq<(NewWindow<P>, bool)>,
)
    requires
        forall|i: int| 0 <= i < requests.len() ==> (#[trigger] requests[i]).1,
    ensures
        v.after_request(requests).pending.len() == v.pending.len() + requests.len(),
        forall|i: int|
            0 <= i < requests.len() ==> v.after_request(requests).pending[v.pending.len() + i]
                == (#[trigger] requests[i]).0,
    decreases requests.len(),
{
    if requests.len() > 0 {
        let init = requests.drop_last();
        assert(forall|i: int| 0 <= i < init.len() ==> #[trigger] init[i] == requests[i]);
        lemma_all_accepted_all_queued(v, init);
        let acc = crate::state::accepted_windows(requests);
        let acc_init = crate::state::accepted_windows(init);
        assert(requests.last().1);
        assert(acc == acc_init.push(requests.last().0));
        let q = v.after_request(requests).pending;
        let q_init = v.after_request(init).pending;
        assert(q =~= q_init.push(requests.last().0));
        assert forall|i: int| 0 <= i < requests.len() implies q[v.pending.len() + i]
            == (#[trigger] requests[i]).0 by {
            if i < init.len() {
                assert(q_init[v.pending.len() + i] == init[i].0);
            }
        }
    }
}

} // verus!
