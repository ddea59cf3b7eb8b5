use vstd::prelude::*;

use std::collections::hash_map::Entry;
use std::collections::HashMap;
use std::collections::VecDeque;

use crate::ids::WindowId;
use crate::platform::Platform;
use crate::window::{NewWindow, Window};

verus! {

broadcast use vstd::std_specs::hash::group_hash_axioms;

/// What a [`MasonryState`] holds, as mathematical values.
pub struct MasonryStateView<P: Platform> {
    /// The resources of the event loop, which the library only hands out.
    pub resources: P::Resources,
    /// The open windows, by compositor handle.
    pub windows: Map<u64, Window<P>>,
    /// The drawing surfaces, by compositor handle.
    pub surfaces: Map<u64, P::Surface>,
    /// The compositor handle of each open window, by the id the application
    /// chose.
    pub handles: Map<u64, u64>,
    /// The windows that the compositor accepted and that wait for a handle,
    /// oldest first.
    pub pending: Seq<NewWindow<P>>,
    /// The windows that the application created and that are still to be
    /// asked of the compositor, oldest first.
    pub requested: Seq<NewWindow<P>>,
    /// When the last animation frame was drawn, while an animation runs.
    pub last_anim: Option<P::Instant>,
    /// Whether the event loop was asked to stop.
    pub stop_requested: bool,
}

/// The windows that the compositor accepted, in the order they were asked
/// for.
pub open spec fn accepted_windows<P: Platform>(requests: Seq<(NewWindow<P>, bool)>) -> Seq<
    NewWindow<P>,
>
    decreases requests.len(),
{
    if requests.len() == 0 {
        Seq::empty()
    } else {
        let rest = accepted_windows(requests.drop_last());
        if requests.last().1 {
            rest.push(requests.last().0)
        } else {
            rest
        }
    }
}

/// Whether a window with this id is in the sequence.
pub open spec fn has_window_id<P: Platform>(windows: Seq<NewWindow<P>>, window_id: WindowId) -> bool {
    exists|i: int| 0 <= i < windows.len() && #[trigger] windows[i].id == window_id
}

/// Whether no two windows of the sequence share an id.
pub open spec fn distinct_ids<P: Platform>(windows: Seq<NewWindow<P>>) -> bool {
    forall|i: int, j: int|
        0 <= i < windows.len() && 0 <= j < windows.len() && i != j ==> #[trigger] windows[i].id
            != #[trigger] windows[j].id
}

impl<P: Platform> MasonryStateView<P> {
    /// The state of an event loop that has just started.
    pub open spec fn initial(resources: P::Resources) -> Self {
        MasonryStateView {
            resources,
            windows: Map::empty(),
            surfaces: Map::empty(),
            handles: Map::empty(),
            pending: Seq::empty(),
            requested: Seq::empty(),
            last_anim: None,
            stop_requested: false,
        }
    }

    /// Whether the window with this id has a handle, and a window is open
    /// under that handle.
    pub open spec fn is_open(self, window_id: WindowId) -> bool {
        &&& self.handles.contains_key(window_id.0)
        &&& self.windows.contains_key(self.handles[window_id.0])
    }

    /// Whether a window with this id is open or on its way: it has a
    /// handle, waits for one, or is still to be asked of the compositor.
    pub open spec fn id_in_use(self, window_id: WindowId) -> bool {
        ||| self.handles.contains_key(window_id.0)
        ||| has_window_id(self.pending, window_id)
        ||| has_window_id(self.requested, window_id)
    }

    /// Whether each accepted request is for an id not in use, and no two
    /// accepted requests share an id.
    pub open spec fn fresh_requests(self, requests: Seq<(NewWindow<P>, bool)>) -> bool {
        &&& forall|i: int|
            0 <= i < requests.len() && (#[trigger] requests[i]).1 ==> !self.id_in_use(
                requests[i].0.id,
            )
        &&& forall|i: int, j: int|
            0 <= i < requests.len() && 0 <= j < requests.len() && i != j && (#[trigger] requests[i]).1
                && (#[trigger] requests[j]).1 ==> requests[i].0.id != requests[j].0.id
    }

    /// The state is consistent: the handles and the open windows name each
    /// other (each id with a handle leads to an open window that carries the
    /// id, and each open window's id leads back to its handle), every
    /// surface belongs to an open window, and every window on its way has an
    /// id of its own, used by no open window and no other window on its way.
    pub open spec fn wf(self) -> bool {
        &&& forall|id: u64| #[trigger]
            self.handles.contains_key(id) ==> {
                &&& self.windows.contains_key(self.handles[id])
                &&& self.windows[self.handles[id]].window_id.0 == id
            }
        &&& forall|h: u64| #[trigger]
            self.windows.contains_key(h) ==> {
                &&& self.handles.contains_key(self.windows[h].window_id.0)
                &&& self.handles[self.windows[h].window_id.0] == h
            }
        &&& forall|h: u64| #[trigger] self.surfaces.contains_key(h) ==> self.windows.contains_key(h)
        &&& distinct_ids(self.pending + self.requested)
        &&& forall|i: int|
            0 <= i < (self.pending + self.requested).len() ==> !self.handles.contains_key(
                (#[trigger] (self.pending + self.requested)[i]).id.0,
            )
    }

    /// After the accepted windows of the requests joined the queue.
    pub open spec fn after_request(self, requests: Seq<(NewWindow<P>, bool)>) -> Self {
        MasonryStateView { pending: self.pending + accepted_windows(requests), ..self }
    }

    /// After the application created a window, to be asked of the
    /// compositor.
    pub open spec fn after_create(self, window: NewWindow<P>) -> Self {
        MasonryStateView { requested: self.requested.push(window), ..self }
    }

    /// After the windows to be asked of the compositor were taken.
    pub open spec fn after_take_requested(self) -> Self {
        MasonryStateView { requested: Seq::empty(), ..self }
    }

    /// After the window with this id was closed: its handle, its surface and
    /// its state are gone.
    pub open spec fn after_close_window(self, window_id: WindowId) -> Self {
        let handle = self.handles[window_id.0];
        MasonryStateView {
            handles: self.handles.remove(window_id.0),
            surfaces: self.surfaces.remove(handle),
            windows: self.windows.remove(handle),
            ..self
        }
    }

    /// After the window under this handle was closed by the compositor: its
    /// surface, its state and the handle of its id are gone.
    pub open spec fn after_close_handle(self, handle: u64) -> Self {
        MasonryStateView {
            surfaces: self.surfaces.remove(handle),
            windows: self.windows.remove(handle),
            handles: self.handles.remove(self.windows[handle].window_id.0),
            ..self
        }
    }

    /// After the oldest waiting window left the queue, to be opened. Nothing
    /// changes while no window waits.
    pub open spec fn after_take_pending(self) -> Self {
        if self.pending.len() == 0 {
            self
        } else {
            MasonryStateView { pending: self.pending.drop_first(), ..self }
        }
    }

    /// After the window was opened under the handle: its id leads to the
    /// handle and its state is kept there.
    pub open spec fn after_open_window(self, handle: u64, window: Window<P>) -> Self {
        MasonryStateView {
            handles: self.handles.insert(window.window_id.0, handle),
            windows: self.windows.insert(handle, window),
            ..self
        }
    }

    /// With this window state under the handle.
    pub open spec fn with_window(self, handle: u64, window: Window<P>) -> Self {
        MasonryStateView { windows: self.windows.insert(handle, window), ..self }
    }

    /// With this surface under the handle.
    pub open spec fn with_surface(self, handle: u64, surface: P::Surface) -> Self {
        MasonryStateView { surfaces: self.surfaces.insert(handle, surface), ..self }
    }

    /// Without a surface under the handle.
    pub open spec fn without_surface(self, handle: u64) -> Self {
        MasonryStateView { surfaces: self.surfaces.remove(handle), ..self }
    }

    /// With this record of the last animation frame.
    pub open spec fn with_last_anim(self, last_anim: Option<P::Instant>) -> Self {
        MasonryStateView { last_anim, ..self }
    }

    /// With the event loop asked to stop.
    pub open spec fn with_stop_requested(self) -> Self {
        MasonryStateView { stop_requested: true, ..self }
    }

    /// What drawing the window under this handle takes, given the size the
    /// window now has and the size its surface, if it has one, was last
    /// configured with.
    pub open spec fn draw_plan(
        self,
        handle: u64,
        size: SurfaceSize,
        configured: Option<SurfaceSize>,
    ) -> DrawPlan {
        if !self.windows.contains_key(handle) {
            DrawPlan::NoWindow
        } else if size.width == 0 || size.height == 0 {
            DrawPlan::ZeroSize
        } else if self.surfaces.contains_key(handle) {
            if configured == Some(size) {
                DrawPlan::ReuseSurface
            } else {
                DrawPlan::ResizeSurface
            }
        } else {
            DrawPlan::CreateSurface
        }
    }
}

/// A size in physical pixels.
#[derive(Clone, Copy, Debug, PartialEq, Eq, Hash, Structural)]
pub struct SurfaceSize {
    pub width: u32,
    pub height: u32,
}

/// What has to happen before a window can be drawn.
#[derive(Clone, Copy, Debug, PartialEq, Eq, Hash, Structural)]
pub enum DrawPlan {
    /// No window is open under the handle: nothing is drawn.
    NoWindow,
    /// The window has no area: its surface, if any, was dropped to save
    /// memory, and nothing is drawn.
    ZeroSize,
    /// The window has no surface yet: one of the window's size is to be
    /// created and stored with [`MasonryState::insert_surface`].
    CreateSurface,
    /// The surface was configured for another size and is to be resized.
    ResizeSurface,
    /// The surface fits the window as it is.
    ReuseSurface,
}

/// The state of the event loop: the open windows and their surfaces, the
/// windows that wait for the compositor, and the resources that drawing
/// needs.
pub struct MasonryState<P: Platform> {
    /// The resources of the event loop.
    pub resources: P::Resources,
    surfaces: HashMap<u64, P::Surface>,
    /// The open windows, by compositor handle.
    pub windows: HashMap<u64, Window<P>>,
    window_id_to_handle_id: HashMap<u64, u64>,
    /// When the last animation frame was drawn, while an animation runs.
    pub last_anim: Option<P::Instant>,
    new_windows: VecDeque<NewWindow<P>>,
    requested_windows: Vec<NewWindow<P>>,
    stop_requested: bool,
}

impl<P: Platform> MasonryState<P> {
    /// The resources.
    pub closed spec fn spec_resources(&self) -> P::Resources {
        self.resources
    }

    /// The open windows, by compositor handle.
    pub closed spec fn spec_windows(&self) -> Map<u64, Window<P>> {
        self.windows@
    }

    /// When the last animation frame was drawn.
    pub closed spec fn spec_last_anim(&self) -> Option<P::Instant> {
        self.last_anim
    }

    /// The drawing surfaces, by compositor handle.
    pub closed spec fn spec_surfaces(&self) -> Map<u64, P::Surface> {
        self.surfaces@
    }

    /// The compositor handle of each open window, by id.
    pub closed spec fn spec_handles(&self) -> Map<u64, u64> {
        self.window_id_to_handle_id@
    }

    /// The windows waiting for a handle, oldest first.
    pub closed spec fn spec_pending(&self) -> Seq<NewWindow<P>> {
        self.new_windows@
    }

    /// The windows still to be asked of the compositor, oldest first.
    pub closed spec fn spec_requested(&self) -> Seq<NewWindow<P>> {
        self.requested_windows@
    }

    /// Whether the event loop was asked to stop.
    pub closed spec fn spec_stop_requested(&self) -> bool {
        self.stop_requested
    }
}

impl<P: Platform> View for MasonryState<P> {
    type V = MasonryStateView<P>;

    open spec fn view(&self) -> MasonryStateView<P> {
        MasonryStateView {
            resources: self.spec_resources(),
            windows: self.spec_windows(),
            surfaces: self.spec_surfaces(),
            handles: self.spec_handles(),
            pending: self.spec_pending(),
            requested: self.spec_requested(),
            last_anim: self.spec_last_anim(),
            stop_requested: self.spec_stop_requested(),
        }
    }
}

proof fn lemma_wf_push_pending<P: Platform>(v: MasonryStateView<P>, w: NewWindow<P>)
    requires
        v.wf(),
        !v.id_in_use(w.id),
    ensures
        (MasonryStateView { pending: v.pending.push(w), ..v }).wf(),
{
    let after = MasonryStateView { pending: v.pending.push(w), ..v };
    let old_q = v.pending + v.requested;
    let q = after.pending + after.requested;
    let n = v.pending.len() as int;
    assert forall|i: int| 0 <= i < q.len() implies (#[trigger] q[i] == (if i < n {
        old_q[i]
    } else if i == n {
        w
    } else {
        old_q[i - 1]
    })) by {}
    assert forall|i: int, j: int|
        0 <= i < q.len() && 0 <= j < q.len() && i != j implies #[trigger] q[i].id != #[trigger] q[j].id by {
        if i == n {
            if j < n {
                assert(v.pending[j] == old_q[j]);
            } else {
                assert(v.requested[j - 1 - n] == old_q[j - 1]);
            }
        } else if j == n {
            if i < n {
                assert(v.pending[i] == old_q[i]);
            } else {
                assert(v.requested[i - 1 - n] == old_q[i - 1]);
            }
        } else {
            let oi = if i < n { i } else { i - 1 };
            let oj = if j < n { j } else { j - 1 };
            assert(old_q[oi].id != old_q[oj].id);
        }
    }
    assert forall|i: int| 0 <= i < q.len() implies !after.handles.contains_key(
        (#[trigger] q[i]).id.0,
    ) by {
        if i < n {
            assert(old_q[i] == q[i]);
        } else if i > n {
            assert(old_q[i - 1] == q[i]);
        }
    }
}

proof fn lemma_wf_push_requested<P: Platform>(v: MasonryStateView<P>, w: NewWindow<P>)
    requires
        v.wf(),
        !v.id_in_use(w.id),
    ensures
        v.after_create(w).wf(),
{
    let after = v.after_create(w);
    let old_q = v.pending + v.requested;
    let q = after.pending + after.requested;
    assert(q =~= old_q.push(w));
    assert forall|i: int, j: int|
        0 <= i < q.len() && 0 <= j < q.len() && i != j implies #[trigger] q[i].id != #[trigger] q[j].id by {
        let n = old_q.len() as int;
        if i == n {
            if j < v.pending.len() {
                assert(v.pending[j] == old_q[j]);
            } else {
                assert(v.requested[j - v.pending.len()] == old_q[j]);
            }
        } else if j == n {
            if i < v.pending.len() {
                assert(v.pending[i] == old_q[i]);
            } else {
                assert(v.requested[i - v.pending.len()] == old_q[i]);
            }
        }
    }
    assert forall|i: int| 0 <= i < q.len() implies !after.handles.contains_key(
        (#[trigger] q[i]).id.0,
    ) by {
        if i < old_q.len() {
            assert(old_q[i] == q[i]);
        }
    }
}

proof fn lemma_wf_take_pending<P: Platform>(v: MasonryStateView<P>)
    requires
        v.wf(),
    ensures
        v.after_take_pending().wf(),
        v.pending.len() > 0 ==> !v.after_take_pending().id_in_use(v.pending[0].id),
{
    if v.pending.len() > 0 {
        let after = v.after_take_pending();
        let old_q = v.pending + v.requested;
        let q = after.pending + after.requested;
        assert(q =~= old_q.drop_first());
        assert forall|i: int, j: int|
            0 <= i < q.len() && 0 <= j < q.len() && i != j implies #[trigger] q[i].id
            != #[trigger] q[j].id by {
            assert(q[i] == old_q[i + 1]);
            assert(q[j] == old_q[j + 1]);
        }
        assert forall|i: int| 0 <= i < q.len() implies !after.handles.contains_key(
            (#[trigger] q[i]).id.0,
        ) by {
            assert(q[i] == old_q[i + 1]);
        }
        let w = v.pending[0];
        assert(old_q[0] == w);
        assert(!v.handles.contains_key(w.id.0));
        if has_window_id(after.pending, w.id) {
            let k = choose|k: int| 0 <= k < after.pending.len() && #[trigger] after.pending[k].id == w.id;
            assert(old_q[k + 1] == after.pending[k]);
            assert(old_q[0].id != old_q[k + 1].id);
        }
        if has_window_id(after.requested, w.id) {
            let k = choose|k: int|
                0 <= k < after.requested.len() && #[trigger] after.requested[k].id == w.id;
            assert(old_q[v.pending.len() + k] == after.requested[k]);
            assert(old_q[0].id != old_q[v.pending.len() + k].id);
        }
    }
}

proof fn lemma_wf_open_window<P: Platform>(v: MasonryStateView<P>, handle: u64, window: Window<P>)
    requires
        v.wf(),
        !v.windows.contains_key(handle),
        !v.id_in_use(window.window_id),
    ensures
        v.after_open_window(handle, window).wf(),
{
    let after = v.after_open_window(handle, window);
    let q = v.pending + v.requested;
    assert(after.pending + after.requested == q);
    assert forall|i: int| 0 <= i < q.len() implies !after.handles.contains_key(
        (#[trigger] q[i]).id.0,
    ) by {
        if q[i].id == window.window_id {
            if i < v.pending.len() {
                assert(v.pending[i] == q[i]);
                assert(has_window_id(v.pending, window.window_id));
            } else {
                assert(v.requested[i - v.pending.len()] == q[i]);
                assert(has_window_id(v.requested, window.window_id));
            }
        }
    }
    assert forall|h: u64| #[trigger] after.windows.contains_key(h) implies {
        &&& after.handles.contains_key(after.windows[h].window_id.0)
        &&& after.handles[after.windows[h].window_id.0] == h
    } by {
        if h != handle {
            assert(v.windows.contains_key(h));
            let id = v.windows[h].window_id.0;
            assert(v.handles.contains_key(id));
            assert(id != window.window_id.0);
        }
    }
    assert forall|id: u64| #[trigger] after.handles.contains_key(id) implies {
        &&& after.windows.contains_key(after.handles[id])
        &&& after.windows[after.handles[id]].window_id.0 == id
    } by {
        if id != window.window_id.0 {
            assert(v.handles.contains_key(id));
            assert(v.windows.contains_key(v.handles[id]));
            assert(v.handles[id] != handle);
        }
    }
}

proof fn lemma_wf_close_window<P: Platform>(v: MasonryStateView<P>, window_id: WindowId)
    requires
        v.wf(),
        v.is_open(window_id),
    ensures
        v.after_close_window(window_id).wf(),
{
    let after = v.after_close_window(window_id);
    let handle = v.handles[window_id.0];
    assert forall|h: u64| #[trigger] after.windows.contains_key(h) implies {
        &&& after.handles.contains_key(after.windows[h].window_id.0)
        &&& after.handles[after.windows[h].window_id.0] == h
    } by {
        assert(v.windows.contains_key(h));
        assert(v.handles[v.windows[h].window_id.0] == h);
    }
    let q = v.pending + v.requested;
    assert(after.pending + after.requested == q);
}

proof fn lemma_wf_close_handle<P: Platform>(v: MasonryStateView<P>, handle: u64)
    requires
        v.wf(),
        v.windows.contains_key(handle),
    ensures
        v.after_close_handle(handle).wf(),
{
    let after = v.after_close_handle(handle);
    let id = v.windows[handle].window_id.0;
    assert forall|i: u64| #[trigger] after.handles.contains_key(i) implies {
        &&& after.windows.contains_key(after.handles[i])
        &&& after.windows[after.handles[i]].window_id.0 == i
    } by {
        assert(v.handles.contains_key(i));
        assert(v.windows[v.handles[i]].window_id.0 == i);
    }
    let q = v.pending + v.requested;
    assert(after.pending + after.requested == q);
}

/// The value under a key, to be changed in place.
pub(crate) fn map_get_mut<V>(m: &mut HashMap<u64, V>, key: u64) -> (value: Option<&mut V>)
    ensures
        match value {
            Some(v) => {
                &&& old(m)@.contains_key(key)
                &&& *v == old(m)@[key]
                &&& final(m)@ == old(m)@.insert(key, *final(v))
            },
            None => !old(m)@.contains_key(key) && final(m)@ == old(m)@,
        },
{
    match m.entry(key) {
        Entry::Occupied(occupied) => Some(occupied.into_mut()),
        Entry::Vacant(_) => None,
    }
}

impl<P: Platform> MasonryState<P> {
    /// The state of an event loop that owns these resources and has no
    /// window yet.
    pub fn new(resources: P::Resources) -> (state: Self)
        ensures
            state@ == MasonryStateView::<P>::initial(resources),
            state@.wf(),
    {
        let state = MasonryState {
            resources,
            surfaces: HashMap::new(),
            windows: HashMap::new(),
            window_id_to_handle_id: HashMap::new(),
            last_anim: None,
            new_windows: VecDeque::new(),
            requested_windows: Vec::new(),
            stop_requested: false,
        };
        proof {
            assert(state@.pending =~= Seq::<NewWindow<P>>::empty());
            assert(state@.requested =~= Seq::<NewWindow<P>>::empty());
            assert(state@.pending + state@.requested =~= Seq::<NewWindow<P>>::empty());
        }
        state
    }

    /// Puts the windows that the compositor accepted at the back of the
    /// queue of windows waiting for a handle, in the order given; a window
    /// whose request failed is dropped.
    ///
    /// Each request pairs a window with whether the compositor accepted the
    /// request for it. The id of an accepted window must not be in use, nor
    /// shared with another accepted window. Never fails.
    pub fn new_windows(&mut self, requests: Vec<(NewWindow<P>, bool)>) -> (result: Result<(), String>)
        requires
            old(self)@.fresh_requests(requests@),
        ensures
            final(self)@ == old(self)@.after_request(requests@),
            old(self)@.wf() ==> final(self)@.wf(),
            result is Ok,
    {
        let ghost all = requests@;
        let mut requests = requests;
        while requests.len() > 0
            invariant
                requests@.len() <= all.len(),
                requests@ == all.skip(all.len() - requests@.len()),
                self@ == old(self)@.after_request(all.take(all.len() - requests@.len())),
                old(self)@.fresh_requests(all),
                forall|j: int|
                    all.len() - requests@.len() <= j < all.len() && (#[trigger] all[j]).1
                        ==> !self@.id_in_use(all[j].0.id),
                old(self)@.wf() ==> self@.wf(),
            decreases requests@.len(),
        {
            let ghost done = all.len() - requests@.len();
            let ghost before = self@;
            let (window, accepted) = requests.remove(0);
            proof {
                assert(all.take(done + 1).drop_last() =~= all.take(done));
                assert(all[done] == (window, accepted));
            }
            if accepted {
                self.new_windows.push_back(window);
                proof {
                    if old(self)@.wf() {
                        lemma_wf_push_pending(before, window);
                    }
                    assert forall|j: int|
                        done + 1 <= j < all.len() && (#[trigger] all[j]).1 implies !self@.id_in_use(
                        all[j].0.id,
                    ) by {
                        assert(all[j].0.id != window.id);
                        assert(!before.id_in_use(all[j].0.id));
                        if has_window_id(self@.pending, all[j].0.id) {
                            let k = choose|k: int|
                                0 <= k < self@.pending.len() && #[trigger] self@.pending[k].id
                                    == all[j].0.id;
                            if k < before.pending.len() {
                                assert(before.pending[k] == self@.pending[k]);
                            }
                        }
                    }
                }
            }
            proof {
                assert(requests@ =~= all.skip(all.len() - requests@.len()));
                assert(self@.pending =~= old(self)@.pending + accepted_windows(all.take(done + 1)));
            }
        }
        proof {
            assert(all.take(all.len() as int) =~= all);
        }
        Ok(())
    }

    /// Whether a window with this id is open or on its way.
    pub fn is_id_in_use(&self, window_id: WindowId) -> (used: bool)
        ensures
            used == self@.id_in_use(window_id),
    {
        if self.window_id_to_handle_id.contains_key(&window_id.0) {
            return true;
        }
        let mut i: usize = 0;
        while i < self.new_windows.len()
            invariant
                i <= self@.pending.len(),
                forall|k: int| 0 <= k < i ==> #[trigger] self@.pending[k].id != window_id,
            decreases self@.pending.len() - i,
        {
            if self.new_windows[i].id == window_id {
                return true;
            }
            i = i + 1;
        }
        let mut j: usize = 0;
        while j < self.requested_windows.len()
            invariant
                j <= self@.requested.len(),
                forall|k: int| 0 <= k < j ==> #[trigger] self@.requested[k].id != window_id,
                !has_window_id(self@.pending, window_id),
            decreases self@.requested.len() - j,
        {
            if self.requested_windows[j].id == window_id {
                return true;
            }
            j = j + 1;
        }
        false
    }

    /// Keeps a window that the application created, to be asked of the
    /// compositor. Its id must not be in use.
    pub fn request_window(&mut self, new_window: NewWindow<P>)
        requires
            !old(self)@.id_in_use(new_window.id),
        ensures
            final(self)@ == old(self)@.after_create(new_window),
            old(self)@.wf() ==> final(self)@.wf(),
    {
        proof {
            if old(self)@.wf() {
                lemma_wf_push_requested(old(self)@, new_window);
            }
        }
        self.requested_windows.push(new_window);
    }

    /// Takes the windows that are still to be asked of the compositor,
    /// oldest first.
    pub fn take_requested_windows(&mut self) -> (windows: Vec<NewWindow<P>>)
        ensures
            windows@ == old(self)@.requested,
            final(self)@ == old(self)@.after_take_requested(),
    {
        let mut windows: Vec<NewWindow<P>> = Vec::new();
        std::mem::swap(&mut windows, &mut self.requested_windows);
        proof {
            assert(self@.requested =~= Seq::<NewWindow<P>>::empty());
        }
        windows
    }

    /// Closes the window with this id: forgets its handle and drops its
    /// surface and its state.
    ///
    /// The window must be open: the id must have a handle, and a window must
    /// be open under it.
    pub fn close_window(&mut self, window_id: WindowId)
        requires
            old(self)@.is_open(window_id),
        ensures
            final(self)@ == old(self)@.after_close_window(window_id),
            old(self)@.wf() ==> final(self)@.wf(),
    {
        proof {
            if old(self)@.wf() {
                lemma_wf_close_window(old(self)@, window_id);
            }
        }
        let handle = self.window_id_to_handle_id.remove(&window_id.0).unwrap();
        let _surface = self.surfaces.remove(&handle);
        let _window = self.windows.remove(&handle).unwrap();
    }

    /// The compositor handle of the window with this id, which must have one.
    pub fn handle_id(&self, window_id: WindowId) -> (handle: WindowId)
        requires
            self@.handles.contains_key(window_id.0),
        ensures
            handle.0 == self@.handles[window_id.0],
    {
        WindowId(*self.window_id_to_handle_id.get(&window_id.0).unwrap())
    }

    /// The compositor handle of the window with this id, if it has one.
    pub fn handle_of(&self, window_id: WindowId) -> (handle: Option<WindowId>)
        ensures
            match handle {
                Some(h) => self@.handles.contains_key(window_id.0) && h.0 == self@.handles[window_id.0],
                None => !self@.handles.contains_key(window_id.0),
            },
    {
        match self.window_id_to_handle_id.get(&window_id.0) {
            Some(h) => Some(WindowId(*h)),
            None => None,
        }
    }

    /// The state of the open window with this id, to be changed in place.
    pub fn window_mut(&mut self, window_id: WindowId) -> (window: &mut Window<P>)
        requires
            old(self)@.is_open(window_id),
        ensures
            *window == old(self)@.windows[old(self)@.handles[window_id.0]],
            final(self)@ == old(self)@.with_window(old(self)@.handles[window_id.0], *final(window)),
    {
        let handle = self.handle_id(window_id);
        map_get_mut(&mut self.windows, handle.0).unwrap()
    }

    /// The state of the window open under this handle, if any, to be changed
    /// in place.
    pub fn window_by_handle(&mut self, handle: WindowId) -> (window: Option<&mut Window<P>>)
        ensures
            match window {
                Some(w) => {
                    &&& old(self)@.windows.contains_key(handle.0)
                    &&& *w == old(self)@.windows[handle.0]
                    &&& final(self)@ == old(self)@.with_window(handle.0, *final(w))
                },
                None => !old(self)@.windows.contains_key(handle.0) && final(self)@ == old(self)@,
            },
    {
        map_get_mut(&mut self.windows, handle.0)
    }

    /// The state of the window with this id, which must have a handle, if a
    /// window is open under the handle.
    pub fn mapped_window(&mut self, window_id: WindowId) -> (window: Option<&mut Window<P>>)
        requires
            old(self)@.handles.contains_key(window_id.0),
        ensures
            ({
                let handle = old(self)@.handles[window_id.0];
                match window {
                    Some(w) => {
                        &&& old(self)@.windows.contains_key(handle)
                        &&& *w == old(self)@.windows[handle]
                        &&& final(self)@ == old(self)@.with_window(handle, *final(w))
                    },
                    None => !old(self)@.windows.contains_key(handle) && final(self)@ == old(self)@,
                }
            }),
    {
        let handle = self.handle_id(window_id);
        self.window_by_handle(handle)
    }

    /// Whether a window is open under this handle.
    pub fn has_window(&self, handle: WindowId) -> (open: bool)
        ensures
            open == self@.windows.contains_key(handle.0),
    {
        self.windows.contains_key(&handle.0)
    }

    /// The compositor handed out a handle: the oldest waiting window leaves
    /// the queue and is returned, so that its state can be built and opened
    /// with [`MasonryState::open_window`]. `None` when no window waits.
    pub fn take_new_window(&mut self) -> (window: Option<NewWindow<P>>)
        ensures
            window == (if old(self)@.pending.len() == 0 {
                None
            } else {
                Some(old(self)@.pending[0])
            }),
            final(self)@ == old(self)@.after_take_pending(),
            old(self)@.wf() ==> final(self)@.wf(),
            old(self)@.wf() && window is Some ==> !final(self)@.id_in_use(window->0.id),
    {
        proof {
            if old(self)@.wf() {
                lemma_wf_take_pending(old(self)@);
            }
        }
        self.new_windows.pop_front()
    }

    /// Opens the window under the handle: its id now leads to the handle.
    /// No open window may use the handle (a window with that id already
    /// exists), and the window's id must not be in use.
    pub fn open_window(&mut self, handle: WindowId, window: Window<P>)
        requires
            !old(self)@.windows.contains_key(handle.0),
            !old(self)@.id_in_use(window.window_id),
        ensures
            final(self)@ == old(self)@.after_open_window(handle.0, window),
            old(self)@.wf() ==> final(self)@.wf(),
    {
        proof {
            if old(self)@.wf() {
                lemma_wf_open_window(old(self)@, handle.0, window);
            }
        }
        let _previous = self.window_id_to_handle_id.insert(window.window_id.0, handle.0);
        let _previous = self.windows.insert(handle.0, window);
    }

    /// The compositor closed the window open under this handle: its surface
    /// and its state are dropped, and the id it was created with no longer
    /// has a handle.
    pub fn close_handle(&mut self, handle: WindowId)
        requires
            old(self)@.windows.contains_key(handle.0),
        ensures
            final(self)@ == old(self)@.after_close_handle(handle.0),
            old(self)@.wf() ==> final(self)@.wf(),
    {
        proof {
            if old(self)@.wf() {
                lemma_wf_close_handle(old(self)@, handle.0);
            }
        }
        let _surface = self.surfaces.remove(&handle.0);
        let window = self.windows.remove(&handle.0).unwrap();
        let _previous = self.window_id_to_handle_id.remove(&window.window_id.0);
    }

    /// The surface under this handle, if any.
    pub fn surface(&self, handle: WindowId) -> (surface: Option<&P::Surface>)
        ensures
            match surface {
                Some(s) => self@.surfaces.contains_key(handle.0) && *s == self@.surfaces[handle.0],
                None => !self@.surfaces.contains_key(handle.0),
            },
    {
        self.surfaces.get(&handle.0)
    }

    /// Decides what drawing the window under this handle takes, and drops
    /// the surface of a window that has no area.
    ///
    /// `size` is the window's size now; `configured` is the size its
    /// surface was last configured with, `None` when it has no surface.
    pub fn plan_draw(
        &mut self,
        handle: WindowId,
        size: SurfaceSize,
        configured: Option<SurfaceSize>,
    ) -> (plan: DrawPlan)
        ensures
            plan == old(self)@.draw_plan(handle.0, size, configured),
            final(self)@ == (if plan == DrawPlan::ZeroSize {
                old(self)@.without_surface(handle.0)
            } else {
                old(self)@
            }),
            old(self)@.wf() ==> final(self)@.wf(),
    {
        if !self.windows.contains_key(&handle.0) {
            DrawPlan::NoWindow
        } else if size.width == 0 || size.height == 0 {
            let _surface = self.surfaces.remove(&handle.0);
            DrawPlan::ZeroSize
        } else if self.surfaces.contains_key(&handle.0) {
            let fits = match configured {
                Some(c) => c.width == size.width && c.height == size.height,
                None => false,
            };
            if fits {
                DrawPlan::ReuseSurface
            } else {
                DrawPlan::ResizeSurface
            }
        } else {
            DrawPlan::CreateSurface
        }
    }

    /// Stores the surface created for the window under this handle.
    pub fn insert_surface(&mut self, handle: WindowId, surface: P::Surface)
        ensures
            final(self)@ == old(self)@.with_surface(handle.0, surface),
            old(self)@.wf() && old(self)@.windows.contains_key(handle.0) ==> final(self)@.wf(),
    {
        let _previous = self.surfaces.insert(handle.0, surface);
    }

    /// What drawing the window under this handle changes: its surface, its
    /// state and the resources. `None` unless the handle has both a surface
    /// and an open window.
    pub fn draw_parts(&mut self, handle: WindowId) -> (parts: Option<
        (&mut P::Surface, &mut Window<P>, &mut P::Resources),
    >)
        ensures
            match parts {
                Some((s, w, r)) => {
                    &&& old(self)@.surfaces.contains_key(handle.0)
                    &&& old(self)@.windows.contains_key(handle.0)
                    &&& *s == old(self)@.surfaces[handle.0]
                    &&& *w == old(self)@.windows[handle.0]
                    &&& *r == old(self)@.resources
                    &&& final(self)@ == MasonryStateView {
                        resources: *final(r),
                        ..old(self)@.with_surface(handle.0, *final(s)).with_window(
                            handle.0,
                            *final(w),
                        )
                    }
                },
                None => {
                    &&& !(old(self)@.surfaces.contains_key(handle.0) && old(self)@.windows.contains_key(
                        handle.0,
                    ))
                    &&& final(self)@ == old(self)@
                },
            },
    {
        if self.surfaces.contains_key(&handle.0) && self.windows.contains_key(&handle.0) {
            let surface = map_get_mut(&mut self.surfaces, handle.0).unwrap();
            let window = map_get_mut(&mut self.windows, handle.0).unwrap();
            Some((surface, window, &mut self.resources))
        } else {
            None
        }
    }

    /// The surface of the window with this id and the resources, to change
    /// how the surface presents frames. The id must have a handle with a
    /// surface.
    pub fn present_parts(&mut self, window_id: WindowId) -> (parts: (&mut P::Surface, &mut P::Resources))
        requires
            old(self)@.handles.contains_key(window_id.0),
            old(self)@.surfaces.contains_key(old(self)@.handles[window_id.0]),
        ensures
            ({
                let handle = old(self)@.handles[window_id.0];
                &&& *parts.0 == old(self)@.surfaces[handle]
                &&& *parts.1 == old(self)@.resources
                &&& final(self)@ == MasonryStateView {
                    resources: *final(parts.1),
                    ..old(self)@.with_surface(handle, *final(parts.0))
                }
                &&& old(self)@.wf() ==> final(self)@.wf()
            }),
    {
        let handle = self.handle_id(window_id);
        let surface = map_get_mut(&mut self.surfaces, handle.0).unwrap();
        (surface, &mut self.resources)
    }

    /// Takes the time of the last animation frame, leaving none.
    pub fn take_last_anim(&mut self) -> (last: Option<P::Instant>)
        ensures
            last == old(self)@.last_anim,
            final(self)@ == old(self)@.with_last_anim(None),
            old(self)@.wf() ==> final(self)@.wf(),
    {
        self.last_anim.take()
    }

    /// Records a frame drawn at `now`: its time is kept while the animation
    /// continues, so that the next frame knows how much time passed, and
    /// forgotten when it stops, so that a new animation starts from zero.
    pub fn record_anim_frame(&mut self, animation_continues: bool, now: P::Instant)
        ensures
            final(self)@ == old(self)@.with_last_anim(
                if animation_continues {
                    Some(now)
                } else {
                    None
                },
            ),
            old(self)@.wf() ==> final(self)@.wf(),
    {
        self.last_anim = if animation_continues {
            Some(now)
        } else {
            None
        };
    }

    /// Asks the event loop to stop.
    pub fn request_stop(&mut self)
        ensures
            final(self)@ == old(self)@.with_stop_requested(),
            old(self)@.wf() ==> final(self)@.wf(),
    {
        self.stop_requested = true;
    }

    /// Whether the event loop was asked to stop.
    pub fn stop_requested(&self) -> (stop: bool)
        ensures
            stop == self@.stop_requested,
    {
        self.stop_requested
    }
}

} // verus!
