use vstd::prelude::*;

use crate::ids::WindowId;
use crate::platform::Platform;
use crate::state::MasonryState;
use crate::window::{NewWindow, Window};

verus! {

/// Context for the [`AppDriver`] trait: what the application may do to the
/// event loop's state while it handles a callback.

pub struct DriverCtx<'a, P: Platform> {
    /// The event loop's state.
    pub state: &'a mut MasonryState<P>,
}

impl<'a, P: Platform> DriverCtx<'a, P> {
    /// The borrowed state.
    pub open spec fn state(self) -> &'a mut MasonryState<P> {
        self.state
    }

    /// A context over the event loop's state.
    pub fn new(state: &'a mut MasonryState<P>) -> (ctx: Self)
        ensures
            *ctx.state() == *old(state),
            *final(ctx.state()) == *final(state),
    {
        DriverCtx { state }
    }

    /// Access the render root of the window with this id.
    ///
    /// The window must be open (the event loop panics otherwise).
    pub fn render_root(&mut self, window_id: WindowId) -> (root: Option<&mut P::RenderRoot>)
        requires
            (*old(self).state())@.is_open(window_id),
        ensures
            *final(final(self).state()) == *final(old(self).state()),
            ({
                let before = (*old(self).state())@;
                let after = (*final(self).state())@;
                let handle = before.handles[window_id.0];
                &&& root is Some
                &&& *root->0 == before.windows[handle].render_root
                &&& after == before.with_window(
                    handle,
                    Window { render_root: *final(root->0), ..before.windows[handle] },
                )
                &&& before.wf() ==> after.wf()
            }),
    {
        match self.state.mapped_window(window_id) {
            Some(window) => Some(window.render_root()),
            None => None,
        }
    }

    /// Access the state of the window with this id.
    ///
    /// The window must be open (the event loop panics otherwise). In a
    /// consistent state it is the window created with this id.
    pub fn window(&mut self, window_id: WindowId) -> (window: Option<&mut Window<P>>)
        requires
            (*old(self).state())@.is_open(window_id),
        ensures
            *final(final(self).state()) == *final(old(self).state()),
            ({
                let before = (*old(self).state())@;
                let after = (*final(self).state())@;
                let handle = before.handles[window_id.0];
                &&& window is Some
                &&& *window->0 == before.windows[handle]
                &&& before.wf() ==> window->0.window_id == window_id
                &&& after == before.with_window(handle, *final(window->0))
            }),
    {
        self.state.mapped_window(window_id)
    }

    /// Creates a new window: it is kept to be asked of the compositor, and
    /// created once the compositor hands out its handle. Never fails.
    ///
    /// The window's id must not be used by another window, open or on its
    /// way (the event loop panics otherwise).
    pub fn create_window(&mut self, new_window: NewWindow<P>) -> (result: Result<(), String>)
        requires
            !(*old(self).state())@.id_in_use(new_window.id),
        ensures
            *final(final(self).state()) == *final(old(self).state()),
            (*final(self).state())@ == (*old(self).state())@.after_create(new_window),
            (*old(self).state())@.wf() ==> (*final(self).state())@.wf(),
            result is Ok,
    {
        self.state.request_window(new_window);
        Ok(())
    }

    /// Closes the window with this id: its handle, its surface and its state
    /// are dropped.
    ///
    /// The window must be open (the event loop panics otherwise).
    pub fn close_window(&mut self, window_id: WindowId)
        requires
            (*old(self).state())@.is_open(window_id),
        ensures
            *final(final(self).state()) == *final(old(self).state()),
            (*final(self).state())@ == (*old(self).state())@.after_close_window(window_id),
            (*old(self).state())@.wf() ==> (*final(self).state())@.wf(),
    {
        self.state.close_window(window_id);
    }

    /// Exits the application: asks the event loop to stop.
    pub fn exit(&mut self)
        ensures
            *final(final(self).state()) == *final(old(self).state()),
            (*final(self).state())@ == (*old(self).state())@.with_stop_requested(),
    {
        self.state.request_stop();
    }
}

/// A trait for defining how an app interacts with the widget tree.
///
/// When launching the app, a type that implements this trait is handed to
/// the event loop.
pub trait AppDriver<P: Platform> {
    /// A hook which will be executed when a widget emits an `action`.
    fn on_action(
        &mut self,
        window_id: WindowId,
        ctx: &mut DriverCtx<'_, P>,
        widget_id: P::WidgetId,
        action: P::Action,
    );

    /// A hook which will be executed when the application starts, to allow
    /// initial configuration of the state.
    fn on_start(&mut self, state: &mut MasonryState<P>) {
    }

    /// A hook called when a user has requested to close a window. By
    /// default the application exits.
    fn on_close_requested(&mut self, window_id: WindowId, ctx: &mut DriverCtx<'_, P>)
        default_ensures
            (*final(ctx).state())@ == (*old(ctx).state())@.with_stop_requested(),
    {
        ctx.exit();
    }
}

} // verus!
