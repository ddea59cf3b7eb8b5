use vstd::prelude::*;

use std::collections::HashSet;

use crate::ids::WindowId;
use crate::platform::Platform;
use crate::resize::{masonry_resize_direction_to_wayland, ResizeDirection, ResizeEdge};
use crate::state::MasonryState;
use crate::window::Window;

verus! {

/// The kind of a signal that a window's widget tree sends to the event loop.
/// The values the signal carries (the action, the text, the cursor, the
/// size, ...) stay with the caller; only the kind decides what happens.
#[derive(Clone, Copy, Debug, PartialEq, Eq, Hash, Structural)]
pub enum SignalKind {
    /// A widget has emitted an action.
    Action,
    /// An IME session has been started.
    StartIme,
    /// The IME session has ended.
    EndIme,
    /// The IME area has been moved.
    ImeMoved,
    /// A user interaction has sent something to the clipboard.
    ClipboardStore,
    /// The window needs to be redrawn.
    RequestRedraw,
    /// The window should be redrawn for an animation frame.
    RequestAnimFrame,
    /// The window should take focus.
    TakeFocus,
    /// The mouse icon should change.
    SetCursor,
    /// The window should be resized.
    SetSize,
    /// The window title has changed.
    SetTitle,
    /// The user has started dragging the window.
    DragWindow,
    /// The user has started drag-resizing the window in this direction.
    DragResizeWindow(ResizeDirection),
    /// The window should be maximized, or restored when it is.
    ToggleMaximized,
    /// The window should be minimized.
    Minimize,
    /// The app should terminate.
    Exit,
    /// The window system menu should be shown.
    ShowWindowMenu,
    /// The widget inspector has selected a widget.
    WidgetSelectedInInspector,
    /// Any other signal, such as the layer signals, which this event loop
    /// does not act on.
    Other,
}

/// What the caller has to do for a signal, on the window the signal came
/// from.
#[derive(Clone, Copy, Debug, PartialEq, Eq, Hash, Structural)]
pub enum SignalEffect {
    /// Nothing (beyond what the library already recorded).
    Nothing,
    /// Hand the action to the application driver.
    DispatchAction,
    /// Put the signal's text on the clipboard.
    StoreClipboard,
    /// Set the window's cursor.
    SetCursor,
    /// Ask the compositor for the signal's inner size.
    RequestInnerSize,
    /// Set the window's title.
    SetTitle,
    /// Start an interactive move of the window.
    DragWindow,
    /// Start an interactive resize of the window from this edge.
    DragResizeWindow(ResizeEdge),
    /// Maximize the window, or restore it when it is maximized.
    ToggleMaximized,
    /// Minimize the window.
    Minimize,
    /// Show the window menu at the signal's position.
    ShowWindowMenu,
    /// Report the widget selected in the inspector, and tell the round with
    /// [`SignalRound::note_inspection`] whether it was found.
    InspectWidget,
}

/// What a signal of this kind asks of the caller. While the screen is
/// locked, only the signals that make sense on a lock surface are acted on:
/// actions, the clipboard, the cursor and the inspector.
pub open spec fn signal_effect(signal: SignalKind, locked: bool) -> SignalEffect {
    match signal {
        SignalKind::Action => SignalEffect::DispatchAction,
        SignalKind::ClipboardStore => SignalEffect::StoreClipboard,
        SignalKind::SetCursor => SignalEffect::SetCursor,
        SignalKind::WidgetSelectedInInspector => SignalEffect::InspectWidget,
        SignalKind::SetSize => if locked {
            SignalEffect::Nothing
        } else {
            SignalEffect::RequestInnerSize
        },
        SignalKind::SetTitle => if locked {
            SignalEffect::Nothing
        } else {
            SignalEffect::SetTitle
        },
        SignalKind::DragWindow => if locked {
            SignalEffect::Nothing
        } else {
            SignalEffect::DragWindow
        },
        SignalKind::DragResizeWindow(dir) => if locked {
            SignalEffect::Nothing
        } else {
            SignalEffect::DragResizeWindow(crate::resize::wayland_edge_of(dir))
        },
        SignalKind::ToggleMaximized => if locked {
            SignalEffect::Nothing
        } else {
            SignalEffect::ToggleMaximized
        },
        SignalKind::Minimize => if locked {
            SignalEffect::Nothing
        } else {
            SignalEffect::Minimize
        },
        SignalKind::ShowWindowMenu => if locked {
            SignalEffect::Nothing
        } else {
            SignalEffect::ShowWindowMenu
        },
        _ => SignalEffect::Nothing,
    }
}

/// Whether a signal of this kind asks for the window to be redrawn.
pub open spec fn requests_redraw(signal: SignalKind) -> bool {
    signal == SignalKind::RequestRedraw || signal == SignalKind::RequestAnimFrame
}

/// A round of signals, as the event loop handles them: the windows that
/// asked to be redrawn, and whether the round was abandoned.
pub struct SignalRoundView {
    /// The handles of the windows to redraw once the round is over.
    pub redraws: Set<u64>,
    /// Whether the round was abandoned: no further signal of it is handled
    /// and no window is redrawn.
    pub abandoned: bool,
}

/// One round of signals. Many signals of one round may ask for the same
/// window to be redrawn; it is redrawn once, after the round.
pub struct SignalRound {
    need_redraw: HashSet<u64>,
    abandoned: bool,
}

impl View for SignalRound {
    type V = SignalRoundView;

    closed spec fn view(&self) -> SignalRoundView {
        SignalRoundView { redraws: self.need_redraw@, abandoned: self.abandoned }
    }
}

impl SignalRound {
    /// A round that has not handled any signal yet.
    pub fn new() -> (round: Self)
        ensures
            round@.redraws == Set::<u64>::empty(),
            !round@.abandoned,
    {
        SignalRound { need_redraw: HashSet::new(), abandoned: false }
    }

    /// Whether the round was abandoned.
    pub fn is_abandoned(&self) -> (abandoned: bool)
        ensures
            abandoned == self@.abandoned,
    {
        self.abandoned
    }

    /// Records whether the widget that the inspector selected was found.
    /// When it was not, the round is abandoned: the rest of its signals are
    /// left alone and no window is redrawn.
    pub fn note_inspection(&mut self, widget_found: bool)
        ensures
            final(self)@.redraws == old(self)@.redraws,
            final(self)@.abandoned == (old(self)@.abandoned || !widget_found),
    {
        if !widget_found {
            self.abandoned = true;
        }
    }

    /// Ends the round: the handles of the windows to redraw, none when the
    /// round was abandoned.
    pub fn finish(self) -> (redraws: HashSet<u64>)
        ensures
            redraws@ == (if self@.abandoned {
                Set::<u64>::empty()
            } else {
                self@.redraws
            }),
    {
        if self.abandoned {
            HashSet::new()
        } else {
            self.need_redraw
        }
    }
}

/// User events for the event loop.
pub enum MasonryUserEvent<P: Platform> {
    /// An action for the widget of the window with the id, to be emitted
    /// as if the widget had emitted it.
    Action(WindowId, P::Action, P::WidgetId),
}

impl<P: Platform> MasonryState<P> {
    /// Routes a user event: the action goes to the window with the event's
    /// id, which must have a handle. Returns that window, to emit the action
    /// on, with the action and the widget; `None`, and the event is dropped,
    /// when no window is open under the handle.
    pub fn route_user_event(&mut self, event: MasonryUserEvent<P>) -> (routed: Option<
        (&mut Window<P>, P::Action, P::WidgetId),
    >)
        requires
            ({
                let MasonryUserEvent::Action(window_id, _, _) = event;
                old(self)@.handles.contains_key(window_id.0)
            }),
        ensures
            ({
                let MasonryUserEvent::Action(window_id, action, widget_id) = event;
                let handle = old(self)@.handles[window_id.0];
                match routed {
                    Some((w, a, id)) => {
                        &&& old(self)@.windows.contains_key(handle)
                        &&& *w == old(self)@.windows[handle]
                        &&& a == action
                        &&& id == widget_id
                        &&& final(self)@ == old(self)@.with_window(handle, *final(w))
                    },
                    None => !old(self)@.windows.contains_key(handle) && final(self)@ == old(
                        self,
                    )@,
                }
            }),
    {
        match event {
            MasonryUserEvent::Action(window_id, action, widget_id) => {
                match self.mapped_window(window_id) {
                    Some(window) => Some((window, action, widget_id)),
                    None => None,
                }
            },
        }
    }
    /// Handles one signal from the window with this id, which must be open.
    ///
    /// Returns the handle of the window and what the caller has to do for
    /// the signal (see [`signal_effect`]). An exit signal asks the event loop
    /// to stop; a redraw or animation frame request adds the window to the
    /// windows the round redraws. Nothing else changes. The round must not
    /// have been abandoned.
    pub fn handle_signal(
        &mut self,
        round: &mut SignalRound,
        window_id: WindowId,
        signal: SignalKind,
        locked: bool,
    ) -> (outcome: (WindowId, SignalEffect))
        requires
            old(self)@.is_open(window_id),
            !old(round)@.abandoned,
        ensures
            outcome.0.0 == old(self)@.handles[window_id.0],
            outcome.1 == signal_effect(signal, locked),
            final(self)@ == (if signal == SignalKind::Exit {
                old(self)@.with_stop_requested()
            } else {
                old(self)@
            }),
            final(round)@.redraws == (if requests_redraw(signal) {
                old(round)@.redraws.insert(old(self)@.handles[window_id.0])
            } else {
                old(round)@.redraws
            }),
            !final(round)@.abandoned,
            old(self)@.wf() ==> final(self)@.wf(),
    {
        let handle = self.handle_id(window_id);
        if signal == SignalKind::Exit {
            self.request_stop();
        }
        if signal == SignalKind::RequestRedraw || signal == SignalKind::RequestAnimFrame {
            let _fresh = round.need_redraw.insert(handle.0);
        }
        let effect = match signal {
            SignalKind::Action => SignalEffect::DispatchAction,
            SignalKind::ClipboardStore => SignalEffect::StoreClipboard,
            SignalKind::SetCursor => SignalEffect::SetCursor,
            SignalKind::WidgetSelectedInInspector => SignalEffect::InspectWidget,
            SignalKind::SetSize => if locked {
                SignalEffect::Nothing
            } else {
                SignalEffect::RequestInnerSize
            },
            SignalKind::SetTitle => if locked {
                SignalEffect::Nothing
            } else {
                SignalEffect::SetTitle
            },
            SignalKind::DragWindow => if locked {
                SignalEffect::Nothing
            } else {
                SignalEffect::DragWindow
            },
            SignalKind::DragResizeWindow(dir) => if locked {
                SignalEffect::Nothing
            } else {
                SignalEffect::DragResizeWindow(masonry_resize_direction_to_wayland(dir))
            },
            SignalKind::ToggleMaximized => if locked {
                SignalEffect::Nothing
            } else {
                SignalEffect::ToggleMaximized
            },
            SignalKind::Minimize => if locked {
                SignalEffect::Nothing
            } else {
                SignalEffect::Minimize
            },
            SignalKind::ShowWindowMenu => if locked {
                SignalEffect::Nothing
            } else {
                SignalEffect::ShowWindowMenu
            },
            _ => SignalEffect::Nothing,
        };
        (handle, effect)
    }
}

} // verus!
