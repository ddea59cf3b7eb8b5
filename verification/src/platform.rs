use vstd::prelude::*;

verus! {

/// The types that the embedding supplies and that the library only carries.
///
/// The library stores values of these types, moves them between its
/// collections and hands them back, but never looks inside them: drawing,
/// fonts, the compositor connection and the clock all live on the other side.
pub trait Platform {
    /// The root of a window's widget tree, which lays out and paints it.
    type RenderRoot;
    /// The colour a window is cleared with before its widgets are drawn.
    type Color;
    /// What the compositor is asked for when a window is requested.
    type WindowAttributes;
    /// The widget that will fill a window once it exists.
    type RootWidget;
    /// The drawing surface of a window.
    type Surface;
    /// A point in time, taken when an animation frame is drawn.
    type Instant;
    /// The factor between logical and physical pixels of a window.
    type ScaleFactor;
    /// An action that a widget emitted.
    type Action;
    /// Identifies a widget inside a widget tree.
    type WidgetId;
    /// Everything else the event loop keeps: the render context and
    /// renderer, the signal channel, shared widget properties, the clipboard.
    type Resources;
}

} // verus!
