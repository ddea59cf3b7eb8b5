use vstd::prelude::*;

use crate::ids::WindowId;
use crate::platform::Platform;

verus! {

/// A window that the application asked for and that does not exist yet.
///
/// It waits in the event loop's queue until the compositor hands out a
/// handle for it, and is then turned into a [`Window`].
pub struct NewWindow<P: Platform> {
    /// The id the application chose; the window is found again by it.
    pub id: WindowId,
    /// What the compositor is asked for.
    pub attributes: P::WindowAttributes,
    /// The widget which will take up the entire contents of the new window.
    pub root_widget: P::RootWidget,
    /// The colour the window's widgets are drawn on; `None` until
    /// [`NewWindow::with_base_color`] sets one, which leaves the default,
    /// black.
    pub base_color: Option<P::Color>,
}

impl<P: Platform> NewWindow<P> {
    /// A new window with the id the application chose, and the default base
    /// colour.
    pub fn new_with_id(
        id: WindowId,
        attributes: P::WindowAttributes,
        root_widget: P::RootWidget,
    ) -> (window: Self)
        ensures
            window.id == id,
            window.attributes == attributes,
            window.root_widget == root_widget,
            window.base_color is None,
    {
        NewWindow { id, attributes, root_widget, base_color: None }
    }

    /// The same window with the given base colour.
    pub fn with_base_color(self, base_color: P::Color) -> (window: Self)
        ensures
            window.id == self.id,
            window.attributes == self.attributes,
            window.root_widget == self.root_widget,
            window.base_color == Some(base_color),
    {
        let mut window = self;
        window.base_color = Some(base_color);
        window
    }
}

/// The state of one open window.
pub struct Window<P: Platform> {
    /// The id the application chose for the window.
    pub window_id: WindowId,
    /// The root of the window's widget tree.
    pub render_root: P::RenderRoot,
    /// The colour the window's widgets are drawn on.
    pub base_color: P::Color,
    /// The window's current scale factor.
    pub scale_factor: P::ScaleFactor,
}

impl<P: Platform> Window<P> {
    /// The state of a window that has just been created.
    pub fn new(
        window_id: WindowId,
        render_root: P::RenderRoot,
        base_color: P::Color,
        scale_factor: P::ScaleFactor,
    ) -> (window: Self)
        ensures
            window.window_id == window_id,
            window.render_root == render_root,
            window.base_color == base_color,
            window.scale_factor == scale_factor,
    {
        Window { window_id, render_root, base_color, scale_factor }
    }

    /// Access the render root of this window.
    pub fn render_root(&mut self) -> (root: &mut P::RenderRoot)
        ensures
            *root == old(self).render_root,
            *final(self) == (Window { render_root: *final(root), ..*old(self) }),
    {
        &mut self.render_root
    }

    /// Access the base colour of this window.
    pub fn base_color(&mut self) -> (color: &mut P::Color)
        ensures
            *color == old(self).base_color,
            *final(self) == (Window { base_color: *final(color), ..*old(self) }),
    {
        &mut self.base_color
    }

    /// Records a new scale factor for the window.
    pub fn set_scale_factor(&mut self, scale_factor: P::ScaleFactor)
        ensures
            *final(self) == (Window { scale_factor, ..*old(self) }),
    {
        self.scale_factor = scale_factor;
    }
}

} // verus!
