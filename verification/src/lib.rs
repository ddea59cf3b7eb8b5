//! Window bookkeeping and event routing for a Masonry application driven by a
//! Wayland event loop.
//!
//! The library keeps the state that the event loop reads and changes (the
//! windows, their drawing surfaces, the queue of windows waiting for the
//! compositor, the mapping from application window ids to compositor handles)
//! and decides, for each event, what has to happen. The values it carries but
//! never inspects (render roots, colours, surfaces, timestamps) are chosen by
//! the embedding through the [`Platform`] trait.

pub mod driver;
pub mod ids;
pub mod keyboard;
pub mod laws;

pub mod platform;
pub mod resize;
pub mod signals;
pub mod state;
pub mod window;

pub use ids::WindowId;
pub use keyboard::is_paste_shortcut;
pub use resize::{masonry_resize_direction_to_wayland, ResizeDirection, ResizeEdge};
pub use platform::Platform;
pub use window::{NewWindow, Window};
pub use state::{DrawPlan, MasonryState, SurfaceSize};
pub use signals::{MasonryUserEvent, SignalEffect, SignalKind, SignalRound};
pub use driver::{AppDriver, DriverCtx};
