use vstd::prelude::*;

verus! {

/// Identifies a window.
///
/// The same type names both the id that the application picks for a window
/// and the handle that the compositor connection hands out once the window
/// exists; the registry maps the first to the second.
#[derive(Clone, Copy, Debug, PartialEq, Eq, Hash, Structural)]
pub struct WindowId(pub u64);

} // verus!
