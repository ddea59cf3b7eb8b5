use vstd::prelude::*;

verus! {

/// The edge or corner from which the user drags to resize a window, as the
/// widget tree reports it.
#[derive(Clone, Copy, Debug, PartialEq, Eq, Hash, Structural)]
pub enum ResizeDirection {
    East,
    North,
    NorthEast,
    NorthWest,
    South,
    SouthEast,
    SouthWest,
    West,
}

/// The edge or corner of an `xdg_toplevel` resize request.
#[derive(Clone, Copy, Debug, PartialEq, Eq, Hash, Structural)]
pub enum ResizeEdge {
    /// No edge (the protocol's `none`).
    NoEdge,
    Top,
    Bottom,
    Left,
    TopLeft,
    BottomLeft,
    Right,
    TopRight,
    BottomRight,
}

/// The compass direction of the widget tree, read as the edge of the
/// Wayland surface: east is the right edge, north the top, and so on.
pub open spec fn wayland_edge_of(dir: ResizeDirection) -> ResizeEdge {
    match dir {
        ResizeDirection::East => ResizeEdge::Right,
        ResizeDirection::North => ResizeEdge::Top,
        ResizeDirection::NorthEast => ResizeEdge::TopRight,
        ResizeDirection::NorthWest => ResizeEdge::TopLeft,
        ResizeDirection::South => ResizeEdge::Bottom,
        ResizeDirection::SouthEast => ResizeEdge::BottomRight,
        ResizeDirection::SouthWest => ResizeEdge::BottomLeft,
        ResizeDirection::West => ResizeEdge::Left,
    }
}

/// Whether the direction points north (up): north, north-east or north-west.
pub open spec fn points_north(dir: ResizeDirection) -> bool {
    dir == ResizeDirection::North || dir == ResizeDirection::NorthEast || dir
        == ResizeDirection::NorthWest
}

/// Whether the direction points south (down).
pub open spec fn points_south(dir: ResizeDirection) -> bool {
    dir == ResizeDirection::South || dir == ResizeDirection::SouthEast || dir
        == ResizeDirection::SouthWest
}

/// Whether the direction points east (right).
pub open spec fn points_east(dir: ResizeDirection) -> bool {
    dir == ResizeDirection::East || dir == ResizeDirection::NorthEast || dir
        == ResizeDirection::SouthEast
}

/// Whether the direction points west (left).
pub open spec fn points_west(dir: ResizeDirection) -> bool {
    dir == ResizeDirection::West || dir == ResizeDirection::NorthWest || dir
        == ResizeDirection::SouthWest
}

/// Whether the edge or corner lies on the top side of the surface.
pub open spec fn on_top(edge: ResizeEdge) -> bool {
    edge == ResizeEdge::Top || edge == ResizeEdge::TopLeft || edge == ResizeEdge::TopRight
}

/// Whether the edge or corner lies on the bottom side of the surface.
pub open spec fn on_bottom(edge: ResizeEdge) -> bool {
    edge == ResizeEdge::Bottom || edge == ResizeEdge::BottomLeft || edge == ResizeEdge::BottomRight
}

/// Whether the edge or corner lies on the left side of the surface.
pub open spec fn on_left(edge: ResizeEdge) -> bool {
    edge == ResizeEdge::Left || edge == ResizeEdge::TopLeft || edge == ResizeEdge::BottomLeft
}

/// Whether the edge or corner lies on the right side of the surface.
pub open spec fn on_right(edge: ResizeEdge) -> bool {
    edge == ResizeEdge::Right || edge == ResizeEdge::TopRight || edge == ResizeEdge::BottomRight
}

/// The edge is the one the direction names: up is the top, down the
/// bottom, west the left and east the right side; a diagonal names the
/// corner between its two sides.
pub open spec fn edge_matches_direction(edge: ResizeEdge, dir: ResizeDirection) -> bool {
    &&& on_top(edge) == points_north(dir)
    &&& on_bottom(edge) == points_south(dir)
    &&& on_left(edge) == points_west(dir)
    &&& on_right(edge) == points_east(dir)
}

/// Translates a resize direction of the widget tree into the edge that the
/// compositor's interactive resize expects.
pub fn masonry_resize_direction_to_wayland(dir: ResizeDirection) -> (edge: ResizeEdge)
    ensures
        edge == wayland_edge_of(dir),
        edge_matches_direction(edge, dir),
        edge != ResizeEdge::NoEdge,
{
    match dir {
        ResizeDirection::East => ResizeEdge::Right,
        ResizeDirection::North => ResizeEdge::Top,
        ResizeDirection::NorthEast => ResizeEdge::TopRight,
        ResizeDirection::NorthWest => ResizeEdge::TopLeft,
        ResizeDirection::South => ResizeEdge::Bottom,
        ResizeDirection::SouthEast => ResizeEdge::BottomRight,
        ResizeDirection::SouthWest => ResizeEdge::BottomLeft,
        ResizeDirection::West => ResizeEdge::Left,
    }
}

/// Every direction is sent as a resize from the edge or corner on the
/// sides it points to, never from no edge; and two different directions
/// never ask for the same edge.
pub proof fn lemma_resize_edges_distinct(a: ResizeDirection, b: ResizeDirection)
    ensures
        edge_matches_direction(wayland_edge_of(a), a),
        wayland_edge_of(a) != ResizeEdge::NoEdge,
        wayland_edge_of(a) == wayland_edge_of(b) ==> a == b,
{
}

} // verus!
