//! The protocol generations and the wire requests that each canonical
//! operation becomes on each of them.
use vstd::prelude::*;

verus! {

/// The shell protocol generation active for a session.
#[derive(Clone, Copy, Debug, PartialEq, Eq, Structural)]
pub enum ShellVariant {
    /// `wl_shell`, the oldest generation.
    Legacy,
    /// `zxdg_shell_v6`, the unstable versioned generation.
    Versioned,
    /// `xdg_shell`, the current standard.
    Current,
}

/// An edge or corner of the surface that an interactive resize drags.
#[derive(Clone, Copy, Debug, PartialEq, Eq, Structural)]
pub enum ResizeEdge {
    Unset,
    Top,
    Bottom,
    Left,
    TopLeft,
    BottomLeft,
    Right,
    TopRight,
    BottomRight,
}

/// The wire value of a resize edge; every generation uses the same values.
pub open spec fn edge_value(edge: ResizeEdge) -> u32 {
    match edge {
        ResizeEdge::Unset => 0,
        ResizeEdge::Top => 1,
        ResizeEdge::Bottom => 2,
        ResizeEdge::Left => 4,
        ResizeEdge::TopLeft => 5,
        ResizeEdge::BottomLeft => 6,
        ResizeEdge::Right => 8,
        ResizeEdge::TopRight => 9,
        ResizeEdge::BottomRight => 10,
    }
}

impl ResizeEdge {
    /// The wire value of this edge.
    pub fn to_raw(self) -> (r: u32)
        ensures
            r == edge_value(self),
    {
        match self {
            ResizeEdge::Unset => 0,
            ResizeEdge::Top => 1,
            ResizeEdge::Bottom => 2,
            ResizeEdge::Left => 4,
            ResizeEdge::TopLeft => 5,
            ResizeEdge::BottomLeft => 6,
            ResizeEdge::Right => 8,
            ResizeEdge::TopRight => 9,
            ResizeEdge::BottomRight => 10,
        }
    }
}

/// A wire request, named as in the protocol schema that defines it. Seats
/// and outputs are given by their protocol object ids.
///
/// The `Legacy*` requests belong to `wl_shell` and `wl_shell_surface`. The
/// others belong to the toplevel role of the versioned and current
/// generations, which share their shapes under two namespaces; the handle's
/// variant says which of the two carries them.
#[derive(Clone, Debug, PartialEq, Eq)]
pub enum Request {
    /// `wl_shell_surface.pong`
    LegacyPong { serial: u32 },
    /// `wl_shell_surface.move`
    LegacyMove { seat: u32, serial: u32 },
    /// `wl_shell_surface.resize`
    LegacyResize { seat: u32, serial: u32, edges: u32 },
    /// `wl_shell_surface.set_toplevel`
    LegacySetToplevel,
    /// `wl_shell_surface.set_fullscreen`, with the default method and no
    /// framerate
    LegacySetFullscreen { output: Option<u32> },
    /// `wl_shell_surface.set_maximized`
    LegacySetMaximized { output: Option<u32> },
    /// `wl_shell_surface.set_title`
    LegacySetTitle { title: String },
    /// `ack_configure` on the xdg surface
    AckConfigure { serial: u32 },
    /// `set_window_geometry` on the xdg surface
    SetWindowGeometry { x: i32, y: i32, width: i32, height: i32 },
    /// `move` on the toplevel
    Move { seat: u32, serial: u32 },
    /// `resize` on the toplevel
    Resize { seat: u32, serial: u32, edges: u32 },
    /// `set_title` on the toplevel
    SetTitle { title: String },
    /// `set_app_id` on the toplevel
    SetAppId { app_id: String },
    /// `set_fullscreen` on the toplevel
    SetFullscreen { output: Option<u32> },
    /// `unset_fullscreen` on the toplevel
    UnsetFullscreen,
    /// `set_maximized` on the toplevel
    SetMaximized,
    /// `unset_maximized` on the toplevel
    UnsetMaximized,
    /// `set_minimized` on the toplevel
    SetMinimized,
    /// `set_min_size` on the toplevel; zero in both dimensions means no bound
    SetMinSize { width: i32, height: i32 },
    /// `set_max_size` on the toplevel; zero in both dimensions means no bound
    SetMaxSize { width: i32, height: i32 },
    /// `destroy` on the toplevel
    DestroyToplevel,
    /// `destroy` on the xdg surface
    DestroySurfaceRole,
}

/// A canonical operation of the capability contract.
#[derive(Clone, Debug, PartialEq, Eq)]
pub enum Operation {
    Resize { seat: u32, serial: u32, edge: ResizeEdge },
    Move { seat: u32, serial: u32 },
    SetTitle { title: String },
    SetAppId { app_id: String },
    SetFullscreen { output: Option<u32> },
    UnsetFullscreen,
    SetMaximized,
    UnsetMaximized,
    SetMinimized,
    SetGeometry { x: i32, y: i32, width: i32, height: i32 },
    SetMinSize { size: Option<(i32, i32)> },
    SetMaxSize { size: Option<(i32, i32)> },
}

/// The pair of dimensions sent for an optional size bound: no bound is sent
/// as zero in both dimensions.
pub open spec fn bound_value(size: Option<(i32, i32)>) -> (i32, i32) {
    match size {
        Some(s) => s,
        None => (0, 0),
    }
}

/// The wire requests that an operation becomes on a protocol generation.
///
/// The legacy generation has no app id, window geometry, size bounds or
/// minimizing: those operations send nothing there. It has no way to leave
/// fullscreen or maximized either, other than becoming a plain toplevel again.
pub open spec fn requests_for(variant: ShellVariant, op: Operation) -> Seq<Request> {
    match variant {
        ShellVariant::Legacy => match op {
            Operation::Resize { seat, serial, edge } => seq![
                Request::LegacyResize { seat, serial, edges: edge_value(edge) },
            ],
            Operation::Move { seat, serial } => seq![Request::LegacyMove { seat, serial }],
            Operation::SetTitle { title } => seq![Request::LegacySetTitle { title }],
            Operation::SetFullscreen { output } => seq![Request::LegacySetFullscreen { output }],
            Operation::UnsetFullscreen => seq![Request::LegacySetToplevel],
            Operation::SetMaximized => seq![Request::LegacySetMaximized { output: None }],
            Operation::UnsetMaximized => seq![Request::LegacySetToplevel],
            _ => Seq::empty(),
        },
        _ => match op {
            Operation::Resize { seat, serial, edge } => seq![
                Request::Resize { seat, serial, edges: edge_value(edge) },
            ],
            Operation::Move { seat, serial } => seq![Request::Move { seat, serial }],
            Operation::SetTitle { title } => seq![Request::SetTitle { title }],
            Operation::SetAppId { app_id } => seq![Request::SetAppId { app_id }],
            Operation::SetFullscreen { output } => seq![Request::SetFullscreen { output }],
            Operation::UnsetFullscreen => seq![Request::UnsetFullscreen],
            Operation::SetMaximized => seq![Request::SetMaximized],
            Operation::UnsetMaximized => seq![Request::UnsetMaximized],
            Operation::SetMinimized => seq![Request::SetMinimized],
            Operation::SetGeometry { x, y, width, height } => seq![
                Request::SetWindowGeometry { x, y, width, height },
            ],
            Operation::SetMinSize { size } => seq![
                Request::SetMinSize { width: bound_value(size).0, height: bound_value(size).1 },
            ],
            Operation::SetMaxSize { size } => seq![
                Request::SetMaxSize { width: bound_value(size).0, height: bound_value(size).1 },
            ],
        },
    }
}

/// The requests that release the protocol objects of a shell surface; the
/// legacy shell surface has no destructor of its own.
pub open spec fn teardown_requests(variant: ShellVariant) -> Seq<Request> {
    match variant {
        ShellVariant::Legacy => Seq::empty(),
        _ => seq![Request::DestroyToplevel, Request::DestroySurfaceRole],
    }
}

/// Turns an operation into the wire requests of a protocol generation.
pub fn translate(variant: ShellVariant, op: Operation) -> (r: Vec<Request>)
    ensures
        r@ == requests_for(variant, op),
{
    match variant {
        ShellVariant::Legacy => match op {
            Operation::Resize { seat, serial, edge } => vec![
                Request::LegacyResize { seat, serial, edges: edge.to_raw() },
            ],
            Operation::Move { seat, serial } => vec![Request::LegacyMove { seat, serial }],
            Operation::SetTitle { title } => vec![Request::LegacySetTitle { title }],
            Operation::SetFullscreen { output } => vec![Request::LegacySetFullscreen { output }],
            Operation::UnsetFullscreen => vec![Request::LegacySetToplevel],
            Operation::SetMaximized => vec![Request::LegacySetMaximized { output: None }],
            Operation::UnsetMaximized => vec![Request::LegacySetToplevel],
            _ => Vec::new(),
        },
        _ => match op {
            Operation::Resize { seat, serial, edge } => vec![
                Request::Resize { seat, serial, edges: edge.to_raw() },
            ],
            Operation::Move { seat, serial } => vec![Request::Move { seat, serial }],
            Operation::SetTitle { title } => vec![Request::SetTitle { title }],
            Operation::SetAppId { app_id } => vec![Request::SetAppId { app_id }],
            Operation::SetFullscreen { output } => vec![Request::SetFullscreen { output }],
            Operation::UnsetFullscreen => vec![Request::UnsetFullscreen],
            Operation::SetMaximized => vec![Request::SetMaximized],
            Operation::UnsetMaximized => vec![Request::UnsetMaximized],
            Operation::SetMinimized => vec![Request::SetMinimized],
            Operation::SetGeometry { x, y, width, height } => vec![
                Request::SetWindowGeometry { x, y, width, height },
            ],
            Operation::SetMinSize { size } => {
                let (width, height) = bound_pair(size);
                vec![Request::SetMinSize { width, height }]
            },
            Operation::SetMaxSize { size } => {
                let (width, height) = bound_pair(size);
                vec![Request::SetMaxSize { width, height }]
            },
        },
    }
}

fn bound_pair(size: Option<(i32, i32)>) -> (r: (i32, i32))
    ensures
        r == bound_value(size),
{
    match size {
        Some(s) => s,
        None => (0, 0),
    }
}

/// The requests that release the protocol objects of a shell surface.
pub fn teardown(variant: ShellVariant) -> (r: Vec<Request>)
    ensures
        r@ == teardown_requests(variant),
{
    match variant {
        ShellVariant::Legacy => Vec::new(),
        _ => vec![Request::DestroyToplevel, Request::DestroySurfaceRole],
    }
}

} // verus!
