//! The shell surface handle: the capability contract, the per-generation
//! translation of native events into canonical ones, and the factory.
use vstd::prelude::*;
use crate::event::{
    Event, EventView, WindowState, size_of, states_of_raw, suggested_size, translate_states,
};
use crate::protocol::{Operation, Request, ResizeEdge, ShellVariant, requests_for, teardown, teardown_requests, translate};

verus! {

/// A native event, as the server sends it on the protocol objects of one
/// shell surface.
#[derive(Clone, Debug, PartialEq, Eq)]
pub enum NativeEvent {
    /// `wl_shell_surface.ping`
    LegacyPing { serial: u32 },
    /// `wl_shell_surface.configure`
    LegacyConfigure { edges: u32, width: i32, height: i32 },
    /// `wl_shell_surface.popup_done`
    LegacyPopupDone,
    /// `configure` on the toplevel, with its raw state values
    ToplevelConfigure { width: i32, height: i32, states: Vec<u32> },
    /// `close` on the toplevel
    ToplevelClose,
    /// `configure` on the xdg surface: the end of a configure batch
    SurfaceConfigure { serial: u32 },
}

/// Whether a native event is one that the protocol of a generation defines.
pub open spec fn in_protocol(variant: ShellVariant, e: NativeEvent) -> bool {
    match e {
        NativeEvent::LegacyPing { .. } | NativeEvent::LegacyConfigure { .. }
        | NativeEvent::LegacyPopupDone => variant == ShellVariant::Legacy,
        _ => variant != ShellVariant::Legacy,
    }
}

/// The configure state gathered since the last acknowledgment: the size
/// suggested last, if any was, and the states reported last.
pub type PendingView = (Option<(u32, u32)>, Seq<WindowState>);

/// A configure state gathered since the last acknowledgment.
#[derive(Clone, Debug, PartialEq, Eq)]
pub struct PendingConfigure {
    pub new_size: Option<(u32, u32)>,
    pub states: Vec<WindowState>,
}

/// What a shell surface handle is, abstractly.
pub struct HandleView {
    pub variant: ShellVariant,
    pub toplevel: u32,
    pub destroyed: bool,
    pub pending: Option<PendingView>,
}

/// A shell surface handle over one drawable surface.
///
/// It remembers the protocol generation, the object id of its toplevel role
/// object, whether it was destroyed, and the configure state gathered since
/// the last acknowledgment. It is *active* until `destroy`, then
/// *destroyed* for good.
pub struct ShellSurfaceHandle {
    variant: ShellVariant,
    toplevel: u32,
    destroyed: bool,
    pending: Option<PendingConfigure>,
}

impl View for ShellSurfaceHandle {
    type V = HandleView;

    closed spec fn view(&self) -> HandleView {
        HandleView {
            variant: self.variant,
            toplevel: self.toplevel,
            destroyed: self.destroyed,
            pending: match self.pending {
                Some(p) => Some((p.new_size, p.states@)),
                None => None,
            },
        }
    }
}

/// What a native event does to a shell surface: the event handed to the
/// caller and the request sent back to the compositor, if any.
#[derive(Clone, Debug, PartialEq, Eq)]
pub struct Reaction {
    pub event: Option<Event>,
    pub reply: Option<Request>,
}

/// The gathered configure state after one more configure notification of a
/// batch: a suggested size overrides the one before it, a missing size keeps
/// it, and the states are those of the last notification.
pub open spec fn gather(
    variant: ShellVariant,
    pending: Option<PendingView>,
    width: i32,
    height: i32,
    raw: Seq<u32>,
) -> Option<PendingView> {
    let size = match size_of(width, height) {
        Some(s) => Some(s),
        None => match pending {
            Some(p) => p.0,
            None => None,
        },
    };
    Some((size, states_of_raw(variant, raw)))
}

/// The event that a gathered configure state becomes.
pub open spec fn configure_of(p: PendingView) -> EventView {
    EventView::Configure { new_size: p.0, states: p.1 }
}

/// What one native event does: the next state of the handle, the canonical
/// event emitted, and the reply sent to the compositor.
///
/// A destroyed handle ignores everything. The legacy generation answers
/// pings and reports each configure notification as a batch of its own. The
/// others gather configure notifications until the acknowledgment that ends
/// the batch, then emit one event for the batch (none for a batch without
/// notifications) and acknowledge it. A close notification becomes one
/// `Close`. Events outside the handle's protocol are ignored.
pub open spec fn step(h: HandleView, e: NativeEvent) -> (HandleView, Option<EventView>, Option<Request>) {
    if h.destroyed || !in_protocol(h.variant, e) {
        (h, None, None)
    } else {
        match e {
            NativeEvent::LegacyPing { serial } => (h, None, Some(Request::LegacyPong { serial })),
            NativeEvent::LegacyConfigure { edges, width, height } => (
                h,
                Some(EventView::Configure { new_size: size_of(width, height), states: Seq::empty() }),
                None,
            ),
            NativeEvent::LegacyPopupDone => (h, None, None),
            NativeEvent::ToplevelConfigure { width, height, states } => (
                HandleView { pending: gather(h.variant, h.pending, width, height, states@), ..h },
                None,
                None,
            ),
            NativeEvent::ToplevelClose => (h, Some(EventView::Close), None),
            NativeEvent::SurfaceConfigure { serial } => (
                HandleView { pending: None, ..h },
                match h.pending {
                    Some(p) => Some(configure_of(p)),
                    None => None,
                },
                Some(Request::AckConfigure { serial }),
            ),
        }
    }
}

/// The view of an optional event.
pub open spec fn event_view(e: Option<Event>) -> Option<EventView> {
    match e {
        Some(ev) => Some(ev@),
        None => None,
    }
}

/// The requests that an operation sends from a handle: none once destroyed.
pub open spec fn sent_for(h: HandleView, op: Operation) -> Seq<Request> {
    if h.destroyed {
        Seq::empty()
    } else {
        requests_for(h.variant, op)
    }
}

/// The operations that every shell surface offers, whatever protocol
/// generation carries them. Each returns the wire requests to send.
pub trait ShellSurface {
    /// What the handle is, abstractly.
    spec fn state(&self) -> HandleView;

    /// Resizes the shell surface interactively.
    fn resize(&self, seat: u32, serial: u32, edges: ResizeEdge) -> (r: Vec<Request>)
        ensures
            r@ == sent_for(self.state(), Operation::Resize { seat, serial, edge: edges }),
    ;

    /// Moves the shell surface interactively.
    fn move_(&self, seat: u32, serial: u32) -> (r: Vec<Request>)
        ensures
            r@ == sent_for(self.state(), Operation::Move { seat, serial }),
    ;

    /// Sets the title of the shell surface.
    fn set_title(&self, title: String) -> (r: Vec<Request>)
        ensures
            r@ == sent_for(self.state(), Operation::SetTitle { title }),
    ;

    /// Sets the app id of the shell surface.
    fn set_app_id(&self, app_id: String) -> (r: Vec<Request>)
        ensures
            r@ == sent_for(self.state(), Operation::SetAppId { app_id }),
    ;

    /// Makes the surface fullscreen, on an output if one is given.
    fn set_fullscreen(&self, output: Option<u32>) -> (r: Vec<Request>)
        ensures
            r@ == sent_for(self.state(), Operation::SetFullscreen { output }),
    ;

    /// Leaves fullscreen.
    fn unset_fullscreen(&self) -> (r: Vec<Request>)
        ensures
            r@ == sent_for(self.state(), Operation::UnsetFullscreen),
    ;

    /// Maximizes the surface.
    fn set_maximized(&self) -> (r: Vec<Request>)
        ensures
            r@ == sent_for(self.state(), Operation::SetMaximized),
    ;

    /// Restores the surface from maximized.
    fn unset_maximized(&self) -> (r: Vec<Request>)
        ensures
            r@ == sent_for(self.state(), Operation::UnsetMaximized),
    ;

    /// Minimizes the surface.
    fn set_minimized(&self) -> (r: Vec<Request>)
        ensures
            r@ == sent_for(self.state(), Operation::SetMinimized),
    ;

    /// Sets the visible window geometry of the surface.
    fn set_geometry(&self, x: i32, y: i32, width: i32, height: i32) -> (r: Vec<Request>)
        ensures
            r@ == sent_for(self.state(), Operation::SetGeometry { x, y, width, height }),
    ;

    /// Sets or clears the minimum size of the surface.
    fn set_min_size(&self, size: Option<(i32, i32)>) -> (r: Vec<Request>)
        ensures
            r@ == sent_for(self.state(), Operation::SetMinSize { size }),
    ;

    /// Sets or clears the maximum size of the surface.
    fn set_max_size(&self, size: Option<(i32, i32)>) -> (r: Vec<Request>)
        ensures
            r@ == sent_for(self.state(), Operation::SetMaxSize { size }),
    ;

    /// The object id of the current generation's toplevel, for use with
    /// extension protocols; nothing on the older generations.
    fn get_xdg(&self) -> (r: Option<u32>)
        ensures
            r == (if self.state().variant == ShellVariant::Current {
                Some(self.state().toplevel)
            } else {
                None
            }),
    ;
}

impl ShellSurfaceHandle {
    fn send(&self, op: Operation) -> (r: Vec<Request>)
        ensures
            r@ == sent_for(self@, op),
    {
        if self.destroyed {
            Vec::new()
        } else {
            translate(self.variant, op)
        }
    }

    /// The protocol generation of this handle.
    pub fn variant(&self) -> (r: ShellVariant)
        ensures
            r == self@.variant,
    {
        self.variant
    }

    /// Whether this handle was destroyed.
    pub fn is_destroyed(&self) -> (r: bool)
        ensures
            r == self@.destroyed,
    {
        self.destroyed
    }

    /// Destroys the handle: the requests that release its protocol objects
    /// are returned the first time, nothing after that, and no event is
    /// emitted from then on.
    pub fn destroy(&mut self) -> (r: Vec<Request>)
        ensures
            final(self)@ == (HandleView { destroyed: true, ..old(self)@ }),
            r@ == (if old(self)@.destroyed {
                Seq::empty()
            } else {
                teardown_requests(old(self)@.variant)
            }),
    {
        if self.destroyed {
            Vec::new()
        } else {
            self.destroyed = true;
            teardown(self.variant)
        }
    }

    /// Handles one native event of this surface.
    pub fn handle_event(&mut self, e: NativeEvent) -> (r: Reaction)
        ensures
            (final(self)@, event_view(r.event), r.reply) == step(old(self)@, e),
    {
        if self.destroyed {
            return Reaction { event: None, reply: None };
        }
        match e {
            NativeEvent::LegacyPing { serial } => {
                if self.variant == ShellVariant::Legacy {
                    Reaction { event: None, reply: Some(Request::LegacyPong { serial }) }
                } else {
                    Reaction { event: None, reply: None }
                }
            },
            NativeEvent::LegacyConfigure { edges, width, height } => {
                if self.variant == ShellVariant::Legacy {
                    let ev = Event::Configure {
                        new_size: suggested_size(width, height),
                        states: Vec::new(),
                    };
                    proof {
                        assert(ev@ == (EventView::Configure {
                            new_size: size_of(width, height),
                            states: Seq::empty(),
                        }));
                    }
                    Reaction { event: Some(ev), reply: None }
                } else {
                    Reaction { event: None, reply: None }
                }
            },
            NativeEvent::LegacyPopupDone => Reaction { event: None, reply: None },
            NativeEvent::ToplevelConfigure { width, height, states } => {
                if self.variant != ShellVariant::Legacy {
                    let size = match suggested_size(width, height) {
                        Some(s) => Some(s),
                        None => match &self.pending {
                            Some(p) => p.new_size,
                            None => None,
                        },
                    };
                    let translated = translate_states(self.variant, &states);
                    self.pending = Some(PendingConfigure { new_size: size, states: translated });
                }
                Reaction { event: None, reply: None }
            },
            NativeEvent::ToplevelClose => {
                if self.variant != ShellVariant::Legacy {
                    Reaction { event: Some(Event::Close), reply: None }
                } else {
                    Reaction { event: None, reply: None }
                }
            },
            NativeEvent::SurfaceConfigure { serial } => {
                if self.variant != ShellVariant::Legacy {
                    let event = match self.pending.take() {
                        Some(p) => Some(Event::Configure { new_size: p.new_size, states: p.states }),
                        None => None,
                    };
                    Reaction { event, reply: Some(Request::AckConfigure { serial }) }
                } else {
                    Reaction { event: None, reply: None }
                }
            },
        }
    }
}

impl ShellSurface for ShellSurfaceHandle {
    open spec fn state(&self) -> HandleView {
        self@
    }

    fn resize(&self, seat: u32, serial: u32, edges: ResizeEdge) -> (r: Vec<Request>) {
        self.send(Operation::Resize { seat, serial, edge: edges })
    }

    fn move_(&self, seat: u32, serial: u32) -> (r: Vec<Request>) {
        self.send(Operation::Move { seat, serial })
    }

    fn set_title(&self, title: String) -> (r: Vec<Request>) {
        self.send(Operation::SetTitle { title })
    }

    fn set_app_id(&self, app_id: String) -> (r: Vec<Request>) {
        self.send(Operation::SetAppId { app_id })
    }

    fn set_fullscreen(&self, output: Option<u32>) -> (r: Vec<Request>) {
        self.send(Operation::SetFullscreen { output })
    }

    fn unset_fullscreen(&self) -> (r: Vec<Request>) {
        self.send(Operation::UnsetFullscreen)
    }

    fn set_maximized(&self) -> (r: Vec<Request>) {
        self.send(Operation::SetMaximized)
    }

    fn unset_maximized(&self) -> (r: Vec<Request>) {
        self.send(Operation::UnsetMaximized)
    }

    fn set_minimized(&self) -> (r: Vec<Request>) {
        self.send(Operation::SetMinimized)
    }

    fn set_geometry(&self, x: i32, y: i32, width: i32, height: i32) -> (r: Vec<Request>) {
        self.send(Operation::SetGeometry { x, y, width, height })
    }

    fn set_min_size(&self, size: Option<(i32, i32)>) -> (r: Vec<Request>) {
        self.send(Operation::SetMinSize { size })
    }

    fn set_max_size(&self, size: Option<(i32, i32)>) -> (r: Vec<Request>) {
        self.send(Operation::SetMaxSize { size })
    }

    fn get_xdg(&self) -> (r: Option<u32>) {
        match self.variant {
            ShellVariant::Current => Some(self.toplevel),
            _ => None,
        }
    }
}

/// Makes the handle of a drawable surface that was given its shell role, with the object id of its role object: the
/// toplevel of the newer generations, the shell surface of the legacy one.
/// The handle starts active, with no configure state gathered.
pub fn create_shell_surface(variant: ShellVariant, toplevel: u32) -> (r: ShellSurfaceHandle)
    ensures
        r@ == (HandleView { variant, toplevel, destroyed: false, pending: None }),
{
    ShellSurfaceHandle { variant, toplevel, destroyed: false, pending: None }
}

} // verus!
