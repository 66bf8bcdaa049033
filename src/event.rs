//! The canonical event vocabulary shared by every protocol generation.
use vstd::prelude::*;
use crate::protocol::ShellVariant;

verus! {

/// A window state, in the vocabulary of the current protocol generation.
#[derive(Clone, Copy, Debug, PartialEq, Eq, Structural)]
pub enum WindowState {
    Maximized,
    Fullscreen,
    Resizing,
    Activated,
    TiledLeft,
    TiledRight,
    TiledTop,
    TiledBottom,
}

/// The window state that a raw wire value names on a protocol generation,
/// if any. The current generation defines the tiled states too; the
/// versioned one stops at `activated`, and the legacy one reports no states.
pub open spec fn state_of_raw(variant: ShellVariant, raw: u32) -> Option<WindowState> {
    if variant == ShellVariant::Legacy {
        None
    } else if raw == 1 {
        Some(WindowState::Maximized)
    } else if raw == 2 {
        Some(WindowState::Fullscreen)
    } else if raw == 3 {
        Some(WindowState::Resizing)
    } else if raw == 4 {
        Some(WindowState::Activated)
    } else if variant == ShellVariant::Versioned {
        None
    } else if raw == 5 {
        Some(WindowState::TiledLeft)
    } else if raw == 6 {
        Some(WindowState::TiledRight)
    } else if raw == 7 {
        Some(WindowState::TiledTop)
    } else if raw == 8 {
        Some(WindowState::TiledBottom)
    } else {
        None
    }
}

/// The canonical states named by a list of raw wire values on a protocol
/// generation, in order; values that name no state there are dropped.
pub open spec fn states_of_raw(variant: ShellVariant, raw: Seq<u32>) -> Seq<WindowState>
    decreases raw.len(),
{
    if raw.len() == 0 {
        Seq::empty()
    } else {
        let rest = states_of_raw(variant, raw.drop_last());
        match state_of_raw(variant, raw.last()) {
            Some(s) => rest.push(s),
            None => rest,
        }
    }
}

/// The size that a configure notification suggests: a zero or negative
/// dimension means that the client picks the size itself.
pub open spec fn size_of(width: i32, height: i32) -> Option<(u32, u32)> {
    if width > 0 && height > 0 {
        Some((width as u32, height as u32))
    } else {
        None
    }
}

impl WindowState {
    /// Reads a window state from its wire value on a protocol generation;
    /// values that name no state there give `None`.
    pub fn from_raw(variant: ShellVariant, raw: u32) -> (r: Option<WindowState>)
        ensures
            r == state_of_raw(variant, raw),
    {
        match variant {
            ShellVariant::Legacy => None,
            ShellVariant::Versioned => match raw {
                1 => Some(WindowState::Maximized),
                2 => Some(WindowState::Fullscreen),
                3 => Some(WindowState::Resizing),
                4 => Some(WindowState::Activated),
                _ => None,
            },
            ShellVariant::Current => match raw {
                1 => Some(WindowState::Maximized),
                2 => Some(WindowState::Fullscreen),
                3 => Some(WindowState::Resizing),
                4 => Some(WindowState::Activated),
                5 => Some(WindowState::TiledLeft),
                6 => Some(WindowState::TiledRight),
                7 => Some(WindowState::TiledTop),
                8 => Some(WindowState::TiledBottom),
                _ => None,
            },
        }
    }
}

/// Translates a list of raw wire states of a protocol generation, dropping
/// the values that name no state there.
pub fn translate_states(variant: ShellVariant, raw: &Vec<u32>) -> (r: Vec<WindowState>)
    ensures
        r@ == states_of_raw(variant, raw@),
{
    let mut r: Vec<WindowState> = Vec::new();
    let mut i: usize = 0;
    while i < raw.len()
        invariant
            i <= raw@.len(),
            r@ == states_of_raw(variant, raw@.take(i as int)),
        decreases raw@.len() - i,
    {
        proof {
            assert(raw@.take(i as int + 1).drop_last() =~= raw@.take(i as int));
        }
        match WindowState::from_raw(variant, raw[i]) {
            Some(s) => r.push(s),
            None => {},
        }
        i = i + 1;
    }
    proof {
        assert(raw@.take(i as int) =~= raw@);
    }
    r
}

/// Reads the suggested size of a configure notification.
pub fn suggested_size(width: i32, height: i32) -> (r: Option<(u32, u32)>)
    ensures
        r == size_of(width, height),
{
    if width > 0 && height > 0 {
        Some((width as u32, height as u32))
    } else {
        None
    }
}

/// Possible events generated by a shell surface that the caller handles.
#[derive(Clone, Debug, PartialEq, Eq)]
pub enum Event {
    /// The state of the window has changed.
    Configure {
        /// Optional new size for the contents of the shell surface, as the
        /// server suggests it; `None` means the current size is kept.
        new_size: Option<(u32, u32)>,
        /// The new combination of states of the window.
        states: Vec<WindowState>,
    },
    /// A close request has been received.
    Close,
}

/// What an event says, with its states as a sequence.
pub enum EventView {
    Configure { new_size: Option<(u32, u32)>, states: Seq<WindowState> },
    Close,
}

impl View for Event {
    type V = EventView;

    open spec fn view(&self) -> EventView {
        match self {
            Event::Configure { new_size, states } => EventView::Configure {
                new_size: *new_size,
                states: states@,
            },
            Event::Close => EventView::Close,
        }
    }
}

} // verus!
