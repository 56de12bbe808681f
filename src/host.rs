use vstd::prelude::*;

use crate::win32_utils::{hi_word, high_bits, lo_word, low_bits};

verus! {

/// The width and height of a new window.
pub const DEFAULT_SIZE: u32 = 720;

/// The activation state that marks a window as deactivated.
pub const INACTIVE: u32 = 0;

/// A message from the window's event source.
#[derive(Clone, Copy, PartialEq, Eq, Structural, Debug)]
pub enum HostEvent {
    Paint,
    /// The new client size, width in the low word and height in the high word.
    Resized { packed: usize },
    /// The activation state in the low word.
    Activated { packed: usize },
    DisplayChanged,
    User,
    Destroy,
    Other,
}

/// What the event loop does in answer to a message.
#[derive(Clone, Copy, PartialEq, Eq, Structural, Debug)]
pub enum Reaction {
    /// Render one frame.
    Render,
    /// Post the quit message.
    Quit,
    /// The message was handled; nothing more to do.
    Handled,
    /// Hand the message to the system's default handling.
    Default,
}

/// How the event loop waits for the next message.
#[derive(Clone, Copy, PartialEq, Eq, Structural, Debug)]
pub enum PumpMode {
    /// Take every queued message without waiting.
    Drain,
    /// Sleep until a message arrives.
    Block,
}

/// What the core keeps of the window: its size and whether it is shown.
#[derive(Clone, Copy, PartialEq, Eq, Structural, Debug)]
pub struct WindowState {
    pub width: u32,
    pub height: u32,
    pub is_visible: bool,
}

impl WindowState {
    /// A visible window of the default size.
    pub fn new() -> (r: WindowState)
        ensures
            r.width == DEFAULT_SIZE,
            r.height == DEFAULT_SIZE,
            r.is_visible,
    {
        WindowState { width: DEFAULT_SIZE, height: DEFAULT_SIZE, is_visible: true }
    }

    /// Reacts to one message. A paint request renders and a destroy request
    /// quits; a resize only records the new size and an activation change
    /// only records whether the window is shown.
    pub fn on_event(&mut self, ev: HostEvent) -> (r: Reaction)
        ensures
            r == match ev {
                HostEvent::Paint => Reaction::Render,
                HostEvent::Destroy => Reaction::Quit,
                HostEvent::Other => Reaction::Default,
                _ => Reaction::Handled,
            },
            *final(self) == match ev {
                HostEvent::Resized { packed } => WindowState {
                    width: low_bits(packed) as u32,
                    height: high_bits(packed) as u32,
                    ..*old(self)
                },
                HostEvent::Activated { packed } => WindowState {
                    is_visible: low_bits(packed) != INACTIVE,
                    ..*old(self)
                },
                _ => *old(self),
            },
    {
        match ev {
            HostEvent::Paint => Reaction::Render,
            HostEvent::Resized { packed } => {
                self.width = lo_word(packed);
                self.height = hi_word(packed);
                Reaction::Handled
            },
            HostEvent::Activated { packed } => {
                self.is_visible = lo_word(packed) != INACTIVE;
                Reaction::Handled
            },
            HostEvent::DisplayChanged => Reaction::Handled,
            HostEvent::User => Reaction::Handled,
            HostEvent::Destroy => Reaction::Quit,
            HostEvent::Other => Reaction::Default,
        }
    }

    /// A shown window drains its queue; a hidden one sleeps until the next
    /// message.
    pub fn pump_mode(&self) -> (r: PumpMode)
        ensures
            r == if self.is_visible {
                PumpMode::Drain
            } else {
                PumpMode::Block
            },
    {
        if self.is_visible {
            PumpMode::Drain
        } else {
            PumpMode::Block
        }
    }
}

} // verus!
