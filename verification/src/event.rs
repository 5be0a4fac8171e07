//! The few raw interface events the editor reacts to itself.
use vstd::prelude::*;

use crate::keys;

verus! {

/// An event distilled from the toolkit's stream: the escape key, a click
/// that nothing else claimed, or the palette chord.
#[derive(Clone, Copy, Debug, PartialEq, Eq, Structural)]
pub enum Event {
    Escape,
    LeftClick,
    OpenControlPalette,
}

/// A raw toolkit event, reduced to what the filter below reads of it.
#[derive(Clone, Copy, Debug, PartialEq, Eq, Structural)]
pub enum RawEvent {
    /// A key went down with the given modifiers.
    KeyPressed { key: keys::Key, modifiers: keys::Modifiers },
    /// The left mouse button went down; the flag says whether every widget
    /// ignored it.
    MouseLeftPressed { ignored: bool },
    /// Anything else.
    Other,
}

/// The event the editor reacts to, if this raw event is one of them:
/// escape; a left click nobody claimed; or the palette chord, `p` with the
/// command and shift keys held.
pub open spec fn spec_filtered(event: RawEvent) -> Option<Event> {
    match event {
        RawEvent::KeyPressed { key: keys::Key::Escape, .. } => Some(Event::Escape),
        RawEvent::KeyPressed { key: keys::Key::Character(c), modifiers } => {
            if c == 'p' && modifiers.command && modifiers.shift {
                Some(Event::OpenControlPalette)
            } else {
                Option::<Event>::None
            }
        },
        RawEvent::MouseLeftPressed { ignored } => if ignored {
            Some(Event::LeftClick)
        } else {
            Option::<Event>::None
        },
        _ => Option::<Event>::None,
    }
}

/// Filters one raw event down to an editor event.
pub fn filtered(event: RawEvent) -> (r: Option<Event>)
    ensures
        r == spec_filtered(event),
{
    match event {
        RawEvent::KeyPressed { key: keys::Key::Escape, .. } => Some(Event::Escape),
        RawEvent::KeyPressed { key: keys::Key::Character(c), modifiers } => {
            if c == 'p' && modifiers.command && modifiers.shift {
                Some(Event::OpenControlPalette)
            } else {
                None
            }
        },
        RawEvent::MouseLeftPressed { ignored } => {
            if ignored {
                Some(Event::LeftClick)
            } else {
                None
            }
        },
        _ => None,
    }
}

} // verus!
