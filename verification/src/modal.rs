//! Modal overlays above the main view, and how their messages step them.
use vstd::prelude::*;

pub mod command_palette;

verus! {

/// An open modal.
#[derive(Debug)]
pub enum Modal {
    CommandPalette(command_palette::State),
}

/// One input to a modal.
#[derive(Debug)]
pub enum Message {
    CommandPalette(command_palette::Message),
    Cancel,
}

/// What a modal asks of its surroundings.
#[derive(Debug, Clone, PartialEq, Eq, Structural)]
pub enum Event {
    CloseModal,
}

impl Modal {
    /// The window a modal is tied to; the command palette floats over every
    /// window.
    pub fn window_id(&self) -> (r: Option<u64>)
        ensures
            r is None,
    {
        match self {
            Modal::CommandPalette(..) => None,
        }
    }

    /// Steps the modal: cancelling closes it, anything else goes to the
    /// palette.
    pub fn update(&mut self, message: &Message) -> (r: Option<Event>)
        ensures
            match message {
                Message::Cancel => *final(self) == *old(self) && r == Some(Event::CloseModal),
                Message::CommandPalette(msg) => match (*old(self), *final(self)) {
                    (Modal::CommandPalette(before), Modal::CommandPalette(after)) => match msg {
                        command_palette::Message::InputChanged(input) => {
                            &&& after.input_value@ == input@
                            &&& after.commands == before.commands
                            &&& after.filtered@ == command_palette::spec_filtered(
                                before.commands@,
                                crate::strutil::lower_of(input@),
                            )
                            &&& r is None
                        },
                        command_palette::Message::ExecuteCommand(_) => {
                            &&& after == before
                            &&& r == Some(Event::CloseModal)
                        },
                    },
                },
            },
    {
        match (self, message) {
            (_, Message::Cancel) => Some(Event::CloseModal),
            (Modal::CommandPalette(state), Message::CommandPalette(msg)) => state.update(msg),
        }
    }
}

} // verus!
