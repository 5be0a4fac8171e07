//! The command palette modal: a text field whose input filters a fixed
//! list of command names, case-insensitively.
use vstd::prelude::*;

use crate::strutil;

verus! {

/// The palette's state: the raw input, every command, and the commands the
/// input currently lets through.
#[derive(Debug)]
pub struct State {
    pub input_value: String,
    pub commands: Vec<String>,
    pub filtered: Vec<String>,
}

/// One input to the palette.
#[derive(Debug)]
pub enum Message {
    InputChanged(String),
    ExecuteCommand(String),
}

/// Whether a command name passes the filter `needle`, which is already
/// lower-cased: its lower-cased form must contain it.
pub open spec fn matches_filter(cmd: String, needle: Seq<char>) -> bool {
    strutil::spec_contains(strutil::lower_of(cmd@), needle)
}

/// The commands of `cmds` that pass the filter, in their original order.
pub open spec fn spec_filtered(cmds: Seq<String>, needle: Seq<char>) -> Seq<String>
    decreases cmds.len(),
{
    if cmds.len() == 0 {
        Seq::empty()
    } else {
        spec_filtered(cmds.drop_last(), needle) + (if matches_filter(cmds.last(), needle) {
            seq![cmds.last()]
        } else {
            Seq::empty()
        })
    }
}

impl State {
    /// A fresh palette over `commands`, with an empty input that lets every
    /// command through.
    pub fn new(commands: Vec<String>) -> (s: State)
        ensures
            s.input_value@.len() == 0,
            s.commands@ == commands@,
            s.filtered@ == commands@,
    {
        let filtered = commands.clone();
        State { input_value: String::new(), commands, filtered }
    }

    /// Steps the palette: new input refilters the commands; executing one
    /// closes the modal.
    pub fn update(&mut self, message: &Message) -> (r: Option<super::Event>)
        ensures
            match message {
                Message::InputChanged(input) => {
                    &&& final(self).input_value@ == input@
                    &&& final(self).commands == old(self).commands
                    &&& final(self).filtered@ == spec_filtered(
                        old(self).commands@,
                        strutil::lower_of(input@),
                    )
                    &&& r is None
                },
                Message::ExecuteCommand(_) => {
                    &&& *final(self) == *old(self)
                    &&& r == Some(super::Event::CloseModal)
                },
            },
    {
        match message {
            Message::InputChanged(input) => {
                let needle = strutil::lowercase(input.as_str());
                let mut filtered: Vec<String> = Vec::new();
                let mut i: usize = 0;
                while i < self.commands.len()
                    invariant
                        i <= self.commands@.len(),
                        needle@ == strutil::lower_of(input@),
                        filtered@ == spec_filtered(self.commands@.subrange(0, i as int), needle@),
                    decreases self.commands@.len() - i,
                {
                    let lc = strutil::lowercase(self.commands[i].as_str());
                    if strutil::contains_sub(lc.as_str(), needle.as_str()) {
                        filtered.push(self.commands[i].clone());
                    }
                    proof {
                        let pre = self.commands@.subrange(0, i + 1);
                        assert(pre.drop_last() =~= self.commands@.subrange(0, i as int));
                        assert(pre.last() == self.commands@[i as int]);
                    }
                    i += 1;
                }
                proof {
                    assert(self.commands@.subrange(0, self.commands@.len() as int)
                        =~= self.commands@);
                }
                self.filtered = filtered;
                self.input_value = input.clone();
                None
            },
            Message::ExecuteCommand(_) => Some(super::Event::CloseModal),
        }
    }
}

} // verus!
