//! The command bar: a one-line input invoked by the command-bar character.
//! Confirming interprets the text as a command: `q` quits, a category name
//! navigates there, anything else does nothing.

use vstd::prelude::*;

use crate::components::ComponentReturn;
use crate::input::{ComponentEvent, KeyCode, KeyEvent};
use crate::types::nav::Nav;
use crate::util::str_eq;

verus! {

/// A command-bar message: text editing, confirmation or cancellation.
#[derive(Clone, Copy, PartialEq, Eq, Structural, Debug)]
pub enum LaunchBarMsg {
    Append(char),
    Backspace,
    Confirm,
    Cancel,
}

/// What a confirmed command-bar text asks for.
#[derive(Clone, Copy, PartialEq, Eq, Structural, Debug)]
pub enum LaunchCmd {
    Quit,
    Goto(Nav),
    Unknown,
}

/// The command the bar's text denotes.
pub open spec fn spec_parse_command(s: Seq<char>) -> LaunchCmd {
    if s == "q"@ {
        LaunchCmd::Quit
    } else if s == "connectors"@ {
        LaunchCmd::Goto(Nav::ConnectorsList)
    } else if s == "assets"@ {
        LaunchCmd::Goto(Nav::AssetsList)
    } else if s == "policies"@ {
        LaunchCmd::Goto(Nav::PoliciesList)
    } else if s == "contract-definitions"@ {
        LaunchCmd::Goto(Nav::ContractDefinitionsList)
    } else if s == "contract-negotiations"@ {
        LaunchCmd::Goto(Nav::ContractNegotiationsList)
    } else if s == "contract-agreements"@ {
        LaunchCmd::Goto(Nav::ContractAgreementsList)
    } else if s == "transfer-processes"@ {
        LaunchCmd::Goto(Nav::TransferProcessesList)
    } else if s == "edrs"@ {
        LaunchCmd::Goto(Nav::EdrsList)
    } else if s == "dataplanes"@ {
        LaunchCmd::Goto(Nav::DataPlanesList)
    } else {
        LaunchCmd::Unknown
    }
}

/// The messages a key press produces in the command bar: characters and
/// backspace edit, Enter confirms, Escape cancels.
pub open spec fn launch_bar_key_msgs(key: KeyEvent) -> Seq<LaunchBarMsg> {
    match key.code {
        KeyCode::Char(c) => seq![LaunchBarMsg::Append(c)],
        KeyCode::Backspace => seq![LaunchBarMsg::Backspace],
        KeyCode::Enter => seq![LaunchBarMsg::Confirm],
        KeyCode::Esc => seq![LaunchBarMsg::Cancel],
        _ => Seq::<LaunchBarMsg>::empty(),
    }
}

/// The command bar's state: the text typed so far.
#[derive(Debug)]
pub struct LaunchBar {
    pub input: String,
}

impl Default for LaunchBar {
    fn default() -> (b: LaunchBar)
        ensures
            b.input@ == Seq::<char>::empty(),
    {
        LaunchBar { input: String::new() }
    }
}

impl LaunchBar {
    /// Empties the bar, as navigation and cancellation do.
    pub fn clear(&mut self)
        ensures
            final(self).input@ == Seq::<char>::empty(),
    {
        self.input = String::new();
    }

    /// The command the current text denotes.
    pub fn parse_command(&self) -> (r: LaunchCmd)
        ensures
            r == spec_parse_command(self.input@),
    {
        let s = self.input.as_str();
        if str_eq(s, "q") {
            LaunchCmd::Quit
        } else if str_eq(s, "connectors") {
            LaunchCmd::Goto(Nav::ConnectorsList)
        } else if str_eq(s, "assets") {
            LaunchCmd::Goto(Nav::AssetsList)
        } else if str_eq(s, "policies") {
            LaunchCmd::Goto(Nav::PoliciesList)
        } else if str_eq(s, "contract-definitions") {
            LaunchCmd::Goto(Nav::ContractDefinitionsList)
        } else if str_eq(s, "contract-negotiations") {
            LaunchCmd::Goto(Nav::ContractNegotiationsList)
        } else if str_eq(s, "contract-agreements") {
            LaunchCmd::Goto(Nav::ContractAgreementsList)
        } else if str_eq(s, "transfer-processes") {
            LaunchCmd::Goto(Nav::TransferProcessesList)
        } else if str_eq(s, "edrs") {
            LaunchCmd::Goto(Nav::EdrsList)
        } else if str_eq(s, "dataplanes") {
            LaunchCmd::Goto(Nav::DataPlanesList)
        } else {
            LaunchCmd::Unknown
        }
    }

    /// Processes one editing message; confirmation and cancellation are the
    /// owner's to interpret.
    pub fn update(&mut self, msg: LaunchBarMsg) -> (r: ComponentReturn<LaunchBarMsg, ()>)
        ensures
            r.is_empty(),
            final(self).input@ == (match msg {
                LaunchBarMsg::Append(c) => old(self).input@.push(c),
                LaunchBarMsg::Backspace => if old(self).input@.len() == 0 {
                    old(self).input@
                } else {
                    old(self).input@.drop_last()
                },
                LaunchBarMsg::Confirm | LaunchBarMsg::Cancel => old(self).input@,
            }),
    {
        match msg {
            LaunchBarMsg::Append(c) => {
                self.input.push(c);
            },
            LaunchBarMsg::Backspace => {
                self.input.pop();
            },
            LaunchBarMsg::Confirm => {},
            LaunchBarMsg::Cancel => {},
        }
        ComponentReturn::empty()
    }

    /// Turns a key press into command-bar messages, as
    /// [`launch_bar_key_msgs`] states.
    pub fn handle_key(&self, key: KeyEvent) -> (msgs: Vec<LaunchBarMsg>)
        ensures
            msgs@ == launch_bar_key_msgs(key),
    {
        let mut msgs: Vec<LaunchBarMsg> = Vec::new();
        proof {
            assert(msgs@ =~= Seq::<LaunchBarMsg>::empty());
        }
        let m: Option<LaunchBarMsg> = match key.code {
            KeyCode::Char(c) => Some(LaunchBarMsg::Append(c)),
            KeyCode::Backspace => Some(LaunchBarMsg::Backspace),
            KeyCode::Enter => Some(LaunchBarMsg::Confirm),
            KeyCode::Esc => Some(LaunchBarMsg::Cancel),
            _ => None,
        };
        match m {
            Some(msg) => {
                msgs.push(msg);
                proof {
                    assert(msgs@ =~= seq![msgs@[0]]);
                }
            },
            None => {},
        }
        msgs
    }

    /// Raw-input entry point of the component contract.
    pub fn handle_event(&self, evt: ComponentEvent) -> (msgs: Vec<LaunchBarMsg>)
        ensures
            match evt {
                ComponentEvent::Key(key) => msgs@ == launch_bar_key_msgs(key),
            },
    {
        match evt {
            ComponentEvent::Key(key) => self.handle_key(key),
        }
    }
}

} // verus!
