//! The two display-only widgets: the one-line status bar and the details pane.

use vstd::prelude::*;

verus! {

use vstd::string::StringExecFns;

/// The one-line status bar at the bottom of the frame.
pub struct Info {
    pub text: String,
}

impl Info {
    /// A status bar showing the given message.
    pub fn new(msg: &str) -> (r: Info)
        ensures
            r.text@ == msg@,
    {
        Info { text: String::from_str(msg) }
    }

    /// Replaces the shown message.
    pub fn set_text(&mut self, msg: String)
        ensures
            final(self).text == msg,
    {
        self.text = msg;
    }
}

/// The pane listing the architectures of the highlighted tag.
pub struct Details {
    pub lines: Vec<String>,
}

impl Details {
    /// An empty details pane.
    pub fn new() -> (r: Details)
        ensures
            r.lines@.len() == 0,
    {
        Details { lines: Vec::new() }
    }
}

} // verus!
