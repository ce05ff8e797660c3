//! The repository input field: a text buffer edited one character at a time.

use vstd::prelude::*;

verus! {

/// The editable repository-name buffer.
pub struct RepoEntry {
    pub text: String,
}

impl RepoEntry {
    /// A buffer holding the given initial name, or empty without one.
    pub fn new(initial: Option<String>) -> (r: RepoEntry)
        ensures
            match initial {
                Some(s) => r.text@ == s@,
                None => r.text@ == Seq::<char>::empty(),
            },
    {
        match initial {
            Some(s) => RepoEntry { text: s },
            None => RepoEntry { text: String::new() },
        }
    }

    /// A copy of the buffer.
    pub fn get(&self) -> (r: String)
        ensures
            r@ == self.text@,
    {
        self.text.clone()
    }

    /// Replaces the buffer.
    pub fn set(&mut self, t: String)
        ensures
            final(self).text == t,
    {
        self.text = t;
    }

    /// Appends one typed character to the buffer.
    pub fn insert_char(&mut self, c: char)
        ensures
            final(self).text@ == old(self).text@.push(c),
    {
        crate::strings::push_char(&mut self.text, c);
    }

    /// Removes the character before the cursor; an empty buffer stays empty.
    pub fn backspace(&mut self)
        ensures
            old(self).text@.len() == 0 ==> final(self).text@ == old(self).text@,
            old(self).text@.len() > 0 ==> final(self).text@ == old(self).text@.drop_last(),
    {
        let _ = crate::strings::pop_char(&mut self.text);
    }
}

} // verus!
