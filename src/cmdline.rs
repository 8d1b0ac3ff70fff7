use vstd::prelude::*;
use crate::app::{push_char, App};
use crate::chars::string_of;

verus! {

impl App {
    /// Types `c` into the command line at its cursor.
    pub fn insert_cmd_char(&mut self, c: char)
        requires
            old(self).wf(),
        ensures
            final(self).wf(),
            *final(self) == (App { cmd: final(self).cmd, ..*old(self) }),
            old(self).cmd@.len() + 1 < usize::MAX ==> final(self).cmd@ == old(self).cmd@.insert(
                old(self).cmd.cursor as int,
                c,
            ) && final(self).cmd.cursor == old(self).cmd.cursor + 1,
            old(self).cmd@.len() + 1 >= usize::MAX ==> final(self).cmd == old(self).cmd,
    {
        if self.cmd.len() + 1 < usize::MAX {
            let at = self.cmd.cursor;
            self.cmd.insert(at, c);
        }
    }

    /// Backspace on the command line.
    pub fn delete_cmd_char(&mut self)
        requires
            old(self).wf(),
        ensures
            final(self).wf(),
            *final(self) == (App { cmd: final(self).cmd, ..*old(self) }),
            old(self).cmd.cursor > 0 ==> final(self).cmd@ == old(self).cmd@.remove(
                old(self).cmd.cursor - 1,
            ) && final(self).cmd.cursor == old(self).cmd.cursor - 1,
            old(self).cmd.cursor == 0 ==> final(self).cmd == old(self).cmd,
    {
        if self.cmd.cursor == 0 {
            return;
        }
        let at = self.cmd.cursor - 1;
        self.cmd.remove(at);
    }

    /// Moves the command-line cursor left, stopping at 0.
    pub fn move_cmd_cursor_left(&mut self)
        requires
            old(self).wf(),
        ensures
            final(self).wf(),
            final(self).cmd@ == old(self).cmd@,
            final(self).cmd.cursor == if old(self).cmd.cursor > 0 {
                old(self).cmd.cursor - 1
            } else {
                0
            },
            *final(self) == (App { cmd: final(self).cmd, ..*old(self) }),
    {
        if self.cmd.cursor > 0 {
            self.cmd.cursor = self.cmd.cursor - 1;
        }
    }

    /// Moves the command-line cursor right, stopping at the end.
    pub fn move_cmd_cursor_right(&mut self)
        requires
            old(self).wf(),
        ensures
            final(self).wf(),
            final(self).cmd@ == old(self).cmd@,
            final(self).cmd.cursor == if old(self).cmd.cursor < old(self).cmd@.len() {
                old(self).cmd.cursor + 1
            } else {
                old(self).cmd.cursor as int
            },
            *final(self) == (App { cmd: final(self).cmd, ..*old(self) }),
    {
        if self.cmd.cursor < self.cmd.len() {
            self.cmd.cursor = self.cmd.cursor + 1;
        }
    }

    /// Where the command-line cursor is.
    pub fn cmd_cursor_position(&self) -> (r: usize)
        ensures
            r == self.cmd.cursor,
    {
        self.cmd.cursor
    }

    /// Empties the command line.
    pub fn clear_cmd(&mut self)
        requires
            old(self).wf(),
        ensures
            final(self).wf(),
            final(self).cmd@.len() == 0,
            final(self).cmd.cursor == 0,
            *final(self) == (App { cmd: final(self).cmd, ..*old(self) }),
    {
        self.cmd.clear();
    }

    /// Submits the command line: returns its text, leaving it empty.
    pub fn take_cmd_text(&mut self) -> (r: String)
        requires
            old(self).wf(),
        ensures
            final(self).wf(),
            r@ == old(self).cmd@,
            final(self).cmd@.len() == 0,
            final(self).cmd.cursor == 0,
            *final(self) == (App { cmd: final(self).cmd, ..*old(self) }),
    {
        self.cmd.drain_all()
    }

    /// The text of the command line.
    pub fn get_cmd_text(&self) -> (r: String)
        requires
            self.wf(),
        ensures
            r@ == self.cmd@,
    {
        let v = self.cmd.slice(0, self.cmd.len());
        proof {
            assert(self.cmd@.subrange(0, self.cmd@.len() as int) =~= self.cmd@);
        }
        string_of(&v)
    }

    /// Adds a keystroke to the Normal-mode pending command.
    pub fn push_norm_char(&mut self, c: char)
        ensures
            final(self).norm@ == old(self).norm@.push(c),
            *final(self) == (App { norm: final(self).norm, ..*old(self) }),
    {
        push_char(&mut self.norm, c);
    }

    /// Drops the Normal-mode pending command.
    pub fn clear_norm(&mut self)
        ensures
            final(self).norm@.len() == 0,
            *final(self) == (App { norm: final(self).norm, ..*old(self) }),
    {
        self.norm = String::new();
    }

    /// The Normal-mode pending command.
    pub fn get_norm_text(&self) -> (r: String)
        ensures
            r@ == self.norm@,
    {
        self.norm.clone()
    }

    /// Adds a keystroke to the Visual-mode pending command.
    pub fn push_vis_char(&mut self, c: char)
        ensures
            final(self).vis@ == old(self).vis@.push(c),
            *final(self) == (App { vis: final(self).vis, ..*old(self) }),
    {
        push_char(&mut self.vis, c);
    }

    /// Drops the Visual-mode pending command.
    pub fn clear_vis(&mut self)
        ensures
            final(self).vis@.len() == 0,
            *final(self) == (App { vis: final(self).vis, ..*old(self) }),
    {
        self.vis = String::new();
    }

    /// Adds a keystroke to the Messages-mode pending command.
    pub fn push_char_to_messages_cmd(&mut self, c: char)
        ensures
            final(self).messages_cmd@ == old(self).messages_cmd@.push(c),
            *final(self) == (App { messages_cmd: final(self).messages_cmd, ..*old(self) }),
    {
        push_char(&mut self.messages_cmd, c);
    }

    /// Drops the Messages-mode pending command.
    pub fn clear_messages_cmd(&mut self)
        ensures
            final(self).messages_cmd@.len() == 0,
            *final(self) == (App { messages_cmd: final(self).messages_cmd, ..*old(self) }),
    {
        self.messages_cmd = String::new();
    }

    /// Adds a keystroke to the Clients-mode pending command.
    pub fn push_char_to_clients_cmd(&mut self, c: char)
        ensures
            final(self).clients_cmd@ == old(self).clients_cmd@.push(c),
            *final(self) == (App { clients_cmd: final(self).clients_cmd, ..*old(self) }),
    {
        push_char(&mut self.clients_cmd, c);
    }

    /// Drops the Clients-mode pending command.
    pub fn clear_clients_cmd(&mut self)
        ensures
            final(self).clients_cmd@.len() == 0,
            *final(self) == (App { clients_cmd: final(self).clients_cmd, ..*old(self) }),
    {
        self.clients_cmd = String::new();
    }
}

} // verus!
