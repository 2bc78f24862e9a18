use vstd::prelude::*;

use crate::key::KeyInput;
use crate::position::Position;
use crate::position::Size;
use crate::terminal::Terminal;

verus! {

/// The editor session: the terminal state and the flag that ends the event
/// loop.
pub struct Editor {
    pub should_quit: bool,
    pub terminal: Terminal,
}

/// The key combination that dismisses the greeting and ends the session.
pub open spec fn is_quit_key(key: KeyInput) -> bool {
    key == KeyInput::Ctrl('q')
}

/// The farewell line printed on the way out.
pub open spec fn goodbye_text() -> Seq<char> {
    seq!['G', 'o', 'o', 'd', 'b', 'y', 'e', '.', '\r', '\n']
}

impl Editor {
    /// A fresh session: not quitting, over a reset terminal state.
    pub fn default() -> (e: Editor)
        ensures
            !e.should_quit,
            e.terminal@.wf(),
            !e.terminal@.viz_mode,
            e.terminal@.captured.len() == 0,
            e.terminal@.lines.len() == 0,
            e.terminal@.anchor == (Position { x: 0u16, y: 0u16 }),
            e.terminal@.sel_cursor == (Position { x: 0u16, y: 0u16 }),
            e.terminal@.cursor == (Position { x: 0u16, y: 0u16 }),
            e.terminal@.offset == (Position { x: 0u16, y: 0u16 }),
            e.terminal@.size == (Size { height: 0u16, width: 0u16 }),
    {
        Editor { should_quit: false, terminal: Terminal::default() }
    }

    /// Dispatches one key press: the quit combination ends the session, and
    /// every other key goes to the terminal state. A failed edit leaves the
    /// state unchanged but for the viewport settling pass, so the event
    /// counts as a no-op rather than a fault.
    pub fn evaluate_event(&mut self, key: KeyInput)
        requires
            old(self).terminal@.wf(),
        ensures
            final(self).terminal@.wf(),
            is_quit_key(key) ==> final(self).should_quit
                && final(self).terminal == old(self).terminal,
            !is_quit_key(key) ==> final(self).should_quit == old(self).should_quit
                && final(self).terminal@ == old(self).terminal@.step(key).0,
    {
        let quit = match key {
            KeyInput::Ctrl(c) => c == 'q',
            _ => false,
        };
        if quit {
            self.should_quit = true;
        } else {
            // A failed edit left the session unchanged; treat the event as
            // a no-op and wait for the next one.
            match self.terminal.move_cursor(key) {
                Ok(()) => (),
                Err(_) => (),
            }
        }
    }

    /// Decides what the refresh pass must print before the next event: the
    /// farewell line once the session is quitting, nothing otherwise.
    pub fn refresh_screen(&self) -> (msg: Option<Vec<char>>)
        ensures
            self.should_quit ==> (msg matches Some(m) && m@ == goodbye_text()),
            !self.should_quit ==> msg is None,
    {
        if self.should_quit {
            let mut m: Vec<char> = Vec::new();
            m.push('G');
            m.push('o');
            m.push('o');
            m.push('d');
            m.push('b');
            m.push('y');
            m.push('e');
            m.push('.');
            m.push('\r');
            m.push('\n');
            proof {
                assert(m@ =~= goodbye_text());
            }
            Some(m)
        } else {
            None
        }
    }
}

} // verus!
