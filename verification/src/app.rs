//! The application's top-level state and its reaction to key input.
//!
//! The state is a running flag, an input mode, and the URL editor. The
//! surrounding shell owns the terminal: it draws frames, reads events,
//! translates each into a plain `KeyPress`, and hands it to
//! `handle_key_event`, which decides everything that follows. In navigate
//! mode `q` or escape quits and `e` enters edit mode; in edit mode keys
//! edit the URL field, delete clears it, and escape returns to navigation.

use crate::event::{Key, KeyPress};
use crate::input::{
    is_append_of, is_move_of, is_remove_of, is_reset_of, CursorMoveDirection, TextField,
};
use vstd::prelude::*;

verus! {

/// Whether key input edits the focused field or navigates the view.
#[derive(Clone, Copy, PartialEq, Eq, Structural, Debug)]
pub enum InputMode {
    Edit,
    Navigate,
}

/// The mode that toggling leaves: edit and navigate swap places.
pub open spec fn toggled(m: InputMode) -> InputMode {
    match m {
        InputMode::Edit => InputMode::Navigate,
        InputMode::Navigate => InputMode::Edit,
    }
}

/// The application state driven by the shell's draw-then-poll loop.
pub struct App {
    pub running: bool,
    pub mode: InputMode,
    pub url_field: TextField,
}

/// How one application state follows from another on a key event. Release
/// events and unmapped keys change nothing. In navigate mode, `q` and
/// escape stop the application and `e` toggles the mode. In edit mode,
/// characters are inserted into the URL field, backspace deletes
/// backwards, the arrows move the cursor (word-skipping under control),
/// delete clears the field, and escape toggles the mode.
pub open spec fn key_event_step(post: App, pre: App, ev: KeyPress) -> bool {
    if !ev.pressed {
        post == pre
    } else {
        match pre.mode {
            InputMode::Navigate => match ev.key {
                Key::Char(c) => if c == 'q' {
                    &&& post.running == false
                    &&& post.mode == pre.mode
                    &&& post.url_field == pre.url_field
                } else if c == 'e' {
                    &&& post.running == pre.running
                    &&& post.mode == toggled(pre.mode)
                    &&& post.url_field == pre.url_field
                } else {
                    post == pre
                },
                Key::Esc => {
                    &&& post.running == false
                    &&& post.mode == pre.mode
                    &&& post.url_field == pre.url_field
                },
                _ => post == pre,
            },
            InputMode::Edit => match ev.key {
                Key::Char(c) => {
                    &&& post.running == pre.running
                    &&& post.mode == pre.mode
                    &&& is_append_of(post.url_field, pre.url_field, c)
                },
                Key::Backspace => {
                    &&& post.running == pre.running
                    &&& post.mode == pre.mode
                    &&& is_remove_of(post.url_field, pre.url_field)
                },
                Key::Left => {
                    &&& post.running == pre.running
                    &&& post.mode == pre.mode
                    &&& is_move_of(post.url_field, pre.url_field, CursorMoveDirection::Left, ev.ctrl)
                },
                Key::Right => {
                    &&& post.running == pre.running
                    &&& post.mode == pre.mode
                    &&& is_move_of(
                        post.url_field,
                        pre.url_field,
                        CursorMoveDirection::Right,
                        ev.ctrl,
                    )
                },
                Key::Delete => {
                    &&& post.running == pre.running
                    &&& post.mode == pre.mode
                    &&& is_reset_of(post.url_field, pre.url_field)
                },
                Key::Esc => {
                    &&& post.running == pre.running
                    &&& post.mode == toggled(pre.mode)
                    &&& post.url_field == pre.url_field
                },
                _ => post == pre,
            },
        }
    }
}

impl App {
    pub fn new() -> (r: App)
        ensures
            r.running == false,
            r.mode == InputMode::Navigate,
            r.url_field.wf(),
            r.url_field.text@ == Seq::<char>::empty(),
            r.url_field.cursor == 0,
            r.url_field.focused == false,
    {
        App { running: false, mode: InputMode::Navigate, url_field: TextField::new("URL") }
    }

    pub fn is_running(&self) -> (r: bool)
        ensures
            r == self.running,
    {
        self.running
    }

    /// Mark the application as running; the shell calls this once before
    /// entering its draw-then-poll loop.
    pub fn start(&mut self)
        ensures
            final(self).running == true,
            final(self).mode == old(self).mode,
            final(self).url_field == old(self).url_field,
    {
        self.running = true;
    }

    pub fn toggle_mode(&mut self)
        ensures
            final(self).mode == toggled(old(self).mode),
            final(self).running == old(self).running,
            final(self).url_field == old(self).url_field,
    {
        self.mode = match self.mode {
            InputMode::Edit => InputMode::Navigate,
            InputMode::Navigate => InputMode::Edit,
        };
    }

    pub fn quit(&mut self)
        ensures
            final(self).running == false,
            final(self).mode == old(self).mode,
            final(self).url_field == old(self).url_field,
    {
        self.running = false;
    }

    /// React to one key event, as `key_event_step` lays out.
    pub fn handle_key_event(&mut self, ev: KeyPress)
        requires
            old(self).url_field.wf(),
        ensures
            final(self).url_field.wf(),
            key_event_step(*final(self), *old(self), ev),
    {
        if !ev.pressed {
            return;
        }
        match self.mode {
            InputMode::Navigate => {
                match ev.key {
                    Key::Char(c) => {
                        if c == 'q' {
                            self.quit();
                        } else if c == 'e' {
                            self.toggle_mode();
                        }
                    },
                    Key::Esc => self.quit(),
                    _ => {},
                }
            },
            InputMode::Edit => {
                match ev.key {
                    Key::Char(c) => self.url_field.append(c),
                    Key::Backspace => self.url_field.remove(),
                    Key::Left => self.url_field.move_cursor(CursorMoveDirection::Left, ev.ctrl),
                    Key::Right => self.url_field.move_cursor(CursorMoveDirection::Right, ev.ctrl),
                    Key::Delete => self.url_field.reset(),
                    Key::Esc => self.toggle_mode(),
                    _ => {},
                }
            },
        }
    }
}

} // verus!
