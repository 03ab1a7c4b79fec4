//! The session itself: its state, and how keys and events change it.

use vstd::prelude::*;
use crate::host::ScriptHost;
use crate::key::{InputEvent, Key};
use crate::session::{InputMode, Session};
use crate::text::{lines_of, split_lines, texts};

verus! {

/// The lines shown when a session starts without a file.
pub open spec fn welcome_lines() -> Seq<Seq<char>> {
    seq!["Welcome to logview!"@, "Press ':' to open command prompt, 'q' to quit."@]
}

/// The lines that a session starts on: those of the file's contents, or the
/// welcome lines where there is no file.
pub open spec fn initial_lines(contents: Option<Seq<char>>) -> Seq<Seq<char>> {
    match contents {
        Some(text) => lines_of(text),
        None => welcome_lines(),
    }
}

/// Whether the event loop goes on after an event.
#[derive(Clone, Copy, Debug, PartialEq, Eq, Structural)]
pub enum Control {
    /// Draw again and wait for the next event.
    Continue,
    /// Leave the loop.
    Quit,
}

/// A running session.
pub struct App {
    content: Vec<String>,
    should_quit: bool,
    input_mode: InputMode,
    input_buffer: String,
    host: ScriptHost,
}

impl View for App {
    type V = Session;

    closed spec fn view(&self) -> Session {
        Session {
            lines: texts(self.content@),
            mode: self.input_mode,
            pending: self.input_buffer@,
            quit: self.should_quit,
            executed: self.host.history(),
        }
    }
}

impl App {
    /// Starts a session on the lines of `contents`, or on the welcome lines
    /// where there are none, with a fresh script host.
    pub fn new(contents: Option<&str>) -> (app: App)
        ensures
            app@ == Session::initial(
                initial_lines(
                    match contents {
                        Some(text) => Some(text@),
                        None => None,
                    },
                ),
            ),
            app@.wf(),
    {
        let content = match contents {
            Some(text) => split_lines(text),
            None => {
                let mut lines: Vec<String> = Vec::new();
                lines.push("Welcome to logview!".to_owned());
                lines.push("Press ':' to open command prompt, 'q' to quit.".to_owned());
                assert(texts(lines@) == welcome_lines());
                lines
            },
        };
        App {
            content,
            should_quit: false,
            input_mode: InputMode::Normal,
            input_buffer: String::new(),
            host: ScriptHost::new(),
        }
    }

    /// The display buffer, one string per line.
    pub fn content(&self) -> (lines: &Vec<String>)
        ensures
            texts(lines@) == self@.lines,
    {
        &self.content
    }

    /// The active input mode.
    pub fn input_mode(&self) -> (mode: InputMode)
        ensures
            mode == self@.mode,
    {
        self.input_mode
    }

    /// The command line being edited; empty outside command mode.
    pub fn input_buffer(&self) -> (pending: &str)
        ensures
            pending@ == self@.pending,
    {
        self.input_buffer.as_str()
    }

    /// Whether the session has been asked to end.
    pub fn should_quit(&self) -> (quit: bool)
        ensures
            quit == self@.quit,
    {
        self.should_quit
    }

    /// Ends the session and hands out its script host, with all that the
    /// session's commands have bound in it.
    pub fn into_host(self) -> (host: ScriptHost)
        ensures
            host.history() == self@.executed,
    {
        self.host
    }

    /// Applies one key press. In normal mode `q` asks to quit and `:` opens
    /// an empty command line. In command mode Enter submits the line, Esc
    /// drops it, Backspace removes its last character and a character key
    /// appends to it. The line `quit()` asks to quit and never reaches the
    /// script host; any other line is handed to it exactly once, and the
    /// outcome is ignored.
    pub fn handle_key_event(&mut self, key: Key)
        ensures
            final(self)@ == old(self)@.step(key),
            old(self)@.wf() ==> final(self)@.wf(),
    {
        match self.input_mode {
            InputMode::Normal => match key {
                Key::Char(c) => {
                    if c == 'q' {
                        self.should_quit = true;
                    } else if c == ':' {
                        self.input_mode = InputMode::Command;
                        self.input_buffer.clear();
                    }
                },
                _ => {},
            },
            InputMode::Command => match key {
                Key::Enter => {
                    let quit = "quit()".to_owned();
                    if self.input_buffer == quit {
                        self.should_quit = true;
                    } else {
                        let _outcome = self.host.execute(self.input_buffer.as_str());
                    }
                    self.input_buffer.clear();
                    self.input_mode = InputMode::Normal;
                },
                Key::Esc => {
                    self.input_buffer.clear();
                    self.input_mode = InputMode::Normal;
                },
                Key::Backspace => {
                    self.input_buffer.pop();
                },
                Key::Char(c) => {
                    self.input_buffer.push(c);
                },
                Key::Other => {},
            },
        }
    }

    /// Applies one terminal event and says whether the loop goes on. Only a
    /// key press changes the session; releases, repeats and events that are
    /// no key events are dropped. The loop ends once quitting was asked for.
    pub fn handle_event(&mut self, event: InputEvent) -> (control: Control)
        ensures
            final(self)@ == old(self)@.after_event(event),
            old(self)@.wf() ==> final(self)@.wf(),
            control == if final(self)@.quit {
                Control::Quit
            } else {
                Control::Continue
            },
    {
        match event.pressed_key() {
            Some(key) => self.handle_key_event(key),
            None => {},
        }
        if self.should_quit {
            Control::Quit
        } else {
            Control::Continue
        }
    }
}

} // verus!
