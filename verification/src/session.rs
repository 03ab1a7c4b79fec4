//! The mathematical model of a session and of its transitions.

use vstd::prelude::*;
use crate::key::{InputEvent, Key};

verus! {

/// The two input modes of a session.
#[derive(Clone, Copy, Debug, PartialEq, Eq, Structural)]
pub enum InputMode {
    /// Keys are commands of the viewer itself.
    Normal,
    /// Keys edit the pending command line.
    Command,
}

/// The command text that ends the session without reaching the interpreter.
pub open spec fn quit_command() -> Seq<char> {
    "quit()"@
}

/// The state of a session, as contracts speak of it.
pub struct Session {
    /// The display buffer, one entry per line.
    pub lines: Seq<Seq<char>>,
    /// The active input mode.
    pub mode: InputMode,
    /// The command line being edited.
    pub pending: Seq<char>,
    /// Whether the session has been asked to end.
    pub quit: bool,
    /// The command texts handed to the script host so far, oldest first.
    pub executed: Seq<Seq<char>>,
}

impl Session {
    /// The session that starts on `lines`: normal mode, nothing pending,
    /// nothing executed.
    pub open spec fn initial(lines: Seq<Seq<char>>) -> Session {
        Session {
            lines,
            mode: InputMode::Normal,
            pending: Seq::empty(),
            quit: false,
            executed: Seq::empty(),
        }
    }

    /// The invariant of a session: outside command mode nothing is pending.
    pub open spec fn wf(self) -> bool {
        self.mode == InputMode::Normal ==> self.pending.len() == 0
    }

    /// The command text that `key` submits to the script host in this
    /// state, if it submits one.
    pub open spec fn submits(self, key: Key) -> Option<Seq<char>> {
        let enter_in_command_mode = self.mode == InputMode::Command && key == Key::Enter;
        if enter_in_command_mode && self.pending != quit_command() {
            Some(self.pending)
        } else {
            None
        }
    }

    /// The state after `key` was pressed.
    pub open spec fn step(self, key: Key) -> Session {
        match self.mode {
            InputMode::Normal => match key {
                Key::Char(c) => if c == 'q' {
                    Session { quit: true, ..self }
                } else if c == ':' {
                    Session { mode: InputMode::Command, pending: Seq::empty(), ..self }
                } else {
                    self
                },
                _ => self,
            },
            InputMode::Command => match key {
                Key::Enter => Session {
                    mode: InputMode::Normal,
                    pending: Seq::empty(),
                    quit: self.quit || self.pending == quit_command(),
                    executed: match self.submits(key) {
                        Some(text) => self.executed.push(text),
                        None => self.executed,
                    },
                    ..self
                },
                Key::Esc => Session { mode: InputMode::Normal, pending: Seq::empty(), ..self },
                Key::Backspace => if self.pending.len() > 0 {
                    Session { pending: self.pending.drop_last(), ..self }
                } else {
                    self
                },
                Key::Char(c) => Session { pending: self.pending.push(c), ..self },
                Key::Other => self,
            },
        }
    }

    /// The state after `event` arrived: a key press steps the session, any
    /// other event leaves it as it is.
    pub open spec fn after_event(self, event: InputEvent) -> Session {
        match event.pressed() {
            Some(key) => self.step(key),
            None => self,
        }
    }

    /// The state after the keys of `keys` were pressed in order.
    pub open spec fn run(self, keys: Seq<Key>) -> Session
        decreases keys.len(),
    {
        if keys.len() == 0 {
            self
        } else {
            self.run(keys.drop_last()).step(keys.last())
        }
    }
}

/// A session that starts on any lines satisfies the invariant.
pub proof fn lemma_initial_is_wf(lines: Seq<Seq<char>>)
    ensures
        Session::initial(lines).wf(),
{
}

/// A key press keeps the invariant.
pub proof fn lemma_step_keeps_wf(s: Session, key: Key)
    requires
        s.wf(),
    ensures
        s.step(key).wf(),
{
}

/// Whatever keys are pressed, in whatever order, the pending command is
/// non-empty only in command mode.
pub proof fn lemma_run_keeps_wf(s: Session, keys: Seq<Key>)
    requires
        s.wf(),
    ensures
        s.run(keys).wf(),
        s.run(keys).mode == InputMode::Normal ==> s.run(keys).pending.len() == 0,
    decreases keys.len(),
{
    if keys.len() > 0 {
        lemma_run_keeps_wf(s, keys.drop_last());
        lemma_step_keeps_wf(s.run(keys.drop_last()), keys.last());
    }
}

/// In normal mode `:` opens command mode with an empty command line,
/// whatever the line held before, and changes nothing else.
pub proof fn lemma_colon_opens_empty_line(s: Session)
    requires
        s.mode == InputMode::Normal,
    ensures
        s.step(Key::Char(':')) == (Session {
            mode: InputMode::Command,
            pending: Seq::empty(),
            ..s
        }),
{
}

/// In normal mode `q` asks to quit and changes nothing else.
pub proof fn lemma_q_asks_to_quit(s: Session)
    requires
        s.mode == InputMode::Normal,
    ensures
        s.step(Key::Char('q')) == (Session { quit: true, ..s }),
{
}

/// In normal mode every key but `q` and `:` leaves the session as it is.
pub proof fn lemma_other_keys_are_ignored(s: Session, key: Key)
    requires
        s.mode == InputMode::Normal,
        key != Key::Char('q'),
        key != Key::Char(':'),
    ensures
        s.step(key) == s,
{
}

/// In command mode, Enter on exactly `quit()` asks to quit, returns to
/// normal mode with an empty command line, and hands nothing to the script
/// host.
pub proof fn lemma_quit_command_bypasses_host(s: Session)
    requires
        s.mode == InputMode::Command,
        s.pending == quit_command(),
    ensures
        s.submits(Key::Enter) is None,
        s.step(Key::Enter) == (Session {
            mode: InputMode::Normal,
            pending: Seq::empty(),
            quit: true,
            ..s
        }),
{
}

/// In command mode, Enter on any other text hands exactly that text to the
/// script host, once, returns to normal mode with an empty command line, and
/// changes nothing else. No outcome of the host enters into it.
pub proof fn lemma_enter_submits_once(s: Session)
    requires
        s.mode == InputMode::Command,
        s.pending != quit_command(),
    ensures
        s.submits(Key::Enter) == Some(s.pending),
        s.step(Key::Enter) == (Session {
            mode: InputMode::Normal,
            pending: Seq::empty(),
            executed: s.executed.push(s.pending),
            ..s
        }),
{
}

/// A key press hands the script host exactly what it submits: one text
/// more where it submits one, nothing where it does not. Only Enter in
/// command mode submits.
pub proof fn lemma_host_gets_what_is_submitted(s: Session, key: Key)
    ensures
        s.step(key).executed == match s.submits(key) {
            Some(text) => s.executed.push(text),
            None => s.executed,
        },
        s.submits(key) is Some ==> s.mode == InputMode::Command && key == Key::Enter,
{
}

/// In command mode Esc drops the pending command, returns to normal mode,
/// and hands nothing to the script host.
pub proof fn lemma_esc_discards(s: Session)
    requires
        s.mode == InputMode::Command,
    ensures
        s.submits(Key::Esc) is None,
        s.step(Key::Esc) == (Session {
            mode: InputMode::Normal,
            pending: Seq::empty(),
            ..s
        }),
{
}

/// Backspace on an empty command line changes nothing.
pub proof fn lemma_backspace_on_empty(s: Session)
    requires
        s.pending.len() == 0,
    ensures
        s.step(Key::Backspace) == s,
{
}

/// In command mode Backspace undoes the character key pressed before it.
pub proof fn lemma_backspace_undoes_char(s: Session, c: char)
    requires
        s.mode == InputMode::Command,
    ensures
        s.step(Key::Char(c)).step(Key::Backspace) == s,
{
    assert(s.pending.push(c).drop_last() =~= s.pending);
}

/// Keys never change the display buffer, and a request to quit is never
/// taken back.
pub proof fn lemma_run_keeps_lines_and_quit(s: Session, keys: Seq<Key>)
    ensures
        s.run(keys).lines == s.lines,
        s.quit ==> s.run(keys).quit,
    decreases keys.len(),
{
    if keys.len() > 0 {
        lemma_run_keeps_lines_and_quit(s, keys.drop_last());
    }
}

/// An event that is no key press changes nothing.
pub proof fn lemma_only_presses_count(s: Session, event: InputEvent)
    requires
        event.pressed() is None,
    ensures
        s.after_event(event) == s,
{
}

} // verus!
