//! The renderer: what a session shows on a frame, and where.

use vstd::prelude::*;
use vstd::string::StringExecFns;
use ratatui::layout::{Constraint, Direction, Layout, Rect};
use crate::app::App;
use crate::session::{InputMode, Session};
use crate::text::texts;

verus! {

/// Rows of the command box, borders included.
pub const PROMPT_ROWS: u16 = 3;

/// Rows that the log view keeps at least while the command box is open.
pub const LOG_MIN_ROWS: u16 = 3;

/// A rectangle of terminal cells.
#[derive(Clone, Copy, Debug, PartialEq, Eq, Structural)]
pub struct Area {
    /// Column of the left edge.
    pub x: u16,
    /// Row of the top edge.
    pub y: u16,
    /// Number of columns.
    pub width: u16,
    /// Number of rows.
    pub height: u16,
}

impl Area {
    /// Whether `self` can be cut into a lower part of `bottom` rows and an
    /// upper part of at least `top_min` rows.
    pub open spec fn fits(self, top_min: u16, bottom: u16) -> bool {
        &&& self.y + self.height <= u16::MAX
        &&& top_min + bottom <= self.height
    }

    /// `self` without its last `bottom` rows.
    pub open spec fn upper(self, bottom: u16) -> Area {
        Area { height: (self.height - bottom) as u16, ..self }
    }

    /// The last `bottom` rows of `self`.
    pub open spec fn lower(self, bottom: u16) -> Area {
        Area { y: (self.y + self.height - bottom) as u16, height: bottom, ..self }
    }
}

/// `ratatui::layout::Layout::split`, on a vertical layout of two parts under
/// the constraints `Min(top_min)` and `Length(bottom)`, in that order, with
/// no margin and no spacing. Claimed: where `area` has room for both, the
/// second part is exactly the last `bottom` rows of `area`, and the first
/// part, which grows into what is left, is all the rows above them. Where
/// there is no room for both, the engine weighs the constraints against each
/// other, and nothing is claimed of the parts. The engine reads a minimum as
/// a signed 16-bit number, so larger ones are left out.
#[verifier::external_body]
fn split_rows(area: Area, top_min: u16, bottom: u16) -> (parts: (Area, Area))
    requires
        top_min <= i16::MAX,
    ensures
        area.fits(top_min, bottom) ==> parts == (area.upper(bottom), area.lower(bottom)),
{
    let rect = Rect { x: area.x, y: area.y, width: area.width, height: area.height };
    let parts = Layout::default()
        .direction(Direction::Vertical)
        .constraints([Constraint::Min(top_min), Constraint::Length(bottom)])
        .split(rect);
    let (a, b) = (parts[0], parts[1]);
    (
        Area { x: a.x, y: a.y, width: a.width, height: a.height },
        Area { x: b.x, y: b.y, width: b.width, height: b.height },
    )
}

/// The colour of a box's border.
#[derive(Clone, Copy, Debug, PartialEq, Eq, Structural)]
pub enum Border {
    /// The terminal's default colour.
    Plain,
    /// Yellow, which marks the log view.
    Yellow,
}

/// The bordered box that lists the buffer.
#[derive(Debug, PartialEq, Eq)]
pub struct LogPanel {
    /// Where the box is drawn.
    pub area: Area,
    /// The title on its border.
    pub title: String,
    /// The colour of its border.
    pub border: Border,
    /// Its rows, top to bottom, unstyled. Clipping is left to the terminal.
    pub lines: Vec<String>,
}

/// The bordered box that shows the command line.
#[derive(Debug, PartialEq, Eq)]
pub struct PromptPanel {
    /// Where the box is drawn.
    pub area: Area,
    /// The title on its border.
    pub title: String,
    /// The colour of its border.
    pub border: Border,
    /// Its single row of text.
    pub text: String,
}

/// One frame of a session.
#[derive(Debug, PartialEq, Eq)]
pub struct Screen {
    /// The log view.
    pub log: LogPanel,
    /// The command box, present in command mode only.
    pub prompt: Option<PromptPanel>,
}

impl Screen {
    /// Whether this frame shows the session `s`: the log view, titled
    /// "Log View" and bordered in yellow, lists every line of the buffer in
    /// order; in command mode, and only then, a box titled "Command" shows
    /// a colon followed by the pending command.
    pub open spec fn shows(self, s: Session) -> bool {
        &&& self.log.title@ == "Log View"@
        &&& self.log.border == Border::Yellow
        &&& texts(self.log.lines@) == s.lines
        &&& match self.prompt {
            Some(prompt) => {
                &&& s.mode == InputMode::Command
                &&& prompt.title@ == "Command"@
                &&& prompt.border == Border::Plain
                &&& prompt.text@ == ":"@ + s.pending
            },
            None => s.mode == InputMode::Normal,
        }
    }

    /// Whether the boxes of this frame lie at `log_area` and, where there is
    /// a command box, at `prompt_area`.
    pub open spec fn placed(self, log_area: Area, prompt_area: Area) -> bool {
        &&& self.log.area == log_area
        &&& self.prompt matches Some(prompt) ==> prompt.area == prompt_area
    }
}

/// A copy of `lines`.
fn copy_lines(lines: &Vec<String>) -> (copy: Vec<String>)
    ensures
        texts(copy@) == texts(lines@),
{
    let mut copy: Vec<String> = Vec::new();
    let mut i: usize = 0;
    while i < lines.len()
        invariant
            i <= lines.len(),
            copy.len() == i,
            forall|j: int| 0 <= j < i ==> copy[j]@ == lines[j]@,
        decreases lines.len() - i,
    {
        copy.push(lines[i].clone());
        i += 1;
    }
    assert(texts(copy@) =~= texts(lines@));
    copy
}

/// The frame of `app` with its log view at `log_area` and, in command mode,
/// its command box at `prompt_area`.
pub fn compose(app: &App, log_area: Area, prompt_area: Area) -> (screen: Screen)
    ensures
        screen.shows(app@),
        screen.placed(log_area, prompt_area),
{
    let log = LogPanel {
        area: log_area,
        title: "Log View".to_owned(),
        border: Border::Yellow,
        lines: copy_lines(app.content()),
    };
    let prompt = match app.input_mode() {
        InputMode::Command => {
            let mut text = ":".to_owned();
            text.append(app.input_buffer());
            Some(
                PromptPanel {
                    area: prompt_area,
                    title: "Command".to_owned(),
                    border: Border::Plain,
                    text,
                },
            )
        },
        InputMode::Normal => None,
    };
    Screen { log, prompt }
}

/// The frame of `app` on a terminal of size `area`. In normal mode the log
/// view fills `area`. In command mode the command box takes the last
/// `PROMPT_ROWS` rows and the log view the rows above, at least
/// `LOG_MIN_ROWS` of them; where `area` is too low for both, the layout
/// engine decides how the rows are shared.
pub fn ui(app: &App, area: Area) -> (screen: Screen)
    ensures
        screen.shows(app@),
        app@.mode == InputMode::Normal ==> screen.log.area == area,
        app@.mode == InputMode::Command && area.fits(LOG_MIN_ROWS, PROMPT_ROWS)
            ==> screen.placed(area.upper(PROMPT_ROWS), area.lower(PROMPT_ROWS)),
{
    match app.input_mode() {
        InputMode::Command => {
            let (top, bottom) = split_rows(area, LOG_MIN_ROWS, PROMPT_ROWS);
            compose(app, top, bottom)
        },
        InputMode::Normal => compose(app, area, area),
    }
}

} // verus!
