//! The dashboard state and its event-loop state machine.
//!
//! `TuiApp` holds the input line, the bounded log buffer, the scroll offset
//! and the loop status.  The surrounding program renders frames, polls the
//! terminal and drains the log-sink channel; every decision — what a
//! keypress does, when the loop terminates, which lines survive capacity
//! enforcement — is made here.

use vstd::prelude::*;

use crate::textline::{exit_command, is_exit_command, trim_chars, trimmed};
use crate::viewport::{
    clamped_offset, scroll_down_target, scroll_up_target, window_bounds, window_end, window_start,
};

verus! {

/// State of the event loop: it runs until a submitted `exit` or an escape
/// keypress terminates it.
#[derive(Debug, Clone, Copy, PartialEq, Eq, Structural)]
pub enum LoopStatus {
    Running,
    Terminated,
}

/// A keyboard or terminal event, already stripped of everything the loop
/// ignores (release-phase key events and unhandled keys map to `Other`).
#[derive(Debug, Clone, Copy, PartialEq, Eq, Structural)]
pub enum InputEvent {
    /// A printable character was typed.
    Char(char),
    Backspace,
    PageUp,
    PageDown,
    /// Enter: submit the input line.
    Enter,
    /// Escape: terminate directly, whatever the input buffer holds.
    Esc,
    /// The terminal was resized; the next render picks the new size up.
    Resize,
    /// Any event the loop ignores.
    Other,
}

/// What applying an event asks of the surrounding program.
#[derive(Debug)]
pub enum EventOutcome {
    /// Nothing to do; keep cycling.
    Continue,
    /// The loop reached `Terminated`; stop cycling.
    Terminate,
    /// A non-empty command other than `exit` was submitted: report it as
    /// unrecognized (it is not executed), then keep cycling.
    ReportUnknown(Vec<char>),
}

/// Oldest-first eviction: the suffix of `s` holding its most recent
/// `min(s.len(), cap)` elements.
pub open spec fn drop_oldest(s: Seq<String>, cap: int) -> Seq<String> {
    if s.len() <= cap {
        s
    } else {
        s.skip(s.len() - cap)
    }
}

/// After an ingestion step over `s` pushed lines with capacity `cap`, the
/// buffer holds exactly `min(s.len(), cap)` lines: the most recent ones, in
/// their original order.
pub proof fn lemma_drop_oldest_is_recent_suffix(s: Seq<String>, cap: int)
    requires
        0 <= cap,
    ensures
        drop_oldest(s, cap).len() == if s.len() <= cap {
            s.len() as int
        } else {
            cap
        },
        forall|i: int|
            0 <= i < drop_oldest(s, cap).len() ==> drop_oldest(s, cap)[i] == s[s.len()
                - drop_oldest(s, cap).len() + i],
{
}

/// The dashboard state.
pub struct TuiApp {
    /// The input line; the cursor sits at its end.
    pub input: Vec<char>,
    /// The bounded log buffer, oldest line first.
    pub logs: Vec<String>,
    /// Scroll offset in lines from the bottom of the buffer.
    pub scroll_offset: usize,
    /// Whether the loop is still running.
    pub status: LoopStatus,
}

impl TuiApp {
    /// A fresh dashboard: empty input, empty buffer, bottom of the (empty)
    /// scroll range, loop running.
    pub fn new() -> (r: Self)
        ensures
            r.input@.len() == 0,
            r.logs@.len() == 0,
            r.scroll_offset == 0,
            r.status is Running,
    {
        TuiApp { input: Vec::new(), logs: Vec::new(), scroll_offset: 0, status: LoopStatus::Running }
    }

    /// Appends one typed character to the input line.
    pub fn insert_char(&mut self, c: char)
        ensures
            final(self).input@ == old(self).input@.push(c),
            final(self).logs@ == old(self).logs@,
            final(self).scroll_offset == old(self).scroll_offset,
            final(self).status == old(self).status,
    {
        self.input.push(c);
    }

    /// Removes the last character of the input line, if any.
    pub fn backspace(&mut self)
        ensures
            old(self).input@.len() == 0 ==> final(self).input@ == old(self).input@,
            old(self).input@.len() > 0 ==> final(self).input@ == old(self).input@.drop_last(),
            final(self).logs@ == old(self).logs@,
            final(self).scroll_offset == old(self).scroll_offset,
            final(self).status == old(self).status,
    {
        self.input.pop();
        proof {
            if old(self).input@.len() > 0 {
                assert(self.input@ =~= old(self).input@.drop_last());
            }
        }
    }

    /// Pages the viewport up (towards older lines), against the soft ceiling
    /// `max(0, total - SCROLL_SLACK)`; the render-time clamp re-applies the
    /// authoritative bound on the next frame.
    pub fn scroll_up(&mut self)
        ensures
            final(self).scroll_offset == scroll_up_target(
                old(self).scroll_offset as int,
                old(self).logs@.len() as int,
            ),
            final(self).input@ == old(self).input@,
            final(self).logs@ == old(self).logs@,
            final(self).status == old(self).status,
    {
        let total = self.logs.len();
        let ceiling: usize = if total > crate::viewport::SCROLL_SLACK {
            total - crate::viewport::SCROLL_SLACK
        } else {
            0
        };
        if self.scroll_offset >= ceiling {
            self.scroll_offset = ceiling;
        } else if ceiling - self.scroll_offset <= crate::viewport::SCROLL_STEP {
            self.scroll_offset = ceiling;
        } else {
            self.scroll_offset = self.scroll_offset + crate::viewport::SCROLL_STEP;
        }
    }

    /// Pages the viewport down (towards the most recent lines).
    pub fn scroll_down(&mut self)
        ensures
            final(self).scroll_offset == scroll_down_target(old(self).scroll_offset as int),
            final(self).input@ == old(self).input@,
            final(self).logs@ == old(self).logs@,
            final(self).status == old(self).status,
    {
        if self.scroll_offset > crate::viewport::SCROLL_STEP {
            self.scroll_offset = self.scroll_offset - crate::viewport::SCROLL_STEP;
        } else {
            self.scroll_offset = 0;
        }
    }

    /// Frame-time scroll clamp and window selection: clamps the offset to
    /// the authoritative bound and returns the window `[start, end)` of the
    /// log buffer to display for the given visible height.
    pub fn clamp_and_window(&mut self, visible_height: usize) -> (r: (usize, usize))
        ensures
            final(self).scroll_offset == clamped_offset(
                old(self).logs@.len() as int,
                visible_height as int,
                old(self).scroll_offset as int,
            ),
            r.0 == window_start(
                old(self).logs@.len() as int,
                visible_height as int,
                old(self).scroll_offset as int,
            ),
            r.1 == window_end(
                old(self).logs@.len() as int,
                visible_height as int,
                old(self).scroll_offset as int,
            ),
            r.0 <= r.1 <= old(self).logs@.len(),
            r.1 - r.0 <= visible_height,
            final(self).input@ == old(self).input@,
            final(self).logs@ == old(self).logs@,
            final(self).status == old(self).status,
    {
        let (clamped, start, end) = window_bounds(self.logs.len(), visible_height, self.scroll_offset);
        self.scroll_offset = clamped;
        (start, end)
    }

    /// Appends one line at the tail of the log buffer.
    pub fn push_line(&mut self, line: String)
        ensures
            final(self).logs@ == old(self).logs@.push(line),
            final(self).input@ == old(self).input@,
            final(self).scroll_offset == old(self).scroll_offset,
            final(self).status == old(self).status,
    {
        self.logs.push(line);
    }

    /// Evicts oldest lines first until at most `cap` remain: the buffer
    /// keeps its most recent `min(len, cap)` lines, in order.
    pub fn enforce_capacity(&mut self, cap: usize)
        ensures
            final(self).logs@ == drop_oldest(old(self).logs@, cap as int),
            final(self).logs@.len() <= cap,
            final(self).input@ == old(self).input@,
            final(self).scroll_offset == old(self).scroll_offset,
            final(self).status == old(self).status,
    {
        while self.logs.len() > cap
            invariant
                drop_oldest(self.logs@, cap as int) == drop_oldest(old(self).logs@, cap as int),
                self.input@ == old(self).input@,
                self.scroll_offset == old(self).scroll_offset,
                self.status == old(self).status,
            decreases self.logs@.len(),
        {
            let ghost pre = self.logs@;
            self.logs.remove(0);
            proof {
                assert(self.logs@ =~= pre.skip(1));
                assert(drop_oldest(pre.skip(1), cap as int) =~= drop_oldest(pre, cap as int));
            }
        }
    }

    /// One ingestion step: moves the drained log-sink messages into the
    /// buffer in arrival order, then enforces the capacity, so the buffer
    /// holds the most recent `min(old_len + drained, cap)` lines.
    pub fn ingest(&mut self, lines: Vec<String>, cap: usize)
        ensures
            final(self).logs@ == drop_oldest(old(self).logs@ + lines@, cap as int),
            final(self).logs@.len() <= cap,
            final(self).input@ == old(self).input@,
            final(self).scroll_offset == old(self).scroll_offset,
            final(self).status == old(self).status,
    {
        let mut drained = lines;
        self.logs.append(&mut drained);
        self.enforce_capacity(cap);
    }

    /// Submits the input line.  The command is the line trimmed of
    /// whitespace: an empty command leaves everything unchanged; any other
    /// clears the input line and resets the scroll to the bottom, then
    /// `exit` terminates the loop and anything else is reported as
    /// unrecognized (commands are not executed).
    pub fn submit(&mut self) -> (r: EventOutcome)
        ensures
            final(self).logs@ == old(self).logs@,
            trimmed(old(self).input@).len() == 0 ==> final(self).input@ == old(self).input@
                && final(self).scroll_offset == old(self).scroll_offset
                && final(self).status == old(self).status
                && r is Continue,
            trimmed(old(self).input@) == exit_command() ==> final(self).input@.len() == 0
                && final(self).scroll_offset == 0
                && final(self).status is Terminated
                && r is Terminate,
            trimmed(old(self).input@).len() != 0 && trimmed(old(self).input@) != exit_command()
                ==> final(self).input@.len() == 0
                && final(self).scroll_offset == 0
                && final(self).status == old(self).status
                && (r matches EventOutcome::ReportUnknown(cmd) && cmd@ == trimmed(old(self).input@)),
    {
        let cmd = trim_chars(&self.input);
        if cmd.len() == 0 {
            EventOutcome::Continue
        } else {
            self.input = Vec::new();
            self.scroll_offset = 0;
            if is_exit_command(&cmd) {
                self.status = LoopStatus::Terminated;
                EventOutcome::Terminate
            } else {
                EventOutcome::ReportUnknown(cmd)
            }
        }
    }

    /// Dispatches one event: characters and backspace edit the input line,
    /// page keys scroll the viewport, enter submits, escape terminates
    /// directly, and resize or anything else only prompts the next redraw.
    pub fn apply_event(&mut self, ev: InputEvent) -> (r: EventOutcome)
        ensures
            final(self).logs@ == old(self).logs@,
            ev matches InputEvent::Char(c) ==> final(self).input@ == old(self).input@.push(c)
                && final(self).scroll_offset == old(self).scroll_offset
                && final(self).status == old(self).status
                && r is Continue,
            ev is Backspace ==> final(self).input@ == (if old(self).input@.len() > 0 {
                old(self).input@.drop_last()
            } else {
                old(self).input@
            }) && final(self).scroll_offset == old(self).scroll_offset
                && final(self).status == old(self).status
                && r is Continue,
            ev is PageUp ==> final(self).input@ == old(self).input@
                && final(self).scroll_offset == scroll_up_target(
                old(self).scroll_offset as int,
                old(self).logs@.len() as int,
            ) && final(self).status == old(self).status
                && r is Continue,
            ev is PageDown ==> final(self).input@ == old(self).input@
                && final(self).scroll_offset == scroll_down_target(old(self).scroll_offset as int)
                && final(self).status == old(self).status
                && r is Continue,
            ev is Enter && trimmed(old(self).input@).len() == 0 ==> final(self).input@ == old(self).input@ && final(self).scroll_offset == old(self).scroll_offset
                && final(self).status == old(self).status
                && r is Continue,
            ev is Enter && trimmed(old(self).input@) == exit_command() ==> final(self).input@.len()
                == 0
                && final(self).scroll_offset == 0
                && final(self).status is Terminated
                && r is Terminate,
            ev is Enter && trimmed(old(self).input@).len() != 0 && trimmed(old(self).input@)
                != exit_command() ==> final(self).input@.len() == 0
                && final(self).scroll_offset == 0
                && final(self).status == old(self).status
                && (r matches EventOutcome::ReportUnknown(cmd) && cmd@ == trimmed(
                old(self).input@,
            )),
            ev is Esc ==> final(self).input@ == old(self).input@
                && final(self).scroll_offset == old(self).scroll_offset
                && final(self).status is Terminated
                && r is Terminate,
            ev is Resize || ev is Other ==> final(self).input@ == old(self).input@
                && final(self).scroll_offset == old(self).scroll_offset
                && final(self).status == old(self).status
                && r is Continue,
    {
        match ev {
            InputEvent::Char(c) => {
                self.insert_char(c);
                EventOutcome::Continue
            },
            InputEvent::Backspace => {
                self.backspace();
                EventOutcome::Continue
            },
            InputEvent::PageUp => {
                self.scroll_up();
                EventOutcome::Continue
            },
            InputEvent::PageDown => {
                self.scroll_down();
                EventOutcome::Continue
            },
            InputEvent::Enter => self.submit(),
            InputEvent::Esc => {
                self.status = LoopStatus::Terminated;
                EventOutcome::Terminate
            },
            InputEvent::Resize => EventOutcome::Continue,
            InputEvent::Other => EventOutcome::Continue,
        }
    }

    /// One loop cycle after the frame was drawn: applies the polled event,
    /// if one arrived, then unconditionally moves the drained log-sink
    /// messages into the buffer and enforces the capacity.  Returns
    /// `Terminate` exactly when the loop reached `Terminated`.
    pub fn cycle(&mut self, ev: Option<InputEvent>, drained: Vec<String>, cap: usize) -> (r:
        EventOutcome)
        requires
            old(self).status is Running,
        ensures
            final(self).logs@ == drop_oldest(old(self).logs@ + drained@, cap as int),
            final(self).logs@.len() <= cap,
            r is Terminate <==> final(self).status is Terminated,
            ev is None ==> final(self).input@ == old(self).input@
                && final(self).scroll_offset == old(self).scroll_offset
                && final(self).status is Running
                && r is Continue,
            ev matches Some(InputEvent::Char(c)) ==> final(self).input@ == old(self).input@.push(c) && final(self).scroll_offset == old(self).scroll_offset
                && final(self).status is Running
                && r is Continue,
            ev matches Some(InputEvent::Backspace) ==> final(self).input@ == (if old(self).input@.len() > 0 {
                old(self).input@.drop_last()
            } else {
                old(self).input@
            }) && final(self).scroll_offset == old(self).scroll_offset
                && final(self).status is Running
                && r is Continue,
            ev matches Some(InputEvent::PageUp) ==> final(self).input@ == old(self).input@
                && final(self).scroll_offset == scroll_up_target(
                old(self).scroll_offset as int,
                old(self).logs@.len() as int,
            ) && final(self).status is Running
                && r is Continue,
            ev matches Some(InputEvent::PageDown) ==> final(self).input@ == old(self).input@
                && final(self).scroll_offset == scroll_down_target(old(self).scroll_offset as int)
                && final(self).status is Running
                && r is Continue,
            ev matches Some(InputEvent::Enter) && trimmed(old(self).input@).len() == 0 ==> final(self).input@ == old(self).input@ && final(self).scroll_offset == old(self).scroll_offset
                && final(self).status is Running
                && r is Continue,
            ev matches Some(InputEvent::Enter) && trimmed(old(self).input@) == exit_command()
                ==> final(self).input@.len() == 0
                && final(self).scroll_offset == 0
                && final(self).status is Terminated
                && r is Terminate,
            ev matches Some(InputEvent::Enter) && trimmed(old(self).input@).len() != 0 && trimmed(
                old(self).input@,
            ) != exit_command() ==> final(self).input@.len() == 0
                && final(self).scroll_offset == 0
                && final(self).status is Running
                && (r matches EventOutcome::ReportUnknown(cmd) && cmd@ == trimmed(
                old(self).input@,
            )),
            ev matches Some(InputEvent::Esc) ==> final(self).input@ == old(self).input@
                && final(self).scroll_offset == old(self).scroll_offset
                && final(self).status is Terminated
                && r is Terminate,
            (ev matches Some(InputEvent::Resize)) || (ev matches Some(InputEvent::Other))
                ==> final(self).input@ == old(self).input@
                && final(self).scroll_offset == old(self).scroll_offset
                && final(self).status is Running
                && r is Continue,
    {
        let outcome = match ev {
            Some(event) => self.apply_event(event),
            None => EventOutcome::Continue,
        };
        self.ingest(drained, cap);
        outcome
    }
}

} // verus!
