//! What the terminal reports, and the decisions of the loop that reads it.

use vstd::prelude::*;
use crate::key::KeyEvent;

verus! {

/// A mouse event: where the pointer was and which modifiers were held.
#[derive(Debug, Clone, Copy, PartialEq, Eq, Structural)]
pub struct MouseEvent {
    pub column: u16,
    pub row: u16,
    pub modifiers: u8,
}

/// What the event loop hands to the dispatcher.
#[derive(Debug, Clone, Copy, PartialEq, Eq, Structural)]
pub enum Event {
    Init,
    Quit,
    Error,
    Closed,
    Tick,
    Render,
    FocusGained,
    FocusLost,
    Key(KeyEvent),
    Mouse(MouseEvent),
}

/// What was read from the terminal.
#[derive(Debug, Clone, Copy, PartialEq, Eq, Structural)]
pub enum Input {
    /// A key event; `pressed` says whether the key went down, as opposed to
    /// being held or let go.
    Key { key: KeyEvent, pressed: bool },
    Mouse(MouseEvent),
    FocusGained,
    FocusLost,
    /// Anything else: pasted text, a new size.
    Other,
    /// Reading failed.
    Failed,
    /// The terminal will report nothing more.
    Ended,
}

/// What the event loop does with what it read.
#[derive(Debug, Clone, Copy, PartialEq, Eq, Structural)]
pub enum Reading {
    /// Hand the event on.
    Deliver(Event),
    /// Read on.
    Skip,
    /// Leave the loop.
    Stop,
}

/// What becomes of `input`: key presses, mouse events and changes of focus
/// are handed on, a failure is handed on as an error, the end of the input
/// ends the loop, and the rest is passed over.
pub open spec fn reading_of(input: Input) -> Reading {
    match input {
        Input::Key { key, pressed } => if pressed {
            Reading::Deliver(Event::Key(key))
        } else {
            Reading::Skip
        },
        Input::Mouse(mouse) => Reading::Deliver(Event::Mouse(mouse)),
        Input::FocusLost => Reading::Deliver(Event::FocusLost),
        Input::FocusGained => Reading::Deliver(Event::FocusGained),
        Input::Other => Reading::Skip,
        Input::Failed => Reading::Deliver(Event::Error),
        Input::Ended => Reading::Stop,
    }
}

/// Decides what the event loop does with `input`.
pub fn read(input: Input) -> (reading: Reading)
    ensures
        reading == reading_of(input),
{
    match input {
        Input::Key { key, pressed } => {
            if pressed {
                Reading::Deliver(Event::Key(key))
            } else {
                Reading::Skip
            }
        },
        Input::Mouse(mouse) => Reading::Deliver(Event::Mouse(mouse)),
        Input::FocusLost => Reading::Deliver(Event::FocusLost),
        Input::FocusGained => Reading::Deliver(Event::FocusGained),
        Input::Other => Reading::Skip,
        Input::Failed => Reading::Deliver(Event::Error),
        Input::Ended => Reading::Stop,
    }
}

/// The milliseconds between two ticks.
pub const TICK_MS: u64 = 100;

/// What the event loop hands on when a tick is due: the tick, which drops
/// the keys that wait, and after it the request to paint.
pub fn tick() -> (events: Vec<Event>)
    ensures
        events@ == seq![Event::Tick, Event::Render],
{
    let mut events: Vec<Event> = Vec::new();
    events.push(Event::Tick);
    events.push(Event::Render);
    assert(events@ =~= seq![Event::Tick, Event::Render]);
    events
}

/// The milliseconds that the event loop is given to end by itself.
pub const GRACE_MS: u32 = 50;

/// The milliseconds after which waiting for the event loop is given up.
pub const LIMIT_MS: u32 = 100;

/// What to do while the event loop has not ended.
#[derive(Debug, Clone, Copy, PartialEq, Eq, Structural)]
pub struct StopStep {
    /// End the loop's task by force.
    pub abort: bool,
    /// Stop waiting and report that the task did not end.
    pub give_up: bool,
}

/// Decides how to go on waiting for the event loop after `waited_ms`
/// milliseconds: past the grace period the task is ended by force, past the
/// limit the wait is given up.
pub fn stop_step(waited_ms: u32) -> (step: StopStep)
    ensures
        step.abort == (waited_ms > GRACE_MS),
        step.give_up == (waited_ms > LIMIT_MS),
{
    StopStep { abort: waited_ms > GRACE_MS, give_up: waited_ms > LIMIT_MS }
}

/// One step of setting the terminal up or of giving it back.
#[derive(Debug, Clone, Copy, PartialEq, Eq, Structural)]
pub enum TerminalCommand {
    EnableRawMode,
    EnterAlternateScreen,
    HideCursor,
    EnableMouseCapture,
    Flush,
    DisableMouseCapture,
    LeaveAlternateScreen,
    ShowCursor,
    DisableRawMode,
}

/// The steps that set the terminal up, in order; the mouse is captured only
/// where `mouse` asks for it.
pub open spec fn enter_steps(mouse: bool) -> Seq<TerminalCommand> {
    if mouse {
        seq![
            TerminalCommand::EnableRawMode,
            TerminalCommand::EnterAlternateScreen,
            TerminalCommand::HideCursor,
            TerminalCommand::EnableMouseCapture,
        ]
    } else {
        seq![
            TerminalCommand::EnableRawMode,
            TerminalCommand::EnterAlternateScreen,
            TerminalCommand::HideCursor,
        ]
    }
}

/// The steps that give the terminal back, in order. A terminal that is not
/// in raw mode was not set up, or was given back already, and needs none.
pub open spec fn exit_steps(raw_mode: bool, mouse: bool) -> Seq<TerminalCommand> {
    if !raw_mode {
        Seq::<TerminalCommand>::empty()
    } else if mouse {
        seq![
            TerminalCommand::Flush,
            TerminalCommand::DisableMouseCapture,
            TerminalCommand::LeaveAlternateScreen,
            TerminalCommand::ShowCursor,
            TerminalCommand::DisableRawMode,
        ]
    } else {
        seq![
            TerminalCommand::Flush,
            TerminalCommand::LeaveAlternateScreen,
            TerminalCommand::ShowCursor,
            TerminalCommand::DisableRawMode,
        ]
    }
}

/// The steps that set the terminal up.
pub fn enter(mouse: bool) -> (steps: Vec<TerminalCommand>)
    ensures
        steps@ == enter_steps(mouse),
{
    let mut steps: Vec<TerminalCommand> = Vec::new();
    steps.push(TerminalCommand::EnableRawMode);
    steps.push(TerminalCommand::EnterAlternateScreen);
    steps.push(TerminalCommand::HideCursor);
    if mouse {
        steps.push(TerminalCommand::EnableMouseCapture);
    }
    assert(steps@ =~= enter_steps(mouse));
    steps
}

/// The steps that give the terminal back, given whether it is in raw mode.
pub fn exit(raw_mode: bool, mouse: bool) -> (steps: Vec<TerminalCommand>)
    ensures
        steps@ == exit_steps(raw_mode, mouse),
{
    let mut steps: Vec<TerminalCommand> = Vec::new();
    if raw_mode {
        steps.push(TerminalCommand::Flush);
        if mouse {
            steps.push(TerminalCommand::DisableMouseCapture);
        }
        steps.push(TerminalCommand::LeaveAlternateScreen);
        steps.push(TerminalCommand::ShowCursor);
        steps.push(TerminalCommand::DisableRawMode);
    }
    assert(steps@ =~= exit_steps(raw_mode, mouse));
    steps
}

} // verus!
