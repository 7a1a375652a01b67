//! The terminal session: which modes the terminal is in, and the commands
//! that take it into full-screen use and back.
//!
//! The library performs no command. It says which commands to perform, in
//! which order, and keeps account of those that its caller reports done.

use vstd::prelude::*;

verus! {

/// One change to the terminal's modes.
#[derive(Clone, Copy, Debug, PartialEq, Eq, Structural)]
pub enum Command {
    /// Stop line buffering, echo and signal keys.
    EnableRawMode,
    /// Start reporting mouse events.
    EnableMouseCapture,
    /// Switch to the alternate screen buffer.
    EnterAlternateScreen,
    /// Go back to line buffering, echo and signal keys.
    DisableRawMode,
    /// Stop reporting mouse events.
    DisableMouseCapture,
    /// Switch back to the primary screen buffer.
    LeaveAlternateScreen,
    /// Make the cursor visible.
    ShowCursor,
}

/// The modes of the terminal, as far as the commands performed tell.
#[derive(Clone, Copy, Debug, PartialEq, Eq, Structural)]
pub struct Session {
    /// Input arrives unbuffered, unechoed and without signals.
    pub raw_mode: bool,
    /// Mouse events are reported.
    pub mouse_capture: bool,
    /// The alternate screen buffer is shown.
    pub alternate_screen: bool,
    /// The cursor is visible.
    pub cursor_visible: bool,
}

/// The commands that acquire the terminal, in the order in which they are
/// performed. The first that fails ends the acquisition; what was performed
/// before it is not undone.
pub open spec fn acquire_commands() -> Seq<Command> {
    seq![Command::EnableRawMode, Command::EnableMouseCapture, Command::EnterAlternateScreen]
}

/// The commands that release the terminal, in the order in which they are
/// performed.
pub open spec fn release_commands() -> Seq<Command> {
    seq![
        Command::DisableRawMode,
        Command::DisableMouseCapture,
        Command::LeaveAlternateScreen,
        Command::ShowCursor,
    ]
}

impl Session {
    /// The terminal as a process finds it: cooked input, no mouse reports,
    /// the primary screen, a visible cursor.
    pub open spec fn cooked() -> Session {
        Session {
            raw_mode: false,
            mouse_capture: false,
            alternate_screen: false,
            cursor_visible: true,
        }
    }

    /// Whether the terminal is ready for full-screen use: raw input, mouse
    /// reports and the alternate screen.
    pub open spec fn acquired(self) -> bool {
        self.raw_mode && self.mouse_capture && self.alternate_screen
    }

    /// The modes after one command.
    pub open spec fn after(self, command: Command) -> Session {
        match command {
            Command::EnableRawMode => Session { raw_mode: true, ..self },
            Command::EnableMouseCapture => Session { mouse_capture: true, ..self },
            Command::EnterAlternateScreen => Session { alternate_screen: true, ..self },
            Command::DisableRawMode => Session { raw_mode: false, ..self },
            Command::DisableMouseCapture => Session { mouse_capture: false, ..self },
            Command::LeaveAlternateScreen => Session { alternate_screen: false, ..self },
            Command::ShowCursor => Session { cursor_visible: true, ..self },
        }
    }

    /// The modes after a run of commands, performed from first to last.
    pub open spec fn after_all(self, commands: Seq<Command>) -> Session
        decreases commands.len(),
    {
        if commands.len() == 0 {
            self
        } else {
            self.after(commands[0]).after_all(commands.skip(1))
        }
    }

    /// A session over a terminal that nothing has been done to.
    pub fn new() -> (session: Session)
        ensures
            session == Session::cooked(),
    {
        Session {
            raw_mode: false,
            mouse_capture: false,
            alternate_screen: false,
            cursor_visible: true,
        }
    }

    /// The commands that acquire the terminal, in order.
    pub fn acquire() -> (commands: Vec<Command>)
        ensures
            commands@ == acquire_commands(),
    {
        let commands = vec![
            Command::EnableRawMode,
            Command::EnableMouseCapture,
            Command::EnterAlternateScreen,
        ];
        assert(commands@ =~= acquire_commands());
        commands
    }

    /// The commands that release the terminal, in order.
    pub fn release() -> (commands: Vec<Command>)
        ensures
            commands@ == release_commands(),
    {
        let commands = vec![
            Command::DisableRawMode,
            Command::DisableMouseCapture,
            Command::LeaveAlternateScreen,
            Command::ShowCursor,
        ];
        assert(commands@ =~= release_commands());
        commands
    }

    /// Records that a command was performed.
    pub fn apply(&mut self, command: Command)
        ensures
            *final(self) == old(self).after(command),
    {
        match command {
            Command::EnableRawMode => {
                self.raw_mode = true;
            },
            Command::EnableMouseCapture => {
                self.mouse_capture = true;
            },
            Command::EnterAlternateScreen => {
                self.alternate_screen = true;
            },
            Command::DisableRawMode => {
                self.raw_mode = false;
            },
            Command::DisableMouseCapture => {
                self.mouse_capture = false;
            },
            Command::LeaveAlternateScreen => {
                self.alternate_screen = false;
            },
            Command::ShowCursor => {
                self.cursor_visible = true;
            },
        }
    }

    /// Whether the terminal is ready for full-screen use.
    pub fn is_acquired(&self) -> (b: bool)
        ensures
            b == self.acquired(),
    {
        self.raw_mode && self.mouse_capture && self.alternate_screen
    }

    /// Whether the terminal is as a process finds it.
    pub fn is_cooked(&self) -> (b: bool)
        ensures
            b == (*self == Session::cooked()),
    {
        !self.raw_mode && !self.mouse_capture && !self.alternate_screen && self.cursor_visible
    }
}

/// Acquiring leaves the terminal acquired, whatever its modes were, and the
/// cursor as it was.
pub proof fn lemma_acquire_acquires(session: Session)
    ensures
        session.after_all(acquire_commands()).acquired(),
        session.after_all(acquire_commands()).cursor_visible == session.cursor_visible,
{
    reveal_with_fuel(Session::after_all, 4);
    let a = acquire_commands();
    assert(a.skip(1) =~= seq![Command::EnableMouseCapture, Command::EnterAlternateScreen]);
    assert(a.skip(1).skip(1) =~= seq![Command::EnterAlternateScreen]);
    assert(a.skip(1).skip(1).skip(1) =~= Seq::<Command>::empty());
}

/// Releasing leaves the terminal cooked, on the primary screen, without
/// mouse reports and with a visible cursor, whatever its modes were.
pub proof fn lemma_release_restores(session: Session)
    ensures
        session.after_all(release_commands()) == Session::cooked(),
{
    reveal_with_fuel(Session::after_all, 5);
    let r = release_commands();
    assert(r.skip(1) =~= seq![
        Command::DisableMouseCapture,
        Command::LeaveAlternateScreen,
        Command::ShowCursor,
    ]);
    assert(r.skip(1).skip(1) =~= seq![Command::LeaveAlternateScreen, Command::ShowCursor]);
    assert(r.skip(1).skip(1).skip(1) =~= seq![Command::ShowCursor]);
    assert(r.skip(1).skip(1).skip(1).skip(1) =~= Seq::<Command>::empty());
}

/// Round trip: a terminal that is acquired and then released is in the
/// modes it had before, if it was cooked then; and it is cooked afterwards
/// in any case.
pub proof fn lemma_acquire_release_round_trip(session: Session)
    ensures
        session.after_all(acquire_commands()).after_all(release_commands()) == Session::cooked(),
        session == Session::cooked() ==> session.after_all(acquire_commands()).after_all(
            release_commands(),
        ) == session,
{
    lemma_release_restores(session.after_all(acquire_commands()));
}

} // verus!
