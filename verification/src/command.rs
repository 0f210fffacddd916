//! What the shell asks of the host, and what it is told by it.

use crate::shortcut::Shortcut;
use vstd::prelude::*;

verus! {

/// The two windows the shell knows, by the logical name the window
/// configuration gives them.
#[derive(Debug, Clone, Copy, PartialEq, Eq, Structural)]
pub enum WindowLabel {
    /// The primary application window.
    Main,
    /// The small popup centred at the top of the primary monitor.
    Notch,
}

impl WindowLabel {
    /// The name under which the host knows the window.
    pub open spec fn spec_name(self) -> Seq<char> {
        match self {
            WindowLabel::Main => "main"@,
            WindowLabel::Notch => "notch"@,
        }
    }

    /// The name under which the host knows the window.
    pub fn name(&self) -> (name: &'static str)
        ensures
            name@ == self.spec_name(),
    {
        match self {
            WindowLabel::Main => "main",
            WindowLabel::Notch => "notch",
        }
    }
}

/// A notification that the shell broadcasts to the window contents.
#[derive(Debug, Clone, Copy, PartialEq, Eq, Structural)]
pub enum Signal {
    /// The global shortcut went down.
    SuperKeyPress,
}

impl Signal {
    /// The event name under which the notification is broadcast.
    pub open spec fn spec_name(self) -> Seq<char> {
        match self {
            Signal::SuperKeyPress => "super-key-press"@,
        }
    }

    /// The event name under which the notification is broadcast. It carries
    /// no payload.
    pub fn name(&self) -> (name: &'static str)
        ensures
            name@ == self.spec_name(),
    {
        match self {
            Signal::SuperKeyPress => "super-key-press",
        }
    }
}

/// Which way a shortcut's key combination went.
#[derive(Debug, Clone, Copy, PartialEq, Eq, Structural)]
pub enum KeyState {
    Pressed,
    Released,
}

/// What happened to the tray icon.
#[derive(Debug, Clone, Copy, PartialEq, Eq, Structural)]
pub enum TraySignal {
    /// A mouse button went down or up on the icon, whichever button.
    Click,
    /// Anything else: the pointer entered, moved over or left the icon, or a
    /// double click.
    Other,
}

/// What happened to the primary window.
#[derive(Debug, Clone, Copy, PartialEq, Eq, Structural)]
pub enum WindowSignal {
    /// The user asked to close the window.
    CloseRequested,
    /// Anything else: moved, resized, focused and so on.
    Other,
}

/// What the host can tell about the notch window when an event arrives.
///
/// Each field is `None` where the host could not answer the query. The
/// queries have no effect on the host, so all three are made up front.
#[derive(Debug, Clone, Copy, PartialEq, Eq, Structural)]
pub struct NotchProbe {
    /// Whether the window is on screen.
    pub visible: Option<bool>,
    /// The width of the primary monitor; `None` also where there is no
    /// primary monitor.
    pub monitor_width: Option<u32>,
    /// The outer width of the window, decorations included.
    pub outer_width: Option<u32>,
}

/// A query that the host could not answer, where the shell cannot go on
/// without the answer.
#[derive(Debug, Clone, Copy, PartialEq, Eq, Structural)]
pub enum Fault {
    /// Whether the notch window is visible.
    VisibilityUnknown,
    /// How wide the notch window is.
    SizeUnknown,
}

/// One thing for the host to do. The shell's handlers answer every event
/// with a list of these, to be carried out in order.
#[derive(Debug, Clone, Copy, PartialEq, Eq)]
pub enum Command {
    /// End the process with this exit code, at once.
    Exit { code: i32 },
    /// Put the window on screen.
    Show(WindowLabel),
    /// Give the window the input focus.
    Focus(WindowLabel),
    /// Take the window off screen. It stays alive.
    Hide(WindowLabel),
    /// Move the window's top left corner to this physical position.
    MoveTo { window: WindowLabel, x: i32, y: i32 },
    /// Broadcast the notification to every listener.
    Emit(Signal),
    /// Do not destroy the window whose close request is being handled.
    PreventClose,
    /// Drop every global shortcut the application has registered.
    UnregisterAll,
    /// Register the shortcut, with the shell's shortcut handler.
    Register(Shortcut),
}

/// What is to happen when the host fails to carry out a command.
#[derive(Debug, Clone, Copy, PartialEq, Eq, Structural)]
pub enum OnFailure {
    /// Carry on with the next command.
    Ignore,
    /// Give up: the host is in a state the shell was not built for.
    Abort,
    /// Stop, and hand the host's error to whoever asked for the operation.
    Report,
}

impl Command {
    /// How a failure of this command is to be treated.
    pub open spec fn spec_on_failure(&self) -> OnFailure {
        match self {
            Command::Show(_) | Command::Focus(_) | Command::Hide(_) | Command::MoveTo { .. } =>
                OnFailure::Abort,
            Command::Register(_) => OnFailure::Report,
            Command::Exit { .. } | Command::Emit(_) | Command::PreventClose
            | Command::UnregisterAll => OnFailure::Ignore,
        }
    }

    /// How a failure of this command is to be treated.
    ///
    /// The windows are taken to be there for good, so a window command that
    /// fails is a defect of the installation and ends the operation. A
    /// registration that the system refuses is an answer for the caller. A
    /// lost notification and a failed clean-up of the shortcut table are
    /// passed over, and the remaining commands cannot fail.
    #[verifier::when_used_as_spec(spec_on_failure)]
    pub fn on_failure(&self) -> (policy: OnFailure)
        ensures
            policy == self.spec_on_failure(),
    {
        match self {
            Command::Show(_) | Command::Focus(_) | Command::Hide(_) | Command::MoveTo { .. } =>
                OnFailure::Abort,
            Command::Register(_) => OnFailure::Report,
            Command::Exit { .. } | Command::Emit(_) | Command::PreventClose
            | Command::UnregisterAll => OnFailure::Ignore,
        }
    }
}

} // verus!
