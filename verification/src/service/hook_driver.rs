//! The hook driver: what the thread that owns the focus-change hook does, from
//! installing the hook to releasing it.

use crate::service::windows_service::WindowsService;
use vstd::prelude::*;

verus! {

/// A failure during startup that the process cannot survive.
#[derive(Debug, Clone, Copy, PartialEq, Eq)]
pub enum StartupFatal {
    /// The focus-change hook could not be installed.
    Hook,
    /// The class of the messaging window could not be registered; `code` is
    /// the error code of the operating system.
    WindowClass { code: u32 },
    /// The messaging window could not be created; `code` is the error code of
    /// the operating system.
    MessagingWindow { code: u32 },
}

impl StartupFatal {
    /// The text of the failure, as `message` gives it.
    pub open spec fn spec_message(self) -> Seq<char> {
        match self {
            StartupFatal::Hook => "Could not setup WinEventHook"@,
            StartupFatal::WindowClass { .. } => "Error on creating window class for messaging window"@,
            StartupFatal::MessagingWindow { .. } => "Error on creating messaging window"@,
        }
    }

    /// The failure in words, without the error code.
    pub fn message(self) -> (text: String)
        ensures
            text@ == self.spec_message(),
    {
        match self {
            StartupFatal::Hook => "Could not setup WinEventHook".to_owned(),
            StartupFatal::WindowClass { .. } => "Error on creating window class for messaging window".to_owned(),
            StartupFatal::MessagingWindow { .. } => "Error on creating messaging window".to_owned(),
        }
    }
}

/// What the hook driver is waiting for.
#[derive(Debug, Clone, Copy, PartialEq, Eq)]
pub enum DriverPhase {
    /// The registration of the class of the messaging window.
    RegisteringClass,
    /// The handle of the messaging window.
    CreatingWindow,
    /// The handle of the hook that it asked to install.
    InstallingHook { window: isize },
    /// The next message of the messaging window.
    Retrieving { hook: isize, window: isize },
    /// The end of the dispatch of the message that it retrieved last.
    Dispatching { hook: isize, window: isize },
    /// Word that the sentinel is in the channel.
    PublishingSentinel { hook: isize },
    /// Word that the hook is released.
    ReleasingHook,
    /// Nothing: the driver has stopped, and does not start again.
    Stopped,
    /// Nothing: startup failed.
    Failed(StartupFatal),
}

/// What the operating system or the channel reported to the hook driver.
#[derive(Debug, Clone, Copy, PartialEq, Eq)]
pub enum DriverEvent {
    /// The window class was asked for; an atom of 0 says that it was refused,
    /// and `last_error` is the error code read after the call.
    ClassRegistered { atom: u16, last_error: u32 },
    /// The messaging window was asked for; a handle of 0 says that it was
    /// refused, and `last_error` is the error code read after the call.
    WindowCreated { window: isize, last_error: u32 },
    /// The hook was asked for; a handle of 0 says that it was refused.
    HookInstalled(isize),
    /// Message retrieval returned: 0 for the request to quit, -1 for an
    /// error, anything else for a message to dispatch.
    MessageRetrieved(i32),
    /// The message was dispatched.
    MessageDispatched,
    /// The sentinel is in the channel.
    SentinelPublished,
    /// The hook is released.
    HookReleased,
}

/// What the hook driver has to do next.
#[derive(Debug, Clone, Copy, PartialEq, Eq)]
pub enum DriverAction {
    /// Register the class of the messaging window.
    RegisterWindowClass,
    /// Create the messaging window.
    CreateMessagingWindow,
    /// Install the focus-change hook, bound to this thread.
    InstallHook,
    /// Block until this window has a message.
    RetrieveMessage(isize),
    /// Dispatch the message that was retrieved.
    DispatchMessage,
    /// Put the sentinel into the channel.
    PublishSentinel,
    /// Release this hook.
    ReleaseHook(isize),
    /// End the thread.
    Finish,
    /// End the process.
    Abort(StartupFatal),
    /// Go on waiting: what was reported is not what the driver waits for.
    Wait,
}

/// Whether message retrieval, having returned `retrieved`, ends the message
/// loop: it does on the request to quit and on an error.
pub open spec fn ends_message_loop(retrieved: i32) -> bool {
    retrieved == 0 || retrieved == -1
}

/// The phase after `event` was reported in `phase`, and what it calls for.
///
/// Startup registers the window class, creates the messaging window and
/// installs the hook; a refusal of any of the three is fatal. After that,
/// messages are retrieved and dispatched until retrieval ends the loop. Then
/// the sentinel is published, the hook is released, and the driver stops.
pub open spec fn drive(phase: DriverPhase, event: DriverEvent) -> (DriverPhase, DriverAction) {
    match (phase, event) {
        (DriverPhase::RegisteringClass, DriverEvent::ClassRegistered { atom, last_error }) => if atom
            == 0 {
            (
                DriverPhase::Failed(StartupFatal::WindowClass { code: last_error }),
                DriverAction::Abort(StartupFatal::WindowClass { code: last_error }),
            )
        } else {
            (DriverPhase::CreatingWindow, DriverAction::CreateMessagingWindow)
        },
        (DriverPhase::CreatingWindow, DriverEvent::WindowCreated { window, last_error }) => if window
            == 0 {
            (
                DriverPhase::Failed(StartupFatal::MessagingWindow { code: last_error }),
                DriverAction::Abort(StartupFatal::MessagingWindow { code: last_error }),
            )
        } else {
            (DriverPhase::InstallingHook { window }, DriverAction::InstallHook)
        },
        (DriverPhase::InstallingHook { window }, DriverEvent::HookInstalled(hook)) => if hook == 0 {
            (DriverPhase::Failed(StartupFatal::Hook), DriverAction::Abort(StartupFatal::Hook))
        } else {
            (DriverPhase::Retrieving { hook, window }, DriverAction::RetrieveMessage(window))
        },
        (DriverPhase::Retrieving { hook, window }, DriverEvent::MessageRetrieved(retrieved)) => if ends_message_loop(
            retrieved,
        ) {
            (DriverPhase::PublishingSentinel { hook }, DriverAction::PublishSentinel)
        } else {
            (DriverPhase::Dispatching { hook, window }, DriverAction::DispatchMessage)
        },
        (DriverPhase::Dispatching { hook, window }, DriverEvent::MessageDispatched) => (
            DriverPhase::Retrieving { hook, window },
            DriverAction::RetrieveMessage(window),
        ),
        (DriverPhase::PublishingSentinel { hook }, DriverEvent::SentinelPublished) => (
            DriverPhase::ReleasingHook,
            DriverAction::ReleaseHook(hook),
        ),
        (DriverPhase::ReleasingHook, DriverEvent::HookReleased) => (
            DriverPhase::Stopped,
            DriverAction::Finish,
        ),
        (DriverPhase::Stopped, _) => (DriverPhase::Stopped, DriverAction::Finish),
        (DriverPhase::Failed(fatal), _) => (DriverPhase::Failed(fatal), DriverAction::Abort(fatal)),
        _ => (phase, DriverAction::Wait),
    }
}

/// The hook driver. There is one per process; it runs on the thread that
/// installs the hook, and once it has stopped it does not start again.
#[derive(Debug)]
pub struct HookDriver {
    phase: DriverPhase,
}

impl View for HookDriver {
    type V = DriverPhase;

    closed spec fn view(&self) -> DriverPhase {
        self.phase
    }
}

impl HookDriver {
    /// A driver before its first step, with the first thing it has to do:
    /// register the window class.
    pub fn new() -> (started: (HookDriver, DriverAction))
        ensures
            started.0@ == DriverPhase::RegisteringClass,
            started.1 == DriverAction::RegisterWindowClass,
    {
        (HookDriver { phase: DriverPhase::RegisteringClass }, DriverAction::RegisterWindowClass)
    }

    /// What the driver is waiting for.
    pub fn phase(&self) -> (phase: DriverPhase)
        ensures
            phase == self@,
    {
        self.phase
    }

    /// Takes in what was reported, and says what to do next.
    pub fn step(&mut self, event: DriverEvent) -> (action: DriverAction)
        ensures
            (final(self)@, action) == drive(old(self)@, event),
    {
        match (self.phase, event) {
            (DriverPhase::RegisteringClass, DriverEvent::ClassRegistered { atom, last_error }) => {
                if atom == 0 {
                    let fatal = StartupFatal::WindowClass { code: last_error };
                    self.phase = DriverPhase::Failed(fatal);
                    DriverAction::Abort(fatal)
                } else {
                    self.phase = DriverPhase::CreatingWindow;
                    DriverAction::CreateMessagingWindow
                }
            },
            (DriverPhase::CreatingWindow, DriverEvent::WindowCreated { window, last_error }) => {
                match WindowsService::create_messaging_window(window, last_error) {
                    Ok(window) => {
                        self.phase = DriverPhase::InstallingHook { window };
                        DriverAction::InstallHook
                    },
                    Err(fatal) => {
                        self.phase = DriverPhase::Failed(fatal);
                        DriverAction::Abort(fatal)
                    },
                }
            },
            (DriverPhase::InstallingHook { window }, DriverEvent::HookInstalled(hook)) => {
                if hook == 0 {
                    self.phase = DriverPhase::Failed(StartupFatal::Hook);
                    DriverAction::Abort(StartupFatal::Hook)
                } else {
                    self.phase = DriverPhase::Retrieving { hook, window };
                    DriverAction::RetrieveMessage(window)
                }
            },
            (DriverPhase::Retrieving { hook, window }, DriverEvent::MessageRetrieved(retrieved)) => {
                if retrieved == 0 || retrieved == -1 {
                    self.phase = DriverPhase::PublishingSentinel { hook };
                    DriverAction::PublishSentinel
                } else {
                    self.phase = DriverPhase::Dispatching { hook, window };
                    DriverAction::DispatchMessage
                }
            },
            (DriverPhase::Dispatching { hook, window }, DriverEvent::MessageDispatched) => {
                self.phase = DriverPhase::Retrieving { hook, window };
                DriverAction::RetrieveMessage(window)
            },
            (DriverPhase::PublishingSentinel { hook }, DriverEvent::SentinelPublished) => {
                self.phase = DriverPhase::ReleasingHook;
                DriverAction::ReleaseHook(hook)
            },
            (DriverPhase::ReleasingHook, DriverEvent::HookReleased) => {
                self.phase = DriverPhase::Stopped;
                DriverAction::Finish
            },
            (DriverPhase::Stopped, _) => DriverAction::Finish,
            (DriverPhase::Failed(fatal), _) => DriverAction::Abort(fatal),
            _ => DriverAction::Wait,
        }
    }
}

/// When the message loop ends, the driver publishes the sentinel, then
/// releases the hook that it installed, and then stops.
pub proof fn lemma_shutdown_publishes_sentinel_then_releases_hook(
    hook: isize,
    window: isize,
    retrieved: i32,
)
    requires
        ends_message_loop(retrieved),
    ensures
        ({
            let (publishing, first) = drive(
                DriverPhase::Retrieving { hook, window },
                DriverEvent::MessageRetrieved(retrieved),
            );
            let (releasing, second) = drive(publishing, DriverEvent::SentinelPublished);
            let (stopped, third) = drive(releasing, DriverEvent::HookReleased);
            &&& first == DriverAction::PublishSentinel
            &&& second == DriverAction::ReleaseHook(hook)
            &&& third == DriverAction::Finish
            &&& stopped == DriverPhase::Stopped
        }),
{
}

/// A driver that has stopped, or whose startup failed, stays as it is
/// whatever is reported to it.
pub proof fn lemma_driver_does_not_restart(phase: DriverPhase, event: DriverEvent)
    requires
        phase is Stopped || phase is Failed,
    ensures
        drive(phase, event).0 == phase,
        phase is Stopped ==> drive(phase, event).1 == DriverAction::Finish,
        phase matches DriverPhase::Failed(fatal) ==> drive(phase, event).1 == DriverAction::Abort(
            fatal,
        ),
{
}

/// Startup fails exactly when the window class, the messaging window or the
/// hook is refused, and a driver only ever fails during startup.
pub proof fn lemma_only_startup_is_fatal(phase: DriverPhase, event: DriverEvent)
    requires
        !(phase is Failed),
    ensures
        drive(phase, event).0 is Failed <==> {
            ||| phase is RegisteringClass && (event matches DriverEvent::ClassRegistered {
                atom,
                ..
            } && atom == 0)
            ||| phase is CreatingWindow && (event matches DriverEvent::WindowCreated {
                window,
                ..
            } && window == 0)
            ||| phase is InstallingHook && event == DriverEvent::HookInstalled(0)
        },
{
}

} // verus!
