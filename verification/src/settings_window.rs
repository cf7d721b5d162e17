//! Opening the settings window. A second window created moments after the
//! overlay can fail while the webview environment settles, so creation is
//! retried a few times, each time waiting longer.
use vstd::prelude::*;

verus! {

/// How many times creating the settings window is tried.
pub const SETTINGS_WINDOW_ATTEMPTS: u64 = 6;

/// How one attempt to create the settings window went.
#[derive(Debug, Clone, Copy, PartialEq, Eq, Structural)]
pub enum SettingsOutcome {
    /// The window was built.
    Built,
    /// Building it failed.
    Failed,
    /// No answer came from the main thread in time.
    TimedOut,
    /// The work could not be handed to the main thread.
    NotHandedOff,
}

/// What to do after an attempt.
#[derive(Debug, Clone, Copy, PartialEq, Eq, Structural)]
pub enum SettingsNext {
    /// The window exists: stop.
    Done,
    /// Stop without a window.
    GiveUp,
    /// Wait `millis` milliseconds, then try again if `retry` holds, else stop.
    Wait { millis: u64, retry: bool },
}

/// Decides what follows attempt number `attempt` (counted from 1): a built
/// window ends the retries; a failed build waits 400 ms times the attempt
/// number and tries again, up to the last attempt, after which it still
/// waits and then stops; a timeout or a failed hand-off gives up at once.
pub fn settings_window_next(attempt: u64, outcome: SettingsOutcome) -> (next: SettingsNext)
    requires
        1 <= attempt <= SETTINGS_WINDOW_ATTEMPTS,
    ensures
        match outcome {
            SettingsOutcome::Built => next == SettingsNext::Done,
            SettingsOutcome::Failed => next == (SettingsNext::Wait {
                millis: (400 * attempt) as u64,
                retry: attempt < SETTINGS_WINDOW_ATTEMPTS,
            }),
            _ => next == SettingsNext::GiveUp,
        },
{
    match outcome {
        SettingsOutcome::Built => SettingsNext::Done,
        SettingsOutcome::Failed => SettingsNext::Wait {
            millis: 400 * attempt,
            retry: attempt < SETTINGS_WINDOW_ATTEMPTS,
        },
        _ => SettingsNext::GiveUp,
    }
}

} // verus!
