use vstd::prelude::*;
use crate::time_span::TimeSpan;

verus! {

/// The timing method that the timer shows.
#[derive(Clone, Copy, Debug, PartialEq, Eq, Structural)]
pub enum TimingMethod {
    RealTime,
    GameTime,
}

/// A command sent to the timer.
#[derive(Clone, Copy, Debug, PartialEq, Eq, Structural)]
pub enum Command {
    Start,
    Split,
    SplitOrStart,
    Reset { save_attempt: Option<bool> },
    UndoSplit,
    SkipSplit,
    TogglePauseOrStart,
    Pause,
    Resume,
    UndoAllPauses,
    SwitchToPreviousComparison,
    SwitchToNextComparison,
    InitializeGameTime,
    SetGameTime { time: TimeSpan },
    SetCurrentTimingMethod { timing_method: TimingMethod },
    PauseGameTime,
    ResumeGameTime,
    GetCurrentState,
    Ping,
}

/// The timer's phase, as a state reply reports it.
#[derive(Clone, Copy, Debug, PartialEq, Eq, Structural)]
pub enum State {
    NotRunning,
    Running(u64),
    Paused(u64),
    Ended,
}

/// What a successful command returns.
#[derive(Clone, Debug, PartialEq, Eq)]
pub enum Response {
    Empty,
    String(String),
    State(State),
}

/// Why the timer refused an action.
#[derive(Clone, Copy, Debug, PartialEq, Eq, Structural)]
pub enum EventError {
    Unsupported,
    Busy,
    RunAlreadyInProgress,
    NoRunInProgress,
    RunFinished,
    NegativeTime,
    CantSkipLastSplit,
    CantUndoFirstSplit,
    AlreadyPaused,
    NotPaused,
    ComparisonDoesntExist,
    GameTimeAlreadyInitialized,
    GameTimeAlreadyPaused,
    GameTimeNotPaused,
    CouldNotParseTime,
    TimerPaused,
    RunnerDecidedAgainstReset,
    Unknown,
}

/// Why a command failed.
#[derive(Clone, Debug, PartialEq, Eq)]
pub enum CommandError {
    InvalidCommand { message: String },
    InvalidIndex,
    Timer { code: EventError },
}

/// The reply to one command.
#[derive(Clone, Debug, PartialEq, Eq)]
pub enum CommandResult {
    Success(Response),
    Error(CommandError),
}

/// A notification that the timer sends on its own when its state changes.
#[derive(Clone, Copy, Debug, PartialEq, Eq, Structural)]
pub enum Event {
    Started,
    Splitted,
    Finished,
    Reset,
    SplitUndone,
    SplitSkipped,
    Paused,
    Resumed,
    PausesUndone,
    PausesUndoneAndResumed,
    ComparisonChanged,
    TimingMethodChanged,
    GameTimeInitialized,
    GameTimeSet,
    GameTimePaused,
    GameTimeResumed,
    LoadingTimesSet,
    CustomVariableSet,
    Unknown,
}

} // verus!
