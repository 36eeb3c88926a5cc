use vstd::prelude::*;

verus! {

/// Seconds of audio captured per cycle.
pub const LISTEN_SECONDS: u64 = 10;

/// Seconds slept between cycles.
pub const ITERATION_DELAY_SECONDS: u64 = 1;

/// The next piece of outside work one cycle asks for.
pub enum Action {
    Listen,
    GenerateReply(String),
    Speak(String),
    CaptureScreen,
    AnalyzeScreen(String),
    ReadMouse,
    Sleep,
}

/// What the outside work of the last action gave back.
pub enum Outcome {
    Failed,
    NoText,
    Text(String),
    Done,
}

/// The stage after `a` given outcome `o`; a failed stage only forfeits what depends on it.
pub open spec fn next_spec(a: Action, o: Outcome) -> Action {
    match a {
        Action::Listen => match o {
            Outcome::Text(t) => if t@.len() > 0 { Action::GenerateReply(t) } else { Action::CaptureScreen },
            _ => Action::CaptureScreen,
        },
        Action::GenerateReply(_) => match o {
            Outcome::Text(t) => Action::Speak(t),
            _ => Action::CaptureScreen,
        },
        Action::Speak(_) => Action::CaptureScreen,
        Action::CaptureScreen => match o {
            Outcome::Text(t) => if t@.len() > 0 { Action::AnalyzeScreen(t) } else { Action::ReadMouse },
            _ => Action::ReadMouse,
        },
        Action::AnalyzeScreen(_) => Action::ReadMouse,
        Action::ReadMouse => Action::Sleep,
        Action::Sleep => Action::Listen,
    }
}

/// Decides the next stage of a cycle from the last stage and its outcome.
pub fn next_action(last: Action, outcome: Outcome) -> (r: Action)
    ensures
        r == next_spec(last, outcome),
{
    match last {
        Action::Listen => match outcome {
            Outcome::Text(t) => if !t.as_str().is_empty() { Action::GenerateReply(t) } else { Action::CaptureScreen },
            _ => Action::CaptureScreen,
        },
        Action::GenerateReply(_) => match outcome {
            Outcome::Text(t) => Action::Speak(t),
            _ => Action::CaptureScreen,
        },
        Action::Speak(_) => Action::CaptureScreen,
        Action::CaptureScreen => match outcome {
            Outcome::Text(t) => if !t.as_str().is_empty() { Action::AnalyzeScreen(t) } else { Action::ReadMouse },
            _ => Action::ReadMouse,
        },
        Action::AnalyzeScreen(_) => Action::ReadMouse,
        Action::ReadMouse => Action::Sleep,
        Action::Sleep => Action::Listen,
    }
}

/// A failed transcription ends the voice stage only: the screen capture comes next,
/// and whatever the screen stage gives, the cursor read follows within two steps.
pub proof fn lemma_voice_failure_isolated(screen: Outcome, analysis: Outcome)
    ensures
        next_spec(Action::Listen, Outcome::Failed) == Action::CaptureScreen,
        next_spec(Action::CaptureScreen, screen) == Action::ReadMouse
            || next_spec(next_spec(Action::CaptureScreen, screen), analysis) == Action::ReadMouse,
{
}

} // verus!
