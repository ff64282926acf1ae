use vstd::prelude::*;

use crate::error::CoreError;

verus! {

/// An HTTP status in the success range.
pub open spec fn is_success(status: u16) -> bool {
    200 <= status < 300
}

/// Classifies a finished call: a success status hands the body on
/// unchanged, any other status is an error that carries status and body.
pub fn check_status(status: u16, body: String) -> (r: Result<String, CoreError>)
    ensures
        is_success(status) ==> r == Ok::<String, CoreError>(body),
        !is_success(status) ==> r == Err::<String, CoreError>(
            CoreError::HttpStatus { status, body },
        ),
{
    if 200 <= status && status < 300 {
        Ok(body)
    } else {
        Err(CoreError::HttpStatus { status, body })
    }
}

/// A progress indicator is shown unless the flag or the environment turns
/// it off.
pub open spec fn progress_shown(disable_flag: bool, disabled_by_env: bool) -> bool {
    !disable_flag && !disabled_by_env
}

/// Whether a progress indicator is shown during a call: only when neither
/// the flag nor the environment turns it off.
pub fn show_progress(disable_flag: bool, disabled_by_env: bool) -> (r: bool)
    ensures
        r == progress_shown(disable_flag, disabled_by_env),
{
    !disable_flag && !disabled_by_env
}

/// How a network call ended.
#[derive(Debug, Clone)]
pub enum Outcome {
    /// The server answered with this status and body.
    Answered { status: u16, body: String },
    /// The host could not be reached or the timeout elapsed; the text says
    /// what the transport reported.
    Unreachable(String),
    /// The server answered, but its body could not be read; the text says
    /// what the transport reported.
    Unreadable(String),
}

/// One network call from start to finish.
#[derive(Debug, Clone, Copy, PartialEq, Eq)]
pub struct Call {
    /// A progress indicator runs while the call is outstanding.
    pub indicator: bool,
}

/// The end of a call: whether to stop the indicator, and what the call gives
/// its caller.
#[derive(Debug)]
pub struct Finished {
    pub stop_indicator: bool,
    pub result: Result<String, CoreError>,
}

/// What a call that ended with `o` gives its caller.
pub open spec fn outcome_result(o: Outcome) -> Result<String, CoreError> {
    match o {
        Outcome::Answered { status, body } => if is_success(status) {
            Ok(body)
        } else {
            Err(CoreError::HttpStatus { status, body })
        },
        Outcome::Unreachable(d) => Err(CoreError::Transport(d)),
        Outcome::Unreadable(d) => Err(CoreError::UnreadableBody(d)),
    }
}

impl Call {
    /// Starts a call; the indicator runs unless the flag or the environment
    /// turns it off.
    pub fn begin(disable_flag: bool, disabled_by_env: bool) -> (r: Call)
        ensures
            r.indicator == progress_shown(disable_flag, disabled_by_env),
    {
        Call { indicator: show_progress(disable_flag, disabled_by_env) }
    }

    /// Ends the call, however it ended. The indicator is stopped exactly when
    /// it was started, and before the result is handed back.
    pub fn finish(self, o: Outcome) -> (r: Finished)
        ensures
            r.stop_indicator == self.indicator,
            r.result == outcome_result(o),
    {
        let result = match o {
            Outcome::Answered { status, body } => check_status(status, body),
            Outcome::Unreachable(d) => Err(CoreError::Transport(d)),
            Outcome::Unreadable(d) => Err(CoreError::UnreadableBody(d)),
        };
        Finished { stop_indicator: self.indicator, result }
    }
}

} // verus!
