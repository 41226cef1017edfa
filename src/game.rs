use vstd::prelude::*;

use crate::controllers::{controller_name, GameController};
use crate::game_pool::{GameStatus, SEAT_COUNT};

verus! {

/// The phase that a snapshot of a match reports.
pub enum MatchPhase {
    /// The match has reached its end.
    Ended,
    /// The match goes on.
    InPlay,
}

/// What one call of the engine's `advance` gave.
pub enum EngineStep {
    /// The engine moved to a new state; the snapshot observed of it reports
    /// this phase, or there was no snapshot to observe.
    Advanced(Option<MatchPhase>),
    /// The engine refused to advance because the match had already ended.
    AlreadyEnded,
    /// The engine failed, with this message.
    Failed(String),
}

/// Why a match could not be advanced.
pub enum AdvanceError {
    /// The engine failed, with this message.
    Engine(String),
    /// The engine's state could not be observed after a step.
    SnapshotMissing,
    /// The match was advanced after it had finished.
    AlreadyFinished,
}

/// Why a match could not be set up.
pub enum SetupError {
    /// A match needs exactly four seat controllers.
    SeatCount,
    /// The engine refused the settings, with this message.
    Engine(String),
}

/// The text of an advance error.
pub open spec fn advance_error_text(e: AdvanceError) -> Seq<char> {
    match e {
        AdvanceError::Engine(m) => m@,
        AdvanceError::SnapshotMissing => "Game state consumed before it could be observed"@,
        AdvanceError::AlreadyFinished => "Attempted to advance a finished game"@,
    }
}

/// The text of a setup error.
pub open spec fn setup_error_text(e: SetupError) -> Seq<char> {
    match e {
        SetupError::SeatCount => "Expected exactly 4 controllers"@,
        SetupError::Engine(m) => m@,
    }
}

impl AdvanceError {
    /// The error's text.
    pub fn message(&self) -> (r: String)
        ensures
            r@ == advance_error_text(*self),
    {
        match self {
            AdvanceError::Engine(m) => m.clone(),
            AdvanceError::SnapshotMissing => String::from_str(
                "Game state consumed before it could be observed",
            ),
            AdvanceError::AlreadyFinished => String::from_str("Attempted to advance a finished game"),
        }
    }
}

impl SetupError {
    /// The error's text.
    pub fn message(&self) -> (r: String)
        ensures
            r@ == setup_error_text(*self),
    {
        match self {
            SetupError::SeatCount => String::from_str("Expected exactly 4 controllers"),
            SetupError::Engine(m) => m.clone(),
        }
    }
}

/// The step ends the match: the engine said that it had already ended, or the
/// snapshot after the step reports the end.
pub open spec fn step_ends_match(step: EngineStep) -> bool {
    step is AlreadyEnded || step == EngineStep::Advanced(Some(MatchPhase::Ended))
}

/// What a step of the engine means for the match: `Ok(true)` where it goes on,
/// `Ok(false)` where it has ended, and an error where the engine failed or its
/// state could not be observed.
pub open spec fn advance_spec(step: EngineStep) -> Result<bool, AdvanceError> {
    match step {
        EngineStep::Advanced(Some(MatchPhase::Ended)) => Ok(false),
        EngineStep::Advanced(Some(MatchPhase::InPlay)) => Ok(true),
        EngineStep::Advanced(None) => Err(AdvanceError::SnapshotMissing),
        EngineStep::AlreadyEnded => Ok(false),
        EngineStep::Failed(m) => Err(AdvanceError::Engine(m)),
    }
}

/// Classifies one step of the engine; both signals of the end of a match give
/// `Ok(false)`.
pub fn advance_outcome(step: EngineStep) -> (r: Result<bool, AdvanceError>)
    ensures
        r == advance_spec(step),
{
    match step {
        EngineStep::Advanced(Some(MatchPhase::Ended)) => Ok(false),
        EngineStep::Advanced(Some(MatchPhase::InPlay)) => Ok(true),
        EngineStep::Advanced(None) => Err(AdvanceError::SnapshotMissing),
        EngineStep::AlreadyEnded => Ok(false),
        EngineStep::Failed(m) => Err(AdvanceError::Engine(m)),
    }
}

/// The runner's verdict after a step: `None` while the match goes on, else the
/// final status, `Finished` where the match ended and `Error` with the text of
/// the error where it failed.
pub open spec fn verdict_of(outcome: Result<bool, AdvanceError>, status: Option<GameStatus>) -> bool {
    match outcome {
        Ok(true) => status is None,
        Ok(false) => status matches Some(GameStatus::Finished),
        Err(e) => status matches Some(GameStatus::Error(m)) && m@ == advance_error_text(e),
    }
}

/// Decides, after one advance of a match, whether the runner goes on (`None`)
/// or stops with a final status.
pub fn runner_verdict(outcome: Result<bool, AdvanceError>) -> (r: Option<GameStatus>)
    ensures
        verdict_of(outcome, r),
{
    match outcome {
        Ok(true) => None,
        Ok(false) => Some(GameStatus::Finished),
        Err(e) => Some(GameStatus::Error(e.message())),
    }
}

/// The final status of a runner whose match could not be set up.
pub fn setup_failure_status(e: &SetupError) -> (r: GameStatus)
    ensures
        r matches GameStatus::Error(m) && m@ == setup_error_text(*e),
{
    GameStatus::Error(e.message())
}

/// The seat names handed to the engine: one per controller, where there are
/// exactly four.
pub fn seat_names(controllers: &Vec<GameController>) -> (r: Result<Vec<String>, SetupError>)
    ensures
        controllers@.len() == SEAT_COUNT <==> r is Ok,
        r matches Ok(names) ==> names@.len() == SEAT_COUNT && forall|i: int|
            0 <= i < SEAT_COUNT ==> #[trigger] names@[i]@ == controller_name(controllers@[i]),
        r matches Err(e) ==> e is SeatCount,
{
    if controllers.len() != SEAT_COUNT {
        return Err(SetupError::SeatCount);
    }
    let mut names: Vec<String> = Vec::new();
    let mut i: usize = 0;
    while i < controllers.len()
        invariant
            i <= controllers@.len(),
            names@.len() == i,
            forall|k: int| 0 <= k < i ==> #[trigger] names@[k]@ == controller_name(controllers@[k]),
        decreases controllers@.len() - i,
    {
        names.push(controllers[i].to_string());
        i = i + 1;
    }
    Ok(names)
}

/// Both signals of the end of a match, an engine that refuses to advance an
/// ended match and a step whose snapshot reports the end, make the runner stop
/// with `Finished`, not with an error.
pub proof fn lemma_end_signals_finish(step: EngineStep, status: Option<GameStatus>)
    requires
        step_ends_match(step),
        verdict_of(advance_spec(step), status),
    ensures
        status matches Some(GameStatus::Finished),
{
}

} // verus!
