//! The exchange with the narrator, seen from this side: what is sent, what
//! the player is told while waiting, and what a failure is turned into.
//!
//! Nothing here touches a history. Whoever gets an answer adds the prompt and
//! the answer to the history together, or, after a failure, neither.
//!
//! What the player is told is a notice and no more. It holds nothing back:
//! the prompt goes out at once, and whether the notice could be shown has no
//! part in how the exchange ends.

use vstd::prelude::*;
use vstd::string::*;
use crate::history::{turn_models, History, Turn, TurnModel};

verus! {

/// What an exchange is for.
#[derive(Clone, Copy, Debug, PartialEq, Eq, Structural)]
pub enum ExchangeKind {
    /// The first prompt of a new campaign.
    Opening,
    /// The prompt for the opening scene.
    Scene,
    /// A free action of the player.
    Action,
    /// A skill check.
    SkillCheck,
}

impl ExchangeKind {
    /// What the player is told while the answer is awaited.
    pub open spec fn spec_announcement(self) -> Seq<char> {
        match self {
            ExchangeKind::Opening => "The Dungeon Master is creating your adventure..."@,
            ExchangeKind::Scene => "The Dungeon Master is setting the scene..."@,
            ExchangeKind::Action => "The Dungeon Master is responding..."@,
            ExchangeKind::SkillCheck => "The Dungeon Master is resolving your check..."@,
        }
    }

    /// What a failure of the exchange is called.
    pub open spec fn spec_failure_message(self) -> Seq<char> {
        match self {
            ExchangeKind::Opening => "Failed to communicate with the Dungeon Master"@,
            ExchangeKind::Scene => "Failed to set the scene"@,
            ExchangeKind::Action => "Failed to process your action"@,
            ExchangeKind::SkillCheck => "Failed to process skill check"@,
        }
    }

    /// Returns what the player is told while the answer is awaited.
    pub fn announcement(self) -> (text: &'static str)
        ensures
            text@ == self.spec_announcement(),
    {
        match self {
            ExchangeKind::Opening => "The Dungeon Master is creating your adventure...",
            ExchangeKind::Scene => "The Dungeon Master is setting the scene...",
            ExchangeKind::Action => "The Dungeon Master is responding...",
            ExchangeKind::SkillCheck => "The Dungeon Master is resolving your check...",
        }
    }

    /// Returns what a failure of the exchange is called.
    pub fn failure_message(self) -> (text: &'static str)
        ensures
            text@ == self.spec_failure_message(),
    {
        match self {
            ExchangeKind::Opening => "Failed to communicate with the Dungeon Master",
            ExchangeKind::Scene => "Failed to set the scene",
            ExchangeKind::Action => "Failed to process your action",
            ExchangeKind::SkillCheck => "Failed to process skill check",
        }
    }
}

/// One request to the narrator: the prompt, the history that goes with it,
/// and what the player is told while the answer is on its way.
#[derive(Debug)]
pub struct ChatRequest {
    pub prompt: String,
    pub history: Vec<Turn>,
    pub announcement: String,
}

/// What a request says, with texts in place of strings.
pub struct RequestModel {
    pub prompt: Seq<char>,
    pub history: Seq<TurnModel>,
    pub announcement: Seq<char>,
}

impl View for ChatRequest {
    type V = RequestModel;

    open spec fn view(&self) -> RequestModel {
        RequestModel {
            prompt: self.prompt@,
            history: turn_models(self.history@),
            announcement: self.announcement@,
        }
    }
}

/// The request that sends `prompt` along with `history`.
pub open spec fn request_for(kind: ExchangeKind, prompt: Seq<char>, history: Seq<TurnModel>) -> RequestModel {
    RequestModel {
        prompt,
        history,
        announcement: kind.spec_announcement(),
    }
}

/// A failed exchange: what the failure is called, and what caused it.
#[derive(Debug)]
pub struct ChatFailure {
    pub message: String,
    pub cause: String,
}

/// What a failure says, with texts in place of strings.
pub struct FailureModel {
    pub message: Seq<char>,
    pub cause: Seq<char>,
}

impl View for ChatFailure {
    type V = FailureModel;

    open spec fn view(&self) -> FailureModel {
        FailureModel { message: self.message@, cause: self.cause@ }
    }
}

/// Prepares the request that sends `prompt` along with the history as it
/// stands. The history itself is left alone.
pub fn plan_exchange(kind: ExchangeKind, prompt: &str, history: &History) -> (request: ChatRequest)
    ensures
        request@ == request_for(kind, prompt@, history@),
{
    ChatRequest {
        prompt: String::from_str(prompt),
        history: history.snapshot(),
        announcement: String::from_str(kind.announcement()),
    }
}

/// Turns what came back from the narrator into the result of the exchange:
/// the answer as it is, or a failure that carries the cause.
pub fn settle_exchange(kind: ExchangeKind, reply: Result<String, String>) -> (result: Result<String, ChatFailure>)
    ensures
        match reply {
            Ok(response) => result == Ok::<String, ChatFailure>(response),
            Err(cause) => result is Err && result->Err_0@ == (FailureModel {
                message: kind.spec_failure_message(),
                cause: cause@,
            }),
        },
{
    match reply {
        Ok(response) => Ok(response),
        Err(cause) => Err(ChatFailure { message: String::from_str(kind.failure_message()), cause }),
    }
}

} // verus!
