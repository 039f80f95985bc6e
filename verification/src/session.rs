//! The session: everything that is kept of one adventure.

use vstd::prelude::*;
use crate::campaign::{CampaignDetails, DetailsModel};
use crate::character::{blank_character, Character, CharacterModel};
use crate::history::{exchange, paired, History, TurnModel};

verus! {

/// The state of one adventure: the character, where the story stands, what
/// was said so far, and when the adventure began and was last written down.
#[derive(Debug)]
pub struct GameState {
    pub character: Character,
    pub campaign: String,
    pub current_location: String,
    pub current_quest: String,
    pub history: History,
    pub date_started: String,
    pub last_saved: String,
}

/// What a session says, with texts in place of strings.
pub struct SessionModel {
    pub character: CharacterModel,
    pub campaign: Seq<char>,
    pub current_location: Seq<char>,
    pub current_quest: Seq<char>,
    pub history: Seq<TurnModel>,
    pub date_started: Seq<char>,
    pub last_saved: Seq<char>,
}

impl View for GameState {
    type V = SessionModel;

    open spec fn view(&self) -> SessionModel {
        SessionModel {
            character: self.character@,
            campaign: self.campaign@,
            current_location: self.current_location@,
            current_quest: self.current_quest@,
            history: self.history@,
            date_started: self.date_started@,
            last_saved: self.last_saved@,
        }
    }
}

/// What a load gave, a session or the cause of a failure, with texts in
/// place of strings.
pub open spec fn loaded_model(loaded: Result<GameState, String>) -> Result<SessionModel, Seq<char>> {
    match loaded {
        Ok(state) => Ok(state@),
        Err(cause) => Err(cause@),
    }
}

/// The session of `character` before anything has happened, with the two
/// times set.
pub open spec fn new_session(character: CharacterModel, started: Seq<char>, saved: Seq<char>) -> SessionModel {
    SessionModel {
        character,
        campaign: Seq::empty(),
        current_location: Seq::empty(),
        current_quest: Seq::empty(),
        history: Seq::empty(),
        date_started: started,
        last_saved: saved,
    }
}

/// The session with the details of the campaign written into it.
pub open spec fn with_details(session: SessionModel, details: DetailsModel) -> SessionModel {
    SessionModel {
        campaign: details.campaign,
        current_location: details.location,
        current_quest: details.quest,
        ..session
    }
}

/// The session with one more exchange in its history.
pub open spec fn with_exchange(session: SessionModel, prompt: Seq<char>, response: Seq<char>) -> SessionModel {
    SessionModel { history: session.history + exchange(prompt, response), ..session }
}

/// The session with the time of its last save set.
pub open spec fn saved_at(session: SessionModel, now: Seq<char>) -> SessionModel {
    SessionModel { last_saved: now, ..session }
}

/// The present moment in local time as an RFC 3339 text, read from the clock
/// by `chrono::Local::now()` and written by `DateTime::to_rfc3339`. Trusted:
/// nothing; what comes back depends on the clock.
#[verifier::external_body]
pub(crate) fn timestamp_now() -> (now: String) {
    chrono::Local::now().to_rfc3339()
}

impl GameState {
    /// Returns the session of `character` before anything has happened.
    pub fn begin(character: Character, started: String, saved: String) -> (state: GameState)
        ensures
            state@ == new_session(character@, started@, saved@),
    {
        GameState {
            character,
            campaign: String::new(),
            current_location: String::new(),
            current_quest: String::new(),
            history: History::new(),
            date_started: started,
            last_saved: saved,
        }
    }

    /// Returns a second session that says what this one says.
    pub fn duplicate(&self) -> (copy: GameState)
        ensures
            copy@ == self@,
    {
        GameState {
            character: self.character.duplicate(),
            campaign: self.campaign.clone(),
            current_location: self.current_location.clone(),
            current_quest: self.current_quest.clone(),
            history: self.history.duplicate(),
            date_started: self.date_started.clone(),
            last_saved: self.last_saved.clone(),
        }
    }

    /// Tells whether the session belongs to a campaign that has begun: one
    /// with a name.
    pub fn has_campaign(&self) -> (begun: bool)
        ensures
            begun == (self@.campaign.len() > 0),
    {
        !self.campaign.as_str().is_empty()
    }

    /// Writes the details of the campaign into the session.
    pub fn set_details(&mut self, details: CampaignDetails)
        ensures
            final(self)@ == with_details(old(self)@, details@),
    {
        self.campaign = details.campaign;
        self.current_location = details.location;
        self.current_quest = details.quest;
    }

    /// Adds one whole exchange to the history. Nothing else changes.
    pub fn record_exchange(&mut self, prompt: String, response: String)
        ensures
            final(self)@ == with_exchange(old(self)@, prompt@, response@),
            paired(final(self)@.history),
    {
        self.history.record_exchange(prompt, response);
    }

    /// Sets the time of the last save.
    pub fn mark_saved(&mut self, now: String)
        ensures
            final(self)@ == saved_at(old(self)@, now@),
    {
        self.last_saved = now;
    }
}

impl Default for GameState {
    /// The session that stands for "nothing saved": a blank character, no
    /// campaign, an empty history, and both times set from the clock.
    fn default() -> (state: GameState)
        ensures
            state@ == new_session(blank_character(), state@.date_started, state@.last_saved),
    {
        let started: String = timestamp_now();
        let saved: String = timestamp_now();
        GameState::begin(Character::default(), started, saved)
    }
}

} // verus!
