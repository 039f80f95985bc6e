//! What goes in and out of the controller.
//!
//! The controller does not read keys, draw menus, reach files or talk to the
//! narrator. Whoever drives it does that: it performs what the controller
//! asks for (`Ask`), shows what the controller has to say (`Notice`), and
//! hands back what happened (`Event`).

use vstd::prelude::*;
use crate::character::{Character, CharacterModel};
use crate::chat::{ChatRequest, RequestModel};
use crate::mechanics::Die;
use crate::prompt::SkillCheck;
use crate::roster::Skill;
use crate::session::{loaded_model, GameState, SessionModel};
use crate::text::{done_model, reply_model};

verus! {

/// The choices of the main menu.
#[derive(Clone, Copy, Debug, PartialEq, Eq, Structural)]
pub enum MenuChoice {
    NewAdventure,
    Continue,
    Help,
    Quit,
}

impl MenuChoice {
    /// The choice at place `index` of the menu, if there is one.
    pub open spec fn at(index: int) -> Option<MenuChoice> {
        if index == 0 {
            Some(MenuChoice::NewAdventure)
        } else if index == 1 {
            Some(MenuChoice::Continue)
        } else if index == 2 {
            Some(MenuChoice::Help)
        } else if index == 3 {
            Some(MenuChoice::Quit)
        } else {
            None
        }
    }

    /// Returns the choice at place `index` of the menu.
    pub fn from_index(index: usize) -> (found: Option<MenuChoice>)
        ensures
            found == MenuChoice::at(index as int),
    {
        if index == 0 {
            Some(MenuChoice::NewAdventure)
        } else if index == 1 {
            Some(MenuChoice::Continue)
        } else if index == 2 {
            Some(MenuChoice::Help)
        } else if index == 3 {
            Some(MenuChoice::Quit)
        } else {
            None
        }
    }
}

/// What a player can do during play.
#[derive(Debug)]
pub enum PlayChoice {
    /// A free action, in the player's words.
    Act(String),
    /// A check on a skill.
    Check(Skill),
    /// A roll of dice, with the number of dice as the player typed it.
    Roll { die: Die, count: String },
    /// A look at the character sheet.
    Sheet,
    /// A save.
    Save,
    /// The way back to the main menu.
    Menu,
}

/// What a choice during play says, with texts in place of strings.
pub enum PlayModel {
    Act(Seq<char>),
    Check(Skill),
    Roll { die: Die, count: Seq<char> },
    Sheet,
    Save,
    Menu,
}

impl View for PlayChoice {
    type V = PlayModel;

    open spec fn view(&self) -> PlayModel {
        match *self {
            PlayChoice::Act(text) => PlayModel::Act(text@),
            PlayChoice::Check(skill) => PlayModel::Check(skill),
            PlayChoice::Roll { die, count } => PlayModel::Roll { die, count: count@ },
            PlayChoice::Sheet => PlayModel::Sheet,
            PlayChoice::Save => PlayModel::Save,
            PlayChoice::Menu => PlayModel::Menu,
        }
    }
}

/// What happened: the answer to what the controller asked for.
#[derive(Debug)]
pub enum Event {
    /// The player chose from the main menu.
    Menu(MenuChoice),
    /// The player created a character.
    Created(Character),
    /// The narrator answered, or the exchange failed with a cause.
    Reply(Result<String, String>),
    /// The store read the saved session, or failed with a cause. Where
    /// nothing was saved, what it read is the blank session.
    Loaded(Result<GameState, String>),
    /// The store wrote the session, or failed with a cause.
    Saved(Result<(), String>),
    /// The player chose what to do next.
    Play(PlayChoice),
}

/// What happened, with texts in place of strings.
pub enum EventModel {
    Menu(MenuChoice),
    Created(CharacterModel),
    Reply(Result<Seq<char>, Seq<char>>),
    Loaded(Result<SessionModel, Seq<char>>),
    Saved(Result<(), Seq<char>>),
    Play(PlayModel),
}

impl View for Event {
    type V = EventModel;

    open spec fn view(&self) -> EventModel {
        match *self {
            Event::Menu(choice) => EventModel::Menu(choice),
            Event::Created(character) => EventModel::Created(character@),
            Event::Reply(reply) => EventModel::Reply(reply_model(reply)),
            Event::Loaded(loaded) => EventModel::Loaded(loaded_model(loaded)),
            Event::Saved(result) => EventModel::Saved(done_model(result)),
            Event::Play(choice) => EventModel::Play(choice@),
        }
    }
}

/// Something to show to the player.
#[derive(Debug)]
pub enum Notice {
    /// A new adventure is about to begin.
    StartingAdventure,
    /// The rules and commands.
    Help,
    /// The game is over.
    Farewell,
    /// There is no adventure to continue.
    NoSavedAdventure,
    /// The saved adventure could not be read.
    LoadFailed,
    /// A saved adventure goes on.
    Continuing { campaign: String, location: String, quest: String },
    /// The last thing the narrator said before the adventure was left.
    Previously { text: String },
    /// A new campaign has begun.
    Welcome { campaign: String },
    /// The opening scene of a new campaign.
    OpeningScene { text: String },
    /// What the narrator answered to a turn of the player.
    Narration { text: String },
    /// The numbers of a skill check.
    CheckRolled(SkillCheck),
    /// The outcome of a roll of dice.
    DiceRolled { count: u32, sides: u32, rolls: Vec<u32>, total: u64 },
    /// The character sheet.
    Sheet,
    /// The session was saved.
    Saved,
    /// The session could not be saved.
    SaveFailed { cause: String },
    /// The narrator could not be reached.
    ChatFailed { message: String, cause: String },
    /// The player goes back to the main menu.
    ReturningToMenu,
}

/// What a notice says, with texts in place of strings.
pub enum NoticeModel {
    StartingAdventure,
    Help,
    Farewell,
    NoSavedAdventure,
    LoadFailed,
    Continuing { campaign: Seq<char>, location: Seq<char>, quest: Seq<char> },
    Previously { text: Seq<char> },
    Welcome { campaign: Seq<char> },
    OpeningScene { text: Seq<char> },
    Narration { text: Seq<char> },
    CheckRolled(SkillCheck),
    DiceRolled { count: u32, sides: u32, rolls: Seq<u32>, total: u64 },
    Sheet,
    Saved,
    SaveFailed { cause: Seq<char> },
    ChatFailed { message: Seq<char>, cause: Seq<char> },
    ReturningToMenu,
}

impl View for Notice {
    type V = NoticeModel;

    open spec fn view(&self) -> NoticeModel {
        match *self {
            Notice::StartingAdventure => NoticeModel::StartingAdventure,
            Notice::Help => NoticeModel::Help,
            Notice::Farewell => NoticeModel::Farewell,
            Notice::NoSavedAdventure => NoticeModel::NoSavedAdventure,
            Notice::LoadFailed => NoticeModel::LoadFailed,
            Notice::Continuing { campaign, location, quest } => NoticeModel::Continuing {
                campaign: campaign@,
                location: location@,
                quest: quest@,
            },
            Notice::Previously { text } => NoticeModel::Previously { text: text@ },
            Notice::Welcome { campaign } => NoticeModel::Welcome { campaign: campaign@ },
            Notice::OpeningScene { text } => NoticeModel::OpeningScene { text: text@ },
            Notice::Narration { text } => NoticeModel::Narration { text: text@ },
            Notice::CheckRolled(check) => NoticeModel::CheckRolled(check),
            Notice::DiceRolled { count, sides, rolls, total } => NoticeModel::DiceRolled {
                count,
                sides,
                rolls: rolls@,
                total,
            },
            Notice::Sheet => NoticeModel::Sheet,
            Notice::Saved => NoticeModel::Saved,
            Notice::SaveFailed { cause } => NoticeModel::SaveFailed { cause: cause@ },
            Notice::ChatFailed { message, cause } => NoticeModel::ChatFailed {
                message: message@,
                cause: cause@,
            },
            Notice::ReturningToMenu => NoticeModel::ReturningToMenu,
        }
    }
}

/// What a sequence of notices says.
pub open spec fn notice_models(notices: Seq<Notice>) -> Seq<NoticeModel> {
    notices.map_values(|notice: Notice| notice@)
}

/// What the controller asks its driver to do next.
#[derive(Debug)]
pub enum Ask {
    /// Let the player choose from the main menu.
    MenuChoice,
    /// Let the player create a character.
    NewCharacter,
    /// Send a prompt to the narrator.
    Exchange(ChatRequest),
    /// Look for the saved session.
    Load,
    /// Write the session down.
    Save,
    /// Let the player choose what to do next.
    PlayChoice,
    /// Stop: the game is over.
    Nothing,
}

/// What is asked, with texts in place of strings.
pub enum AskModel {
    MenuChoice,
    NewCharacter,
    Exchange(RequestModel),
    Load,
    Save,
    PlayChoice,
    Nothing,
}

impl View for Ask {
    type V = AskModel;

    open spec fn view(&self) -> AskModel {
        match *self {
            Ask::MenuChoice => AskModel::MenuChoice,
            Ask::NewCharacter => AskModel::NewCharacter,
            Ask::Exchange(request) => AskModel::Exchange(request@),
            Ask::Load => AskModel::Load,
            Ask::Save => AskModel::Save,
            Ask::PlayChoice => AskModel::PlayChoice,
            Ask::Nothing => AskModel::Nothing,
        }
    }
}

/// One step of the controller: what to show, then what to do.
#[derive(Debug)]
pub struct Step {
    pub notices: Vec<Notice>,
    pub ask: Ask,
}

/// What a step says, with texts in place of strings.
pub struct StepModel {
    pub notices: Seq<NoticeModel>,
    pub ask: AskModel,
}

impl View for Step {
    type V = StepModel;

    open spec fn view(&self) -> StepModel {
        StepModel { notices: notice_models(self.notices@), ask: self.ask@ }
    }
}

} // verus!
