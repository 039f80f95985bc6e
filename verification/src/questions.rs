//! The guessing game: the narrator keeps a secret, and the player has twenty
//! questions to find it out.
//!
//! The game shares its build with the adventure: a session with a history of
//! whole exchanges, prompts that are functions of the session, and turns that
//! end with a save or, where the narrator fails, change nothing. What it adds
//! is a limit. Once no question is left, no further question is accepted: the
//! player has to guess.

use vstd::prelude::*;
use vstd::string::*;
use crate::chat::{ChatFailure, ChatRequest, FailureModel, RequestModel};
use crate::history::{exchange, paired, History, TurnModel};
use crate::session::timestamp_now;
use crate::text::{
    chars_of, contains_chars, decimal_digits, lowercase, lowercase_of, occurs_in, push_unsigned, reply_model,
    string_of, trim_chars, trimmed,
};

verus! {

/// The number of questions that a player has.
pub const QUESTION_LIMIT: u32 = 20;

/// The categories that a secret can be taken from.
#[derive(Clone, Copy, Debug, PartialEq, Eq, Structural)]
pub enum Category {
    Animals,
    Objects,
    Places,
    People,
    Foods,
}

impl Category {
    /// The name of the category, as it is shown and written into prompts.
    pub open spec fn spec_name(self) -> Seq<char> {
        match self {
            Category::Animals => "animals"@,
            Category::Objects => "everyday objects"@,
            Category::Places => "places"@,
            Category::People => "famous people"@,
            Category::Foods => "foods"@,
        }
    }

    /// The place of the category in the list that a player chooses from.
    pub open spec fn spec_index(self) -> int {
        match self {
            Category::Animals => 0,
            Category::Objects => 1,
            Category::Places => 2,
            Category::People => 3,
            Category::Foods => 4,
        }
    }

    /// The category at place `index` of the list, if there is one.
    pub open spec fn at(index: int) -> Option<Category> {
        if index == 0 {
            Some(Category::Animals)
        } else if index == 1 {
            Some(Category::Objects)
        } else if index == 2 {
            Some(Category::Places)
        } else if index == 3 {
            Some(Category::People)
        } else if index == 4 {
            Some(Category::Foods)
        } else {
            None
        }
    }

    /// Returns the name of the category.
    pub fn name(self) -> (text: &'static str)
        ensures
            text@ == self.spec_name(),
    {
        match self {
            Category::Animals => "animals",
            Category::Objects => "everyday objects",
            Category::Places => "places",
            Category::People => "famous people",
            Category::Foods => "foods",
        }
    }

    /// Returns the place of the category in the list.
    pub fn index(self) -> (index: usize)
        ensures
            index == self.spec_index(),
            Category::at(index as int) == Some(self),
    {
        match self {
            Category::Animals => 0,
            Category::Objects => 1,
            Category::Places => 2,
            Category::People => 3,
            Category::Foods => 4,
        }
    }

    /// Returns the category at place `index` of the list.
    pub fn from_index(index: usize) -> (found: Option<Category>)
        ensures
            found == Category::at(index as int),
    {
        if index == 0 {
            Some(Category::Animals)
        } else if index == 1 {
            Some(Category::Objects)
        } else if index == 2 {
            Some(Category::Places)
        } else if index == 3 {
            Some(Category::People)
        } else if index == 4 {
            Some(Category::Foods)
        } else {
            None
        }
    }

    /// Returns what a player chose: the category at the place that was picked,
    /// or the first of the list where nothing usable was picked.
    pub fn chosen(picked: Option<usize>) -> (choice: Category)
        ensures
            choice == match picked {
                Some(index) => match Category::at(index as int) {
                    Some(found) => found,
                    None => Category::Animals,
                },
                None => Category::Animals,
            },
    {
        match picked {
            Some(index) => match Category::from_index(index) {
                Some(found) => found,
                None => Category::Animals,
            },
            None => Category::Animals,
        }
    }
}

/// How many questions were asked, and how many there are in all.
#[derive(Clone, Copy, Debug, PartialEq, Eq, Structural)]
pub struct Progress {
    pub asked: u32,
    pub limit: u32,
}

impl Progress {
    /// The number of questions that are left: the limit less the questions
    /// asked, and nothing where more were asked than the limit allows.
    pub open spec fn spec_remaining(self) -> int {
        if self.limit >= self.asked {
            self.limit - self.asked
        } else {
            0
        }
    }

    /// Returns the progress of a game in which nothing was asked yet.
    pub fn fresh() -> (progress: Progress)
        ensures
            progress == (Progress { asked: 0, limit: QUESTION_LIMIT }),
            progress.spec_remaining() == 20,
    {
        Progress { asked: 0, limit: QUESTION_LIMIT }
    }

    /// Returns the number of questions that are left.
    pub fn remaining(&self) -> (left: u32)
        ensures
            left == self.spec_remaining(),
    {
        if self.limit >= self.asked {
            self.limit - self.asked
        } else {
            0
        }
    }
}

/// The state of one guessing game.
#[derive(Debug)]
pub struct GuessSession {
    pub category: Category,
    pub subject: String,
    pub progress: Progress,
    pub history: History,
    pub started_at: String,
    pub last_saved_at: String,
    pub has_won: bool,
    pub current_guess: Option<String>,
}

/// What a guessing game says, with texts in place of strings.
pub struct GuessModel {
    pub category: Category,
    pub subject: Seq<char>,
    pub progress: Progress,
    pub history: Seq<TurnModel>,
    pub started_at: Seq<char>,
    pub last_saved_at: Seq<char>,
    pub has_won: bool,
    pub current_guess: Option<Seq<char>>,
}

impl View for GuessSession {
    type V = GuessModel;

    open spec fn view(&self) -> GuessModel {
        GuessModel {
            category: self.category,
            subject: self.subject@,
            progress: self.progress,
            history: self.history@,
            started_at: self.started_at@,
            last_saved_at: self.last_saved_at@,
            has_won: self.has_won,
            current_guess: match self.current_guess {
                Some(guess) => Some(guess@),
                None => None,
            },
        }
    }
}

/// The game in `category` before anything has happened, with the two times
/// set: no secret yet, all twenty questions left, nothing said, nothing
/// guessed, nothing won.
pub open spec fn new_game(category: Category, started: Seq<char>, saved: Seq<char>) -> GuessModel {
    GuessModel {
        category,
        subject: Seq::empty(),
        progress: Progress { asked: 0, limit: QUESTION_LIMIT },
        history: Seq::empty(),
        started_at: started,
        last_saved_at: saved,
        has_won: false,
        current_guess: None,
    }
}

/// Whether the game is decided: the player has won or has made the one guess.
pub open spec fn decided(game: GuessModel) -> bool {
    game.has_won || game.current_guess is Some
}

impl GuessSession {
    /// Returns the game in `category` before anything has happened.
    pub fn begin(category: Category, started: String, saved: String) -> (game: GuessSession)
        ensures
            game@ == new_game(category, started@, saved@),
    {
        GuessSession {
            category,
            subject: String::new(),
            progress: Progress::fresh(),
            history: History::new(),
            started_at: started,
            last_saved_at: saved,
            has_won: false,
            current_guess: None,
        }
    }

    /// Tells whether the game is decided.
    pub fn is_decided(&self) -> (over: bool)
        ensures
            over == decided(self@),
    {
        self.has_won || self.current_guess.is_some()
    }
}

impl Default for GuessSession {
    /// The game that stands for "nothing saved": the first category, all
    /// twenty questions left, an empty history, and both times set from the
    /// clock.
    fn default() -> (game: GuessSession)
        ensures
            game@ == new_game(Category::Animals, game@.started_at, game@.last_saved_at),
            game@.progress.spec_remaining() == 20,
    {
        let started: String = timestamp_now();
        let saved: String = timestamp_now();
        GuessSession::begin(Category::Animals, started, saved)
    }
}

/// The name of the file that holds the saved guessing game.
pub const GUESS_SAVE_FILE: &'static str = "twenty_questions_save.json";

/// What reading the saved file of the guessing game gave.
#[derive(Debug)]
pub enum FoundGame {
    /// There is no saved file.
    Missing,
    /// There is one, but it could not be read as a game.
    Unreadable { cause: String },
    /// The game that the saved file holds.
    Game(GuessSession),
}

/// Decides what a load returns. No saved file is no failure: it gives a
/// fresh game, with all twenty questions left and nothing said. A file that
/// could not be read as a game is a failure that carries the cause.
pub fn load_guessing_game(found: FoundGame) -> (loaded: Result<GuessSession, String>)
    ensures
        match found {
            FoundGame::Missing => {
                &&& loaded is Ok
                &&& loaded->Ok_0@ == new_game(
                    Category::Animals,
                    loaded->Ok_0@.started_at,
                    loaded->Ok_0@.last_saved_at,
                )
                &&& loaded->Ok_0@.progress.spec_remaining() == 20
                &&& loaded->Ok_0@.history.len() == 0
            },
            FoundGame::Unreadable { cause } => loaded == Err::<GuessSession, String>(cause),
            FoundGame::Game(game) => loaded == Ok::<GuessSession, String>(game),
        },
{
    match found {
        FoundGame::Missing => Ok(GuessSession::default()),
        FoundGame::Unreadable { cause } => Err(cause),
        FoundGame::Game(game) => Ok(game),
    }
}

/// What an exchange of the guessing game is for.
#[derive(Debug)]
pub enum Purpose {
    /// The narrator is told the category.
    Category,
    /// The narrator commits to a secret.
    Commitment,
    /// The player asks a question.
    Question,
    /// The player's guess is judged.
    Verdict { guess: String },
    /// The secret is revealed.
    Reveal,
}

/// What an exchange is for, with texts in place of strings.
pub enum PurposeModel {
    Category,
    Commitment,
    Question,
    Verdict { guess: Seq<char> },
    Reveal,
}

impl View for Purpose {
    type V = PurposeModel;

    open spec fn view(&self) -> PurposeModel {
        match *self {
            Purpose::Category => PurposeModel::Category,
            Purpose::Commitment => PurposeModel::Commitment,
            Purpose::Question => PurposeModel::Question,
            Purpose::Verdict { guess } => PurposeModel::Verdict { guess: guess@ },
            Purpose::Reveal => PurposeModel::Reveal,
        }
    }
}

/// What the player is told while the narrator's answer is awaited.
pub const THINKING: &'static str = "The keeper of the secret is thinking...";

/// What a failed exchange of the guessing game is called.
pub const NO_ANSWER: &'static str = "Failed to reach the keeper of the secret";

/// How the prompt that names the category begins.
pub const CATEGORY_LEAD: &'static str = "We are going to play Twenty Questions. The category is ";

/// How the prompt that names the category ends.
pub const CATEGORY_TASK: &'static str = ". Confirm that you know the rules: you will keep a secret from this category, and you will answer my questions about it truthfully with Yes, No or Sometimes, without ever naming it.";

/// The prompt that asks the narrator to commit to a secret.
pub const COMMITMENT_PROMPT: &'static str = "Now choose the secret. Reply with the name of the secret and nothing else.";

/// How the prompt for a question begins.
pub const QUESTION_LEAD: &'static str = "The secret is \"";

/// What stands between the secret and the number of the question.
pub const QUESTION_NUMBER: &'static str = "\". This is question ";

/// What stands between the number of the question and the limit.
pub const QUESTION_OF: &'static str = " of ";

/// What stands between the limit and the question.
pub const QUESTION_ASKS: &'static str = ". The player asks: ";

/// How the prompt for a question ends.
pub const QUESTION_TASK: &'static str = "\nAnswer with Yes, No or Sometimes and a short remark. Do not name the secret.";

/// How the prompt for a verdict begins.
pub const VERDICT_LEAD: &'static str = "The secret is \"";

/// What stands between the secret and the guess.
pub const VERDICT_GUESS: &'static str = "\". The player's final guess is \"";

/// How the prompt for a verdict ends.
pub const VERDICT_TASK: &'static str = "\". Begin your reply with the word CORRECT if the guess names the secret, and with the word WRONG if it does not.";

/// How the prompt for the reveal begins.
pub const REVEAL_LEAD: &'static str = "The game is over after ";

/// What stands between the number of questions and the secret.
pub const REVEAL_SECRET: &'static str = " questions. Reveal that the secret was \"";

/// How the prompt for the reveal ends.
pub const REVEAL_TASK: &'static str = "\" and say a few words about how close the player came.";

/// The text of the prompt that names the category.
pub open spec fn category_prompt_text(category: Category) -> Seq<char> {
    CATEGORY_LEAD@ + category.spec_name() + CATEGORY_TASK@
}

/// The text of the prompt for the player's next question, which counts the
/// question as one more than those asked so far.
pub open spec fn question_prompt_text(game: GuessModel, question: Seq<char>) -> Seq<char> {
    QUESTION_LEAD@ + game.subject + QUESTION_NUMBER@ + decimal_digits((game.progress.asked + 1) as nat)
        + QUESTION_OF@ + decimal_digits(game.progress.limit as nat) + QUESTION_ASKS@ + question
        + QUESTION_TASK@
}

/// The text of the prompt that has the player's guess judged.
pub open spec fn verdict_prompt_text(game: GuessModel, guess: Seq<char>) -> Seq<char> {
    VERDICT_LEAD@ + game.subject + VERDICT_GUESS@ + guess + VERDICT_TASK@
}

/// The text of the prompt that has the secret revealed.
pub open spec fn reveal_prompt_text(game: GuessModel) -> Seq<char> {
    REVEAL_LEAD@ + decimal_digits(game.progress.asked as nat) + REVEAL_SECRET@ + game.subject + REVEAL_TASK@
}

/// Writes the prompt that names the category.
pub fn category_prompt(category: Category) -> (prompt: String)
    ensures
        prompt@ == category_prompt_text(category),
{
    let mut prompt: String = String::from_str(CATEGORY_LEAD);
    prompt.append(category.name());
    prompt.append(CATEGORY_TASK);
    prompt
}

/// Writes the prompt for the player's next question.
pub fn question_prompt(game: &GuessSession, question: &str) -> (prompt: String)
    ensures
        prompt@ == question_prompt_text(game@, question@),
{
    let mut prompt: String = String::from_str(QUESTION_LEAD);
    prompt.append(game.subject.as_str());
    prompt.append(QUESTION_NUMBER);
    push_unsigned(&mut prompt, game.progress.asked as u64 + 1);
    prompt.append(QUESTION_OF);
    push_unsigned(&mut prompt, game.progress.limit as u64);
    prompt.append(QUESTION_ASKS);
    prompt.append(question);
    prompt.append(QUESTION_TASK);
    prompt
}

/// Writes the prompt that has the player's guess judged.
pub fn verdict_prompt(game: &GuessSession, guess: &str) -> (prompt: String)
    ensures
        prompt@ == verdict_prompt_text(game@, guess@),
{
    let mut prompt: String = String::from_str(VERDICT_LEAD);
    prompt.append(game.subject.as_str());
    prompt.append(VERDICT_GUESS);
    prompt.append(guess);
    prompt.append(VERDICT_TASK);
    prompt
}

/// Writes the prompt that has the secret revealed.
pub fn reveal_prompt(game: &GuessSession) -> (prompt: String)
    ensures
        prompt@ == reveal_prompt_text(game@),
{
    let mut prompt: String = String::from_str(REVEAL_LEAD);
    push_unsigned(&mut prompt, game.progress.asked as u64);
    prompt.append(REVEAL_SECRET);
    prompt.append(game.subject.as_str());
    prompt.append(REVEAL_TASK);
    prompt
}

/// The request of the guessing game that sends `prompt` along with
/// `history`.
pub open spec fn guess_request(prompt: Seq<char>, history: Seq<TurnModel>) -> RequestModel {
    RequestModel { prompt, history, announcement: THINKING@ }
}

fn request(prompt: &str, history: &History) -> (made: ChatRequest)
    ensures
        made@ == guess_request(prompt@, history@),
{
    ChatRequest {
        prompt: String::from_str(prompt),
        history: history.snapshot(),
        announcement: String::from_str(THINKING),
    }
}

/// What the player wants to do.
#[derive(Debug)]
pub enum Wish {
    /// Ask a question.
    Ask(String),
    /// Make the final guess.
    Guess(String),
    /// Have the secret revealed.
    Reveal,
}

/// What the player wants, with texts in place of strings.
pub enum WishModel {
    Ask(Seq<char>),
    Guess(Seq<char>),
    Reveal,
}

impl View for Wish {
    type V = WishModel;

    open spec fn view(&self) -> WishModel {
        match *self {
            Wish::Ask(question) => WishModel::Ask(question@),
            Wish::Guess(guess) => WishModel::Guess(guess@),
            Wish::Reveal => WishModel::Reveal,
        }
    }
}

/// What is to be done about a wish of the player.
#[derive(Debug)]
pub enum Plan {
    /// Send this request, for this purpose.
    Send { request: ChatRequest, purpose: Purpose },
    /// No question is left: the player has to make the final guess.
    MustGuess,
    /// The game is decided: no question and no guess is accepted any more.
    Over,
}

/// A plan, with texts in place of strings.
pub enum PlanModel {
    Send { request: RequestModel, purpose: PurposeModel },
    MustGuess,
    Over,
}

impl View for Plan {
    type V = PlanModel;

    open spec fn view(&self) -> PlanModel {
        match *self {
            Plan::Send { request, purpose } => PlanModel::Send { request: request@, purpose: purpose@ },
            Plan::MustGuess => PlanModel::MustGuess,
            Plan::Over => PlanModel::Over,
        }
    }
}

/// What is to be done about `wish`. A decided game takes no question and no
/// guess. A question is sent on only while questions are left; with none
/// left, the player is made to guess. The secret can be revealed at any
/// time.
pub open spec fn planned(game: GuessModel, wish: WishModel) -> PlanModel {
    match wish {
        WishModel::Ask(question) => if decided(game) {
            PlanModel::Over
        } else if game.progress.spec_remaining() == 0 {
            PlanModel::MustGuess
        } else {
            PlanModel::Send {
                request: guess_request(question_prompt_text(game, question), game.history),
                purpose: PurposeModel::Question,
            }
        },
        WishModel::Guess(guess) => if decided(game) {
            PlanModel::Over
        } else {
            PlanModel::Send {
                request: guess_request(verdict_prompt_text(game, guess), game.history),
                purpose: PurposeModel::Verdict { guess },
            }
        },
        WishModel::Reveal => PlanModel::Send {
            request: guess_request(reveal_prompt_text(game), game.history),
            purpose: PurposeModel::Reveal,
        },
    }
}

/// Decides what is to be done about a wish of the player. The game itself is
/// left alone. With no question left, a question is never sent on: the
/// player is made to guess, or, where the game is decided, told that it is
/// over.
pub fn plan(game: &GuessSession, wish: Wish) -> (made: Plan)
    ensures
        made@ == planned(game@, wish@),
        wish@ is Ask && game@.progress.spec_remaining() == 0 ==> made@ == if decided(game@) {
            PlanModel::Over
        } else {
            PlanModel::MustGuess
        },
{
    match wish {
        Wish::Ask(question) => {
            if game.is_decided() {
                Plan::Over
            } else if game.progress.remaining() == 0 {
                Plan::MustGuess
            } else {
                let prompt: String = question_prompt(game, question.as_str());
                Plan::Send { request: request(prompt.as_str(), &game.history), purpose: Purpose::Question }
            }
        },
        Wish::Guess(guess) => {
            if game.is_decided() {
                Plan::Over
            } else {
                let prompt: String = verdict_prompt(game, guess.as_str());
                Plan::Send { request: request(prompt.as_str(), &game.history), purpose: Purpose::Verdict { guess } }
            }
        },
        Wish::Reveal => {
            let prompt: String = reveal_prompt(game);
            Plan::Send { request: request(prompt.as_str(), &game.history), purpose: Purpose::Reveal }
        },
    }
}

/// Whether a verdict, given in lowercase, calls the guess correct: it holds
/// the word "correct" and not the word "incorrect".
pub open spec fn lowered_says_correct(lowered: Seq<char>) -> bool {
    occurs_in(lowered, "correct"@) && !occurs_in(lowered, "incorrect"@)
}

/// Whether a verdict calls the guess correct.
pub open spec fn says_correct(verdict: Seq<char>) -> bool {
    lowered_says_correct(lowercase_of(verdict))
}

/// Tells whether a verdict, given in lowercase, calls the guess correct.
pub fn lowered_verdict_is_correct(lowered: &str) -> (correct: bool)
    ensures
        correct == lowered_says_correct(lowered@),
{
    let chars: Vec<char> = chars_of(lowered);
    let correct_word: Vec<char> = chars_of("correct");
    let incorrect_word: Vec<char> = chars_of("incorrect");
    contains_chars(&chars, &correct_word) && !contains_chars(&chars, &incorrect_word)
}

/// Tells whether a verdict calls the guess correct.
pub fn verdict_is_correct(verdict: &str) -> (correct: bool)
    ensures
        correct == says_correct(verdict@),
{
    let lowered: String = lowercase(verdict);
    lowered_verdict_is_correct(lowered.as_str())
}

/// How an exchange of the guessing game ended.
#[derive(Debug)]
pub enum Settled {
    /// The game has changed: save it. `answer` is what the narrator said.
    Save { answer: String },
    /// The game has changed, and the next prompt of the setup goes out.
    Next { request: ChatRequest, purpose: Purpose },
    /// The exchange failed: nothing has changed, and nothing is to be saved.
    Failed(ChatFailure),
    /// The answer came too late to count: no question was left, or the game
    /// was decided. Nothing has changed, and nothing is to be saved.
    Refused,
}

/// How an exchange ended, with texts in place of strings.
pub enum SettledModel {
    Save { answer: Seq<char> },
    Next { request: RequestModel, purpose: PurposeModel },
    Failed(FailureModel),
    Refused,
}

impl View for Settled {
    type V = SettledModel;

    open spec fn view(&self) -> SettledModel {
        match *self {
            Settled::Save { answer } => SettledModel::Save { answer: answer@ },
            Settled::Next { request, purpose } => SettledModel::Next { request: request@, purpose: purpose@ },
            Settled::Failed(failure) => SettledModel::Failed(failure@),
            Settled::Refused => SettledModel::Refused,
        }
    }
}

/// The game with one more exchange in its history.
pub open spec fn game_with_exchange(game: GuessModel, prompt: Seq<char>, response: Seq<char>) -> GuessModel {
    GuessModel { history: game.history + exchange(prompt, response), ..game }
}

/// The game after the narrator answered `response` to `prompt`, and how the
/// exchange ended. Prompt and answer go into the history together. The
/// answer to the commitment is the secret, without the white space around
/// it. An answered question counts as asked. A verdict fixes the guess and
/// decides whether the player has won. Whenever the game is to be saved, the
/// time of the save is `now`.
pub open spec fn answered(
    game: GuessModel,
    purpose: PurposeModel,
    prompt: Seq<char>,
    response: Seq<char>,
    now: Seq<char>,
) -> (GuessModel, SettledModel) {
    let told = game_with_exchange(game, prompt, response);
    match purpose {
        PurposeModel::Category => (
            told,
            SettledModel::Next {
                request: guess_request(COMMITMENT_PROMPT@, told.history),
                purpose: PurposeModel::Commitment,
            },
        ),
        PurposeModel::Commitment => (
            GuessModel { subject: trimmed(response), last_saved_at: now, ..told },
            SettledModel::Save { answer: response },
        ),
        PurposeModel::Question => if decided(game) || game.progress.spec_remaining() == 0 {
            (game, SettledModel::Refused)
        } else {
            (
                GuessModel {
                    progress: Progress { asked: (game.progress.asked + 1) as u32, limit: game.progress.limit },
                    last_saved_at: now,
                    ..told
                },
                SettledModel::Save { answer: response },
            )
        },
        PurposeModel::Verdict { guess } => if decided(game) {
            (game, SettledModel::Refused)
        } else {
            (
                GuessModel {
                    has_won: says_correct(response),
                    current_guess: Some(guess),
                    last_saved_at: now,
                    ..told
                },
                SettledModel::Save { answer: response },
            )
        },
        PurposeModel::Reveal => (
            GuessModel { last_saved_at: now, ..told },
            SettledModel::Save { answer: response },
        ),
    }
}

/// The game after an exchange, and how the exchange ended. A failed exchange
/// changes nothing.
pub open spec fn settled(
    game: GuessModel,
    purpose: PurposeModel,
    prompt: Seq<char>,
    reply: Result<Seq<char>, Seq<char>>,
    now: Seq<char>,
) -> (GuessModel, SettledModel) {
    match reply {
        Ok(response) => answered(game, purpose, prompt, response, now),
        Err(cause) => (game, SettledModel::Failed(FailureModel { message: NO_ANSWER@, cause })),
    }
}

/// Takes in what came back from the narrator for `prompt`, and says what is
/// to be done next.
pub fn settle(
    game: &mut GuessSession,
    purpose: Purpose,
    prompt: String,
    reply: Result<String, String>,
    now: String,
) -> (ended: Settled)
    ensures
        (final(game)@, ended@) == settled(old(game)@, purpose@, prompt@, reply_model(reply), now@),
{
    let response: String = match reply {
        Ok(response) => response,
        Err(cause) => {
            return Settled::Failed(ChatFailure { message: String::from_str(NO_ANSWER), cause });
        },
    };
    match purpose {
        Purpose::Category => {
            game.history.record_exchange(prompt, response);
            Settled::Next { request: request(COMMITMENT_PROMPT, &game.history), purpose: Purpose::Commitment }
        },
        Purpose::Commitment => {
            let chars: Vec<char> = chars_of(response.as_str());
            let kept: Vec<char> = trim_chars(&chars);
            game.subject = string_of(&kept);
            game.history.record_exchange(prompt, response.clone());
            game.last_saved_at = now;
            Settled::Save { answer: response }
        },
        Purpose::Question => {
            if game.is_decided() || game.progress.remaining() == 0 {
                Settled::Refused
            } else {
                game.progress = Progress { asked: game.progress.asked + 1, limit: game.progress.limit };
                game.history.record_exchange(prompt, response.clone());
                game.last_saved_at = now;
                Settled::Save { answer: response }
            }
        },
        Purpose::Verdict { guess } => {
            if game.is_decided() {
                Settled::Refused
            } else {
                game.has_won = verdict_is_correct(response.as_str());
                game.current_guess = Some(guess);
                game.history.record_exchange(prompt, response.clone());
                game.last_saved_at = now;
                Settled::Save { answer: response }
            }
        },
        Purpose::Reveal => {
            game.history.record_exchange(prompt, response.clone());
            game.last_saved_at = now;
            Settled::Save { answer: response }
        },
    }
}

/// With no question left, no question goes out: the player is made to guess,
/// or told that the game is over. And should an answer to a question still
/// arrive, it is not counted and not recorded.
pub proof fn lemma_no_question_beyond_the_limit(
    game: GuessModel,
    question: Seq<char>,
    prompt: Seq<char>,
    response: Seq<char>,
    now: Seq<char>,
)
    requires
        game.progress.spec_remaining() == 0,
    ensures
        !(planned(game, WishModel::Ask(question)) is Send),
        !decided(game) ==> planned(game, WishModel::Ask(question)) == PlanModel::MustGuess,
        settled(game, PurposeModel::Question, prompt, Ok(response), now) == (game, SettledModel::Refused),
{
}

/// Each question that is answered in time takes one from the questions that
/// are left, and the limit stays what it is.
pub proof fn lemma_answered_question_counts(game: GuessModel, prompt: Seq<char>, response: Seq<char>, now: Seq<char>)
    requires
        !decided(game),
        game.progress.spec_remaining() > 0,
    ensures
        ({
            let after = settled(game, PurposeModel::Question, prompt, Ok(response), now).0;
            &&& after.progress.limit == game.progress.limit
            &&& after.progress.asked == game.progress.asked + 1
            &&& after.progress.spec_remaining() == game.progress.spec_remaining() - 1
            &&& after.history == game.history + exchange(prompt, response)
        }),
{
}

/// What is won stays won, and the guess, once made, stays the guess:
/// nothing that comes back from the narrator changes either.
pub proof fn lemma_flags_are_set_once(
    game: GuessModel,
    purpose: PurposeModel,
    prompt: Seq<char>,
    reply: Result<Seq<char>, Seq<char>>,
    now: Seq<char>,
)
    ensures
        game.has_won ==> settled(game, purpose, prompt, reply, now).0.has_won,
        game.current_guess is Some ==> settled(game, purpose, prompt, reply, now).0.current_guess
            == game.current_guess,
{
}

/// A failed exchange changes nothing in the game and asks for no save.
pub proof fn lemma_failed_exchange_keeps_game(
    game: GuessModel,
    purpose: PurposeModel,
    prompt: Seq<char>,
    cause: Seq<char>,
    now: Seq<char>,
)
    ensures
        settled(game, purpose, prompt, Err(cause), now).0 == game,
        settled(game, purpose, prompt, Err(cause), now).1 is Failed,
{
}

/// Whatever comes back from the narrator, a history made of whole exchanges
/// stays one, and nothing that was said is taken back.
pub proof fn lemma_game_history_stays_paired(
    game: GuessModel,
    purpose: PurposeModel,
    prompt: Seq<char>,
    reply: Result<Seq<char>, Seq<char>>,
    now: Seq<char>,
)
    requires
        paired(game.history),
    ensures
        paired(settled(game, purpose, prompt, reply, now).0.history),
        settled(game, purpose, prompt, reply, now).0.history == game.history || settled(
            game,
            purpose,
            prompt,
            reply,
            now,
        ).0.history == game.history + exchange(prompt, reply->Ok_0),
{
    match reply {
        Ok(response) => {
            crate::history::lemma_exchange_keeps_pairs(game.history, prompt, response);
        },
        Err(_) => {},
    }
}

} // verus!
