//! The controller: the turn loop as a state machine.
//!
//! `advance` takes the stage of the game and what just happened, and gives
//! the next stage together with what to show and what to do next. It is a
//! function: the dice that fell and the time of day are handed in. `step`
//! throws the dice and reads the clock itself and then calls `advance`.
//!
//! Every turn that changes the session ends with a save. Rolling dice and
//! looking at the sheet change nothing and save nothing. An exchange that
//! fails leaves the history as it was and saves nothing.

use vstd::prelude::*;
use crate::campaign::{campaign_details, extract_details, CampaignDetails};
use crate::character::{Character, CharacterModel};
use crate::roster::Skill;
use crate::chat::{plan_exchange, request_for, settle_exchange, ChatFailure, ChatRequest, ExchangeKind};
use crate::events::{
    notice_models, Ask, AskModel, Event, EventModel, MenuChoice, Notice, NoticeModel, PlayChoice, PlayModel,
    Step, StepModel,
};
use crate::history::{exchange, paired, History, TurnModel};
use crate::mechanics::{all_faces, dice_total, roll_dice, sum_of, Die};
use crate::prompt::{
    action_prompt, action_prompt_text, campaign_prompt, campaign_prompt_text, check_prompt_text,
    resolve_check, resolved_check, scene_prompt, skill_check_prompt, SkillCheck, SCENE_PROMPT,
};
use crate::session::{
    loaded_model, new_session, saved_at, timestamp_now, with_details, with_exchange, GameState, SessionModel,
};
use crate::text::{count_of, done_model, parse_count, reply_model};

verus! {

/// Why the session is being saved.
#[derive(Clone, Copy, Debug, PartialEq, Eq, Structural)]
pub enum SaveReason {
    /// A new campaign has been set up.
    Setup,
    /// A turn of the player has been answered.
    Turn,
    /// The player asked for it.
    Manual,
}

/// Where the game stands.
#[derive(Debug)]
pub enum Stage {
    /// The main menu is open.
    MainMenu,
    /// The player wants to continue; the store is looking for the session.
    Loading,
    /// The player is creating a character.
    Creating,
    /// A prompt is out and the narrator's answer is awaited.
    Awaiting { state: GameState, prompt: String, kind: ExchangeKind },
    /// The session is being written down.
    Saving { state: GameState, reason: SaveReason },
    /// The player is to choose what to do next.
    Play { state: GameState },
    /// The game is over.
    Ended,
}

/// Where the game stands, with texts in place of strings.
pub enum StageModel {
    MainMenu,
    Loading,
    Creating,
    Awaiting { state: SessionModel, prompt: Seq<char>, kind: ExchangeKind },
    Saving { state: SessionModel, reason: SaveReason },
    Play { state: SessionModel },
    Ended,
}

impl View for Stage {
    type V = StageModel;

    open spec fn view(&self) -> StageModel {
        match *self {
            Stage::MainMenu => StageModel::MainMenu,
            Stage::Loading => StageModel::Loading,
            Stage::Creating => StageModel::Creating,
            Stage::Awaiting { state, prompt, kind } => StageModel::Awaiting { state: state@, prompt: prompt@, kind },
            Stage::Saving { state, reason } => StageModel::Saving { state: state@, reason },
            Stage::Play { state } => StageModel::Play { state: state@ },
            Stage::Ended => StageModel::Ended,
        }
    }
}

/// The four phases that the stages belong to.
#[derive(Clone, Copy, Debug, PartialEq, Eq, Structural)]
pub enum Phase {
    MainMenu,
    Setup,
    ActivePlay,
    Ended,
}

/// The phase of a stage.
pub open spec fn phase_of(stage: StageModel) -> Phase {
    match stage {
        StageModel::MainMenu | StageModel::Loading => Phase::MainMenu,
        StageModel::Creating => Phase::Setup,
        StageModel::Awaiting { kind, .. } => match kind {
            ExchangeKind::Opening | ExchangeKind::Scene => Phase::Setup,
            ExchangeKind::Action | ExchangeKind::SkillCheck => Phase::ActivePlay,
        },
        StageModel::Saving { reason, .. } => match reason {
            SaveReason::Setup => Phase::Setup,
            SaveReason::Turn | SaveReason::Manual => Phase::ActivePlay,
        },
        StageModel::Play { .. } => Phase::ActivePlay,
        StageModel::Ended => Phase::Ended,
    }
}

/// The session that a stage holds, if it holds one.
pub open spec fn session_of(stage: StageModel) -> Option<SessionModel> {
    match stage {
        StageModel::Awaiting { state, .. } => Some(state),
        StageModel::Saving { state, .. } => Some(state),
        StageModel::Play { state } => Some(state),
        _ => None,
    }
}

/// The number of dice that the player's answer asks for: the count it
/// writes, or one where it writes none.
pub open spec fn dice_asked(count: Seq<char>) -> u32 {
    match count_of(count) {
        Some(number) => number,
        None => 1,
    }
}

/// Whether `dice` are the dice that `event` needs: one twenty-sided die for
/// a skill check, and the dice asked for for a roll. Nothing else needs
/// dice.
pub open spec fn dice_fit(event: EventModel, dice: Seq<u32>) -> bool {
    match event {
        EventModel::Play(PlayModel::Check(_)) => dice.len() == 1 && all_faces(dice, 20),
        EventModel::Play(PlayModel::Roll { die, count }) => dice.len() == dice_asked(count) && all_faces(
            dice,
            die.spec_sides(),
        ),
        _ => true,
    }
}

/// The step that shows `notices` and then asks for `ask`.
pub open spec fn step_of(notices: Seq<NoticeModel>, ask: AskModel) -> StepModel {
    StepModel { notices, ask }
}

/// What follows a choice from the main menu.
pub open spec fn after_menu(choice: MenuChoice) -> (StageModel, StepModel) {
    match choice {
        MenuChoice::NewAdventure => (
            StageModel::Creating,
            step_of(seq![NoticeModel::StartingAdventure], AskModel::NewCharacter),
        ),
        MenuChoice::Continue => (StageModel::Loading, step_of(seq![], AskModel::Load)),
        MenuChoice::Help => (StageModel::MainMenu, step_of(seq![NoticeModel::Help], AskModel::MenuChoice)),
        MenuChoice::Quit => (StageModel::Ended, step_of(seq![NoticeModel::Farewell], AskModel::Nothing)),
    }
}

/// The notice that recalls the last thing the narrator said, if there is
/// such a thing.
pub open spec fn recall(history: Seq<TurnModel>) -> Seq<NoticeModel> {
    match History::last_response(history) {
        Some(text) => seq![NoticeModel::Previously { text }],
        None => seq![],
    }
}

/// What follows the store's answer. Only a session with a campaign can be
/// continued: the blank session, which stands for nothing saved, and a
/// failure to read both lead back to the main menu.
pub open spec fn after_load(loaded: Result<SessionModel, Seq<char>>) -> (StageModel, StepModel) {
    match loaded {
        Err(_) => (StageModel::MainMenu, step_of(seq![NoticeModel::LoadFailed], AskModel::MenuChoice)),
        Ok(state) => if state.campaign.len() == 0 {
            (StageModel::MainMenu, step_of(seq![NoticeModel::NoSavedAdventure], AskModel::MenuChoice))
        } else {
            (
                StageModel::Play { state },
                step_of(
                    seq![
                        NoticeModel::Continuing {
                            campaign: state.campaign,
                            location: state.current_location,
                            quest: state.current_quest,
                        },
                    ] + recall(state.history),
                    AskModel::PlayChoice,
                ),
            )
        },
    }
}

/// What follows the creation of a character: the session begins at `now`,
/// and the prompt that opens the campaign goes out with an empty history.
pub open spec fn after_creation(character: CharacterModel, now: Seq<char>) -> (StageModel, StepModel) {
    let state = new_session(character, now, now);
    let prompt = campaign_prompt_text(character);
    (
        StageModel::Awaiting { state, prompt, kind: ExchangeKind::Opening },
        step_of(seq![], AskModel::Exchange(request_for(ExchangeKind::Opening, prompt, state.history))),
    )
}

/// What follows a failed exchange: the failure is shown, nothing is saved,
/// and the session, where the game goes on, is the one from before. A
/// failure during setup leads back to the main menu.
pub open spec fn after_failure(state: SessionModel, kind: ExchangeKind, cause: Seq<char>) -> (StageModel, StepModel) {
    let notices = seq![NoticeModel::ChatFailed { message: kind.spec_failure_message(), cause }];
    match kind {
        ExchangeKind::Opening | ExchangeKind::Scene => (
            StageModel::MainMenu,
            step_of(notices, AskModel::MenuChoice),
        ),
        ExchangeKind::Action | ExchangeKind::SkillCheck => (
            StageModel::Play { state },
            step_of(notices, AskModel::PlayChoice),
        ),
    }
}

/// What follows an answer of the narrator: prompt and answer go into the
/// history together. The answer to the opening prompt also gives the details
/// of the campaign, and the prompt for the scene goes out next; every other
/// answer is followed by a save, and the answer to a turn sets the time of
/// the save to `now`.
pub open spec fn after_answer(
    state: SessionModel,
    prompt: Seq<char>,
    kind: ExchangeKind,
    response: Seq<char>,
    now: Seq<char>,
) -> (StageModel, StepModel) {
    match kind {
        ExchangeKind::Opening => {
            let next = with_exchange(with_details(state, campaign_details(response)), prompt, response);
            (
                StageModel::Awaiting { state: next, prompt: SCENE_PROMPT@, kind: ExchangeKind::Scene },
                step_of(
                    seq![],
                    AskModel::Exchange(request_for(ExchangeKind::Scene, SCENE_PROMPT@, next.history)),
                ),
            )
        },
        ExchangeKind::Scene => (
            StageModel::Saving { state: with_exchange(state, prompt, response), reason: SaveReason::Setup },
            step_of(seq![], AskModel::Save),
        ),
        ExchangeKind::Action | ExchangeKind::SkillCheck => (
            StageModel::Saving {
                state: saved_at(with_exchange(state, prompt, response), now),
                reason: SaveReason::Turn,
            },
            step_of(seq![], AskModel::Save),
        ),
    }
}

/// What follows the end of an exchange.
pub open spec fn after_reply(
    state: SessionModel,
    prompt: Seq<char>,
    kind: ExchangeKind,
    reply: Result<Seq<char>, Seq<char>>,
    now: Seq<char>,
) -> (StageModel, StepModel) {
    match reply {
        Ok(response) => after_answer(state, prompt, kind, response, now),
        Err(cause) => after_failure(state, kind, cause),
    }
}

/// The notice of a failed save, if the save failed.
pub open spec fn save_trouble(result: Result<(), Seq<char>>) -> Seq<NoticeModel> {
    match result {
        Ok(_) => seq![],
        Err(cause) => seq![NoticeModel::SaveFailed { cause }],
    }
}

/// What is shown when play begins or goes on after a save.
pub open spec fn after_save_notices(state: SessionModel, reason: SaveReason, result: Result<(), Seq<char>>) -> Seq<
    NoticeModel,
> {
    match reason {
        SaveReason::Setup => save_trouble(result) + seq![NoticeModel::Welcome { campaign: state.campaign }] + (
        match History::last_response(state.history) {
            Some(text) => seq![NoticeModel::OpeningScene { text }],
            None => seq![],
        }),
        SaveReason::Turn => save_trouble(result) + (match History::last_response(state.history) {
            Some(text) => seq![NoticeModel::Narration { text }],
            None => seq![],
        }),
        SaveReason::Manual => match result {
            Ok(_) => seq![NoticeModel::Saved],
            Err(cause) => seq![NoticeModel::SaveFailed { cause }],
        },
    }
}

/// What follows a save, whether it went well or not: play goes on with the
/// session as it is.
pub open spec fn after_save(state: SessionModel, reason: SaveReason, result: Result<(), Seq<char>>) -> (
    StageModel,
    StepModel,
) {
    (StageModel::Play { state }, step_of(after_save_notices(state, reason, result), AskModel::PlayChoice))
}

/// What follows a free action of the player: the prompt that reports the
/// action goes out with the history as it stands. The session is not
/// touched yet.
pub open spec fn after_action(state: SessionModel, action: Seq<char>) -> (StageModel, StepModel) {
    let prompt = action_prompt_text(state.character, action);
    (
        StageModel::Awaiting { state, prompt, kind: ExchangeKind::Action },
        step_of(seq![], AskModel::Exchange(request_for(ExchangeKind::Action, prompt, state.history))),
    )
}

/// What follows a skill check with `roll` on the die: the check is resolved
/// and shown, and the prompt that reports it goes out with the history as it
/// stands. The session is not touched yet.
pub open spec fn after_check(state: SessionModel, skill: Skill, roll: u32) -> (StageModel, StepModel) {
    let check = resolved_check(state.character, skill, roll);
    let prompt = check_prompt_text(state.character, check);
    (
        StageModel::Awaiting { state, prompt, kind: ExchangeKind::SkillCheck },
        step_of(
            seq![NoticeModel::CheckRolled(check)],
            AskModel::Exchange(request_for(ExchangeKind::SkillCheck, prompt, state.history)),
        ),
    )
}

/// What follows a roll of dice: the dice and their sum are shown, and
/// nothing else happens.
pub open spec fn after_roll(state: SessionModel, die: Die, count: Seq<char>, dice: Seq<u32>) -> (
    StageModel,
    StepModel,
) {
    (
        StageModel::Play { state },
        step_of(
            seq![
                NoticeModel::DiceRolled {
                    count: dice_asked(count),
                    sides: die.spec_sides() as u32,
                    rolls: dice,
                    total: sum_of(dice) as u64,
                },
            ],
            AskModel::PlayChoice,
        ),
    )
}

/// What follows a choice of the player during play.
pub open spec fn after_choice(state: SessionModel, choice: PlayModel, dice: Seq<u32>) -> (StageModel, StepModel) {
    match choice {
        PlayModel::Act(action) => after_action(state, action),
        PlayModel::Check(skill) => after_check(state, skill, dice[0]),
        PlayModel::Roll { die, count } => after_roll(state, die, count, dice),
        PlayModel::Sheet => (StageModel::Play { state }, step_of(seq![NoticeModel::Sheet], AskModel::PlayChoice)),
        PlayModel::Save => (StageModel::Saving { state, reason: SaveReason::Manual }, step_of(seq![], AskModel::Save)),
        PlayModel::Menu => (
            StageModel::MainMenu,
            step_of(seq![NoticeModel::ReturningToMenu], AskModel::MenuChoice),
        ),
    }
}

/// The next stage and the step that follow `event` at `stage`, or `None`
/// where `event` is not an answer to what was asked at `stage`.
pub open spec fn advanced(stage: StageModel, event: EventModel, dice: Seq<u32>, now: Seq<char>) -> Option<
    (StageModel, StepModel),
> {
    match (stage, event) {
        (StageModel::MainMenu, EventModel::Menu(choice)) => Some(after_menu(choice)),
        (StageModel::Loading, EventModel::Loaded(loaded)) => Some(after_load(loaded)),
        (StageModel::Creating, EventModel::Created(character)) => Some(after_creation(character, now)),
        (StageModel::Awaiting { state, prompt, kind }, EventModel::Reply(reply)) => Some(
            after_reply(state, prompt, kind, reply, now),
        ),
        (StageModel::Saving { state, reason }, EventModel::Saved(result)) => Some(after_save(state, reason, result)),
        (StageModel::Play { state }, EventModel::Play(choice)) => Some(after_choice(state, choice, dice)),
        _ => None,
    }
}

/// What `advance` hands back: the stage the game is in now, and the step to
/// take, or no step where the event was not an answer to what was asked.
#[derive(Debug)]
pub struct Outcome {
    pub stage: Stage,
    pub step: Option<Step>,
}

/// Whether `outcome` is what `expected` says: the next stage and the step,
/// or, where nothing is expected, the stage from before and no step.
pub open spec fn agrees(outcome: Outcome, before: StageModel, expected: Option<(StageModel, StepModel)>) -> bool {
    match expected {
        Some((stage, step)) => outcome.stage@ == stage && outcome.step is Some && outcome.step->Some_0@ == step,
        None => outcome.stage@ == before && outcome.step is None,
    }
}

fn step_with(notices: Vec<Notice>, ask: Ask) -> (step: Step)
    ensures
        step@ == step_of(notice_models(notices@), ask@),
{
    Step { notices, ask }
}

fn no_notices() -> (notices: Vec<Notice>)
    ensures
        notice_models(notices@) == Seq::<NoticeModel>::empty(),
{
    Vec::new()
}

fn one_notice(notice: Notice) -> (notices: Vec<Notice>)
    ensures
        notice_models(notices@) == seq![notice@],
{
    let mut notices: Vec<Notice> = Vec::new();
    notices.push(notice);
    notices
}

fn add_notice(notices: &mut Vec<Notice>, notice: Notice)
    ensures
        notice_models(final(notices)@) == notice_models(old(notices)@) + seq![notice@],
{
    notices.push(notice);
}

fn on_menu(choice: MenuChoice) -> (next: (Stage, Step))
    ensures
        (next.0@, next.1@) == after_menu(choice),
{
    match choice {
        MenuChoice::NewAdventure => (
            Stage::Creating,
            step_with(one_notice(Notice::StartingAdventure), Ask::NewCharacter),
        ),
        MenuChoice::Continue => (Stage::Loading, step_with(no_notices(), Ask::Load)),
        MenuChoice::Help => (Stage::MainMenu, step_with(one_notice(Notice::Help), Ask::MenuChoice)),
        MenuChoice::Quit => (Stage::Ended, step_with(one_notice(Notice::Farewell), Ask::Nothing)),
    }
}

fn on_load(loaded: Result<GameState, String>) -> (next: (Stage, Step))
    ensures
        (next.0@, next.1@) == after_load(loaded_model(loaded)),
{
    match loaded {
        Err(_) => (Stage::MainMenu, step_with(one_notice(Notice::LoadFailed), Ask::MenuChoice)),
        Ok(state) => {
            if !state.has_campaign() {
                (Stage::MainMenu, step_with(one_notice(Notice::NoSavedAdventure), Ask::MenuChoice))
            } else {
                let mut notices: Vec<Notice> = one_notice(
                    Notice::Continuing {
                        campaign: state.campaign.clone(),
                        location: state.current_location.clone(),
                        quest: state.current_quest.clone(),
                    },
                );
                if let Some(text) = state.history.last_narration() {
                    add_notice(&mut notices, Notice::Previously { text });
                }
                (Stage::Play { state }, step_with(notices, Ask::PlayChoice))
            }
        },
    }
}

/// Begins a new campaign for `character` at the time `now`: the session is
/// set up, and the prompt that opens the campaign is made ready to go out.
pub fn start_new_campaign(character: Character, now: String) -> (next: (Stage, Step))
    ensures
        (next.0@, next.1@) == after_creation(character@, now@),
{
    let prompt: String = campaign_prompt(&character);
    let started: String = now.clone();
    let state: GameState = GameState::begin(character, started, now);
    let request: ChatRequest = plan_exchange(ExchangeKind::Opening, prompt.as_str(), &state.history);
    (
        Stage::Awaiting { state, prompt, kind: ExchangeKind::Opening },
        step_with(no_notices(), Ask::Exchange(request)),
    )
}

fn on_failure(state: GameState, kind: ExchangeKind, failure: ChatFailure) -> (next: (Stage, Step))
    requires
        failure@.message == kind.spec_failure_message(),
    ensures
        (next.0@, next.1@) == after_failure(state@, kind, failure@.cause),
{
    let notices: Vec<Notice> = one_notice(Notice::ChatFailed { message: failure.message, cause: failure.cause });
    match kind {
        ExchangeKind::Opening | ExchangeKind::Scene => (Stage::MainMenu, step_with(notices, Ask::MenuChoice)),
        ExchangeKind::Action | ExchangeKind::SkillCheck => (
            Stage::Play { state },
            step_with(notices, Ask::PlayChoice),
        ),
    }
}

fn on_answer(
    state: GameState,
    prompt: String,
    kind: ExchangeKind,
    response: String,
    now: String,
) -> (next: (Stage, Step))
    ensures
        (next.0@, next.1@) == after_answer(state@, prompt@, kind, response@, now@),
{
    let mut state: GameState = state;
    match kind {
        ExchangeKind::Opening => {
            let details: CampaignDetails = extract_details(response.as_str());
            state.set_details(details);
            state.record_exchange(prompt, response);
            let scene: String = scene_prompt();
            let request: ChatRequest = plan_exchange(ExchangeKind::Scene, scene.as_str(), &state.history);
            (
                Stage::Awaiting { state, prompt: scene, kind: ExchangeKind::Scene },
                step_with(no_notices(), Ask::Exchange(request)),
            )
        },
        ExchangeKind::Scene => {
            state.record_exchange(prompt, response);
            (Stage::Saving { state, reason: SaveReason::Setup }, step_with(no_notices(), Ask::Save))
        },
        ExchangeKind::Action | ExchangeKind::SkillCheck => {
            state.record_exchange(prompt, response);
            state.mark_saved(now);
            (Stage::Saving { state, reason: SaveReason::Turn }, step_with(no_notices(), Ask::Save))
        },
    }
}

fn on_reply(
    state: GameState,
    prompt: String,
    kind: ExchangeKind,
    reply: Result<String, String>,
    now: String,
) -> (next: (Stage, Step))
    ensures
        (next.0@, next.1@) == after_reply(state@, prompt@, kind, reply_model(reply), now@),
{
    match settle_exchange(kind, reply) {
        Ok(response) => on_answer(state, prompt, kind, response, now),
        Err(failure) => on_failure(state, kind, failure),
    }
}

fn trouble(result: Result<(), String>) -> (notices: Vec<Notice>)
    ensures
        notice_models(notices@) == save_trouble(done_model(result)),
{
    match result {
        Ok(_) => no_notices(),
        Err(cause) => one_notice(Notice::SaveFailed { cause }),
    }
}

fn on_save(state: GameState, reason: SaveReason, result: Result<(), String>) -> (next: (Stage, Step))
    ensures
        (next.0@, next.1@) == after_save(state@, reason, done_model(result)),
{
    let notices: Vec<Notice> = match reason {
        SaveReason::Setup => {
            let mut notices: Vec<Notice> = trouble(result);
            add_notice(&mut notices, Notice::Welcome { campaign: state.campaign.clone() });
            if let Some(text) = state.history.last_narration() {
                add_notice(&mut notices, Notice::OpeningScene { text });
            }
            notices
        },
        SaveReason::Turn => {
            let mut notices: Vec<Notice> = trouble(result);
            if let Some(text) = state.history.last_narration() {
                add_notice(&mut notices, Notice::Narration { text });
            }
            notices
        },
        SaveReason::Manual => match result {
            Ok(_) => one_notice(Notice::Saved),
            Err(cause) => one_notice(Notice::SaveFailed { cause }),
        },
    };
    (Stage::Play { state }, step_with(notices, Ask::PlayChoice))
}

/// Returns the number of dice that the player's answer asks for.
pub fn wanted_dice(count: &str) -> (number: u32)
    ensures
        number == dice_asked(count@),
{
    match parse_count(count) {
        Some(number) => number,
        None => 1,
    }
}

/// Takes up a free action of the player: the prompt that reports it is made
/// ready to go out. The session is handed on as it is; it changes only when
/// the narrator has answered.
pub fn process_player_action(state: GameState, action: &str) -> (next: (Stage, Step))
    ensures
        (next.0@, next.1@) == after_action(state@, action@),
{
    let prompt: String = action_prompt(&state.character, action);
    let request: ChatRequest = plan_exchange(ExchangeKind::Action, prompt.as_str(), &state.history);
    (Stage::Awaiting { state, prompt, kind: ExchangeKind::Action }, step_with(no_notices(), Ask::Exchange(request)))
}

/// Takes up a skill check with `roll_result` on the die: the check is
/// resolved, and the prompt that reports it is made ready to go out. The
/// session is handed on as it is; it changes only when the narrator has
/// answered.
pub fn roll_skill_check(state: GameState, skill: Skill, roll_result: u32) -> (next: (Stage, Step))
    ensures
        (next.0@, next.1@) == after_check(state@, skill, roll_result),
{
    let check: SkillCheck = resolve_check(&state.character, skill, roll_result);
    let prompt: String = skill_check_prompt(&state.character, &check);
    let request: ChatRequest = plan_exchange(ExchangeKind::SkillCheck, prompt.as_str(), &state.history);
    (
        Stage::Awaiting { state, prompt, kind: ExchangeKind::SkillCheck },
        step_with(one_notice(Notice::CheckRolled(check)), Ask::Exchange(request)),
    )
}

fn on_roll(state: GameState, die: Die, count: String, dice: Vec<u32>) -> (next: (Stage, Step))
    requires
        dice@.len() == dice_asked(count@),
    ensures
        (next.0@, next.1@) == after_roll(state@, die, count@, dice@),
{
    let number: u32 = wanted_dice(count.as_str());
    let total: u64 = dice_total(&dice);
    (
        Stage::Play { state },
        step_with(
            one_notice(Notice::DiceRolled { count: number, sides: die.sides(), rolls: dice, total }),
            Ask::PlayChoice,
        ),
    )
}

fn on_choice(state: GameState, choice: PlayChoice, dice: Vec<u32>) -> (next: (Stage, Step))
    requires
        dice_fit(EventModel::Play(choice@), dice@),
    ensures
        (next.0@, next.1@) == after_choice(state@, choice@, dice@),
{
    match choice {
        PlayChoice::Act(action) => process_player_action(state, action.as_str()),
        PlayChoice::Check(skill) => roll_skill_check(state, skill, dice[0]),
        PlayChoice::Roll { die, count } => on_roll(state, die, count, dice),
        PlayChoice::Sheet => (Stage::Play { state }, step_with(one_notice(Notice::Sheet), Ask::PlayChoice)),
        PlayChoice::Save => (Stage::Saving { state, reason: SaveReason::Manual }, step_with(no_notices(), Ask::Save)),
        PlayChoice::Menu => (Stage::MainMenu, step_with(one_notice(Notice::ReturningToMenu), Ask::MenuChoice)),
    }
}

fn moved(next: (Stage, Step)) -> (outcome: Outcome)
    ensures
        outcome.stage == next.0,
        outcome.step == Some(next.1),
{
    Outcome { stage: next.0, step: Some(next.1) }
}

impl Stage {
    /// Returns the stage at which every game begins, and the first step.
    pub fn start() -> (first: (Stage, Step))
        ensures
            first.0@ == StageModel::MainMenu,
            first.1@ == step_of(seq![], AskModel::MenuChoice),
    {
        (Stage::MainMenu, step_with(no_notices(), Ask::MenuChoice))
    }

    /// Returns the session that the stage holds, if it holds one.
    pub fn session(&self) -> (state: Option<&GameState>)
        ensures
            match state {
                Some(held) => session_of(self@) == Some(held@),
                None => session_of(self@) is None,
            },
    {
        match self {
            Stage::Awaiting { state, .. } => Some(state),
            Stage::Saving { state, .. } => Some(state),
            Stage::Play { state } => Some(state),
            _ => None,
        }
    }

    /// Returns the phase that the stage belongs to.
    pub fn phase(&self) -> (phase: Phase)
        ensures
            phase == phase_of(self@),
    {
        match self {
            Stage::MainMenu | Stage::Loading => Phase::MainMenu,
            Stage::Creating => Phase::Setup,
            Stage::Awaiting { kind, .. } => match kind {
                ExchangeKind::Opening | ExchangeKind::Scene => Phase::Setup,
                ExchangeKind::Action | ExchangeKind::SkillCheck => Phase::ActivePlay,
            },
            Stage::Saving { reason, .. } => match reason {
                SaveReason::Setup => Phase::Setup,
                SaveReason::Turn | SaveReason::Manual => Phase::ActivePlay,
            },
            Stage::Play { .. } => Phase::ActivePlay,
            Stage::Ended => Phase::Ended,
        }
    }
}

/// Moves the game on by one event, with the dice that fell and the time of
/// day handed in. An event that does not answer what was asked at the stage
/// changes nothing and gives no step. Dice are looked at during play only,
/// and there they have to be the dice that the event needs.
pub fn advance(stage: Stage, event: Event, dice: Vec<u32>, now: String) -> (outcome: Outcome)
    requires
        stage is Play ==> dice_fit(event@, dice@),
    ensures
        agrees(outcome, stage@, advanced(stage@, event@, dice@, now@)),
{
    match stage {
        Stage::MainMenu => match event {
            Event::Menu(choice) => moved(on_menu(choice)),
            _ => Outcome { stage: Stage::MainMenu, step: None },
        },
        Stage::Loading => match event {
            Event::Loaded(loaded) => moved(on_load(loaded)),
            _ => Outcome { stage: Stage::Loading, step: None },
        },
        Stage::Creating => match event {
            Event::Created(character) => moved(start_new_campaign(character, now)),
            _ => Outcome { stage: Stage::Creating, step: None },
        },
        Stage::Awaiting { state, prompt, kind } => match event {
            Event::Reply(reply) => moved(on_reply(state, prompt, kind, reply, now)),
            _ => Outcome { stage: Stage::Awaiting { state, prompt, kind }, step: None },
        },
        Stage::Saving { state, reason } => match event {
            Event::Saved(result) => moved(on_save(state, reason, result)),
            _ => Outcome { stage: Stage::Saving { state, reason }, step: None },
        },
        Stage::Play { state } => match event {
            Event::Play(choice) => moved(on_choice(state, choice, dice)),
            _ => Outcome { stage: Stage::Play { state }, step: None },
        },
        Stage::Ended => Outcome { stage: Stage::Ended, step: None },
    }
}

/// Moves the game on by one event. A skill check throws one twenty-sided
/// die, a roll throws the dice that were asked for, and the time is read
/// from the clock; what follows is what `advance` does with them.
pub fn step(stage: Stage, event: Event) -> (outcome: Outcome)
    ensures
        exists|dice: Seq<u32>, now: Seq<char>|
            dice_fit(event@, dice) && agrees(outcome, stage@, #[trigger] advanced(stage@, event@, dice, now)),
{
    let dice: Vec<u32> = match &event {
        Event::Play(PlayChoice::Check(_)) => roll_dice(1, 20),
        Event::Play(PlayChoice::Roll { die, count }) => roll_dice(wanted_dice(count.as_str()), die.sides()),
        _ => Vec::new(),
    };
    let now: String = timestamp_now();
    advance(stage, event, dice, now)
}

/// Whether the session that `stage` holds, if it holds one, has a history
/// made of whole exchanges.
pub open spec fn histories_paired(stage: StageModel) -> bool {
    match session_of(stage) {
        Some(state) => paired(state.history),
        None => true,
    }
}

/// Whether the session that `event` brings, if it brings one, has a history
/// made of whole exchanges. Every session that the store hands over does,
/// because no other history can be built.
pub open spec fn brings_paired_history(event: EventModel) -> bool {
    match event {
        EventModel::Loaded(Ok(state)) => paired(state.history),
        _ => true,
    }
}

/// Whether `longer` begins with all of `shorter`.
pub open spec fn extends(longer: Seq<TurnModel>, shorter: Seq<TurnModel>) -> bool {
    shorter.len() <= longer.len() && longer.take(shorter.len() as int) == shorter
}

/// A failed exchange leaves the history unchanged and triggers no save: the
/// step that follows asks for no save, and where the game still holds a
/// session afterwards, it is the session from before, down to the last turn.
pub proof fn lemma_failed_exchange_changes_nothing(
    state: SessionModel,
    prompt: Seq<char>,
    kind: ExchangeKind,
    cause: Seq<char>,
    dice: Seq<u32>,
    now: Seq<char>,
)
    ensures
        ({
            let stage = StageModel::Awaiting { state, prompt, kind };
            let next = advanced(stage, EventModel::Reply(Err(cause)), dice, now);
            &&& next is Some
            &&& next->Some_0.1.ask != AskModel::Save
            &&& !(next->Some_0.0 is Saving)
            &&& session_of(next->Some_0.0) is Some ==> session_of(next->Some_0.0) == Some(state)
            &&& (kind == ExchangeKind::Action || kind == ExchangeKind::SkillCheck) ==> next->Some_0.0
                == (StageModel::Play { state })
        }),
{
}

/// An answered turn of the player goes into the history as one whole
/// exchange, and the very next thing asked for is a save.
pub proof fn lemma_answered_turn_is_saved(
    state: SessionModel,
    prompt: Seq<char>,
    kind: ExchangeKind,
    response: Seq<char>,
    dice: Seq<u32>,
    now: Seq<char>,
)
    requires
        kind == ExchangeKind::Action || kind == ExchangeKind::SkillCheck,
    ensures
        ({
            let stage = StageModel::Awaiting { state, prompt, kind };
            let next = advanced(stage, EventModel::Reply(Ok(response)), dice, now);
            &&& next is Some
            &&& next->Some_0.1.ask == AskModel::Save
            &&& session_of(next->Some_0.0) is Some
            &&& session_of(next->Some_0.0)->Some_0.history == state.history + exchange(prompt, response)
            &&& session_of(next->Some_0.0)->Some_0.last_saved == now
        }),
{
}

/// Rolling dice and looking at the sheet change nothing and save nothing:
/// the game stays where it is, with the same session, and the player is
/// asked again.
pub proof fn lemma_read_only_choices_save_nothing(
    state: SessionModel,
    choice: PlayModel,
    dice: Seq<u32>,
    now: Seq<char>,
)
    requires
        choice is Roll || choice is Sheet,
    ensures
        ({
            let next = advanced(StageModel::Play { state }, EventModel::Play(choice), dice, now);
            &&& next is Some
            &&& next->Some_0.0 == (StageModel::Play { state })
            &&& next->Some_0.1.ask == AskModel::PlayChoice
        }),
{
}

/// Whatever happens, the history of the session that the game holds is made
/// of whole exchanges, as long as it was so before.
pub proof fn lemma_histories_stay_paired(stage: StageModel, event: EventModel, dice: Seq<u32>, now: Seq<char>)
    requires
        histories_paired(stage),
        brings_paired_history(event),
    ensures
        advanced(stage, event, dice, now) is Some ==> histories_paired(advanced(stage, event, dice, now)->Some_0.0),
{
    match (stage, event) {
        (StageModel::Awaiting { state, prompt, kind }, EventModel::Reply(Ok(response))) => {
            crate::history::lemma_exchange_keeps_pairs(state.history, prompt, response);
        },
        (StageModel::Creating, EventModel::Created(character)) => {
        },
        _ => {},
    }
}

/// A history is never cut or rewritten: as long as the game holds on to a
/// session, its history afterwards begins with all of its history before.
pub proof fn lemma_history_only_grows(stage: StageModel, event: EventModel, dice: Seq<u32>, now: Seq<char>)
    ensures
        ({
            let next = advanced(stage, event, dice, now);
            next is Some && session_of(stage) is Some && session_of(next->Some_0.0) is Some ==> extends(
                session_of(next->Some_0.0)->Some_0.history,
                session_of(stage)->Some_0.history,
            )
        }),
{
    let next = advanced(stage, event, dice, now);
    if next is Some && session_of(stage) is Some && session_of(next->Some_0.0) is Some {
        let before = session_of(stage)->Some_0.history;
        let after = session_of(next->Some_0.0)->Some_0.history;
        match (stage, event) {
            (StageModel::Awaiting { state, prompt, kind }, EventModel::Reply(Ok(response))) => {
                assert(after.take(before.len() as int) =~= before);
            },
            _ => {
                assert(after.take(before.len() as int) =~= before);
            },
        }
    }
}

/// The game moves between its phases along these lines only: from the main
/// menu to setup, to play, or to the end; from setup on to play, or back to
/// the main menu when the narrator fails; from play back to the main menu.
/// Once over, it stays over.
pub proof fn lemma_phases_follow_the_plan(stage: StageModel, event: EventModel, dice: Seq<u32>, now: Seq<char>)
    ensures
        ({
            let next = advanced(stage, event, dice, now);
            let from = phase_of(stage);
            &&& from == Phase::Ended ==> next is None
            &&& next is Some ==> {
                let to = phase_of(next->Some_0.0);
                match from {
                    Phase::MainMenu => true,
                    Phase::Setup => to != Phase::Ended,
                    Phase::ActivePlay => to == Phase::ActivePlay || to == Phase::MainMenu,
                    Phase::Ended => false,
                }
            }
        }),
{
}

} // verus!
