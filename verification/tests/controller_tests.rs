use dnd_adventure::character::{AbilityScores, Character};
use dnd_adventure::chat::ChatRequest;
use dnd_adventure::controller::{
    advance, process_player_action, roll_skill_check, start_new_campaign, step, wanted_dice, Outcome, Phase, SaveReason,
    Stage,
};
use dnd_adventure::creation::create_character;
use dnd_adventure::events::{Ask, Event, MenuChoice, Notice, PlayChoice, Step};
use dnd_adventure::history::{Role, Turn};
use dnd_adventure::mechanics::Die;
use dnd_adventure::prompt::{action_prompt, campaign_prompt, resolve_check, scene_prompt, skill_check_prompt};
use dnd_adventure::roster::{Background, Class, Race, Skill};
use dnd_adventure::session::GameState;

fn ranger() -> Character {
    create_character(
        "Sel".to_string(),
        Race::Elf,
        Class::Ranger,
        Background::Outlander,
        AbilityScores { strength: 12, dexterity: 15, constitution: 13, intelligence: 10, wisdom: 14, charisma: 8 },
        &vec![5, 7],
    )
}

fn running() -> GameState {
    let mut state = GameState::begin(ranger(), "then".to_string(), "then".to_string());
    state.campaign = "The Green Road".to_string();
    state.current_location = "Oakhollow".to_string();
    state.current_quest = "Find the warden".to_string();
    state.record_exchange("first prompt".to_string(), "first answer".to_string());
    state
}

fn turns(history: &Vec<Turn>) -> Vec<(Role, String)> {
    history.iter().map(|turn| (turn.role, turn.content.clone())).collect()
}

fn taken(outcome: Outcome) -> (Stage, Step) {
    let Outcome { stage, step } = outcome;
    (stage, step.expect("the event answers what was asked"))
}

fn go(stage: Stage, event: Event) -> (Stage, Step) {
    taken(advance(stage, event, vec![], "now".to_string()))
}

fn request(step: &Step) -> &ChatRequest {
    match &step.ask {
        Ask::Exchange(request) => request,
        other => panic!("no exchange asked for: {:?}", other),
    }
}

fn session(stage: &Stage) -> &GameState {
    stage.session().expect("the stage holds a session")
}

#[test]
fn the_game_starts_at_the_main_menu() {
    let (stage, first) = Stage::start();
    assert!(matches!(stage, Stage::MainMenu));
    assert_eq!(stage.phase(), Phase::MainMenu);
    assert!(first.notices.is_empty());
    assert!(matches!(first.ask, Ask::MenuChoice));
    assert!(stage.session().is_none());
}

#[test]
fn the_menu_is_read_by_place() {
    assert_eq!(MenuChoice::from_index(0), Some(MenuChoice::NewAdventure));
    assert_eq!(MenuChoice::from_index(1), Some(MenuChoice::Continue));
    assert_eq!(MenuChoice::from_index(2), Some(MenuChoice::Help));
    assert_eq!(MenuChoice::from_index(3), Some(MenuChoice::Quit));
    assert_eq!(MenuChoice::from_index(4), None);
}

#[test]
fn help_leads_back_to_the_menu() {
    let (stage, next) = go(Stage::MainMenu, Event::Menu(MenuChoice::Help));
    assert!(matches!(stage, Stage::MainMenu));
    assert!(matches!(next.notices[..], [Notice::Help]));
    assert!(matches!(next.ask, Ask::MenuChoice));
}

#[test]
fn quitting_ends_the_game_for_good() {
    let (stage, next) = go(Stage::MainMenu, Event::Menu(MenuChoice::Quit));
    assert!(matches!(stage, Stage::Ended));
    assert_eq!(stage.phase(), Phase::Ended);
    assert!(matches!(next.notices[..], [Notice::Farewell]));
    assert!(matches!(next.ask, Ask::Nothing));
    let outcome = advance(stage, Event::Menu(MenuChoice::NewAdventure), vec![], "now".to_string());
    assert!(matches!(outcome.stage, Stage::Ended));
    assert!(outcome.step.is_none());
}

#[test]
fn a_new_adventure_begins_with_a_character() {
    let (stage, next) = go(Stage::MainMenu, Event::Menu(MenuChoice::NewAdventure));
    assert!(matches!(stage, Stage::Creating));
    assert_eq!(stage.phase(), Phase::Setup);
    assert!(matches!(next.notices[..], [Notice::StartingAdventure]));
    assert!(matches!(next.ask, Ask::NewCharacter));
}

#[test]
fn a_new_campaign_is_set_up_in_two_exchanges_and_then_saved() {
    let (stage, next) = go(Stage::Creating, Event::Created(ranger()));
    assert_eq!(stage.phase(), Phase::Setup);
    assert!(next.notices.is_empty());
    let opening = campaign_prompt(&ranger());
    assert_eq!(request(&next).prompt, opening);
    assert!(request(&next).history.is_empty());
    assert_eq!(request(&next).announcement, "The Dungeon Master is creating your adventure...");
    assert_eq!(session(&stage).date_started, "now");
    assert_eq!(session(&stage).last_saved, "now");
    assert!(session(&stage).history.is_empty());

    let answer = "Campaign: The Green Road\nLocation: Oakhollow\nQuest: Find the warden";
    let (stage, next) = go(stage, Event::Reply(Ok(answer.to_string())));
    assert_eq!(stage.phase(), Phase::Setup);
    assert!(next.notices.is_empty());
    assert_eq!(request(&next).prompt, scene_prompt());
    assert_eq!(request(&next).announcement, "The Dungeon Master is setting the scene...");
    assert_eq!(
        turns(&request(&next).history),
        vec![(Role::User, opening.clone()), (Role::Assistant, answer.to_string())]
    );
    assert_eq!(session(&stage).campaign, "The Green Road");
    assert_eq!(session(&stage).current_location, "Oakhollow");
    assert_eq!(session(&stage).current_quest, "Find the warden");

    let (stage, next) = go(stage, Event::Reply(Ok("You arrive at dusk.".to_string())));
    assert!(matches!(stage, Stage::Saving { .. }));
    assert_eq!(stage.phase(), Phase::Setup);
    assert!(next.notices.is_empty());
    assert!(matches!(next.ask, Ask::Save));
    assert_eq!(
        turns(session(&stage).history.turns()),
        vec![
            (Role::User, opening),
            (Role::Assistant, answer.to_string()),
            (Role::User, scene_prompt()),
            (Role::Assistant, "You arrive at dusk.".to_string()),
        ]
    );

    let (stage, next) = go(stage, Event::Saved(Ok(())));
    assert!(matches!(stage, Stage::Play { .. }));
    assert_eq!(stage.phase(), Phase::ActivePlay);
    assert_eq!(next.notices.len(), 2);
    assert!(matches!(&next.notices[0], Notice::Welcome { campaign } if campaign == "The Green Road"));
    assert!(matches!(&next.notices[1], Notice::OpeningScene { text } if text == "You arrive at dusk."));
    assert!(matches!(next.ask, Ask::PlayChoice));
}

#[test]
fn a_campaign_without_labels_gets_the_fixed_details() {
    let (stage, _) = go(Stage::Creating, Event::Created(ranger()));
    let (stage, _) = go(stage, Event::Reply(Ok("Mist. Nothing but mist.".to_string())));
    assert_eq!(session(&stage).campaign, "Mystical Adventure");
    assert_eq!(session(&stage).current_location, "Starting Town");
    assert_eq!(session(&stage).current_quest, "Find adventure");
}

#[test]
fn a_failure_during_setup_leads_back_to_the_menu() {
    let (stage, _) = go(Stage::Creating, Event::Created(ranger()));
    let (stage, next) = go(stage, Event::Reply(Err("connection refused".to_string())));
    assert!(matches!(stage, Stage::MainMenu));
    assert_eq!(next.notices.len(), 1);
    assert!(matches!(
        &next.notices[0],
        Notice::ChatFailed { message, cause }
            if message == "Failed to communicate with the Dungeon Master" && cause == "connection refused"
    ));
    assert!(matches!(next.ask, Ask::MenuChoice));

    let (stage, _) = go(Stage::Creating, Event::Created(ranger()));
    let (stage, _) = go(stage, Event::Reply(Ok("Campaign: X".to_string())));
    let (stage, next) = go(stage, Event::Reply(Err("timeout".to_string())));
    assert!(matches!(stage, Stage::MainMenu));
    assert!(matches!(
        &next.notices[0],
        Notice::ChatFailed { message, cause } if message == "Failed to set the scene" && cause == "timeout"
    ));
}

#[test]
fn a_failed_save_after_setup_is_reported_and_play_begins() {
    let stage = Stage::Saving { state: running(), reason: SaveReason::Setup };
    let (stage, next) = go(stage, Event::Saved(Err("disk full".to_string())));
    assert!(matches!(stage, Stage::Play { .. }));
    assert_eq!(next.notices.len(), 3);
    assert!(matches!(&next.notices[0], Notice::SaveFailed { cause } if cause == "disk full"));
    assert!(matches!(&next.notices[1], Notice::Welcome { campaign } if campaign == "The Green Road"));
    assert!(matches!(&next.notices[2], Notice::OpeningScene { text } if text == "first answer"));
    assert_eq!(session(&stage).history.len(), 2);
}

#[test]
fn a_saved_adventure_is_continued() {
    let (stage, next) = go(Stage::MainMenu, Event::Menu(MenuChoice::Continue));
    assert!(matches!(stage, Stage::Loading));
    assert_eq!(stage.phase(), Phase::MainMenu);
    assert!(next.notices.is_empty());
    assert!(matches!(next.ask, Ask::Load));

    let (stage, next) = go(stage, Event::Loaded(Ok(running())));
    assert!(matches!(stage, Stage::Play { .. }));
    assert_eq!(next.notices.len(), 2);
    assert!(matches!(
        &next.notices[0],
        Notice::Continuing { campaign, location, quest }
            if campaign == "The Green Road" && location == "Oakhollow" && quest == "Find the warden"
    ));
    assert!(matches!(&next.notices[1], Notice::Previously { text } if text == "first answer"));
    assert!(matches!(next.ask, Ask::PlayChoice));
}

#[test]
fn a_saved_adventure_without_turns_recalls_nothing() {
    let mut state = GameState::begin(ranger(), "a".to_string(), "b".to_string());
    state.campaign = "Quiet".to_string();
    let (stage, next) = go(Stage::Loading, Event::Loaded(Ok(state)));
    assert!(matches!(stage, Stage::Play { .. }));
    assert_eq!(next.notices.len(), 1);
    assert!(matches!(&next.notices[0], Notice::Continuing { .. }));
}

#[test]
fn the_blank_session_cannot_be_continued() {
    let (stage, next) = go(Stage::Loading, Event::Loaded(Ok(GameState::default())));
    assert!(matches!(stage, Stage::MainMenu));
    assert!(matches!(next.notices[..], [Notice::NoSavedAdventure]));
    assert!(matches!(next.ask, Ask::MenuChoice));
}

#[test]
fn an_unreadable_save_leads_back_to_the_menu() {
    let (stage, next) = go(Stage::Loading, Event::Loaded(Err("expected value at line 1".to_string())));
    assert!(matches!(stage, Stage::MainMenu));
    assert!(matches!(next.notices[..], [Notice::LoadFailed]));
    assert!(matches!(next.ask, Ask::MenuChoice));
}

#[test]
fn an_action_is_sent_answered_recorded_and_saved() {
    let stage = Stage::Play { state: running() };
    let (stage, next) = go(stage, Event::Play(PlayChoice::Act("I follow the tracks.".to_string())));
    assert!(matches!(stage, Stage::Awaiting { .. }));
    assert_eq!(stage.phase(), Phase::ActivePlay);
    assert!(next.notices.is_empty());
    let prompt = action_prompt(&ranger(), "I follow the tracks.");
    assert_eq!(request(&next).prompt, prompt);
    assert_eq!(request(&next).announcement, "The Dungeon Master is responding...");
    assert_eq!(
        turns(&request(&next).history),
        vec![(Role::User, "first prompt".to_string()), (Role::Assistant, "first answer".to_string())]
    );
    assert_eq!(session(&stage).history.len(), 2);

    let (stage, next) = go(stage, Event::Reply(Ok("They lead north.".to_string())));
    assert!(matches!(stage, Stage::Saving { .. }));
    assert!(next.notices.is_empty());
    assert!(matches!(next.ask, Ask::Save));
    assert_eq!(session(&stage).last_saved, "now");
    assert_eq!(session(&stage).date_started, "then");
    assert_eq!(
        turns(session(&stage).history.turns()),
        vec![
            (Role::User, "first prompt".to_string()),
            (Role::Assistant, "first answer".to_string()),
            (Role::User, prompt),
            (Role::Assistant, "They lead north.".to_string()),
        ]
    );

    let (stage, next) = go(stage, Event::Saved(Ok(())));
    assert!(matches!(stage, Stage::Play { .. }));
    assert_eq!(next.notices.len(), 1);
    assert!(matches!(&next.notices[0], Notice::Narration { text } if text == "They lead north."));
    assert!(matches!(next.ask, Ask::PlayChoice));
}

#[test]
fn a_failed_exchange_leaves_the_history_alone_and_saves_nothing() {
    let stage = Stage::Play { state: running() };
    let (stage, _) = go(stage, Event::Play(PlayChoice::Act("I shout.".to_string())));
    let (stage, next) = go(stage, Event::Reply(Err("service unavailable".to_string())));
    assert!(matches!(stage, Stage::Play { .. }));
    assert!(!matches!(next.ask, Ask::Save));
    assert!(matches!(next.ask, Ask::PlayChoice));
    assert_eq!(next.notices.len(), 1);
    assert!(matches!(
        &next.notices[0],
        Notice::ChatFailed { message, cause }
            if message == "Failed to process your action" && cause == "service unavailable"
    ));
    assert_eq!(
        turns(session(&stage).history.turns()),
        vec![(Role::User, "first prompt".to_string()), (Role::Assistant, "first answer".to_string())]
    );
    assert_eq!(session(&stage).last_saved, "then");
}

#[test]
fn the_player_can_try_again_after_a_failure() {
    let stage = Stage::Play { state: running() };
    let (stage, _) = go(stage, Event::Play(PlayChoice::Act("I shout.".to_string())));
    let (stage, _) = go(stage, Event::Reply(Err("busy".to_string())));
    let (stage, next) = go(stage, Event::Play(PlayChoice::Act("I shout.".to_string())));
    assert_eq!(request(&next).prompt, action_prompt(&ranger(), "I shout."));
    let (stage, next) = go(stage, Event::Reply(Ok("Echoes answer.".to_string())));
    assert!(matches!(next.ask, Ask::Save));
    assert_eq!(session(&stage).history.len(), 4);
}

#[test]
fn a_skill_check_is_resolved_before_it_is_sent() {
    let stage = Stage::Play { state: running() };
    let outcome = advance(stage, Event::Play(PlayChoice::Check(Skill::Perception)), vec![15], "now".to_string());
    let (stage, next) = taken(outcome);
    let check = resolve_check(&ranger(), Skill::Perception, 15);
    assert_eq!(check.total, 19);
    assert_eq!(next.notices.len(), 1);
    assert!(matches!(&next.notices[0], Notice::CheckRolled(shown) if *shown == check));
    assert_eq!(request(&next).prompt, skill_check_prompt(&ranger(), &check));
    assert_eq!(request(&next).announcement, "The Dungeon Master is resolving your check...");
    assert_eq!(request(&next).history.len(), 2);

    let (stage, next) = go(stage, Event::Reply(Err("no route".to_string())));
    assert!(matches!(stage, Stage::Play { .. }));
    assert!(matches!(
        &next.notices[0],
        Notice::ChatFailed { message, .. } if message == "Failed to process skill check"
    ));
    assert_eq!(session(&stage).history.len(), 2);
}

#[test]
fn rolling_dice_changes_nothing_and_saves_nothing() {
    let stage = Stage::Play { state: running() };
    let choice = PlayChoice::Roll { die: Die::D6, count: "3".to_string() };
    let (stage, next) = taken(advance(stage, Event::Play(choice), vec![2, 6, 5], "now".to_string()));
    assert!(matches!(stage, Stage::Play { .. }));
    assert!(matches!(next.ask, Ask::PlayChoice));
    assert_eq!(next.notices.len(), 1);
    assert!(matches!(
        &next.notices[0],
        Notice::DiceRolled { count: 3, sides: 6, rolls, total: 13 } if *rolls == vec![2, 6, 5]
    ));
    assert_eq!(session(&stage).history.len(), 2);
    assert_eq!(session(&stage).last_saved, "then");
}

#[test]
fn a_count_that_cannot_be_read_is_one_die() {
    assert_eq!(wanted_dice("4"), 4);
    assert_eq!(wanted_dice("+2"), 2);
    assert_eq!(wanted_dice("0"), 0);
    assert_eq!(wanted_dice(""), 1);
    assert_eq!(wanted_dice("many"), 1);
    assert_eq!(wanted_dice("-2"), 1);
    assert_eq!(wanted_dice("2.5"), 1);
    assert_eq!(wanted_dice("99999999999"), 1);
}

#[test]
fn the_sheet_is_shown_without_a_save() {
    let (stage, next) = go(Stage::Play { state: running() }, Event::Play(PlayChoice::Sheet));
    assert!(matches!(stage, Stage::Play { .. }));
    assert!(matches!(next.notices[..], [Notice::Sheet]));
    assert!(matches!(next.ask, Ask::PlayChoice));
    assert_eq!(session(&stage).history.len(), 2);
}

#[test]
fn a_manual_save_is_asked_for_and_reported() {
    let (stage, next) = go(Stage::Play { state: running() }, Event::Play(PlayChoice::Save));
    assert!(matches!(stage, Stage::Saving { .. }));
    assert!(next.notices.is_empty());
    assert!(matches!(next.ask, Ask::Save));
    assert_eq!(session(&stage).last_saved, "then");
    let (stage, next) = go(stage, Event::Saved(Ok(())));
    assert!(matches!(stage, Stage::Play { .. }));
    assert!(matches!(next.notices[..], [Notice::Saved]));

    let (stage, _) = go(stage, Event::Play(PlayChoice::Save));
    let (stage, next) = go(stage, Event::Saved(Err("read-only file system".to_string())));
    assert!(matches!(stage, Stage::Play { .. }));
    assert_eq!(next.notices.len(), 1);
    assert!(matches!(&next.notices[0], Notice::SaveFailed { cause } if cause == "read-only file system"));
    assert_eq!(session(&stage).history.len(), 2);
}

#[test]
fn a_failed_save_after_a_turn_keeps_the_turn() {
    let stage = Stage::Play { state: running() };
    let (stage, _) = go(stage, Event::Play(PlayChoice::Act("I rest.".to_string())));
    let (stage, _) = go(stage, Event::Reply(Ok("You sleep.".to_string())));
    let (stage, next) = go(stage, Event::Saved(Err("disk full".to_string())));
    assert!(matches!(stage, Stage::Play { .. }));
    assert_eq!(next.notices.len(), 2);
    assert!(matches!(&next.notices[0], Notice::SaveFailed { cause } if cause == "disk full"));
    assert!(matches!(&next.notices[1], Notice::Narration { text } if text == "You sleep."));
    assert_eq!(session(&stage).history.len(), 4);
}

#[test]
fn the_way_back_to_the_menu_is_open_during_play() {
    let (stage, next) = go(Stage::Play { state: running() }, Event::Play(PlayChoice::Menu));
    assert!(matches!(stage, Stage::MainMenu));
    assert!(matches!(next.notices[..], [Notice::ReturningToMenu]));
    assert!(matches!(next.ask, Ask::MenuChoice));
    assert!(stage.session().is_none());
}

#[test]
fn an_event_that_was_not_asked_for_changes_nothing() {
    let outcome = advance(Stage::MainMenu, Event::Reply(Ok("hello".to_string())), vec![], "now".to_string());
    assert!(matches!(outcome.stage, Stage::MainMenu));
    assert!(outcome.step.is_none());

    let outcome = advance(Stage::Play { state: running() }, Event::Saved(Ok(())), vec![], "now".to_string());
    assert!(outcome.step.is_none());
    assert_eq!(session(&outcome.stage).history.len(), 2);

    let (stage, _) = go(Stage::Play { state: running() }, Event::Play(PlayChoice::Act("go".to_string())));
    let outcome = advance(stage, Event::Play(PlayChoice::Sheet), vec![], "now".to_string());
    assert!(matches!(outcome.stage, Stage::Awaiting { .. }));
    assert!(outcome.step.is_none());
    assert_eq!(session(&outcome.stage).history.len(), 2);

    let outcome = advance(Stage::Creating, Event::Menu(MenuChoice::Quit), vec![], "now".to_string());
    assert!(matches!(outcome.stage, Stage::Creating));
    assert!(outcome.step.is_none());

    let outcome = advance(Stage::Loading, Event::Created(ranger()), vec![], "now".to_string());
    assert!(matches!(outcome.stage, Stage::Loading));
    assert!(outcome.step.is_none());
}

#[test]
fn a_step_throws_the_dice_itself() {
    let choice = PlayChoice::Roll { die: Die::D8, count: "5".to_string() };
    let (stage, next) = taken(step(Stage::Play { state: running() }, Event::Play(choice)));
    assert!(matches!(stage, Stage::Play { .. }));
    match &next.notices[..] {
        [Notice::DiceRolled { count, sides, rolls, total }] => {
            assert_eq!((*count, *sides), (5, 8));
            assert_eq!(rolls.len(), 5);
            assert!(rolls.iter().all(|face| 1 <= *face && *face <= 8));
            assert_eq!(*total, rolls.iter().map(|face| *face as u64).sum::<u64>());
        }
        other => panic!("no dice shown: {:?}", other),
    }
    let choice = PlayChoice::Roll { die: Die::D20, count: "lots".to_string() };
    let (_, next) = taken(step(Stage::Play { state: running() }, Event::Play(choice)));
    assert!(matches!(&next.notices[..], [Notice::DiceRolled { count: 1, sides: 20, rolls, .. }] if rolls.len() == 1));
}

#[test]
fn a_step_rolls_the_d20_of_a_check() {
    for _ in 0..50 {
        let (_, next) = taken(step(Stage::Play { state: running() }, Event::Play(PlayChoice::Check(Skill::Perception))));
        match &next.notices[..] {
            [Notice::CheckRolled(check)] => {
                assert!(1 <= check.roll && check.roll <= 20);
                assert_eq!(*check, resolve_check(&ranger(), Skill::Perception, check.roll));
                assert_eq!(check.total, check.roll as i64 + 2 + 2);
                assert_eq!(request(&next).prompt, skill_check_prompt(&ranger(), check));
            }
            other => panic!("no check shown: {:?}", other),
        }
    }
}

#[test]
fn a_step_reads_the_clock_for_the_time_of_the_save() {
    let (stage, _) = taken(step(Stage::Play { state: running() }, Event::Play(PlayChoice::Act("go".to_string()))));
    let (stage, next) = taken(step(stage, Event::Reply(Ok("gone".to_string()))));
    assert!(matches!(next.ask, Ask::Save));
    let stamp = session(&stage).last_saved.clone();
    assert_ne!(stamp, "then");
    assert!(stamp.len() >= 20);
    assert_eq!(&stamp[4..5], "-");
    assert_eq!(&stamp[10..11], "T");
}

#[test]
fn history_is_whole_at_every_stage_of_a_long_game() {
    let mut stage = Stage::Play { state: running() };
    for round in 0..12 {
        let (next, _) = go(stage, Event::Play(PlayChoice::Act(format!("move {}", round))));
        assert_eq!(session(&next).history.len() % 2, 0);
        let reply = if round % 3 == 2 { Err("lost".to_string()) } else { Ok(format!("result {}", round)) };
        let failed = reply.is_err();
        let (next, asked) = go(next, Event::Reply(reply));
        assert_eq!(session(&next).history.len() % 2, 0);
        stage = if failed {
            assert!(matches!(asked.ask, Ask::PlayChoice));
            next
        } else {
            assert!(matches!(asked.ask, Ask::Save));
            go(next, Event::Saved(Ok(()))).0
        };
        for (place, turn) in session(&stage).history.turns().iter().enumerate() {
            assert_eq!(turn.role, if place % 2 == 0 { Role::User } else { Role::Assistant });
        }
    }
    assert_eq!(session(&stage).history.len(), 2 + 2 * 8);
}

#[test]
fn a_campaign_starts_with_the_opening_prompt_and_an_empty_history() {
    let (stage, next) = start_new_campaign(ranger(), "2025-05-01T10:00:00+02:00".to_string());
    assert!(matches!(&stage, Stage::Awaiting { prompt, .. } if *prompt == campaign_prompt(&ranger())));
    assert_eq!(session(&stage).date_started, "2025-05-01T10:00:00+02:00");
    assert_eq!(session(&stage).last_saved, "2025-05-01T10:00:00+02:00");
    assert_eq!(session(&stage).character.name, "Sel");
    assert_eq!(session(&stage).campaign, "");
    assert!(session(&stage).history.is_empty());
    assert!(next.notices.is_empty());
    assert_eq!(request(&next).prompt, campaign_prompt(&ranger()));
    assert!(request(&next).history.is_empty());
}

#[test]
fn an_action_is_only_recorded_once_it_is_answered() {
    let (stage, next) = process_player_action(running(), "I climb the wall.");
    assert!(matches!(&stage, Stage::Awaiting { prompt, .. } if *prompt == action_prompt(&ranger(), "I climb the wall.")));
    assert_eq!(session(&stage).history.len(), 2);
    assert_eq!(session(&stage).last_saved, "then");
    assert_eq!(request(&next).prompt, action_prompt(&ranger(), "I climb the wall."));
    assert_eq!(request(&next).history.len(), 2);
}

#[test]
fn a_check_with_fifteen_on_the_die_and_plus_three_and_plus_two_totals_twenty() {
    let mut state = running();
    state.character.wisdom = 16;
    let (stage, next) = roll_skill_check(state, Skill::Perception, 15);
    match &next.notices[..] {
        [Notice::CheckRolled(check)] => {
            assert_eq!(check.roll, 15);
            assert_eq!(check.ability_mod, 3);
            assert!(check.proficient);
            assert_eq!(check.prof_bonus, 2);
            assert_eq!(check.total, 20);
        }
        other => panic!("no check shown: {:?}", other),
    }
    assert!(request(&next).prompt.contains("Dice roll: 15\n        Ability modifier: 3\n        Proficiency: Yes (+2)\n        Total: 20\n"));
    assert_eq!(session(&stage).history.len(), 2);
}
