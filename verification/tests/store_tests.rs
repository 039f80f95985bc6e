use dnd_adventure::character::{AbilityScores, Character};
use dnd_adventure::chat::{plan_exchange, settle_exchange, ExchangeKind};
use dnd_adventure::history::{History, Role};
use dnd_adventure::roster::{Background, Class, Race};
use dnd_adventure::session::GameState;
use dnd_adventure::store::{begin_save, continue_save, load_game, temp_file, Found, SaveCommand, SaveStage, SAVE_FILE};

#[test]
fn the_two_files_have_their_names() {
    assert_eq!(SAVE_FILE, "dnd_adventure_save.json");
    assert_eq!(temp_file(), "dnd_adventure_save.json.tmp");
}

#[test]
fn loading_without_a_file_gives_the_blank_session() {
    let state = load_game(Found::Missing).expect("no file is no failure");
    assert!(state.history.is_empty());
    assert_eq!(state.history.len(), 0);
    assert_eq!(state.campaign, "");
    assert_eq!(state.current_location, "");
    assert_eq!(state.current_quest, "");
    assert!(!state.has_campaign());
    assert_eq!(state.character.name, "");
    assert_eq!(state.character.race, None);
    assert_eq!(state.character.class, None);
    assert_eq!(state.character.background, None);
    assert_eq!(state.character.level, 1);
    assert_eq!(state.character.hit_points, 10);
    assert!(!state.date_started.is_empty());
    assert!(!state.last_saved.is_empty());
}

#[test]
fn loading_an_unreadable_file_fails_with_the_cause() {
    let loaded = load_game(Found::Unreadable { cause: "EOF while parsing".to_string() });
    assert_eq!(loaded.err(), Some("EOF while parsing".to_string()));
}

#[test]
fn loading_a_session_gives_it_back() {
    let mut state = GameState::begin(Character::default(), "s".to_string(), "l".to_string());
    state.campaign = "Kept".to_string();
    state.record_exchange("p".to_string(), "r".to_string());
    let loaded = load_game(Found::Session(state)).expect("a session");
    assert_eq!(loaded.campaign, "Kept");
    assert_eq!(loaded.history.len(), 2);
    assert_eq!(loaded.date_started, "s");
    assert_eq!(loaded.last_saved, "l");
}

#[test]
fn a_save_writes_the_temporary_file_and_then_replaces_the_saved_one() {
    let (stage, command) = begin_save(Ok("{\"campaign\": \"x\"}".to_string()));
    assert_eq!(stage, SaveStage::Writing);
    assert!(matches!(&command, SaveCommand::WriteTemp { content } if content == "{\"campaign\": \"x\"}"));
    let (stage, command) = continue_save(stage, Ok(()));
    assert_eq!(stage, SaveStage::Replacing);
    assert!(matches!(command, SaveCommand::ReplaceSaved));
    let (stage, command) = continue_save(stage, Ok(()));
    assert_eq!(stage, SaveStage::Finished);
    assert!(matches!(command, SaveCommand::Finish(Ok(()))));
}

#[test]
fn a_session_that_cannot_be_written_as_text_is_not_saved() {
    let (stage, command) = begin_save(Err("key must be a string".to_string()));
    assert_eq!(stage, SaveStage::Finished);
    assert!(matches!(&command, SaveCommand::Finish(Err(cause)) if cause == "key must be a string"));
}

#[test]
fn a_failed_write_never_leads_to_a_replace() {
    let (stage, _) = begin_save(Ok("text".to_string()));
    let (stage, command) = continue_save(stage, Err("disk full".to_string()));
    assert_eq!(stage, SaveStage::Finished);
    assert!(matches!(&command, SaveCommand::Finish(Err(cause)) if cause == "disk full"));
}

#[test]
fn a_failed_replace_is_passed_on() {
    let (stage, command) = continue_save(SaveStage::Replacing, Err("permission denied".to_string()));
    assert_eq!(stage, SaveStage::Finished);
    assert!(matches!(&command, SaveCommand::Finish(Err(cause)) if cause == "permission denied"));
}

#[test]
fn a_finished_save_stays_finished() {
    let (stage, command) = continue_save(SaveStage::Finished, Ok(()));
    assert_eq!(stage, SaveStage::Finished);
    assert!(matches!(command, SaveCommand::Finish(Ok(()))));
}

#[test]
fn a_session_begins_empty_and_keeps_what_it_is_given() {
    let hero = Character {
        name: "Tam".to_string(),
        race: Some(Race::Dwarf),
        class: Some(Class::Cleric),
        background: Some(Background::Hermit),
        ..Character::default()
    };
    let mut state = GameState::begin(hero, "2024-01-01T00:00:00+00:00".to_string(), "2024-01-01T00:00:01+00:00".to_string());
    assert_eq!(state.character.name, "Tam");
    assert_eq!(state.date_started, "2024-01-01T00:00:00+00:00");
    assert_eq!(state.last_saved, "2024-01-01T00:00:01+00:00");
    assert!(state.history.is_empty());
    assert!(!state.has_campaign());
    state.mark_saved("later".to_string());
    assert_eq!(state.last_saved, "later");
    assert_eq!(state.date_started, "2024-01-01T00:00:00+00:00");
    state.record_exchange("p".to_string(), "r".to_string());
    assert_eq!(state.history.len(), 2);
    assert_eq!(state.last_saved, "later");
}

#[test]
fn a_copy_of_a_session_says_the_same() {
    let mut state = GameState::begin(Character::default(), "s".to_string(), "l".to_string());
    state.campaign = "C".to_string();
    state.current_location = "L".to_string();
    state.current_quest = "Q".to_string();
    state.record_exchange("p".to_string(), "r".to_string());
    let copy = state.duplicate();
    assert_eq!(copy.campaign, "C");
    assert_eq!(copy.current_location, "L");
    assert_eq!(copy.current_quest, "Q");
    assert_eq!(copy.date_started, "s");
    assert_eq!(copy.last_saved, "l");
    assert_eq!(copy.history.len(), 2);
    assert_eq!(copy.history.last_narration(), Some("r".to_string()));
    assert_eq!(copy.character.scores(), AbilityScores {
        strength: 10,
        dexterity: 10,
        constitution: 10,
        intelligence: 10,
        wisdom: 10,
        charisma: 10,
    });
}

#[test]
fn the_blank_session_takes_its_times_from_the_clock() {
    let state = GameState::default();
    for stamp in [&state.date_started, &state.last_saved] {
        assert!(stamp.len() >= 25);
        assert_eq!(&stamp[4..5], "-");
        assert_eq!(&stamp[7..8], "-");
        assert_eq!(&stamp[10..11], "T");
        assert_eq!(&stamp[13..14], ":");
    }
}

#[test]
fn a_request_carries_the_prompt_and_a_copy_of_the_history() {
    let mut history = History::new();
    history.record_exchange("before".to_string(), "after".to_string());
    let request = plan_exchange(ExchangeKind::Action, "I look around.", &history);
    assert_eq!(request.prompt, "I look around.");
    assert_eq!(request.history.len(), 2);
    assert_eq!(request.history[0].role, Role::User);
    assert_eq!(request.history[0].content, "before");
    assert_eq!(request.history[1].role, Role::Assistant);
    assert_eq!(request.history[1].content, "after");
    assert_eq!(request.announcement, "The Dungeon Master is responding...");
    assert_eq!(history.len(), 2);
}

#[test]
fn an_answer_is_passed_on_and_a_failure_carries_its_cause() {
    assert_eq!(settle_exchange(ExchangeKind::Action, Ok("fine".to_string())).ok(), Some("fine".to_string()));
    for (kind, message) in [
        (ExchangeKind::Opening, "Failed to communicate with the Dungeon Master"),
        (ExchangeKind::Scene, "Failed to set the scene"),
        (ExchangeKind::Action, "Failed to process your action"),
        (ExchangeKind::SkillCheck, "Failed to process skill check"),
    ] {
        let failure = settle_exchange(kind, Err("503".to_string())).err().expect("a failure");
        assert_eq!(failure.message, message);
        assert_eq!(failure.cause, "503");
        assert_eq!(kind.failure_message(), message);
    }
}

#[test]
fn each_kind_of_exchange_has_its_announcement() {
    assert_eq!(ExchangeKind::Opening.announcement(), "The Dungeon Master is creating your adventure...");
    assert_eq!(ExchangeKind::Scene.announcement(), "The Dungeon Master is setting the scene...");
    assert_eq!(ExchangeKind::Action.announcement(), "The Dungeon Master is responding...");
    assert_eq!(ExchangeKind::SkillCheck.announcement(), "The Dungeon Master is resolving your check...");
}

struct Files {
    saved: Option<String>,
    temp: Option<String>,
}

/// Carries out the commands of a save on files that are kept in memory, and
/// stops before the command at place `stop_before`, as a crash would.
fn save_on(files: &mut Files, content: &str, stop_before: usize) -> Option<Result<(), String>> {
    let (mut stage, mut command) = begin_save(Ok(content.to_string()));
    let mut done = 0;
    loop {
        if done == stop_before {
            return None;
        }
        match command {
            SaveCommand::WriteTemp { content } => files.temp = Some(content),
            SaveCommand::ReplaceSaved => {
                files.saved = files.temp.take();
            }
            SaveCommand::Finish(result) => return Some(result),
        }
        done += 1;
        (stage, command) = continue_save(stage, Ok(()));
    }
}

#[test]
fn a_save_that_runs_to_its_end_leaves_the_content_in_the_saved_file() {
    let mut files = Files { saved: Some("old".to_string()), temp: None };
    assert_eq!(save_on(&mut files, "new", usize::MAX), Some(Ok(())));
    assert_eq!(files.saved, Some("new".to_string()));
    assert_eq!(files.temp, None);

    let mut files = Files { saved: None, temp: Some("debris".to_string()) };
    assert_eq!(save_on(&mut files, "first", usize::MAX), Some(Ok(())));
    assert_eq!(files.saved, Some("first".to_string()));
    assert_eq!(files.temp, None);
}

#[test]
fn a_save_that_is_cut_short_before_the_replace_leaves_the_saved_file_alone() {
    let mut files = Files { saved: Some("old".to_string()), temp: None };
    assert_eq!(save_on(&mut files, "new", 0), None);
    assert_eq!(files.saved, Some("old".to_string()));
    assert_eq!(files.temp, None);

    let mut files = Files { saved: Some("old".to_string()), temp: None };
    assert_eq!(save_on(&mut files, "new", 1), None);
    assert_eq!(files.saved, Some("old".to_string()));
    assert_eq!(files.temp, Some("new".to_string()));

    let mut files = Files { saved: None, temp: None };
    assert_eq!(save_on(&mut files, "new", 1), None);
    assert_eq!(files.saved, None);
}
