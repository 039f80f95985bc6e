use dnd_adventure::history::{copy_turns, extract_text_from_message, is_paired, History, Role, Turn};

fn turn(role: Role, content: &str) -> Turn {
    Turn { role, content: content.to_string() }
}

fn contents(turns: &Vec<Turn>) -> Vec<(Role, String)> {
    turns.iter().map(|turn| (turn.role, turn.content.clone())).collect()
}

#[test]
fn a_new_history_is_empty() {
    let history = History::new();
    assert!(history.is_empty());
    assert_eq!(history.len(), 0);
    assert!(history.turns().is_empty());
    assert_eq!(history.last_narration(), None);
}

#[test]
fn an_exchange_adds_the_prompt_and_then_the_response() {
    let mut history = History::new();
    history.record_exchange("Where am I?".to_string(), "In a tavern.".to_string());
    assert_eq!(history.len(), 2);
    assert!(!history.is_empty());
    assert_eq!(
        contents(history.turns()),
        vec![(Role::User, "Where am I?".to_string()), (Role::Assistant, "In a tavern.".to_string())]
    );
    assert_eq!(history.last_narration(), Some("In a tavern.".to_string()));
}

#[test]
fn history_stays_even_and_alternating_after_many_exchanges() {
    let mut history = History::new();
    for round in 0..25 {
        history.record_exchange(format!("prompt {}", round), format!("response {}", round));
        assert_eq!(history.len(), 2 * (round + 1));
        assert_eq!(history.len() % 2, 0);
        for (place, turn) in history.turns().iter().enumerate() {
            let expected = if place % 2 == 0 { Role::User } else { Role::Assistant };
            assert_eq!(turn.role, expected);
        }
    }
    assert_eq!(history.turns()[0].content, "prompt 0");
    assert_eq!(history.turns()[49].content, "response 24");
    assert!(is_paired(history.turns()));
}

#[test]
fn earlier_turns_are_not_touched_by_later_exchanges() {
    let mut history = History::new();
    history.record_exchange("a".to_string(), "b".to_string());
    let before = contents(history.turns());
    history.record_exchange("c".to_string(), "d".to_string());
    assert_eq!(contents(history.turns())[..2], before[..]);
}

#[test]
fn whole_exchanges_make_a_history() {
    let turns = vec![
        turn(Role::User, "one"),
        turn(Role::Assistant, "two"),
        turn(Role::User, "three"),
        turn(Role::Assistant, "four"),
    ];
    let history = History::from_turns(turns).expect("whole exchanges");
    assert_eq!(history.len(), 4);
    assert_eq!(history.last_narration(), Some("four".to_string()));
    assert!(History::from_turns(vec![]).is_some());
}

#[test]
fn anything_else_makes_no_history() {
    assert!(History::from_turns(vec![turn(Role::User, "alone")]).is_none());
    assert!(History::from_turns(vec![turn(Role::Assistant, "a"), turn(Role::User, "b")]).is_none());
    assert!(History::from_turns(vec![turn(Role::User, "a"), turn(Role::User, "b")]).is_none());
    assert!(History::from_turns(vec![turn(Role::Assistant, "a"), turn(Role::Assistant, "b")]).is_none());
    assert!(History::from_turns(vec![
        turn(Role::User, "a"),
        turn(Role::Assistant, "b"),
        turn(Role::User, "c"),
    ])
    .is_none());
    assert!(History::from_turns(vec![
        turn(Role::User, "a"),
        turn(Role::Assistant, "b"),
        turn(Role::Assistant, "c"),
        turn(Role::User, "d"),
    ])
    .is_none());
}

#[test]
fn pairing_is_told_of_plain_turns() {
    assert!(is_paired(&vec![]));
    assert!(is_paired(&vec![turn(Role::User, "a"), turn(Role::Assistant, "b")]));
    assert!(!is_paired(&vec![turn(Role::User, "a")]));
    assert!(!is_paired(&vec![turn(Role::Assistant, "a"), turn(Role::User, "b")]));
}

#[test]
fn copies_say_the_same() {
    let mut history = History::new();
    history.record_exchange("p".to_string(), "r".to_string());
    assert_eq!(contents(&history.snapshot()), contents(history.turns()));
    assert_eq!(contents(history.duplicate().turns()), contents(history.turns()));
    assert_eq!(contents(&copy_turns(history.turns())), contents(history.turns()));
    let mut copy = history.duplicate();
    copy.record_exchange("q".to_string(), "s".to_string());
    assert_eq!(history.len(), 2);
    assert_eq!(copy.len(), 4);
}

#[test]
fn a_message_without_text_gets_a_remark_in_its_place() {
    assert_eq!(extract_text_from_message(Some("The door creaks.".to_string())), "The door creaks.");
    assert_eq!(extract_text_from_message(Some(String::new())), "");
    assert_eq!(extract_text_from_message(None), "No readable text content available");
}
