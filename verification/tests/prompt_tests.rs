use dnd_adventure::character::AbilityScores;
use dnd_adventure::creation::create_character;
use dnd_adventure::character::Character;
use dnd_adventure::prompt::{action_prompt, campaign_prompt, resolve_check, scene_prompt, skill_check_prompt};
use dnd_adventure::roster::{Background, Class, Race, Skill};

fn thief() -> Character {
    create_character(
        "Nyx".to_string(),
        Race::HalfElf,
        Class::Rogue,
        Background::Criminal,
        AbilityScores { strength: 7, dexterity: 16, constitution: 12, intelligence: 13, wisdom: 9, charisma: 14 },
        &vec![10, 2],
    )
}

#[test]
fn campaign_prompt_follows_its_template() {
    let expected = format!(
        "You are the Dungeon Master for a Dungeons & Dragons 5e adventure. 
        Create an exciting campaign hook and starting location for a {} {} named {}. 
        The character is level {} with the following stats: 
        STR {}, DEX {}, CON {}, INT {}, WIS {}, CHA {}.
        Background: {}.
        
        Provide a brief introduction to the campaign setting, including:
        1. The name of the campaign/adventure
        2. The starting location (town/city/village name)
        3. The initial quest or hook to draw the player in
        4. A brief description of the area and its people
        
        Format your response with these section headers but focus on immersive, evocative descriptions rather than mechancial details. Make it engaging and atmospheric!",
        "Half-Elf", "Rogue", "Nyx", 1, 7, 16, 12, 13, 9, 14, "Criminal"
    );
    assert_eq!(campaign_prompt(&thief()), expected);
}

#[test]
fn campaign_prompt_begins_and_ends_as_written() {
    let prompt = campaign_prompt(&thief());
    assert!(prompt.starts_with("You are the Dungeon Master for a Dungeons & Dragons 5e adventure. \n        Create an exciting campaign hook and starting location for a Half-Elf Rogue named Nyx. \n"));
    assert!(prompt.contains("STR 7, DEX 16, CON 12, INT 13, WIS 9, CHA 14.\n        Background: Criminal.\n"));
    assert!(prompt.ends_with("Make it engaging and atmospheric!"));
}

#[test]
fn scene_prompt_is_fixed() {
    assert_eq!(
        scene_prompt(),
        "Now, describe the opening scene. The player's character has just arrived at the starting location. Provide rich sensory details and introduce an NPC or situation that connects to the quest hook. End with a question or prompt for the player to respond to."
    );
}

#[test]
fn action_prompt_follows_its_template() {
    let action = "I pick the lock\nand slip inside.";
    let expected = format!(
        "The player ({} the {} {}) takes the following action:\n\n{}
        
        Respond as the Dungeon Master, describing the outcome of this action. 
        Use rich, evocative language to create an immersive experience.
        If dice rolls would be needed, describe the check but don't roll dice yourself.
        End with either a question or a prompt that gives the player clear options for what they might do next.
        If the player attempts something impossible, gently steer them toward better options.",
        "Nyx", "Half-Elf", "Rogue", action
    );
    assert_eq!(action_prompt(&thief(), action), expected);
}

#[test]
fn prompts_are_the_same_for_the_same_values() {
    assert_eq!(action_prompt(&thief(), "I wait."), action_prompt(&thief(), "I wait."));
    assert_eq!(campaign_prompt(&thief()), campaign_prompt(&thief()));
    assert_ne!(action_prompt(&thief(), "I wait."), action_prompt(&thief(), "I wait!"));
}

#[test]
fn proficient_check_is_resolved_with_the_bonus() {
    let check = resolve_check(&thief(), Skill::Stealth, 15);
    assert_eq!(check.skill, Skill::Stealth);
    assert_eq!(check.roll, 15);
    assert_eq!(check.ability_mod, 3);
    assert!(check.proficient);
    assert_eq!(check.prof_bonus, 2);
    assert_eq!(check.total, 20);
}

#[test]
fn untrained_check_is_resolved_without_the_bonus() {
    let check = resolve_check(&thief(), Skill::Athletics, 11);
    assert_eq!(check.ability_mod, -2);
    assert!(!check.proficient);
    assert_eq!(check.prof_bonus, 2);
    assert_eq!(check.total, 9);
    let check = resolve_check(&thief(), Skill::Perception, 1);
    assert_eq!(check.ability_mod, -1);
    assert_eq!(check.total, 0);
}

#[test]
fn the_bonus_of_a_check_grows_with_the_level() {
    let mut veteran = thief();
    veteran.level = 9;
    let check = resolve_check(&veteran, Skill::Deception, 10);
    assert_eq!(check.ability_mod, 2);
    assert!(check.proficient);
    assert_eq!(check.prof_bonus, 4);
    assert_eq!(check.total, 16);
}

#[test]
fn check_prompt_follows_its_template() {
    let check = resolve_check(&thief(), Skill::Stealth, 15);
    let expected = format!(
        "The player ({} the {} {}) rolls a {} check.
        Dice roll: {}
        Ability modifier: {}
        Proficiency: {}
        Total: {}
        
        Interpret this skill check result in the current context. 
        Describe the outcome of their action based on this result.
        For reference, typical difficulty classes are:
        - Easy: 10
        - Medium: 15
        - Hard: 20
        - Very Hard: 25
        - Nearly Impossible: 30
        
        Continue the scene after describing the result of this check.",
        "Nyx", "Half-Elf", "Rogue", "Stealth", 15, 3, "Yes (+2)", 20
    );
    assert_eq!(skill_check_prompt(&thief(), &check), expected);
}

#[test]
fn check_prompt_writes_negative_numbers_and_no_proficiency() {
    let check = resolve_check(&thief(), Skill::Athletics, 1);
    let prompt = skill_check_prompt(&thief(), &check);
    assert!(prompt.contains("rolls a Athletics check.\n        Dice roll: 1\n        Ability modifier: -2\n        Proficiency: No\n        Total: -1\n"));
}

#[test]
fn check_prompt_states_the_bonus_that_was_added() {
    let mut veteran = thief();
    veteran.level = 17;
    let check = resolve_check(&veteran, Skill::Stealth, 20);
    let prompt = skill_check_prompt(&veteran, &check);
    assert!(prompt.contains("Proficiency: Yes (+6)\n        Total: 29\n"));
}

#[test]
fn prompts_for_the_blank_sheet_leave_race_and_class_empty() {
    let blank = Character::default();
    assert_eq!(
        action_prompt(&blank, "I wake up."),
        format!(
            "The player ({} the {} {}) takes the following action:\n\n{}
        
        Respond as the Dungeon Master, describing the outcome of this action. 
        Use rich, evocative language to create an immersive experience.
        If dice rolls would be needed, describe the check but don't roll dice yourself.
        End with either a question or a prompt that gives the player clear options for what they might do next.
        If the player attempts something impossible, gently steer them toward better options.",
            "", "", "", "I wake up."
        )
    );
    let prompt = campaign_prompt(&blank);
    assert!(prompt.contains("starting location for a   named . \n        The character is level 1 "));
    assert!(prompt.contains("STR 10, DEX 10, CON 10, INT 10, WIS 10, CHA 10.\n        Background: .\n"));
}
