//! The prompts that are sent to the narrator. Each one is a function of the
//! values it is given and of nothing else: the same values give the same
//! text, letter for letter. Numbers are written into the text as they were
//! computed; the narrator is never asked to roll dice.

use vstd::prelude::*;
use vstd::string::*;
use crate::character::{Character, CharacterModel};
use crate::mechanics::{ability_modifier, bonus_of_level, check_total, modifier_of, proficiency_bonus, skill_check_total};
use crate::roster::{Background, Class, Race, Skill};
use crate::text::{decimal_digits, decimal_text, push_signed, push_unsigned};

verus! {

/// How the campaign prompt begins, up to the race of the character.
pub const CAMPAIGN_LEAD: &'static str = "You are the Dungeon Master for a Dungeons & Dragons 5e adventure. \n        Create an exciting campaign hook and starting location for a ";

/// What stands between the class and the name in the campaign prompt.
pub const CAMPAIGN_NAMED: &'static str = " named ";

/// What stands between the name and the level in the campaign prompt.
pub const CAMPAIGN_LEVEL: &'static str = ". \n        The character is level ";

/// What stands between the level and the strength in the campaign prompt.
pub const CAMPAIGN_STATS: &'static str = " with the following stats: \n        STR ";

/// What stands before the dexterity in the campaign prompt.
pub const CAMPAIGN_DEX: &'static str = ", DEX ";

/// What stands before the constitution in the campaign prompt.
pub const CAMPAIGN_CON: &'static str = ", CON ";

/// What stands before the intelligence in the campaign prompt.
pub const CAMPAIGN_INT: &'static str = ", INT ";

/// What stands before the wisdom in the campaign prompt.
pub const CAMPAIGN_WIS: &'static str = ", WIS ";

/// What stands before the charisma in the campaign prompt.
pub const CAMPAIGN_CHA: &'static str = ", CHA ";

/// What stands before the background in the campaign prompt.
pub const CAMPAIGN_BACKGROUND: &'static str = ".\n        Background: ";

/// What the campaign prompt asks for, after the background.
pub const CAMPAIGN_TASK: &'static str = ".\n        \n        Provide a brief introduction to the campaign setting, including:\n        1. The name of the campaign/adventure\n        2. The starting location (town/city/village name)\n        3. The initial quest or hook to draw the player in\n        4. A brief description of the area and its people\n        \n        Format your response with these section headers but focus on immersive, evocative descriptions rather than mechancial details. Make it engaging and atmospheric!";

/// The prompt that asks for the opening scene.
pub const SCENE_PROMPT: &'static str = "Now, describe the opening scene. The player's character has just arrived at the starting location. Provide rich sensory details and introduce an NPC or situation that connects to the quest hook. End with a question or prompt for the player to respond to.";

/// How the prompts about a player begin, up to the name of the character.
pub const PLAYER_LEAD: &'static str = "The player (";

/// What stands between the name and the race in the prompts about a player.
pub const PLAYER_THE: &'static str = " the ";

/// What stands between the class and the action in the action prompt.
pub const ACTION_TAKES: &'static str = ") takes the following action:\n\n";

/// What the action prompt asks for, after the action.
pub const ACTION_TASK: &'static str = "\n        \n        Respond as the Dungeon Master, describing the outcome of this action. \n        Use rich, evocative language to create an immersive experience.\n        If dice rolls would be needed, describe the check but don't roll dice yourself.\n        End with either a question or a prompt that gives the player clear options for what they might do next.\n        If the player attempts something impossible, gently steer them toward better options.";

/// What stands between the class and the skill in the check prompt.
pub const CHECK_ROLLS: &'static str = ") rolls a ";

/// What stands between the skill and the die in the check prompt.
pub const CHECK_DICE: &'static str = " check.\n        Dice roll: ";

/// What stands before the ability modifier in the check prompt.
pub const CHECK_MODIFIER: &'static str = "\n        Ability modifier: ";

/// What stands before the proficiency in the check prompt.
pub const CHECK_PROFICIENCY: &'static str = "\n        Proficiency: ";

/// What stands before the total in the check prompt.
pub const CHECK_TOTAL: &'static str = "\n        Total: ";

/// What the check prompt asks for, after the total.
pub const CHECK_TASK: &'static str = "\n        \n        Interpret this skill check result in the current context. \n        Describe the outcome of their action based on this result.\n        For reference, typical difficulty classes are:\n        - Easy: 10\n        - Medium: 15\n        - Hard: 20\n        - Very Hard: 25\n        - Nearly Impossible: 30\n        \n        Continue the scene after describing the result of this check.";

/// The text of the prompt that opens a campaign for a character.
pub open spec fn campaign_prompt_text(character: CharacterModel) -> Seq<char> {
    CAMPAIGN_LEAD@ + Race::spec_written(character.race) + " "@ + Class::spec_written(character.class) + CAMPAIGN_NAMED@
        + character.name + CAMPAIGN_LEVEL@ + decimal_digits(character.level as nat) + CAMPAIGN_STATS@
        + decimal_digits(character.scores.strength as nat) + CAMPAIGN_DEX@ + decimal_digits(
        character.scores.dexterity as nat,
    ) + CAMPAIGN_CON@ + decimal_digits(character.scores.constitution as nat) + CAMPAIGN_INT@
        + decimal_digits(character.scores.intelligence as nat) + CAMPAIGN_WIS@ + decimal_digits(
        character.scores.wisdom as nat,
    ) + CAMPAIGN_CHA@ + decimal_digits(character.scores.charisma as nat) + CAMPAIGN_BACKGROUND@
        + Background::spec_written(character.background) + CAMPAIGN_TASK@
}

/// How a prompt names the player: the name of the character, then race and
/// class, each left empty where the sheet has none.
pub open spec fn player_text(character: CharacterModel) -> Seq<char> {
    PLAYER_LEAD@ + character.name + PLAYER_THE@ + Race::spec_written(character.race) + " "@
        + Class::spec_written(character.class)
}

/// The text of the prompt that reports a free action of the player.
pub open spec fn action_prompt_text(character: CharacterModel, action: Seq<char>) -> Seq<char> {
    player_text(character) + ACTION_TAKES@ + action + ACTION_TASK@
}

/// A skill check with all its numbers resolved.
#[derive(Clone, Copy, Debug, PartialEq, Eq, Structural)]
pub struct SkillCheck {
    pub skill: Skill,
    pub roll: u32,
    pub ability_mod: i32,
    pub proficient: bool,
    pub prof_bonus: u32,
    pub total: i64,
}

/// The check that a character makes on `skill` with `roll` on the die: the
/// modifier of the ability behind the skill, the proficiency bonus of the
/// level, which counts for a proficient character only, and the total.
pub open spec fn resolved_check(character: CharacterModel, skill: Skill, roll: u32) -> SkillCheck {
    let ability_mod = modifier_of(character.scores.spec_get(skill.spec_ability()) as int);
    let proficient = character.skills.contains(skill);
    let prof_bonus = bonus_of_level(character.level as int);
    SkillCheck {
        skill,
        roll,
        ability_mod: ability_mod as i32,
        proficient,
        prof_bonus: prof_bonus as u32,
        total: check_total(roll as int, ability_mod, proficient, prof_bonus) as i64,
    }
}

/// Resolves the numbers of a skill check.
pub fn resolve_check(character: &Character, skill: Skill, roll: u32) -> (check: SkillCheck)
    ensures
        check == resolved_check(character@, skill, roll),
{
    let score: u32 = character.scores().get(skill.ability());
    let ability_mod: i32 = ability_modifier(score);
    let proficient: bool = character.skills.has(skill);
    let prof_bonus: u32 = proficiency_bonus(character.level);
    let total: i64 = skill_check_total(roll, ability_mod, proficient, prof_bonus);
    SkillCheck { skill, roll, ability_mod, proficient, prof_bonus, total }
}

/// How a prompt states the proficiency: the bonus that was added, or that
/// there was none.
pub open spec fn proficiency_text(proficient: bool, prof_bonus: u32) -> Seq<char> {
    if proficient {
        "Yes (+"@ + decimal_digits(prof_bonus as nat) + ")"@
    } else {
        "No"@
    }
}

/// The text of the prompt that reports a skill check.
pub open spec fn check_prompt_text(character: CharacterModel, check: SkillCheck) -> Seq<char> {
    player_text(character) + CHECK_ROLLS@ + check.skill.spec_name() + CHECK_DICE@ + decimal_digits(
        check.roll as nat,
    ) + CHECK_MODIFIER@ + decimal_text(check.ability_mod as int) + CHECK_PROFICIENCY@
        + proficiency_text(check.proficient, check.prof_bonus) + CHECK_TOTAL@ + decimal_text(
        check.total as int,
    ) + CHECK_TASK@
}

/// Writes the prompt that opens a campaign for `character`.
pub fn campaign_prompt(character: &Character) -> (prompt: String)
    ensures
        prompt@ == campaign_prompt_text(character@),
{
    let mut prompt: String = String::from_str(CAMPAIGN_LEAD);
    prompt.append(Race::written(character.race));
    prompt.append(" ");
    prompt.append(Class::written(character.class));
    prompt.append(CAMPAIGN_NAMED);
    prompt.append(character.name.as_str());
    prompt.append(CAMPAIGN_LEVEL);
    push_unsigned(&mut prompt, character.level as u64);
    prompt.append(CAMPAIGN_STATS);
    push_unsigned(&mut prompt, character.strength as u64);
    prompt.append(CAMPAIGN_DEX);
    push_unsigned(&mut prompt, character.dexterity as u64);
    prompt.append(CAMPAIGN_CON);
    push_unsigned(&mut prompt, character.constitution as u64);
    prompt.append(CAMPAIGN_INT);
    push_unsigned(&mut prompt, character.intelligence as u64);
    prompt.append(CAMPAIGN_WIS);
    push_unsigned(&mut prompt, character.wisdom as u64);
    prompt.append(CAMPAIGN_CHA);
    push_unsigned(&mut prompt, character.charisma as u64);
    prompt.append(CAMPAIGN_BACKGROUND);
    prompt.append(Background::written(character.background));
    prompt.append(CAMPAIGN_TASK);
    prompt
}

/// Writes the prompt that asks for the opening scene.
pub fn scene_prompt() -> (prompt: String)
    ensures
        prompt@ == SCENE_PROMPT@,
{
    String::from_str(SCENE_PROMPT)
}

fn push_player(prompt: &mut String, character: &Character)
    ensures
        final(prompt)@ == old(prompt)@ + player_text(character@),
{
    prompt.append(PLAYER_LEAD);
    prompt.append(character.name.as_str());
    prompt.append(PLAYER_THE);
    prompt.append(Race::written(character.race));
    prompt.append(" ");
    prompt.append(Class::written(character.class));
}

/// Writes the prompt that reports the free action `action` of the player.
pub fn action_prompt(character: &Character, action: &str) -> (prompt: String)
    ensures
        prompt@ == action_prompt_text(character@, action@),
{
    let mut prompt: String = String::new();
    push_player(&mut prompt, character);
    prompt.append(ACTION_TAKES);
    prompt.append(action);
    prompt.append(ACTION_TASK);
    prompt
}

fn push_proficiency(prompt: &mut String, proficient: bool, prof_bonus: u32)
    ensures
        final(prompt)@ == old(prompt)@ + proficiency_text(proficient, prof_bonus),
{
    if proficient {
        prompt.append("Yes (+");
        push_unsigned(prompt, prof_bonus as u64);
        prompt.append(")");
    } else {
        prompt.append("No");
    }
}

/// Writes the prompt that reports the skill check `check` of `character`.
pub fn skill_check_prompt(character: &Character, check: &SkillCheck) -> (prompt: String)
    ensures
        prompt@ == check_prompt_text(character@, *check),
{
    let mut prompt: String = String::new();
    push_player(&mut prompt, character);
    prompt.append(CHECK_ROLLS);
    prompt.append(check.skill.name());
    prompt.append(CHECK_DICE);
    push_unsigned(&mut prompt, check.roll as u64);
    prompt.append(CHECK_MODIFIER);
    push_signed(&mut prompt, check.ability_mod as i64);
    prompt.append(CHECK_PROFICIENCY);
    push_proficiency(&mut prompt, check.proficient, check.prof_bonus);
    prompt.append(CHECK_TOTAL);
    push_signed(&mut prompt, check.total);
    prompt.append(CHECK_TASK);
    prompt
}

} // verus!
