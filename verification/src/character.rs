//! The character sheet, and how a new character is put together.

use vstd::prelude::*;
use crate::roster::{Ability, Background, Class, Race, Skill};

verus! {

/// The skills that a character is proficient in.
#[derive(Clone, Copy, Debug)]
pub struct SkillSet {
    flags: [bool; 18],
}

impl View for SkillSet {
    type V = Set<Skill>;

    closed spec fn view(&self) -> Set<Skill> {
        Set::new(|skill: Skill| self.flags@[skill.spec_index()])
    }
}

impl SkillSet {
    /// Returns the set without any skill.
    pub fn none() -> (skills: SkillSet)
        ensures
            skills@ == Set::<Skill>::empty(),
    {
        let skills = SkillSet { flags: [false; 18] };
        skills
    }

    /// Tells whether `skill` is in the set.
    pub fn has(&self, skill: Skill) -> (proficient: bool)
        ensures
            proficient == self@.contains(skill),
    {
        self.flags[skill.index()]
    }

    /// Puts `skill` into the set.
    pub fn train(&mut self, skill: Skill)
        ensures
            final(self)@ == old(self)@.insert(skill),
    {
        let place: usize = skill.index();
        self.flags[place] = true;
    }
}

/// The six ability scores of a character.
#[derive(Clone, Copy, Debug, PartialEq, Eq, Structural)]
pub struct AbilityScores {
    pub strength: u32,
    pub dexterity: u32,
    pub constitution: u32,
    pub intelligence: u32,
    pub wisdom: u32,
    pub charisma: u32,
}

impl AbilityScores {
    /// The score of one ability.
    pub open spec fn spec_get(self, ability: Ability) -> u32 {
        match ability {
            Ability::Strength => self.strength,
            Ability::Dexterity => self.dexterity,
            Ability::Constitution => self.constitution,
            Ability::Intelligence => self.intelligence,
            Ability::Wisdom => self.wisdom,
            Ability::Charisma => self.charisma,
        }
    }

    /// Returns the score of one ability.
    pub fn get(&self, ability: Ability) -> (score: u32)
        ensures
            score == self.spec_get(ability),
    {
        match ability {
            Ability::Strength => self.strength,
            Ability::Dexterity => self.dexterity,
            Ability::Constitution => self.constitution,
            Ability::Intelligence => self.intelligence,
            Ability::Wisdom => self.wisdom,
            Ability::Charisma => self.charisma,
        }
    }
}

/// A character sheet. Race, class and background are chosen when the
/// character is created; on a blank sheet none of them is.
#[derive(Debug)]
pub struct Character {
    pub name: String,
    pub race: Option<Race>,
    pub class: Option<Class>,
    pub level: u32,
    pub strength: u32,
    pub dexterity: u32,
    pub constitution: u32,
    pub intelligence: u32,
    pub wisdom: u32,
    pub charisma: u32,
    pub hit_points: u32,
    pub max_hit_points: u32,
    pub armor_class: u32,
    pub inventory: Vec<String>,
    pub gold: u32,
    pub experience: u32,
    pub background: Option<Background>,
    pub skills: SkillSet,
}

/// What a character sheet says, with texts in place of strings.
pub struct CharacterModel {
    pub name: Seq<char>,
    pub race: Option<Race>,
    pub class: Option<Class>,
    pub level: u32,
    pub scores: AbilityScores,
    pub hit_points: u32,
    pub max_hit_points: u32,
    pub armor_class: u32,
    pub inventory: Seq<Seq<char>>,
    pub gold: u32,
    pub experience: u32,
    pub background: Option<Background>,
    pub skills: Set<Skill>,
}

/// The texts that a sequence of strings holds.
pub open spec fn texts(items: Seq<String>) -> Seq<Seq<char>> {
    items.map_values(|item: String| item@)
}

impl View for Character {
    type V = CharacterModel;

    open spec fn view(&self) -> CharacterModel {
        CharacterModel {
            name: self.name@,
            race: self.race,
            class: self.class,
            level: self.level,
            scores: AbilityScores {
                strength: self.strength,
                dexterity: self.dexterity,
                constitution: self.constitution,
                intelligence: self.intelligence,
                wisdom: self.wisdom,
                charisma: self.charisma,
            },
            hit_points: self.hit_points,
            max_hit_points: self.max_hit_points,
            armor_class: self.armor_class,
            inventory: texts(self.inventory@),
            gold: self.gold,
            experience: self.experience,
            background: self.background,
            skills: self.skills@,
        }
    }
}

/// The sheet of a character that nobody has created yet: level one, no name,
/// no race, class or background chosen, tens everywhere, and empty pockets.
pub open spec fn blank_character() -> CharacterModel {
    CharacterModel {
        name: Seq::empty(),
        race: None,
        class: None,
        level: 1,
        scores: AbilityScores {
            strength: 10,
            dexterity: 10,
            constitution: 10,
            intelligence: 10,
            wisdom: 10,
            charisma: 10,
        },
        hit_points: 10,
        max_hit_points: 10,
        armor_class: 10,
        inventory: Seq::empty(),
        gold: 0,
        experience: 0,
        background: None,
        skills: Set::empty(),
    }
}

impl Default for Character {
    fn default() -> (character: Character)
        ensures
            character@ == blank_character(),
    {
        let character = Character {
            name: String::new(),
            race: None,
            class: None,
            level: 1,
            strength: 10,
            dexterity: 10,
            constitution: 10,
            intelligence: 10,
            wisdom: 10,
            charisma: 10,
            hit_points: 10,
            max_hit_points: 10,
            armor_class: 10,
            inventory: Vec::new(),
            gold: 0,
            experience: 0,
            background: None,
            skills: SkillSet::none(),
        };
        assert(texts(character.inventory@) =~= Seq::<Seq<char>>::empty());
        character
    }
}

impl Character {
    /// Returns the six ability scores of the character.
    pub fn scores(&self) -> (scores: AbilityScores)
        ensures
            scores == self@.scores,
    {
        AbilityScores {
            strength: self.strength,
            dexterity: self.dexterity,
            constitution: self.constitution,
            intelligence: self.intelligence,
            wisdom: self.wisdom,
            charisma: self.charisma,
        }
    }

    /// Returns a second sheet that says what this one says.
    pub fn duplicate(&self) -> (copy: Character)
        ensures
            copy@ == self@,
    {
        let mut inventory: Vec<String> = Vec::new();
        let mut at: usize = 0;
        while at < self.inventory.len()
            invariant
                at <= self.inventory@.len(),
                texts(inventory@) == texts(self.inventory@).take(at as int),
            decreases self.inventory@.len() - at,
        {
            let ghost before = texts(inventory@);
            inventory.push(self.inventory[at].clone());
            assert(texts(inventory@) =~= before.push(self.inventory@[at as int]@));
            at = at + 1;
        }
        assert(texts(self.inventory@).take(at as int) =~= texts(self.inventory@));
        Character {
            name: self.name.clone(),
            race: self.race,
            class: self.class,
            level: self.level,
            strength: self.strength,
            dexterity: self.dexterity,
            constitution: self.constitution,
            intelligence: self.intelligence,
            wisdom: self.wisdom,
            charisma: self.charisma,
            hit_points: self.hit_points,
            max_hit_points: self.max_hit_points,
            armor_class: self.armor_class,
            inventory,
            gold: self.gold,
            experience: self.experience,
            background: self.background,
            skills: self.skills,
        }
    }
}

} // verus!
