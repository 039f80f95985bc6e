//! The lists that a character is put together from: races, classes,
//! backgrounds, abilities and skills, with the tables that go with them.

use vstd::prelude::*;
use vstd::string::*;
use crate::text::same_text;

verus! {

/// The peoples a character can belong to.
#[derive(Clone, Copy, Debug, PartialEq, Eq, Structural)]
pub enum Race {
    Human,
    Elf,
    Dwarf,
    Halfling,
    Gnome,
    HalfElf,
    HalfOrc,
    Tiefling,
    Dragonborn,
}

impl Race {
    /// The name of the race, as it is shown and written into prompts.
    pub open spec fn spec_name(self) -> Seq<char> {
        match self {
            Race::Human => "Human"@,
            Race::Elf => "Elf"@,
            Race::Dwarf => "Dwarf"@,
            Race::Halfling => "Halfling"@,
            Race::Gnome => "Gnome"@,
            Race::HalfElf => "Half-Elf"@,
            Race::HalfOrc => "Half-Orc"@,
            Race::Tiefling => "Tiefling"@,
            Race::Dragonborn => "Dragonborn"@,
        }
    }

    /// The place of the race in the list that a player chooses from.
    pub open spec fn spec_index(self) -> int {
        match self {
            Race::Human => 0,
            Race::Elf => 1,
            Race::Dwarf => 2,
            Race::Halfling => 3,
            Race::Gnome => 4,
            Race::HalfElf => 5,
            Race::HalfOrc => 6,
            Race::Tiefling => 7,
            Race::Dragonborn => 8,
        }
    }

    /// The race at place `index` of the list, if there is one.
    pub open spec fn at(index: int) -> Option<Race> {
        if index == 0 {
            Some(Race::Human)
        } else if index == 1 {
            Some(Race::Elf)
        } else if index == 2 {
            Some(Race::Dwarf)
        } else if index == 3 {
            Some(Race::Halfling)
        } else if index == 4 {
            Some(Race::Gnome)
        } else if index == 5 {
            Some(Race::HalfElf)
        } else if index == 6 {
            Some(Race::HalfOrc)
        } else if index == 7 {
            Some(Race::Tiefling)
        } else if index == 8 {
            Some(Race::Dragonborn)
        } else {
            None
        }
    }

    /// Returns the name of the race.
    pub fn name(self) -> (text: &'static str)
        ensures
            text@ == self.spec_name(),
    {
        match self {
            Race::Human => "Human",
            Race::Elf => "Elf",
            Race::Dwarf => "Dwarf",
            Race::Halfling => "Halfling",
            Race::Gnome => "Gnome",
            Race::HalfElf => "Half-Elf",
            Race::HalfOrc => "Half-Orc",
            Race::Tiefling => "Tiefling",
            Race::Dragonborn => "Dragonborn",
        }
    }

    /// Returns the place of the race in the list.
    pub fn index(self) -> (index: usize)
        ensures
            index == self.spec_index(),
            Race::at(index as int) == Some(self),
    {
        match self {
            Race::Human => 0,
            Race::Elf => 1,
            Race::Dwarf => 2,
            Race::Halfling => 3,
            Race::Gnome => 4,
            Race::HalfElf => 5,
            Race::HalfOrc => 6,
            Race::Tiefling => 7,
            Race::Dragonborn => 8,
        }
    }

    /// Returns the race at place `index` of the list.
    pub fn from_index(index: usize) -> (found: Option<Race>)
        ensures
            found == Race::at(index as int),
    {
        if index == 0 {
            Some(Race::Human)
        } else if index == 1 {
            Some(Race::Elf)
        } else if index == 2 {
            Some(Race::Dwarf)
        } else if index == 3 {
            Some(Race::Halfling)
        } else if index == 4 {
            Some(Race::Gnome)
        } else if index == 5 {
            Some(Race::HalfElf)
        } else if index == 6 {
            Some(Race::HalfOrc)
        } else if index == 7 {
            Some(Race::Tiefling)
        } else if index == 8 {
            Some(Race::Dragonborn)
        } else {
            None
        }
    }

    /// Returns what a player chose: the race at the place that was picked,
    /// or the first of the list where nothing usable was picked.
    pub fn chosen(picked: Option<usize>) -> (choice: Race)
        ensures
            choice == match picked {
                Some(index) => match Race::at(index as int) {
                    Some(found) => found,
                    None => Race::Human,
                },
                None => Race::Human,
            },
    {
        match picked {
            Some(index) => match Race::from_index(index) {
                Some(found) => found,
                None => Race::Human,
            },
            None => Race::Human,
        }
    }
}

/// The classes a character can have.
#[derive(Clone, Copy, Debug, PartialEq, Eq, Structural)]
pub enum Class {
    Fighter,
    Wizard,
    Cleric,
    Rogue,
    Ranger,
    Paladin,
    Barbarian,
    Bard,
    Druid,
    Monk,
    Sorcerer,
    Warlock,
    Artificer,
}

impl Class {
    /// The name of the class, as it is shown and written into prompts.
    pub open spec fn spec_name(self) -> Seq<char> {
        match self {
            Class::Fighter => "Fighter"@,
            Class::Wizard => "Wizard"@,
            Class::Cleric => "Cleric"@,
            Class::Rogue => "Rogue"@,
            Class::Ranger => "Ranger"@,
            Class::Paladin => "Paladin"@,
            Class::Barbarian => "Barbarian"@,
            Class::Bard => "Bard"@,
            Class::Druid => "Druid"@,
            Class::Monk => "Monk"@,
            Class::Sorcerer => "Sorcerer"@,
            Class::Warlock => "Warlock"@,
            Class::Artificer => "Artificer"@,
        }
    }

    /// The place of the class in the list that a player chooses from.
    pub open spec fn spec_index(self) -> int {
        match self {
            Class::Fighter => 0,
            Class::Wizard => 1,
            Class::Cleric => 2,
            Class::Rogue => 3,
            Class::Ranger => 4,
            Class::Paladin => 5,
            Class::Barbarian => 6,
            Class::Bard => 7,
            Class::Druid => 8,
            Class::Monk => 9,
            Class::Sorcerer => 10,
            Class::Warlock => 11,
            Class::Artificer => 12,
        }
    }

    /// The class at place `index` of the list, if there is one.
    pub open spec fn at(index: int) -> Option<Class> {
        if index == 0 {
            Some(Class::Fighter)
        } else if index == 1 {
            Some(Class::Wizard)
        } else if index == 2 {
            Some(Class::Cleric)
        } else if index == 3 {
            Some(Class::Rogue)
        } else if index == 4 {
            Some(Class::Ranger)
        } else if index == 5 {
            Some(Class::Paladin)
        } else if index == 6 {
            Some(Class::Barbarian)
        } else if index == 7 {
            Some(Class::Bard)
        } else if index == 8 {
            Some(Class::Druid)
        } else if index == 9 {
            Some(Class::Monk)
        } else if index == 10 {
            Some(Class::Sorcerer)
        } else if index == 11 {
            Some(Class::Warlock)
        } else if index == 12 {
            Some(Class::Artificer)
        } else {
            None
        }
    }

    /// Returns the name of the class.
    pub fn name(self) -> (text: &'static str)
        ensures
            text@ == self.spec_name(),
    {
        match self {
            Class::Fighter => "Fighter",
            Class::Wizard => "Wizard",
            Class::Cleric => "Cleric",
            Class::Rogue => "Rogue",
            Class::Ranger => "Ranger",
            Class::Paladin => "Paladin",
            Class::Barbarian => "Barbarian",
            Class::Bard => "Bard",
            Class::Druid => "Druid",
            Class::Monk => "Monk",
            Class::Sorcerer => "Sorcerer",
            Class::Warlock => "Warlock",
            Class::Artificer => "Artificer",
        }
    }

    /// Returns the place of the class in the list.
    pub fn index(self) -> (index: usize)
        ensures
            index == self.spec_index(),
            Class::at(index as int) == Some(self),
    {
        match self {
            Class::Fighter => 0,
            Class::Wizard => 1,
            Class::Cleric => 2,
            Class::Rogue => 3,
            Class::Ranger => 4,
            Class::Paladin => 5,
            Class::Barbarian => 6,
            Class::Bard => 7,
            Class::Druid => 8,
            Class::Monk => 9,
            Class::Sorcerer => 10,
            Class::Warlock => 11,
            Class::Artificer => 12,
        }
    }

    /// Returns the class at place `index` of the list.
    pub fn from_index(index: usize) -> (found: Option<Class>)
        ensures
            found == Class::at(index as int),
    {
        if index == 0 {
            Some(Class::Fighter)
        } else if index == 1 {
            Some(Class::Wizard)
        } else if index == 2 {
            Some(Class::Cleric)
        } else if index == 3 {
            Some(Class::Rogue)
        } else if index == 4 {
            Some(Class::Ranger)
        } else if index == 5 {
            Some(Class::Paladin)
        } else if index == 6 {
            Some(Class::Barbarian)
        } else if index == 7 {
            Some(Class::Bard)
        } else if index == 8 {
            Some(Class::Druid)
        } else if index == 9 {
            Some(Class::Monk)
        } else if index == 10 {
            Some(Class::Sorcerer)
        } else if index == 11 {
            Some(Class::Warlock)
        } else if index == 12 {
            Some(Class::Artificer)
        } else {
            None
        }
    }

    /// Returns what a player chose: the class at the place that was picked,
    /// or the first of the list where nothing usable was picked.
    pub fn chosen(picked: Option<usize>) -> (choice: Class)
        ensures
            choice == match picked {
                Some(index) => match Class::at(index as int) {
                    Some(found) => found,
                    None => Class::Fighter,
                },
                None => Class::Fighter,
            },
    {
        match picked {
            Some(index) => match Class::from_index(index) {
                Some(found) => found,
                None => Class::Fighter,
            },
            None => Class::Fighter,
        }
    }
}

/// The backgrounds a character can come from.
#[derive(Clone, Copy, Debug, PartialEq, Eq, Structural)]
pub enum Background {
    Acolyte,
    Charlatan,
    Criminal,
    Entertainer,
    FolkHero,
    GuildArtisan,
    Hermit,
    Noble,
    Outlander,
    Sage,
    Sailor,
    Soldier,
    Urchin,
}

impl Background {
    /// The name of the background, as it is shown and written into prompts.
    pub open spec fn spec_name(self) -> Seq<char> {
        match self {
            Background::Acolyte => "Acolyte"@,
            Background::Charlatan => "Charlatan"@,
            Background::Criminal => "Criminal"@,
            Background::Entertainer => "Entertainer"@,
            Background::FolkHero => "Folk Hero"@,
            Background::GuildArtisan => "Guild Artisan"@,
            Background::Hermit => "Hermit"@,
            Background::Noble => "Noble"@,
            Background::Outlander => "Outlander"@,
            Background::Sage => "Sage"@,
            Background::Sailor => "Sailor"@,
            Background::Soldier => "Soldier"@,
            Background::Urchin => "Urchin"@,
        }
    }

    /// The place of the background in the list that a player chooses from.
    pub open spec fn spec_index(self) -> int {
        match self {
            Background::Acolyte => 0,
            Background::Charlatan => 1,
            Background::Criminal => 2,
            Background::Entertainer => 3,
            Background::FolkHero => 4,
            Background::GuildArtisan => 5,
            Background::Hermit => 6,
            Background::Noble => 7,
            Background::Outlander => 8,
            Background::Sage => 9,
            Background::Sailor => 10,
            Background::Soldier => 11,
            Background::Urchin => 12,
        }
    }

    /// The background at place `index` of the list, if there is one.
    pub open spec fn at(index: int) -> Option<Background> {
        if index == 0 {
            Some(Background::Acolyte)
        } else if index == 1 {
            Some(Background::Charlatan)
        } else if index == 2 {
            Some(Background::Criminal)
        } else if index == 3 {
            Some(Background::Entertainer)
        } else if index == 4 {
            Some(Background::FolkHero)
        } else if index == 5 {
            Some(Background::GuildArtisan)
        } else if index == 6 {
            Some(Background::Hermit)
        } else if index == 7 {
            Some(Background::Noble)
        } else if index == 8 {
            Some(Background::Outlander)
        } else if index == 9 {
            Some(Background::Sage)
        } else if index == 10 {
            Some(Background::Sailor)
        } else if index == 11 {
            Some(Background::Soldier)
        } else if index == 12 {
            Some(Background::Urchin)
        } else {
            None
        }
    }

    /// Returns the name of the background.
    pub fn name(self) -> (text: &'static str)
        ensures
            text@ == self.spec_name(),
    {
        match self {
            Background::Acolyte => "Acolyte",
            Background::Charlatan => "Charlatan",
            Background::Criminal => "Criminal",
            Background::Entertainer => "Entertainer",
            Background::FolkHero => "Folk Hero",
            Background::GuildArtisan => "Guild Artisan",
            Background::Hermit => "Hermit",
            Background::Noble => "Noble",
            Background::Outlander => "Outlander",
            Background::Sage => "Sage",
            Background::Sailor => "Sailor",
            Background::Soldier => "Soldier",
            Background::Urchin => "Urchin",
        }
    }

    /// Returns the place of the background in the list.
    pub fn index(self) -> (index: usize)
        ensures
            index == self.spec_index(),
            Background::at(index as int) == Some(self),
    {
        match self {
            Background::Acolyte => 0,
            Background::Charlatan => 1,
            Background::Criminal => 2,
            Background::Entertainer => 3,
            Background::FolkHero => 4,
            Background::GuildArtisan => 5,
            Background::Hermit => 6,
            Background::Noble => 7,
            Background::Outlander => 8,
            Background::Sage => 9,
            Background::Sailor => 10,
            Background::Soldier => 11,
            Background::Urchin => 12,
        }
    }

    /// Returns the background at place `index` of the list.
    pub fn from_index(index: usize) -> (found: Option<Background>)
        ensures
            found == Background::at(index as int),
    {
        if index == 0 {
            Some(Background::Acolyte)
        } else if index == 1 {
            Some(Background::Charlatan)
        } else if index == 2 {
            Some(Background::Criminal)
        } else if index == 3 {
            Some(Background::Entertainer)
        } else if index == 4 {
            Some(Background::FolkHero)
        } else if index == 5 {
            Some(Background::GuildArtisan)
        } else if index == 6 {
            Some(Background::Hermit)
        } else if index == 7 {
            Some(Background::Noble)
        } else if index == 8 {
            Some(Background::Outlander)
        } else if index == 9 {
            Some(Background::Sage)
        } else if index == 10 {
            Some(Background::Sailor)
        } else if index == 11 {
            Some(Background::Soldier)
        } else if index == 12 {
            Some(Background::Urchin)
        } else {
            None
        }
    }

    /// Returns what a player chose: the background at the place that was picked,
    /// or the first of the list where nothing usable was picked.
    pub fn chosen(picked: Option<usize>) -> (choice: Background)
        ensures
            choice == match picked {
                Some(index) => match Background::at(index as int) {
                    Some(found) => found,
                    None => Background::Acolyte,
                },
                None => Background::Acolyte,
            },
    {
        match picked {
            Some(index) => match Background::from_index(index) {
                Some(found) => found,
                None => Background::Acolyte,
            },
            None => Background::Acolyte,
        }
    }
}

/// The six abilities.
#[derive(Clone, Copy, Debug, PartialEq, Eq, Structural)]
pub enum Ability {
    Strength,
    Dexterity,
    Constitution,
    Intelligence,
    Wisdom,
    Charisma,
}

impl Ability {
    /// The name of the ability, as it is shown and written into prompts.
    pub open spec fn spec_name(self) -> Seq<char> {
        match self {
            Ability::Strength => "Strength"@,
            Ability::Dexterity => "Dexterity"@,
            Ability::Constitution => "Constitution"@,
            Ability::Intelligence => "Intelligence"@,
            Ability::Wisdom => "Wisdom"@,
            Ability::Charisma => "Charisma"@,
        }
    }

    /// The place of the ability in the list that a player chooses from.
    pub open spec fn spec_index(self) -> int {
        match self {
            Ability::Strength => 0,
            Ability::Dexterity => 1,
            Ability::Constitution => 2,
            Ability::Intelligence => 3,
            Ability::Wisdom => 4,
            Ability::Charisma => 5,
        }
    }

    /// The ability at place `index` of the list, if there is one.
    pub open spec fn at(index: int) -> Option<Ability> {
        if index == 0 {
            Some(Ability::Strength)
        } else if index == 1 {
            Some(Ability::Dexterity)
        } else if index == 2 {
            Some(Ability::Constitution)
        } else if index == 3 {
            Some(Ability::Intelligence)
        } else if index == 4 {
            Some(Ability::Wisdom)
        } else if index == 5 {
            Some(Ability::Charisma)
        } else {
            None
        }
    }

    /// Returns the name of the ability.
    pub fn name(self) -> (text: &'static str)
        ensures
            text@ == self.spec_name(),
    {
        match self {
            Ability::Strength => "Strength",
            Ability::Dexterity => "Dexterity",
            Ability::Constitution => "Constitution",
            Ability::Intelligence => "Intelligence",
            Ability::Wisdom => "Wisdom",
            Ability::Charisma => "Charisma",
        }
    }

    /// Returns the place of the ability in the list.
    pub fn index(self) -> (index: usize)
        ensures
            index == self.spec_index(),
            Ability::at(index as int) == Some(self),
    {
        match self {
            Ability::Strength => 0,
            Ability::Dexterity => 1,
            Ability::Constitution => 2,
            Ability::Intelligence => 3,
            Ability::Wisdom => 4,
            Ability::Charisma => 5,
        }
    }

    /// Returns the ability at place `index` of the list.
    pub fn from_index(index: usize) -> (found: Option<Ability>)
        ensures
            found == Ability::at(index as int),
    {
        if index == 0 {
            Some(Ability::Strength)
        } else if index == 1 {
            Some(Ability::Dexterity)
        } else if index == 2 {
            Some(Ability::Constitution)
        } else if index == 3 {
            Some(Ability::Intelligence)
        } else if index == 4 {
            Some(Ability::Wisdom)
        } else if index == 5 {
            Some(Ability::Charisma)
        } else {
            None
        }
    }

    /// Returns what a player chose: the ability at the place that was picked,
    /// or the first of the list where nothing usable was picked.
    pub fn chosen(picked: Option<usize>) -> (choice: Ability)
        ensures
            choice == match picked {
                Some(index) => match Ability::at(index as int) {
                    Some(found) => found,
                    None => Ability::Strength,
                },
                None => Ability::Strength,
            },
    {
        match picked {
            Some(index) => match Ability::from_index(index) {
                Some(found) => found,
                None => Ability::Strength,
            },
            None => Ability::Strength,
        }
    }
}

/// The eighteen skills.
#[derive(Clone, Copy, Debug, PartialEq, Eq, Structural)]
pub enum Skill {
    Acrobatics,
    AnimalHandling,
    Arcana,
    Athletics,
    Deception,
    History,
    Insight,
    Intimidation,
    Investigation,
    Medicine,
    Nature,
    Perception,
    Performance,
    Persuasion,
    Religion,
    SleightOfHand,
    Stealth,
    Survival,
}

impl Skill {
    /// The name of the skill, as it is shown and written into prompts.
    pub open spec fn spec_name(self) -> Seq<char> {
        match self {
            Skill::Acrobatics => "Acrobatics"@,
            Skill::AnimalHandling => "Animal Handling"@,
            Skill::Arcana => "Arcana"@,
            Skill::Athletics => "Athletics"@,
            Skill::Deception => "Deception"@,
            Skill::History => "History"@,
            Skill::Insight => "Insight"@,
            Skill::Intimidation => "Intimidation"@,
            Skill::Investigation => "Investigation"@,
            Skill::Medicine => "Medicine"@,
            Skill::Nature => "Nature"@,
            Skill::Perception => "Perception"@,
            Skill::Performance => "Performance"@,
            Skill::Persuasion => "Persuasion"@,
            Skill::Religion => "Religion"@,
            Skill::SleightOfHand => "Sleight of Hand"@,
            Skill::Stealth => "Stealth"@,
            Skill::Survival => "Survival"@,
        }
    }

    /// The place of the skill in the list that a player chooses from.
    pub open spec fn spec_index(self) -> int {
        match self {
            Skill::Acrobatics => 0,
            Skill::AnimalHandling => 1,
            Skill::Arcana => 2,
            Skill::Athletics => 3,
            Skill::Deception => 4,
            Skill::History => 5,
            Skill::Insight => 6,
            Skill::Intimidation => 7,
            Skill::Investigation => 8,
            Skill::Medicine => 9,
            Skill::Nature => 10,
            Skill::Perception => 11,
            Skill::Performance => 12,
            Skill::Persuasion => 13,
            Skill::Religion => 14,
            Skill::SleightOfHand => 15,
            Skill::Stealth => 16,
            Skill::Survival => 17,
        }
    }

    /// The skill at place `index` of the list, if there is one.
    pub open spec fn at(index: int) -> Option<Skill> {
        if index == 0 {
            Some(Skill::Acrobatics)
        } else if index == 1 {
            Some(Skill::AnimalHandling)
        } else if index == 2 {
            Some(Skill::Arcana)
        } else if index == 3 {
            Some(Skill::Athletics)
        } else if index == 4 {
            Some(Skill::Deception)
        } else if index == 5 {
            Some(Skill::History)
        } else if index == 6 {
            Some(Skill::Insight)
        } else if index == 7 {
            Some(Skill::Intimidation)
        } else if index == 8 {
            Some(Skill::Investigation)
        } else if index == 9 {
            Some(Skill::Medicine)
        } else if index == 10 {
            Some(Skill::Nature)
        } else if index == 11 {
            Some(Skill::Perception)
        } else if index == 12 {
            Some(Skill::Performance)
        } else if index == 13 {
            Some(Skill::Persuasion)
        } else if index == 14 {
            Some(Skill::Religion)
        } else if index == 15 {
            Some(Skill::SleightOfHand)
        } else if index == 16 {
            Some(Skill::Stealth)
        } else if index == 17 {
            Some(Skill::Survival)
        } else {
            None
        }
    }

    /// Returns the name of the skill.
    pub fn name(self) -> (text: &'static str)
        ensures
            text@ == self.spec_name(),
    {
        match self {
            Skill::Acrobatics => "Acrobatics",
            Skill::AnimalHandling => "Animal Handling",
            Skill::Arcana => "Arcana",
            Skill::Athletics => "Athletics",
            Skill::Deception => "Deception",
            Skill::History => "History",
            Skill::Insight => "Insight",
            Skill::Intimidation => "Intimidation",
            Skill::Investigation => "Investigation",
            Skill::Medicine => "Medicine",
            Skill::Nature => "Nature",
            Skill::Perception => "Perception",
            Skill::Performance => "Performance",
            Skill::Persuasion => "Persuasion",
            Skill::Religion => "Religion",
            Skill::SleightOfHand => "Sleight of Hand",
            Skill::Stealth => "Stealth",
            Skill::Survival => "Survival",
        }
    }

    /// Returns the place of the skill in the list.
    pub fn index(self) -> (index: usize)
        ensures
            index == self.spec_index(),
            Skill::at(index as int) == Some(self),
    {
        match self {
            Skill::Acrobatics => 0,
            Skill::AnimalHandling => 1,
            Skill::Arcana => 2,
            Skill::Athletics => 3,
            Skill::Deception => 4,
            Skill::History => 5,
            Skill::Insight => 6,
            Skill::Intimidation => 7,
            Skill::Investigation => 8,
            Skill::Medicine => 9,
            Skill::Nature => 10,
            Skill::Perception => 11,
            Skill::Performance => 12,
            Skill::Persuasion => 13,
            Skill::Religion => 14,
            Skill::SleightOfHand => 15,
            Skill::Stealth => 16,
            Skill::Survival => 17,
        }
    }

    /// Returns the skill at place `index` of the list.
    pub fn from_index(index: usize) -> (found: Option<Skill>)
        ensures
            found == Skill::at(index as int),
    {
        if index == 0 {
            Some(Skill::Acrobatics)
        } else if index == 1 {
            Some(Skill::AnimalHandling)
        } else if index == 2 {
            Some(Skill::Arcana)
        } else if index == 3 {
            Some(Skill::Athletics)
        } else if index == 4 {
            Some(Skill::Deception)
        } else if index == 5 {
            Some(Skill::History)
        } else if index == 6 {
            Some(Skill::Insight)
        } else if index == 7 {
            Some(Skill::Intimidation)
        } else if index == 8 {
            Some(Skill::Investigation)
        } else if index == 9 {
            Some(Skill::Medicine)
        } else if index == 10 {
            Some(Skill::Nature)
        } else if index == 11 {
            Some(Skill::Perception)
        } else if index == 12 {
            Some(Skill::Performance)
        } else if index == 13 {
            Some(Skill::Persuasion)
        } else if index == 14 {
            Some(Skill::Religion)
        } else if index == 15 {
            Some(Skill::SleightOfHand)
        } else if index == 16 {
            Some(Skill::Stealth)
        } else if index == 17 {
            Some(Skill::Survival)
        } else {
            None
        }
    }

    /// Returns what a player chose: the skill at the place that was picked,
    /// or the first of the list where nothing usable was picked.
    pub fn chosen(picked: Option<usize>) -> (choice: Skill)
        ensures
            choice == match picked {
                Some(index) => match Skill::at(index as int) {
                    Some(found) => found,
                    None => Skill::Acrobatics,
                },
                None => Skill::Acrobatics,
            },
    {
        match picked {
            Some(index) => match Skill::from_index(index) {
                Some(found) => found,
                None => Skill::Acrobatics,
            },
            None => Skill::Acrobatics,
        }
    }
}

/// The ways to come by the six ability scores.
#[derive(Clone, Copy, Debug, PartialEq, Eq, Structural)]
pub enum ScoreMethod {
    RollFourDropLowest,
    StandardArray,
    PointBuy,
}

impl ScoreMethod {
    /// The name of the method, as it is shown and written into prompts.
    pub open spec fn spec_name(self) -> Seq<char> {
        match self {
            ScoreMethod::RollFourDropLowest => "Roll 4d6 (drop lowest)"@,
            ScoreMethod::StandardArray => "Standard Array"@,
            ScoreMethod::PointBuy => "Point Buy"@,
        }
    }

    /// The place of the method in the list that a player chooses from.
    pub open spec fn spec_index(self) -> int {
        match self {
            ScoreMethod::RollFourDropLowest => 0,
            ScoreMethod::StandardArray => 1,
            ScoreMethod::PointBuy => 2,
        }
    }

    /// The method at place `index` of the list, if there is one.
    pub open spec fn at(index: int) -> Option<ScoreMethod> {
        if index == 0 {
            Some(ScoreMethod::RollFourDropLowest)
        } else if index == 1 {
            Some(ScoreMethod::StandardArray)
        } else if index == 2 {
            Some(ScoreMethod::PointBuy)
        } else {
            None
        }
    }

    /// Returns the name of the method.
    pub fn name(self) -> (text: &'static str)
        ensures
            text@ == self.spec_name(),
    {
        match self {
            ScoreMethod::RollFourDropLowest => "Roll 4d6 (drop lowest)",
            ScoreMethod::StandardArray => "Standard Array",
            ScoreMethod::PointBuy => "Point Buy",
        }
    }

    /// Returns the place of the method in the list.
    pub fn index(self) -> (index: usize)
        ensures
            index == self.spec_index(),
            ScoreMethod::at(index as int) == Some(self),
    {
        match self {
            ScoreMethod::RollFourDropLowest => 0,
            ScoreMethod::StandardArray => 1,
            ScoreMethod::PointBuy => 2,
        }
    }

    /// Returns the method at place `index` of the list.
    pub fn from_index(index: usize) -> (found: Option<ScoreMethod>)
        ensures
            found == ScoreMethod::at(index as int),
    {
        if index == 0 {
            Some(ScoreMethod::RollFourDropLowest)
        } else if index == 1 {
            Some(ScoreMethod::StandardArray)
        } else if index == 2 {
            Some(ScoreMethod::PointBuy)
        } else {
            None
        }
    }

    /// Returns the method that a player chose: the roll for the first place,
    /// the standard array for the second, and the point buy for every other
    /// place. Where nothing could be picked, it is the roll.
    pub fn chosen(picked: Option<usize>) -> (choice: ScoreMethod)
        ensures
            choice == match picked {
                Some(index) => if index == 0 {
                    ScoreMethod::RollFourDropLowest
                } else if index == 1 {
                    ScoreMethod::StandardArray
                } else {
                    ScoreMethod::PointBuy
                },
                None => ScoreMethod::RollFourDropLowest,
            },
    {
        match picked {
            Some(index) => if index == 0 {
                ScoreMethod::RollFourDropLowest
            } else if index == 1 {
                ScoreMethod::StandardArray
            } else {
                ScoreMethod::PointBuy
            },
            None => ScoreMethod::RollFourDropLowest,
        }
    }
}

impl Race {
    /// The race that goes by `name`, if there is one.
    pub open spec fn named(name: Seq<char>) -> Option<Race> {
        if name == "Human"@ {
            Some(Race::Human)
        } else if name == "Elf"@ {
            Some(Race::Elf)
        } else if name == "Dwarf"@ {
            Some(Race::Dwarf)
        } else if name == "Halfling"@ {
            Some(Race::Halfling)
        } else if name == "Gnome"@ {
            Some(Race::Gnome)
        } else if name == "Half-Elf"@ {
            Some(Race::HalfElf)
        } else if name == "Half-Orc"@ {
            Some(Race::HalfOrc)
        } else if name == "Tiefling"@ {
            Some(Race::Tiefling)
        } else if name == "Dragonborn"@ {
            Some(Race::Dragonborn)
        } else {
            None
        }
    }

    /// How a sheet writes the race: its name, or nothing where none was
    /// chosen yet.
    pub open spec fn spec_written(choice: Option<Race>) -> Seq<char> {
        match choice {
            Some(chosen) => chosen.spec_name(),
            None => Seq::empty(),
        }
    }

    /// What a written race says: nothing written is no race chosen yet, a
    /// name is the race that goes by it, and anything else says nothing.
    pub open spec fn spec_read(text: Seq<char>) -> Option<Option<Race>> {
        if text.len() == 0 {
            Some(None)
        } else {
            match Race::named(text) {
                Some(found) => Some(Some(found)),
                None => None,
            }
        }
    }

    /// Returns the race that goes by `name`.
    pub fn from_name(name: &str) -> (found: Option<Race>)
        ensures
            found == Race::named(name@),
    {
        if same_text(name, "Human") {
            Some(Race::Human)
        } else if same_text(name, "Elf") {
            Some(Race::Elf)
        } else if same_text(name, "Dwarf") {
            Some(Race::Dwarf)
        } else if same_text(name, "Halfling") {
            Some(Race::Halfling)
        } else if same_text(name, "Gnome") {
            Some(Race::Gnome)
        } else if same_text(name, "Half-Elf") {
            Some(Race::HalfElf)
        } else if same_text(name, "Half-Orc") {
            Some(Race::HalfOrc)
        } else if same_text(name, "Tiefling") {
            Some(Race::Tiefling)
        } else if same_text(name, "Dragonborn") {
            Some(Race::Dragonborn)
        } else {
            None
        }
    }

    /// Returns how a sheet writes the race.
    pub fn written(choice: Option<Race>) -> (text: &'static str)
        ensures
            text@ == Race::spec_written(choice),
    {
        match choice {
            Some(chosen) => chosen.name(),
            None => {
                proof {
                    reveal_strlit("");
                }
                let nothing: &'static str = "";
                assert(nothing@ =~= Seq::<char>::empty());
                nothing
            },
        }
    }

    /// Reads a written race.
    pub fn read(text: &str) -> (said: Option<Option<Race>>)
        ensures
            said == Race::spec_read(text@),
    {
        if text.is_empty() {
            Some(None)
        } else {
            match Race::from_name(text) {
                Some(found) => Some(Some(found)),
                None => None,
            }
        }
    }

    /// The name of a race is not empty, and it finds that race and no
    /// other.
    pub proof fn lemma_name_finds_value(value: Race)
        ensures
            value.spec_name().len() > 0,
            Race::named(value.spec_name()) == Some(value),
    {
        reveal_strlit("Human");
        reveal_strlit("Elf");
        reveal_strlit("Dwarf");
        reveal_strlit("Halfling");
        reveal_strlit("Gnome");
        reveal_strlit("Half-Elf");
        reveal_strlit("Half-Orc");
        reveal_strlit("Tiefling");
        reveal_strlit("Dragonborn");
        assert("Human"@.len() == 5);
        assert("Elf"@.len() == 3);
        assert("Dwarf"@.len() == 5);
        assert("Halfling"@.len() == 8);
        assert("Gnome"@.len() == 5);
        assert("Half-Elf"@.len() == 8);
        assert("Half-Orc"@.len() == 8);
        assert("Tiefling"@.len() == 8);
        assert("Dragonborn"@.len() == 10);
        assert("Human"@[0] == 'H');
        assert("Dwarf"@[0] == 'D');
        assert("Halfling"@[0] == 'H');
        assert("Halfling"@[4] == 'l');
        assert("Gnome"@[0] == 'G');
        assert("Half-Elf"@[0] == 'H');
        assert("Half-Elf"@[4] == '-');
        assert("Half-Elf"@[5] == 'E');
        assert("Half-Orc"@[0] == 'H');
        assert("Half-Orc"@[4] == '-');
        assert("Half-Orc"@[5] == 'O');
        assert("Tiefling"@[0] == 'T');
    }

    /// What a sheet writes for a race, chosen or not, reads back as what it
    /// was.
    pub proof fn lemma_written_reads_back(choice: Option<Race>)
        ensures
            Race::spec_read(Race::spec_written(choice)) == Some(choice),
    {
        match choice {
            Some(chosen) => {
                Race::lemma_name_finds_value(chosen);
            },
            None => {},
        }
    }
}

impl Class {
    /// The class that goes by `name`, if there is one.
    pub open spec fn named(name: Seq<char>) -> Option<Class> {
        if name == "Fighter"@ {
            Some(Class::Fighter)
        } else if name == "Wizard"@ {
            Some(Class::Wizard)
        } else if name == "Cleric"@ {
            Some(Class::Cleric)
        } else if name == "Rogue"@ {
            Some(Class::Rogue)
        } else if name == "Ranger"@ {
            Some(Class::Ranger)
        } else if name == "Paladin"@ {
            Some(Class::Paladin)
        } else if name == "Barbarian"@ {
            Some(Class::Barbarian)
        } else if name == "Bard"@ {
            Some(Class::Bard)
        } else if name == "Druid"@ {
            Some(Class::Druid)
        } else if name == "Monk"@ {
            Some(Class::Monk)
        } else if name == "Sorcerer"@ {
            Some(Class::Sorcerer)
        } else if name == "Warlock"@ {
            Some(Class::Warlock)
        } else if name == "Artificer"@ {
            Some(Class::Artificer)
        } else {
            None
        }
    }

    /// How a sheet writes the class: its name, or nothing where none was
    /// chosen yet.
    pub open spec fn spec_written(choice: Option<Class>) -> Seq<char> {
        match choice {
            Some(chosen) => chosen.spec_name(),
            None => Seq::empty(),
        }
    }

    /// What a written class says: nothing written is no class chosen yet, a
    /// name is the class that goes by it, and anything else says nothing.
    pub open spec fn spec_read(text: Seq<char>) -> Option<Option<Class>> {
        if text.len() == 0 {
            Some(None)
        } else {
            match Class::named(text) {
                Some(found) => Some(Some(found)),
                None => None,
            }
        }
    }

    /// Returns the class that goes by `name`.
    pub fn from_name(name: &str) -> (found: Option<Class>)
        ensures
            found == Class::named(name@),
    {
        if same_text(name, "Fighter") {
            Some(Class::Fighter)
        } else if same_text(name, "Wizard") {
            Some(Class::Wizard)
        } else if same_text(name, "Cleric") {
            Some(Class::Cleric)
        } else if same_text(name, "Rogue") {
            Some(Class::Rogue)
        } else if same_text(name, "Ranger") {
            Some(Class::Ranger)
        } else if same_text(name, "Paladin") {
            Some(Class::Paladin)
        } else if same_text(name, "Barbarian") {
            Some(Class::Barbarian)
        } else if same_text(name, "Bard") {
            Some(Class::Bard)
        } else if same_text(name, "Druid") {
            Some(Class::Druid)
        } else if same_text(name, "Monk") {
            Some(Class::Monk)
        } else if same_text(name, "Sorcerer") {
            Some(Class::Sorcerer)
        } else if same_text(name, "Warlock") {
            Some(Class::Warlock)
        } else if same_text(name, "Artificer") {
            Some(Class::Artificer)
        } else {
            None
        }
    }

    /// Returns how a sheet writes the class.
    pub fn written(choice: Option<Class>) -> (text: &'static str)
        ensures
            text@ == Class::spec_written(choice),
    {
        match choice {
            Some(chosen) => chosen.name(),
            None => {
                proof {
                    reveal_strlit("");
                }
                let nothing: &'static str = "";
                assert(nothing@ =~= Seq::<char>::empty());
                nothing
            },
        }
    }

    /// Reads a written class.
    pub fn read(text: &str) -> (said: Option<Option<Class>>)
        ensures
            said == Class::spec_read(text@),
    {
        if text.is_empty() {
            Some(None)
        } else {
            match Class::from_name(text) {
                Some(found) => Some(Some(found)),
                None => None,
            }
        }
    }

    /// The name of a class is not empty, and it finds that class and no
    /// other.
    pub proof fn lemma_name_finds_value(value: Class)
        ensures
            value.spec_name().len() > 0,
            Class::named(value.spec_name()) == Some(value),
    {
        reveal_strlit("Fighter");
        reveal_strlit("Wizard");
        reveal_strlit("Cleric");
        reveal_strlit("Rogue");
        reveal_strlit("Ranger");
        reveal_strlit("Paladin");
        reveal_strlit("Barbarian");
        reveal_strlit("Bard");
        reveal_strlit("Druid");
        reveal_strlit("Monk");
        reveal_strlit("Sorcerer");
        reveal_strlit("Warlock");
        reveal_strlit("Artificer");
        assert("Fighter"@.len() == 7);
        assert("Wizard"@.len() == 6);
        assert("Cleric"@.len() == 6);
        assert("Rogue"@.len() == 5);
        assert("Ranger"@.len() == 6);
        assert("Paladin"@.len() == 7);
        assert("Barbarian"@.len() == 9);
        assert("Bard"@.len() == 4);
        assert("Druid"@.len() == 5);
        assert("Monk"@.len() == 4);
        assert("Sorcerer"@.len() == 8);
        assert("Warlock"@.len() == 7);
        assert("Artificer"@.len() == 9);
        assert("Fighter"@[0] == 'F');
        assert("Wizard"@[0] == 'W');
        assert("Cleric"@[0] == 'C');
        assert("Rogue"@[0] == 'R');
        assert("Ranger"@[0] == 'R');
        assert("Paladin"@[0] == 'P');
        assert("Barbarian"@[0] == 'B');
        assert("Bard"@[0] == 'B');
        assert("Druid"@[0] == 'D');
        assert("Monk"@[0] == 'M');
        assert("Warlock"@[0] == 'W');
        assert("Artificer"@[0] == 'A');
    }

    /// What a sheet writes for a class, chosen or not, reads back as what it
    /// was.
    pub proof fn lemma_written_reads_back(choice: Option<Class>)
        ensures
            Class::spec_read(Class::spec_written(choice)) == Some(choice),
    {
        match choice {
            Some(chosen) => {
                Class::lemma_name_finds_value(chosen);
            },
            None => {},
        }
    }
}

impl Background {
    /// The background that goes by `name`, if there is one.
    pub open spec fn named(name: Seq<char>) -> Option<Background> {
        if name == "Acolyte"@ {
            Some(Background::Acolyte)
        } else if name == "Charlatan"@ {
            Some(Background::Charlatan)
        } else if name == "Criminal"@ {
            Some(Background::Criminal)
        } else if name == "Entertainer"@ {
            Some(Background::Entertainer)
        } else if name == "Folk Hero"@ {
            Some(Background::FolkHero)
        } else if name == "Guild Artisan"@ {
            Some(Background::GuildArtisan)
        } else if name == "Hermit"@ {
            Some(Background::Hermit)
        } else if name == "Noble"@ {
            Some(Background::Noble)
        } else if name == "Outlander"@ {
            Some(Background::Outlander)
        } else if name == "Sage"@ {
            Some(Background::Sage)
        } else if name == "Sailor"@ {
            Some(Background::Sailor)
        } else if name == "Soldier"@ {
            Some(Background::Soldier)
        } else if name == "Urchin"@ {
            Some(Background::Urchin)
        } else {
            None
        }
    }

    /// How a sheet writes the background: its name, or nothing where none was
    /// chosen yet.
    pub open spec fn spec_written(choice: Option<Background>) -> Seq<char> {
        match choice {
            Some(chosen) => chosen.spec_name(),
            None => Seq::empty(),
        }
    }

    /// What a written background says: nothing written is no background chosen yet, a
    /// name is the background that goes by it, and anything else says nothing.
    pub open spec fn spec_read(text: Seq<char>) -> Option<Option<Background>> {
        if text.len() == 0 {
            Some(None)
        } else {
            match Background::named(text) {
                Some(found) => Some(Some(found)),
                None => None,
            }
        }
    }

    /// Returns the background that goes by `name`.
    pub fn from_name(name: &str) -> (found: Option<Background>)
        ensures
            found == Background::named(name@),
    {
        if same_text(name, "Acolyte") {
            Some(Background::Acolyte)
        } else if same_text(name, "Charlatan") {
            Some(Background::Charlatan)
        } else if same_text(name, "Criminal") {
            Some(Background::Criminal)
        } else if same_text(name, "Entertainer") {
            Some(Background::Entertainer)
        } else if same_text(name, "Folk Hero") {
            Some(Background::FolkHero)
        } else if same_text(name, "Guild Artisan") {
            Some(Background::GuildArtisan)
        } else if same_text(name, "Hermit") {
            Some(Background::Hermit)
        } else if same_text(name, "Noble") {
            Some(Background::Noble)
        } else if same_text(name, "Outlander") {
            Some(Background::Outlander)
        } else if same_text(name, "Sage") {
            Some(Background::Sage)
        } else if same_text(name, "Sailor") {
            Some(Background::Sailor)
        } else if same_text(name, "Soldier") {
            Some(Background::Soldier)
        } else if same_text(name, "Urchin") {
            Some(Background::Urchin)
        } else {
            None
        }
    }

    /// Returns how a sheet writes the background.
    pub fn written(choice: Option<Background>) -> (text: &'static str)
        ensures
            text@ == Background::spec_written(choice),
    {
        match choice {
            Some(chosen) => chosen.name(),
            None => {
                proof {
                    reveal_strlit("");
                }
                let nothing: &'static str = "";
                assert(nothing@ =~= Seq::<char>::empty());
                nothing
            },
        }
    }

    /// Reads a written background.
    pub fn read(text: &str) -> (said: Option<Option<Background>>)
        ensures
            said == Background::spec_read(text@),
    {
        if text.is_empty() {
            Some(None)
        } else {
            match Background::from_name(text) {
                Some(found) => Some(Some(found)),
                None => None,
            }
        }
    }

    /// The name of a background is not empty, and it finds that background and no
    /// other.
    pub proof fn lemma_name_finds_value(value: Background)
        ensures
            value.spec_name().len() > 0,
            Background::named(value.spec_name()) == Some(value),
    {
        reveal_strlit("Acolyte");
        reveal_strlit("Charlatan");
        reveal_strlit("Criminal");
        reveal_strlit("Entertainer");
        reveal_strlit("Folk Hero");
        reveal_strlit("Guild Artisan");
        reveal_strlit("Hermit");
        reveal_strlit("Noble");
        reveal_strlit("Outlander");
        reveal_strlit("Sage");
        reveal_strlit("Sailor");
        reveal_strlit("Soldier");
        reveal_strlit("Urchin");
        assert("Acolyte"@.len() == 7);
        assert("Charlatan"@.len() == 9);
        assert("Criminal"@.len() == 8);
        assert("Entertainer"@.len() == 11);
        assert("Folk Hero"@.len() == 9);
        assert("Guild Artisan"@.len() == 13);
        assert("Hermit"@.len() == 6);
        assert("Noble"@.len() == 5);
        assert("Outlander"@.len() == 9);
        assert("Sage"@.len() == 4);
        assert("Sailor"@.len() == 6);
        assert("Soldier"@.len() == 7);
        assert("Urchin"@.len() == 6);
        assert("Acolyte"@[0] == 'A');
        assert("Charlatan"@[0] == 'C');
        assert("Folk Hero"@[0] == 'F');
        assert("Hermit"@[0] == 'H');
        assert("Outlander"@[0] == 'O');
        assert("Sailor"@[0] == 'S');
        assert("Soldier"@[0] == 'S');
        assert("Urchin"@[0] == 'U');
    }

    /// What a sheet writes for a background, chosen or not, reads back as what it
    /// was.
    pub proof fn lemma_written_reads_back(choice: Option<Background>)
        ensures
            Background::spec_read(Background::spec_written(choice)) == Some(choice),
    {
        match choice {
            Some(chosen) => {
                Background::lemma_name_finds_value(chosen);
            },
            None => {},
        }
    }
}

impl Skill {
    /// The ability that a check on the skill draws on.
    pub open spec fn spec_ability(self) -> Ability {
        match self {
            Skill::Athletics => Ability::Strength,
            Skill::Acrobatics | Skill::SleightOfHand | Skill::Stealth => Ability::Dexterity,
            Skill::Arcana | Skill::History | Skill::Investigation | Skill::Nature | Skill::Religion => Ability::Intelligence,
            Skill::AnimalHandling | Skill::Insight | Skill::Medicine | Skill::Perception | Skill::Survival => Ability::Wisdom,
            Skill::Deception | Skill::Intimidation | Skill::Performance | Skill::Persuasion => Ability::Charisma,
        }
    }

    /// Returns the ability that a check on the skill draws on.
    pub fn ability(self) -> (ability: Ability)
        ensures
            ability == self.spec_ability(),
    {
        match self {
            Skill::Athletics => Ability::Strength,
            Skill::Acrobatics | Skill::SleightOfHand | Skill::Stealth => Ability::Dexterity,
            Skill::Arcana | Skill::History | Skill::Investigation | Skill::Nature | Skill::Religion => Ability::Intelligence,
            Skill::AnimalHandling | Skill::Insight | Skill::Medicine | Skill::Perception | Skill::Survival => Ability::Wisdom,
            Skill::Deception | Skill::Intimidation | Skill::Performance | Skill::Persuasion => Ability::Charisma,
        }
    }
}

impl Class {
    /// The hit points that the class starts from, before the constitution
    /// modifier is added.
    pub open spec fn spec_base_hit_points(self) -> int {
        match self {
            Class::Barbarian => 12,
            Class::Fighter | Class::Paladin | Class::Ranger => 10,
            Class::Sorcerer | Class::Wizard => 6,
            _ => 8,
        }
    }

    /// The number of skills that the class lets a new character choose.
    pub open spec fn spec_skill_picks(self) -> int {
        match self {
            Class::Rogue => 4,
            Class::Bard | Class::Ranger => 3,
            _ => 2,
        }
    }

    /// The skills that the class offers, in the order in which they are
    /// offered.
    pub open spec fn spec_skills(self) -> Seq<Skill> {
        match self {
            Class::Barbarian => seq![
                Skill::AnimalHandling,
                Skill::Athletics,
                Skill::Intimidation,
                Skill::Nature,
                Skill::Perception,
                Skill::Survival,
            ],
            Class::Bard => seq![
                Skill::Acrobatics,
                Skill::AnimalHandling,
                Skill::Arcana,
                Skill::Athletics,
                Skill::Deception,
                Skill::History,
                Skill::Insight,
                Skill::Intimidation,
                Skill::Investigation,
                Skill::Medicine,
                Skill::Nature,
                Skill::Perception,
                Skill::Performance,
                Skill::Persuasion,
                Skill::Religion,
                Skill::SleightOfHand,
                Skill::Stealth,
                Skill::Survival,
            ],
            Class::Cleric => seq![
                Skill::History,
                Skill::Insight,
                Skill::Medicine,
                Skill::Persuasion,
                Skill::Religion,
            ],
            Class::Druid => seq![
                Skill::Arcana,
                Skill::AnimalHandling,
                Skill::Insight,
                Skill::Medicine,
                Skill::Nature,
                Skill::Perception,
                Skill::Religion,
                Skill::Survival,
            ],
            Class::Fighter => seq![
                Skill::Acrobatics,
                Skill::AnimalHandling,
                Skill::Athletics,
                Skill::History,
                Skill::Insight,
                Skill::Intimidation,
                Skill::Perception,
                Skill::Survival,
            ],
            Class::Monk => seq![
                Skill::Acrobatics,
                Skill::Athletics,
                Skill::History,
                Skill::Insight,
                Skill::Religion,
                Skill::Stealth,
            ],
            Class::Paladin => seq![
                Skill::Athletics,
                Skill::Insight,
                Skill::Intimidation,
                Skill::Medicine,
                Skill::Persuasion,
                Skill::Religion,
            ],
            Class::Ranger => seq![
                Skill::AnimalHandling,
                Skill::Athletics,
                Skill::Insight,
                Skill::Investigation,
                Skill::Nature,
                Skill::Perception,
                Skill::Stealth,
                Skill::Survival,
            ],
            Class::Rogue => seq![
                Skill::Acrobatics,
                Skill::Athletics,
                Skill::Deception,
                Skill::Insight,
                Skill::Intimidation,
                Skill::Investigation,
                Skill::Perception,
                Skill::Performance,
                Skill::Persuasion,
                Skill::SleightOfHand,
                Skill::Stealth,
            ],
            Class::Sorcerer => seq![
                Skill::Arcana,
                Skill::Deception,
                Skill::Insight,
                Skill::Intimidation,
                Skill::Persuasion,
                Skill::Religion,
            ],
            Class::Warlock => seq![
                Skill::Arcana,
                Skill::Deception,
                Skill::History,
                Skill::Intimidation,
                Skill::Investigation,
                Skill::Nature,
                Skill::Religion,
            ],
            Class::Wizard => seq![
                Skill::Arcana,
                Skill::History,
                Skill::Insight,
                Skill::Investigation,
                Skill::Medicine,
                Skill::Religion,
            ],
            Class::Artificer => seq![
                Skill::Arcana,
                Skill::History,
                Skill::Investigation,
                Skill::Nature,
                Skill::Religion,
            ],
        }
    }

    /// The gold that a new character of the class owns.
    pub open spec fn spec_starting_gold(self) -> int {
        match self {
            Class::Fighter => 10,
            Class::Wizard => 25,
            Class::Cleric => 15,
            Class::Rogue => 30,
            _ => 20,
        }
    }

    /// The equipment that the class hands to a new character, before the
    /// items that every character gets.
    pub open spec fn spec_equipment(self) -> Seq<Seq<char>> {
        match self {
            Class::Fighter => seq!["Longsword"@, "Shield"@, "Chain mail"@, "Dungeoneer's pack"@],
            Class::Wizard => seq!["Spellbook"@, "Staff"@, "Component pouch"@, "Scholar's pack"@],
            Class::Cleric => seq!["Mace"@, "Scale mail"@, "Shield"@, "Holy symbol"@],
            Class::Rogue => seq!["Shortsword"@, "Shortbow with 20 arrows"@, "Leather armor"@, "Thieves' tools"@],
            _ => seq!["Adventurer's pack"@, "Simple weapon"@],
        }
    }

    /// Returns the hit points that the class starts from.
    pub fn base_hit_points(self) -> (points: u32)
        ensures
            points == self.spec_base_hit_points(),
    {
        match self {
            Class::Barbarian => 12,
            Class::Fighter | Class::Paladin | Class::Ranger => 10,
            Class::Sorcerer | Class::Wizard => 6,
            _ => 8,
        }
    }

    /// Returns the number of skills that the class lets a new character
    /// choose.
    pub fn skill_picks(self) -> (picks: usize)
        ensures
            picks == self.spec_skill_picks(),
    {
        match self {
            Class::Rogue => 4,
            Class::Bard | Class::Ranger => 3,
            _ => 2,
        }
    }

    /// Returns the skills that the class offers.
    pub fn skills(self) -> (offered: Vec<Skill>)
        ensures
            offered@ == self.spec_skills(),
    {
        match self {
            Class::Barbarian => vec![
                Skill::AnimalHandling,
                Skill::Athletics,
                Skill::Intimidation,
                Skill::Nature,
                Skill::Perception,
                Skill::Survival,
            ],
            Class::Bard => vec![
                Skill::Acrobatics,
                Skill::AnimalHandling,
                Skill::Arcana,
                Skill::Athletics,
                Skill::Deception,
                Skill::History,
                Skill::Insight,
                Skill::Intimidation,
                Skill::Investigation,
                Skill::Medicine,
                Skill::Nature,
                Skill::Perception,
                Skill::Performance,
                Skill::Persuasion,
                Skill::Religion,
                Skill::SleightOfHand,
                Skill::Stealth,
                Skill::Survival,
            ],
            Class::Cleric => vec![
                Skill::History,
                Skill::Insight,
                Skill::Medicine,
                Skill::Persuasion,
                Skill::Religion,
            ],
            Class::Druid => vec![
                Skill::Arcana,
                Skill::AnimalHandling,
                Skill::Insight,
                Skill::Medicine,
                Skill::Nature,
                Skill::Perception,
                Skill::Religion,
                Skill::Survival,
            ],
            Class::Fighter => vec![
                Skill::Acrobatics,
                Skill::AnimalHandling,
                Skill::Athletics,
                Skill::History,
                Skill::Insight,
                Skill::Intimidation,
                Skill::Perception,
                Skill::Survival,
            ],
            Class::Monk => vec![
                Skill::Acrobatics,
                Skill::Athletics,
                Skill::History,
                Skill::Insight,
                Skill::Religion,
                Skill::Stealth,
            ],
            Class::Paladin => vec![
                Skill::Athletics,
                Skill::Insight,
                Skill::Intimidation,
                Skill::Medicine,
                Skill::Persuasion,
                Skill::Religion,
            ],
            Class::Ranger => vec![
                Skill::AnimalHandling,
                Skill::Athletics,
                Skill::Insight,
                Skill::Investigation,
                Skill::Nature,
                Skill::Perception,
                Skill::Stealth,
                Skill::Survival,
            ],
            Class::Rogue => vec![
                Skill::Acrobatics,
                Skill::Athletics,
                Skill::Deception,
                Skill::Insight,
                Skill::Intimidation,
                Skill::Investigation,
                Skill::Perception,
                Skill::Performance,
                Skill::Persuasion,
                Skill::SleightOfHand,
                Skill::Stealth,
            ],
            Class::Sorcerer => vec![
                Skill::Arcana,
                Skill::Deception,
                Skill::Insight,
                Skill::Intimidation,
                Skill::Persuasion,
                Skill::Religion,
            ],
            Class::Warlock => vec![
                Skill::Arcana,
                Skill::Deception,
                Skill::History,
                Skill::Intimidation,
                Skill::Investigation,
                Skill::Nature,
                Skill::Religion,
            ],
            Class::Wizard => vec![
                Skill::Arcana,
                Skill::History,
                Skill::Insight,
                Skill::Investigation,
                Skill::Medicine,
                Skill::Religion,
            ],
            Class::Artificer => vec![
                Skill::Arcana,
                Skill::History,
                Skill::Investigation,
                Skill::Nature,
                Skill::Religion,
            ],
        }
    }

    /// Returns how many skills a player of the class can select: the number
    /// that the class lets a character choose, but no more than it offers.
    pub fn max_selectable(self) -> (count: usize)
        ensures
            count == if self.spec_skill_picks() <= self.spec_skills().len() {
                self.spec_skill_picks()
            } else {
                self.spec_skills().len() as int
            },
    {
        let picks: usize = self.skill_picks();
        let offered: usize = self.skills().len();
        if picks <= offered {
            picks
        } else {
            offered
        }
    }

    /// Returns the gold that a new character of the class owns.
    pub fn starting_gold(self) -> (gold: u32)
        ensures
            gold == self.spec_starting_gold(),
    {
        match self {
            Class::Fighter => 10,
            Class::Wizard => 25,
            Class::Cleric => 15,
            Class::Rogue => 30,
            _ => 20,
        }
    }
}

} // verus!
