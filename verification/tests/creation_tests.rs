use dnd_adventure::character::{AbilityScores, Character, SkillSet};
use dnd_adventure::creation::{
    create_character, drop_lowest, generate_scores, name_or_fallback, roll_ability_score, sorted,
    starting_armor_class, starting_hit_points, starting_inventory, train_picked, ScoreAssignment,
};
use dnd_adventure::roster::{Ability, Background, Class, Race, ScoreMethod, Skill};

fn scores(values: [u32; 6]) -> AbilityScores {
    AbilityScores {
        strength: values[0],
        dexterity: values[1],
        constitution: values[2],
        intelligence: values[3],
        wisdom: values[4],
        charisma: values[5],
    }
}

fn all_skills() -> Vec<Skill> {
    (0..18).map(|index| Skill::from_index(index).unwrap()).collect()
}

fn trained(skills: &SkillSet) -> Vec<Skill> {
    all_skills().into_iter().filter(|skill| skills.has(*skill)).collect()
}

#[test]
fn blank_character_is_a_level_one_nobody() {
    let blank = Character::default();
    assert_eq!(blank.name, "");
    assert_eq!(blank.race, None);
    assert_eq!(blank.class, None);
    assert_eq!(blank.background, None);
    assert_eq!(blank.level, 1);
    assert_eq!(blank.scores(), scores([10, 10, 10, 10, 10, 10]));
    assert_eq!((blank.hit_points, blank.max_hit_points, blank.armor_class), (10, 10, 10));
    assert!(blank.inventory.is_empty());
    assert_eq!((blank.gold, blank.experience), (0, 0));
    assert!(trained(&blank.skills).is_empty());
}

#[test]
fn sorting_puts_values_in_ascending_order() {
    assert_eq!(sorted(&vec![]), Vec::<u32>::new());
    assert_eq!(sorted(&vec![5]), vec![5]);
    assert_eq!(sorted(&vec![4, 1, 6, 1]), vec![1, 1, 4, 6]);
    assert_eq!(sorted(&vec![6, 5, 4, 3, 2, 1]), vec![1, 2, 3, 4, 5, 6]);
    assert_eq!(sorted(&vec![2, 2, 2]), vec![2, 2, 2]);
}

#[test]
fn lowest_die_is_dropped_and_the_rest_counted() {
    let roll = drop_lowest(&vec![4, 1, 6, 3]);
    assert_eq!(roll.kept, vec![3, 4, 6]);
    assert_eq!(roll.score, 13);
    let roll = drop_lowest(&vec![2, 2, 2, 2]);
    assert_eq!(roll.kept, vec![2, 2, 2]);
    assert_eq!(roll.score, 6);
    let roll = drop_lowest(&vec![5]);
    assert_eq!(roll.kept, Vec::<u32>::new());
    assert_eq!(roll.score, 0);
}

#[test]
fn rolled_scores_lie_between_three_and_eighteen() {
    for _ in 0..200 {
        let roll = roll_ability_score();
        assert_eq!(roll.kept.len(), 3);
        assert!(roll.kept.iter().all(|face| 1 <= *face && *face <= 6));
        assert!(roll.kept[0] <= roll.kept[1] && roll.kept[1] <= roll.kept[2]);
        assert_eq!(roll.score, roll.kept.iter().sum::<u32>());
        assert!(3 <= roll.score && roll.score <= 18);
    }
}

#[test]
fn standard_array_and_point_buy_are_fixed() {
    let pool = generate_scores(ScoreMethod::StandardArray);
    assert_eq!(pool.scores, vec![15, 14, 13, 12, 10, 8]);
    assert!(pool.rolls.is_empty());
    let pool = generate_scores(ScoreMethod::PointBuy);
    assert_eq!(pool.scores, vec![13, 13, 13, 12, 12, 8]);
    assert!(pool.rolls.is_empty());
}

#[test]
fn rolling_gives_six_scores_with_their_rolls() {
    let pool = generate_scores(ScoreMethod::RollFourDropLowest);
    assert_eq!(pool.scores.len(), 6);
    assert_eq!(pool.rolls.len(), 6);
    for place in 0..6 {
        assert_eq!(pool.scores[place], pool.rolls[place].score);
        assert!(3 <= pool.scores[place] && pool.scores[place] <= 18);
    }
}

#[test]
fn scores_go_to_the_abilities_in_order() {
    let mut assignment = ScoreAssignment::new(vec![15, 14, 13, 12, 10, 8]);
    assert_eq!(assignment.assign(5), Some(8));
    assert_eq!(assignment.available, vec![15, 14, 13, 12, 10]);
    assert_eq!(assignment.assign(0), Some(15));
    assert_eq!(assignment.assign(0), Some(14));
    assert_eq!(assignment.assign(2), Some(10));
    assert_eq!(assignment.assign(1), Some(12));
    assert_eq!(assignment.assign(0), Some(13));
    assert!(assignment.available.is_empty());
    assert_eq!(assignment.finish(), scores([8, 15, 14, 10, 12, 13]));
}

#[test]
fn a_score_that_is_not_there_cannot_be_assigned() {
    let mut assignment = ScoreAssignment::new(vec![15, 14]);
    assert_eq!(assignment.assign(2), None);
    assert_eq!(assignment.available, vec![15, 14]);
    assert!(assignment.assigned.is_empty());
    assert_eq!(assignment.assign(1), Some(14));
    assert_eq!(assignment.assign(1), None);
    assert_eq!(assignment.assigned, vec![14]);
}

#[test]
fn abilities_without_a_score_get_ten() {
    let mut assignment = ScoreAssignment::new(vec![16, 9]);
    assignment.assign(0);
    assignment.assign(0);
    assert_eq!(assignment.finish(), scores([16, 9, 10, 10, 10, 10]));
    assert_eq!(ScoreAssignment::new(vec![]).finish(), scores([10, 10, 10, 10, 10, 10]));
}

#[test]
fn scores_are_found_by_ability() {
    let held = scores([1, 2, 3, 4, 5, 6]);
    assert_eq!(held.get(Ability::Strength), 1);
    assert_eq!(held.get(Ability::Dexterity), 2);
    assert_eq!(held.get(Ability::Constitution), 3);
    assert_eq!(held.get(Ability::Intelligence), 4);
    assert_eq!(held.get(Ability::Wisdom), 5);
    assert_eq!(held.get(Ability::Charisma), 6);
}

#[test]
fn hit_points_start_from_the_class() {
    assert_eq!(starting_hit_points(Class::Barbarian, 10), 12);
    assert_eq!(starting_hit_points(Class::Fighter, 14), 12);
    assert_eq!(starting_hit_points(Class::Paladin, 10), 10);
    assert_eq!(starting_hit_points(Class::Ranger, 12), 11);
    assert_eq!(starting_hit_points(Class::Cleric, 10), 8);
    assert_eq!(starting_hit_points(Class::Bard, 16), 11);
    assert_eq!(starting_hit_points(Class::Wizard, 8), 5);
    assert_eq!(starting_hit_points(Class::Sorcerer, 15), 8);
    assert_eq!(starting_hit_points(Class::Artificer, 10), 8);
}

#[test]
fn hit_points_never_fall_below_one() {
    assert_eq!(starting_hit_points(Class::Wizard, 0), 1);
    assert_eq!(starting_hit_points(Class::Wizard, 1), 1);
    assert_eq!(starting_hit_points(Class::Wizard, 3), 2);
    assert_eq!(starting_hit_points(Class::Wizard, 7), 4);
}

#[test]
fn armor_comes_with_the_class() {
    assert_eq!(starting_armor_class(Class::Fighter, 3), 16);
    assert_eq!(starting_armor_class(Class::Fighter, 20), 16);
    assert_eq!(starting_armor_class(Class::Cleric, 10), 14);
    assert_eq!(starting_armor_class(Class::Cleric, 14), 16);
    assert_eq!(starting_armor_class(Class::Cleric, 20), 16);
    assert_eq!(starting_armor_class(Class::Cleric, 8), 13);
    assert_eq!(starting_armor_class(Class::Rogue, 16), 14);
    assert_eq!(starting_armor_class(Class::Rogue, 7), 9);
    assert_eq!(starting_armor_class(Class::Wizard, 14), 12);
    assert_eq!(starting_armor_class(Class::Monk, 9), 9);
    assert_eq!(starting_armor_class(Class::Bard, 0), 5);
}

#[test]
fn picks_train_the_skills_they_point_at() {
    let mut skills = SkillSet::none();
    let offered = Class::Rogue.skills();
    train_picked(&mut skills, &offered, &vec![0, 10, 3, 10]);
    assert_eq!(trained(&skills), vec![Skill::Acrobatics, Skill::Insight, Skill::Stealth]);
}

#[test]
fn picks_beyond_the_offer_train_nothing() {
    let mut skills = SkillSet::none();
    skills.train(Skill::Arcana);
    let offered = Class::Cleric.skills();
    train_picked(&mut skills, &offered, &vec![5, 99, usize::MAX]);
    assert_eq!(trained(&skills), vec![Skill::Arcana]);
    train_picked(&mut skills, &offered, &vec![]);
    assert_eq!(trained(&skills), vec![Skill::Arcana]);
}

#[test]
fn every_class_packs_its_equipment_and_the_common_items() {
    let common = ["Backpack", "Bedroll", "Rations (5 days)", "Waterskin", "Torch (3)"];
    let fighter = ["Longsword", "Shield", "Chain mail", "Dungeoneer's pack"];
    let wizard = ["Spellbook", "Staff", "Component pouch", "Scholar's pack"];
    let cleric = ["Mace", "Scale mail", "Shield", "Holy symbol"];
    let rogue = ["Shortsword", "Shortbow with 20 arrows", "Leather armor", "Thieves' tools"];
    let other = ["Adventurer's pack", "Simple weapon"];
    for index in 0..13 {
        let class = Class::from_index(index).unwrap();
        let own: &[&str] = match class {
            Class::Fighter => &fighter,
            Class::Wizard => &wizard,
            Class::Cleric => &cleric,
            Class::Rogue => &rogue,
            _ => &other,
        };
        let mut expected: Vec<String> = own.iter().map(|item| item.to_string()).collect();
        expected.extend(common.iter().map(|item| item.to_string()));
        assert_eq!(starting_inventory(class), expected);
    }
}

#[test]
fn a_name_that_could_not_be_read_becomes_adventurer() {
    assert_eq!(name_or_fallback(None), "Adventurer");
    assert_eq!(name_or_fallback(Some("Mira".to_string())), "Mira");
    assert_eq!(name_or_fallback(Some(String::new())), "");
}

#[test]
fn a_fighter_is_built_with_chain_mail() {
    let built = create_character(
        "Brakka".to_string(),
        Race::HalfOrc,
        Class::Fighter,
        Background::Soldier,
        scores([15, 12, 14, 8, 10, 13]),
        &vec![2, 6],
    );
    assert_eq!(built.name, "Brakka");
    assert_eq!(built.race, Some(Race::HalfOrc));
    assert_eq!(built.class, Some(Class::Fighter));
    assert_eq!(built.background, Some(Background::Soldier));
    assert_eq!(built.level, 1);
    assert_eq!(built.scores(), scores([15, 12, 14, 8, 10, 13]));
    assert_eq!(built.hit_points, 12);
    assert_eq!(built.max_hit_points, 12);
    assert_eq!(built.armor_class, 16);
    assert_eq!(built.gold, 10);
    assert_eq!(built.experience, 0);
    assert_eq!(trained(&built.skills), vec![Skill::Athletics, Skill::Perception]);
    assert_eq!(built.inventory.len(), 9);
    assert_eq!(built.inventory[0], "Longsword");
    assert_eq!(built.inventory[8], "Torch (3)");
}

#[test]
fn a_frail_wizard_still_has_a_hit_point() {
    let built = create_character(
        "Pim".to_string(),
        Race::Gnome,
        Class::Wizard,
        Background::Sage,
        scores([8, 7, 3, 15, 13, 12]),
        &vec![],
    );
    assert_eq!(built.hit_points, 2);
    assert_eq!(built.max_hit_points, 2);
    assert_eq!(built.armor_class, 8);
    assert_eq!(built.gold, 25);
    assert!(trained(&built.skills).is_empty());
}

#[test]
fn gold_depends_on_the_class() {
    assert_eq!(Class::Fighter.starting_gold(), 10);
    assert_eq!(Class::Wizard.starting_gold(), 25);
    assert_eq!(Class::Cleric.starting_gold(), 15);
    assert_eq!(Class::Rogue.starting_gold(), 30);
    assert_eq!(Class::Bard.starting_gold(), 20);
    assert_eq!(Class::Artificer.starting_gold(), 20);
}

#[test]
fn classes_offer_their_skills() {
    assert_eq!(Class::Bard.skills(), all_skills());
    assert_eq!(
        Class::Cleric.skills(),
        vec![Skill::History, Skill::Insight, Skill::Medicine, Skill::Persuasion, Skill::Religion]
    );
    assert_eq!(
        Class::Artificer.skills(),
        vec![Skill::Arcana, Skill::History, Skill::Investigation, Skill::Nature, Skill::Religion]
    );
    assert_eq!(Class::Druid.skills()[0], Skill::Arcana);
    assert_eq!(Class::Druid.skills()[1], Skill::AnimalHandling);
    assert_eq!(Class::Rogue.skills().len(), 11);
}

#[test]
fn classes_let_choose_two_to_four_skills() {
    assert_eq!(Class::Rogue.skill_picks(), 4);
    assert_eq!(Class::Bard.skill_picks(), 3);
    assert_eq!(Class::Ranger.skill_picks(), 3);
    assert_eq!(Class::Wizard.skill_picks(), 2);
    assert_eq!(Class::Rogue.max_selectable(), 4);
    assert_eq!(Class::Cleric.max_selectable(), 2);
}

#[test]
fn names_are_written_as_on_the_sheet() {
    assert_eq!(Race::HalfElf.name(), "Half-Elf");
    assert_eq!(Race::Dragonborn.name(), "Dragonborn");
    assert_eq!(Class::Artificer.name(), "Artificer");
    assert_eq!(Background::FolkHero.name(), "Folk Hero");
    assert_eq!(Background::GuildArtisan.name(), "Guild Artisan");
    assert_eq!(Skill::SleightOfHand.name(), "Sleight of Hand");
    assert_eq!(Skill::AnimalHandling.name(), "Animal Handling");
    assert_eq!(Ability::Constitution.name(), "Constitution");
    assert_eq!(ScoreMethod::RollFourDropLowest.name(), "Roll 4d6 (drop lowest)");
}

#[test]
fn lists_are_in_the_order_of_the_menus() {
    assert_eq!(Race::from_index(0), Some(Race::Human));
    assert_eq!(Race::from_index(8), Some(Race::Dragonborn));
    assert_eq!(Race::from_index(9), None);
    assert_eq!(Class::from_index(12), Some(Class::Artificer));
    assert_eq!(Class::from_index(13), None);
    assert_eq!(Background::from_index(12), Some(Background::Urchin));
    assert_eq!(Skill::from_index(17), Some(Skill::Survival));
    assert_eq!(Skill::from_index(18), None);
    assert_eq!(ScoreMethod::from_index(2), Some(ScoreMethod::PointBuy));
    for index in 0..18 {
        assert_eq!(Skill::from_index(index).unwrap().index(), index);
    }
}

#[test]
fn a_pick_that_failed_is_the_first_of_the_list() {
    assert_eq!(Race::chosen(None), Race::Human);
    assert_eq!(Race::chosen(Some(3)), Race::Halfling);
    assert_eq!(Race::chosen(Some(40)), Race::Human);
    assert_eq!(Class::chosen(None), Class::Fighter);
    assert_eq!(Class::chosen(Some(7)), Class::Bard);
    assert_eq!(Background::chosen(None), Background::Acolyte);
    assert_eq!(ScoreMethod::chosen(None), ScoreMethod::RollFourDropLowest);
    assert_eq!(ScoreMethod::chosen(Some(1)), ScoreMethod::StandardArray);
}

#[test]
fn every_place_but_the_first_two_is_the_point_buy() {
    assert_eq!(ScoreMethod::chosen(Some(0)), ScoreMethod::RollFourDropLowest);
    assert_eq!(ScoreMethod::chosen(Some(1)), ScoreMethod::StandardArray);
    assert_eq!(ScoreMethod::chosen(Some(2)), ScoreMethod::PointBuy);
    assert_eq!(ScoreMethod::chosen(Some(3)), ScoreMethod::PointBuy);
    assert_eq!(ScoreMethod::chosen(Some(usize::MAX)), ScoreMethod::PointBuy);
}

#[test]
fn a_name_finds_its_value_and_no_other() {
    for index in 0..9 {
        let race = Race::from_index(index).unwrap();
        assert_eq!(Race::from_name(race.name()), Some(race));
    }
    for index in 0..13 {
        let class = Class::from_index(index).unwrap();
        assert_eq!(Class::from_name(class.name()), Some(class));
        let background = Background::from_index(index).unwrap();
        assert_eq!(Background::from_name(background.name()), Some(background));
    }
    assert_eq!(Race::from_name("Half-Elf"), Some(Race::HalfElf));
    assert_eq!(Race::from_name("half-elf"), None);
    assert_eq!(Race::from_name("Goblin"), None);
    assert_eq!(Race::from_name(""), None);
    assert_eq!(Class::from_name("Fighter "), None);
    assert_eq!(Class::from_name("Human"), None);
    assert_eq!(Background::from_name("Folk Hero"), Some(Background::FolkHero));
    assert_eq!(Background::from_name("FolkHero"), None);
}

#[test]
fn nothing_chosen_is_written_as_nothing_and_read_back() {
    assert_eq!(Race::written(None), "");
    assert_eq!(Class::written(None), "");
    assert_eq!(Background::written(None), "");
    assert_eq!(Race::written(Some(Race::HalfOrc)), "Half-Orc");
    assert_eq!(Class::written(Some(Class::Monk)), "Monk");
    assert_eq!(Background::written(Some(Background::GuildArtisan)), "Guild Artisan");
    assert_eq!(Race::read(""), Some(None));
    assert_eq!(Race::read("Gnome"), Some(Some(Race::Gnome)));
    assert_eq!(Race::read("Gnomeling"), None);
    assert_eq!(Class::read(""), Some(None));
    assert_eq!(Class::read("Warlock"), Some(Some(Class::Warlock)));
    assert_eq!(Class::read("warlock"), None);
    assert_eq!(Background::read(""), Some(None));
    assert_eq!(Background::read("Sage"), Some(Some(Background::Sage)));
    assert_eq!(Background::read("Wizard"), None);
    for index in 0..9 {
        let race = Race::from_index(index);
        assert_eq!(Race::read(Race::written(race)), Some(race));
    }
}

#[test]
fn skills_draw_on_their_abilities() {
    assert_eq!(Skill::Athletics.ability(), Ability::Strength);
    assert_eq!(Skill::Stealth.ability(), Ability::Dexterity);
    assert_eq!(Skill::SleightOfHand.ability(), Ability::Dexterity);
    assert_eq!(Skill::Arcana.ability(), Ability::Intelligence);
    assert_eq!(Skill::Religion.ability(), Ability::Intelligence);
    assert_eq!(Skill::Perception.ability(), Ability::Wisdom);
    assert_eq!(Skill::AnimalHandling.ability(), Ability::Wisdom);
    assert_eq!(Skill::Persuasion.ability(), Ability::Charisma);
    assert_eq!(Skill::Performance.ability(), Ability::Charisma);
}

#[test]
fn a_copy_of_a_sheet_says_the_same() {
    let built = create_character(
        "Nyx".to_string(),
        Race::Tiefling,
        Class::Rogue,
        Background::Criminal,
        scores([10, 16, 12, 13, 11, 14]),
        &vec![9, 10],
    );
    let copy = built.duplicate();
    assert_eq!(copy.name, built.name);
    assert_eq!(copy.inventory, built.inventory);
    assert_eq!(copy.scores(), built.scores());
    assert_eq!(copy.armor_class, 14);
    assert_eq!(trained(&copy.skills), vec![Skill::SleightOfHand, Skill::Stealth]);
}
