//! Character creation: ability scores, derived numbers, skills and starting
//! equipment.

use vstd::prelude::*;
use vstd::string::*;
use crate::character::{texts, AbilityScores, Character, CharacterModel, SkillSet};
use crate::mechanics::{ability_modifier, all_faces, dice_total, modifier_of, roll_dice, sum_of};
use crate::roster::{Background, Class, Race, ScoreMethod, Skill};

verus! {

/// Whether no value of `values` is smaller than one before it.
pub open spec fn ascending(values: Seq<u32>) -> bool {
    forall|i: int, j: int| 0 <= i < j < values.len() ==> values[i] <= values[j]
}

/// Returns the values of `values` in ascending order.
pub fn sorted(values: &Vec<u32>) -> (out: Vec<u32>)
    ensures
        ascending(out@),
        out@.to_multiset() == values@.to_multiset(),
{
    let mut out: Vec<u32> = Vec::new();
    let mut taken: usize = 0;
    assert(values@.take(0) =~= out@);
    while taken < values.len()
        invariant
            taken <= values@.len(),
            ascending(out@),
            out@.to_multiset() == values@.take(taken as int).to_multiset(),
        decreases values@.len() - taken,
    {
        let value: u32 = values[taken];
        let mut place: usize = 0;
        while place < out.len() && out[place] <= value
            invariant
                place <= out@.len(),
                forall|i: int| 0 <= i < place ==> out@[i] <= value,
            decreases out@.len() - place,
        {
            place = place + 1;
        }
        let ghost before = out@;
        out.insert(place, value);
        proof {
            vstd::seq_lib::to_multiset_insert(before, place as int, value);
            vstd::seq_lib::to_multiset_build(values@.take(taken as int), value);
            assert(values@.take(taken + 1) =~= values@.take(taken as int).push(value));
        }
        taken = taken + 1;
    }
    assert(values@.take(taken as int) =~= values@);
    out
}

/// Every value of a sequence of faces is found again among any sequence with
/// the same values, so that one is made of faces too.
pub proof fn lemma_faces_of_same_values(rolls: Seq<u32>, other: Seq<u32>, sides: int)
    requires
        all_faces(rolls, sides),
        other.to_multiset() == rolls.to_multiset(),
    ensures
        all_faces(other, sides),
{
    assert forall|i: int| 0 <= i < other.len() implies 1 <= #[trigger] other[i] <= sides by {
        vstd::seq_lib::to_multiset_contains(other, other[i]);
        vstd::seq_lib::to_multiset_contains(rolls, other[i]);
    }
}

/// The sum of `n` faces of a die lies between `n` and `n` times its sides.
pub proof fn lemma_sum_of_faces(rolls: Seq<u32>, sides: int)
    requires
        all_faces(rolls, sides),
    ensures
        rolls.len() <= sum_of(rolls) <= rolls.len() * sides,
    decreases rolls.len(),
{
    if rolls.len() > 0 {
        let shorter = rolls.drop_last();
        lemma_sum_of_faces(shorter, sides);
        assert(rolls.len() * sides == shorter.len() * sides + sides) by (nonlinear_arith)
            requires
                rolls.len() == shorter.len() + 1,
        ;
    } else {
        assert(rolls.len() * sides == 0) by (nonlinear_arith)
            requires
                rolls.len() == 0,
        ;
    }
}

/// One rolled ability score: the dice that count, in ascending order, and
/// their sum.
#[derive(Debug)]
pub struct AbilityRoll {
    pub kept: Vec<u32>,
    pub score: u32,
}

/// Whether `kept` is what stays of `rolls` once they are put in ascending
/// order and the first, a lowest one, is taken away.
pub open spec fn keeps_all_but_lowest(rolls: Seq<u32>, kept: Seq<u32>) -> bool {
    exists|lowest: u32|
        ascending(#[trigger] seq![lowest].add(kept)) && seq![lowest].add(kept).to_multiset()
            == rolls.to_multiset()
}

/// Puts the rolls in order, drops the lowest and adds up the rest.
pub fn drop_lowest(rolls: &Vec<u32>) -> (roll: AbilityRoll)
    requires
        1 <= rolls@.len() <= 0xffff_ffff,
        sum_of(rolls@) <= u32::MAX,
    ensures
        keeps_all_but_lowest(rolls@, roll.kept@),
        roll.kept@.len() == rolls@.len() - 1,
        roll.score == sum_of(roll.kept@),
{
    let mut kept: Vec<u32> = sorted(rolls);
    let ghost in_order = kept@;
    proof {
        vstd::seq_lib::to_multiset_len(in_order);
        vstd::seq_lib::to_multiset_len(rolls@);
    }
    let lowest: u32 = kept.remove(0);
    proof {
        assert(seq![lowest].add(kept@) =~= in_order);
        lemma_sum_split_first(in_order);
        lemma_sum_of_same_values(in_order, rolls@);
    }
    let total: u64 = dice_total(&kept);
    AbilityRoll { kept, score: total as u32 }
}

/// The sum of a sequence is its first value plus the sum of the rest.
pub proof fn lemma_sum_split_first(values: Seq<u32>)
    requires
        values.len() > 0,
    ensures
        sum_of(values) == values[0] + sum_of(values.drop_first()),
    decreases values.len(),
{
    if values.len() == 1 {
        assert(sum_of(values.drop_last()) == 0);
    } else {
        let shorter = values.drop_last();
        lemma_sum_split_first(shorter);
        assert(shorter.drop_first() =~= values.drop_first().drop_last());
    }
}

/// Sequences with the same values have the same sum.
pub proof fn lemma_sum_of_same_values(left: Seq<u32>, right: Seq<u32>)
    requires
        left.to_multiset() == right.to_multiset(),
    ensures
        sum_of(left) == sum_of(right),
    decreases left.len(),
{
    vstd::seq_lib::to_multiset_len(left);
    vstd::seq_lib::to_multiset_len(right);
    if left.len() > 0 {
        let value = left.last();
        vstd::seq_lib::to_multiset_contains(left, value);
        vstd::seq_lib::to_multiset_contains(right, value);
        let k = choose|k: int| 0 <= k < right.len() && right[k] == value;
        vstd::seq_lib::to_multiset_remove(right, k);
        vstd::seq_lib::to_multiset_remove(left, left.len() - 1);
        lemma_sum_of_same_values(left.drop_last(), right.remove(k));
        lemma_sum_remove(right, k);
    }
}

/// Taking one value out of a sequence takes it out of the sum.
pub proof fn lemma_sum_remove(values: Seq<u32>, k: int)
    requires
        0 <= k < values.len(),
    ensures
        sum_of(values) == sum_of(values.remove(k)) + values[k],
    decreases values.len(),
{
    if k < values.len() - 1 {
        let shorter = values.drop_last();
        lemma_sum_remove(shorter, k);
        assert(values.remove(k).drop_last() =~= shorter.remove(k));
    }
}

/// Whether `roll` is a score rolled with four six-sided dice of which the
/// three highest count: three faces in ascending order, and their sum.
pub open spec fn is_rolled_score(roll: AbilityRoll) -> bool {
    &&& roll.kept@.len() == 3
    &&& all_faces(roll.kept@, 6)
    &&& ascending(roll.kept@)
    &&& roll.score == sum_of(roll.kept@)
    &&& 3 <= roll.score <= 18
}

/// Rolls one ability score: four six-sided dice, the lowest dropped.
pub fn roll_ability_score() -> (roll: AbilityRoll)
    ensures
        is_rolled_score(roll),
{
    let rolls: Vec<u32> = roll_dice(4, 6);
    proof {
        lemma_sum_of_faces(rolls@, 6);
    }
    let roll: AbilityRoll = drop_lowest(&rolls);
    proof {
        let lowest = choose|lowest: u32|
            ascending(#[trigger] seq![lowest].add(roll.kept@)) && seq![lowest].add(roll.kept@).to_multiset()
                == rolls@.to_multiset();
        let in_order = seq![lowest].add(roll.kept@);
        lemma_faces_of_same_values(rolls@, in_order, 6);
        assert forall|i: int| 0 <= i < roll.kept@.len() implies 1 <= #[trigger] roll.kept@[i] <= 6 by {
            assert(roll.kept@[i] == in_order[i + 1]);
        }
        assert forall|i: int, j: int| 0 <= i < j < roll.kept@.len() implies roll.kept@[i] <= roll.kept@[j] by {
            assert(roll.kept@[i] == in_order[i + 1]);
            assert(roll.kept@[j] == in_order[j + 1]);
        }
        lemma_sum_of_faces(roll.kept@, 6);
    }
    roll
}

/// The scores of the standard array.
pub open spec fn standard_array() -> Seq<u32> {
    seq![15u32, 14u32, 13u32, 12u32, 10u32, 8u32]
}

/// The scores that the simplified point buy hands out.
pub open spec fn point_buy_array() -> Seq<u32> {
    seq![13u32, 13u32, 13u32, 12u32, 12u32, 8u32]
}

/// Six scores to assign, and, where they were rolled, the rolls behind them.
#[derive(Debug)]
pub struct ScorePool {
    pub rolls: Vec<AbilityRoll>,
    pub scores: Vec<u32>,
}

/// Whether `pool` is a possible outcome of `method`.
pub open spec fn is_pool_of(method: ScoreMethod, pool: ScorePool) -> bool {
    match method {
        ScoreMethod::RollFourDropLowest => {
            &&& pool.rolls@.len() == 6
            &&& pool.scores@.len() == 6
            &&& forall|i: int|
                0 <= i < 6 ==> is_rolled_score(#[trigger] pool.rolls@[i]) && pool.scores@[i]
                    == pool.rolls@[i].score
        },
        ScoreMethod::StandardArray => pool.rolls@.len() == 0 && pool.scores@ == standard_array(),
        ScoreMethod::PointBuy => pool.rolls@.len() == 0 && pool.scores@ == point_buy_array(),
    }
}

/// Produces the six scores that a new character gets to assign.
pub fn generate_scores(method: ScoreMethod) -> (pool: ScorePool)
    ensures
        is_pool_of(method, pool),
{
    match method {
        ScoreMethod::RollFourDropLowest => {
            let mut rolls: Vec<AbilityRoll> = Vec::new();
            let mut scores: Vec<u32> = Vec::new();
            let mut rolled: usize = 0;
            while rolled < 6
                invariant
                    rolled <= 6,
                    rolls@.len() == rolled,
                    scores@.len() == rolled,
                    forall|i: int|
                        0 <= i < rolled ==> is_rolled_score(#[trigger] rolls@[i]) && scores@[i]
                            == rolls@[i].score,
                decreases 6 - rolled,
            {
                let roll: AbilityRoll = roll_ability_score();
                scores.push(roll.score);
                rolls.push(roll);
                rolled = rolled + 1;
            }
            ScorePool { rolls, scores }
        },
        ScoreMethod::StandardArray => {
            let scores: Vec<u32> = vec![15, 14, 13, 12, 10, 8];
            ScorePool { rolls: Vec::new(), scores }
        },
        ScoreMethod::PointBuy => {
            let scores: Vec<u32> = vec![13, 13, 13, 12, 12, 8];
            ScorePool { rolls: Vec::new(), scores }
        },
    }
}

/// The scores that are still to be had, and those that were taken, in the
/// order of the abilities they went to.
#[derive(Debug)]
pub struct ScoreAssignment {
    pub available: Vec<u32>,
    pub assigned: Vec<u32>,
}

/// The score at place `place` of `assigned`, or ten where nothing was
/// assigned to that place.
pub open spec fn score_at(assigned: Seq<u32>, place: int) -> u32 {
    if 0 <= place < assigned.len() {
        assigned[place]
    } else {
        10
    }
}

/// The ability scores that an assignment stands for: the first score taken
/// is the strength, the second the dexterity, and so on.
pub open spec fn scores_from(assigned: Seq<u32>) -> AbilityScores {
    AbilityScores {
        strength: score_at(assigned, 0),
        dexterity: score_at(assigned, 1),
        constitution: score_at(assigned, 2),
        intelligence: score_at(assigned, 3),
        wisdom: score_at(assigned, 4),
        charisma: score_at(assigned, 5),
    }
}

impl ScoreAssignment {
    /// Starts an assignment with all of `scores` to be had.
    pub fn new(scores: Vec<u32>) -> (assignment: ScoreAssignment)
        ensures
            assignment.available@ == scores@,
            assignment.assigned@ == Seq::<u32>::empty(),
    {
        ScoreAssignment { available: scores, assigned: Vec::new() }
    }

    /// Gives the score at place `index` of those still to be had to the next
    /// ability, and returns it. Where there is no such place, nothing
    /// changes.
    pub fn assign(&mut self, index: usize) -> (taken: Option<u32>)
        ensures
            index < old(self).available@.len() ==> {
                &&& taken == Some(old(self).available@[index as int])
                &&& final(self).available@ == old(self).available@.remove(index as int)
                &&& final(self).assigned@ == old(self).assigned@.push(old(self).available@[index as int])
            },
            index >= old(self).available@.len() ==> {
                &&& taken is None
                &&& final(self).available@ == old(self).available@
                &&& final(self).assigned@ == old(self).assigned@
            },
    {
        if index < self.available.len() {
            let score: u32 = self.available.remove(index);
            self.assigned.push(score);
            Some(score)
        } else {
            None
        }
    }

    /// Returns the ability scores that the assignment stands for.
    pub fn finish(&self) -> (scores: AbilityScores)
        ensures
            scores == scores_from(self.assigned@),
    {
        AbilityScores {
            strength: self.score_or_ten(0),
            dexterity: self.score_or_ten(1),
            constitution: self.score_or_ten(2),
            intelligence: self.score_or_ten(3),
            wisdom: self.score_or_ten(4),
            charisma: self.score_or_ten(5),
        }
    }

    fn score_or_ten(&self, place: usize) -> (score: u32)
        ensures
            score == score_at(self.assigned@, place as int),
    {
        if place < self.assigned.len() {
            self.assigned[place]
        } else {
            10
        }
    }
}

/// The hit points of a new character: what the class starts from plus the
/// constitution modifier, and never less than one.
pub open spec fn hit_points_of(class: Class, constitution: int) -> int {
    let points = class.spec_base_hit_points() + modifier_of(constitution);
    if points < 1 {
        1
    } else {
        points
    }
}

/// The armor class of a new character. Chain mail gives the fighter 16; scale
/// mail gives the cleric 14 and the dexterity modifier up to two; leather
/// armor gives the rogue 11 and the dexterity modifier; everyone else has ten
/// and the dexterity modifier, and never less than one.
pub open spec fn armor_class_of(class: Class, dexterity: int) -> int {
    let modifier = modifier_of(dexterity);
    match class {
        Class::Fighter => 16,
        Class::Cleric => 14 + if modifier < 2 {
            modifier
        } else {
            2
        },
        Class::Rogue => 11 + modifier,
        _ => if 10 + modifier < 1 {
            1
        } else {
            10 + modifier
        },
    }
}

/// Computes the hit points of a new character.
pub fn starting_hit_points(class: Class, constitution: u32) -> (points: u32)
    ensures
        points == hit_points_of(class, constitution as int),
{
    let points: i64 = class.base_hit_points() as i64 + ability_modifier(constitution) as i64;
    if points < 1 {
        1
    } else {
        points as u32
    }
}

/// Computes the armor class of a new character.
pub fn starting_armor_class(class: Class, dexterity: u32) -> (armor: u32)
    ensures
        armor == armor_class_of(class, dexterity as int),
{
    let modifier: i64 = ability_modifier(dexterity) as i64;
    match class {
        Class::Fighter => 16,
        Class::Cleric => {
            let bonus: i64 = if modifier < 2 {
                modifier
            } else {
                2
            };
            (14 + bonus) as u32
        },
        Class::Rogue => (11 + modifier) as u32,
        _ => {
            let armor: i64 = 10 + modifier;
            if armor < 1 {
                1
            } else {
                armor as u32
            }
        },
    }
}

/// The skills that `picks` select from `offered`: each pick is a place in
/// `offered`, and a pick beyond its end selects nothing.
pub open spec fn picked_skills(offered: Seq<Skill>, picks: Seq<usize>) -> Set<Skill> {
    Set::new(
        |skill: Skill|
            exists|j: int|
                0 <= j < picks.len() && (#[trigger] picks[j]) < offered.len() && offered[picks[j] as int]
                    == skill,
    )
}

/// Makes the character proficient in the skills that `picks` select from
/// `offered`.
pub fn train_picked(skills: &mut SkillSet, offered: &Vec<Skill>, picks: &Vec<usize>)
    ensures
        final(skills)@ == old(skills)@.union(picked_skills(offered@, picks@)),
{
    let mut seen: usize = 0;
    while seen < picks.len()
        invariant
            seen <= picks@.len(),
            skills@ == old(skills)@.union(picked_skills(offered@, picks@.take(seen as int))),
        decreases picks@.len() - seen,
    {
        let pick: usize = picks[seen];
        if pick < offered.len() {
            skills.train(offered[pick]);
        }
        proof {
            let shorter = picks@.take(seen as int);
            let longer = picks@.take(seen + 1);
            assert forall|skill: Skill|
                picked_skills(offered@, longer).contains(skill) == (picked_skills(offered@, shorter).contains(skill)
                    || (pick < offered@.len() && offered@[pick as int] == skill)) by {
                if pick < offered@.len() && offered@[pick as int] == skill {
                    assert(longer[seen as int] == pick);
                }
            }
        }
        seen = seen + 1;
    }
    assert(picks@.take(seen as int) =~= picks@);
}

/// The items that every new character gets, whatever the class.
pub open spec fn common_items() -> Seq<Seq<char>> {
    seq!["Backpack"@, "Bedroll"@, "Rations (5 days)"@, "Waterskin"@, "Torch (3)"@]
}

/// The inventory of a new character: the equipment of the class, then the
/// items that everyone gets.
pub open spec fn starting_items(class: Class) -> Seq<Seq<char>> {
    class.spec_equipment() + common_items()
}

fn put(items: &mut Vec<String>, item: &str)
    ensures
        texts(final(items)@) == texts(old(items)@).push(item@),
{
    items.push(String::from_str(item));
}

/// Packs the inventory of a new character.
pub fn starting_inventory(class: Class) -> (items: Vec<String>)
    ensures
        texts(items@) == starting_items(class),
{
    let mut items: Vec<String> = Vec::new();
    match class {
        Class::Fighter => {
            put(&mut items, "Longsword");
            put(&mut items, "Shield");
            put(&mut items, "Chain mail");
            put(&mut items, "Dungeoneer's pack");
        },
        Class::Wizard => {
            put(&mut items, "Spellbook");
            put(&mut items, "Staff");
            put(&mut items, "Component pouch");
            put(&mut items, "Scholar's pack");
        },
        Class::Cleric => {
            put(&mut items, "Mace");
            put(&mut items, "Scale mail");
            put(&mut items, "Shield");
            put(&mut items, "Holy symbol");
        },
        Class::Rogue => {
            put(&mut items, "Shortsword");
            put(&mut items, "Shortbow with 20 arrows");
            put(&mut items, "Leather armor");
            put(&mut items, "Thieves' tools");
        },
        _ => {
            put(&mut items, "Adventurer's pack");
            put(&mut items, "Simple weapon");
        },
    }
    put(&mut items, "Backpack");
    put(&mut items, "Bedroll");
    put(&mut items, "Rations (5 days)");
    put(&mut items, "Waterskin");
    put(&mut items, "Torch (3)");
    items
}

/// The name that a character gets where the player's answer could not be
/// read.
pub open spec fn fallback_name() -> Seq<char> {
    "Adventurer"@
}

/// Returns the name of the new character: what the player entered, or the
/// fallback where the answer could not be read.
pub fn name_or_fallback(entered: Option<String>) -> (name: String)
    ensures
        name@ == match entered {
            Some(text) => text@,
            None => fallback_name(),
        },
{
    match entered {
        Some(text) => text,
        None => String::from_str("Adventurer"),
    }
}

/// The sheet of a newly created character of level one.
pub open spec fn created(
    name: Seq<char>,
    race: Race,
    class: Class,
    background: Background,
    scores: AbilityScores,
    picks: Seq<usize>,
) -> CharacterModel {
    CharacterModel {
        name,
        race: Some(race),
        class: Some(class),
        level: 1,
        scores,
        hit_points: hit_points_of(class, scores.constitution as int) as u32,
        max_hit_points: hit_points_of(class, scores.constitution as int) as u32,
        armor_class: armor_class_of(class, scores.dexterity as int) as u32,
        inventory: starting_items(class),
        gold: class.spec_starting_gold() as u32,
        experience: 0,
        background: Some(background),
        skills: picked_skills(class.spec_skills(), picks),
    }
}

/// Puts a new character together from the player's choices. `picks` are
/// places in the list of skills that the class offers.
pub fn create_character(
    name: String,
    race: Race,
    class: Class,
    background: Background,
    scores: AbilityScores,
    picks: &Vec<usize>,
) -> (character: Character)
    ensures
        character@ == created(name@, race, class, background, scores, picks@),
{
    let hit_points: u32 = starting_hit_points(class, scores.constitution);
    let armor_class: u32 = starting_armor_class(class, scores.dexterity);
    let mut skills: SkillSet = SkillSet::none();
    let offered: Vec<Skill> = class.skills();
    train_picked(&mut skills, &offered, picks);
    assert(skills@ =~= picked_skills(class.spec_skills(), picks@));
    Character {
        name,
        race: Some(race),
        class: Some(class),
        level: 1,
        strength: scores.strength,
        dexterity: scores.dexterity,
        constitution: scores.constitution,
        intelligence: scores.intelligence,
        wisdom: scores.wisdom,
        charisma: scores.charisma,
        hit_points,
        max_hit_points: hit_points,
        armor_class,
        inventory: starting_inventory(class),
        gold: class.starting_gold(),
        experience: 0,
        background: Some(background),
        skills,
    }
}

} // verus!
