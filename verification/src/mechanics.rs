//! Game mechanics: dice and the arithmetic of ability checks.
//!
//! Nothing in this module talks to the narrator. The numbers computed here are
//! final: they are handed on as resolved values.

use vstd::prelude::*;
use vstd::string::*;
use crate::text::{decimal_digits, push_unsigned};

verus! {

/// The modifier that an ability score gives: half of its distance from ten,
/// rounded towards negative infinity.
pub open spec fn modifier_of(score: int) -> int {
    (score - 10) / 2
}

/// The proficiency bonus of a character level. Level zero is treated as the
/// highest tier, like every level above sixteen.
pub open spec fn bonus_of_level(level: int) -> int {
    if 1 <= level <= 4 {
        2
    } else if 5 <= level <= 8 {
        3
    } else if 9 <= level <= 12 {
        4
    } else if 13 <= level <= 16 {
        5
    } else {
        6
    }
}

/// The total of a skill check: the die, the ability modifier and, for a
/// proficient character only, the proficiency bonus.
pub open spec fn check_total(d20_roll: int, ability_mod: int, proficient: bool, prof_bonus: int) -> int {
    d20_roll + ability_mod + if proficient {
        prof_bonus
    } else {
        0
    }
}

/// The modifier is the floor of half the distance from ten: twice the
/// modifier is the largest even number that does not exceed the distance.
pub proof fn lemma_modifier_is_floor(score: int)
    ensures
        2 * modifier_of(score) <= score - 10 < 2 * modifier_of(score) + 2,
{
}

/// From level one to level twenty the bonus starts at two and grows by one
/// with every four levels.
pub proof fn lemma_bonus_grows_every_four_levels(level: int)
    requires
        1 <= level <= 20,
    ensures
        bonus_of_level(level) == 2 + (level - 1) / 4,
{
}

/// Computes the ability modifier of `score`.
pub fn ability_modifier(score: u32) -> (modifier: i32)
    ensures
        modifier == modifier_of(score as int),
{
    if score >= 10 {
        let above: u32 = (score - 10) / 2;
        above as i32
    } else {
        let below: u32 = (11 - score) / 2;
        -(below as i32)
    }
}

/// Computes the proficiency bonus of a character of the given level.
pub fn proficiency_bonus(level: u32) -> (bonus: u32)
    ensures
        bonus == bonus_of_level(level as int),
{
    if 1 <= level && level <= 4 {
        2
    } else if 5 <= level && level <= 8 {
        3
    } else if 9 <= level && level <= 12 {
        4
    } else if 13 <= level && level <= 16 {
        5
    } else {
        6
    }
}

/// Computes the total of a skill check. The result is wide enough for every
/// combination of arguments.
pub fn skill_check_total(d20_roll: u32, ability_mod: i32, proficient: bool, prof_bonus: u32) -> (total: i64)
    ensures
        total == check_total(d20_roll as int, ability_mod as int, proficient, prof_bonus as int),
{
    let base: i64 = d20_roll as i64 + ability_mod as i64;
    if proficient {
        base + prof_bonus as i64
    } else {
        base
    }
}

/// The dice that a player can ask for.
#[derive(Clone, Copy, Debug, PartialEq, Eq, Structural)]
pub enum Die {
    D4,
    D6,
    D8,
    D10,
    D12,
    D20,
    D100,
}

impl Die {
    /// The die at place `index` of the list that a player chooses from, if
    /// there is one.
    pub open spec fn at(index: int) -> Option<Die> {
        if index == 0 {
            Some(Die::D4)
        } else if index == 1 {
            Some(Die::D6)
        } else if index == 2 {
            Some(Die::D8)
        } else if index == 3 {
            Some(Die::D10)
        } else if index == 4 {
            Some(Die::D12)
        } else if index == 5 {
            Some(Die::D20)
        } else if index == 6 {
            Some(Die::D100)
        } else {
            None
        }
    }

    /// Returns the die at place `index` of the list.
    pub fn from_index(index: usize) -> (found: Option<Die>)
        ensures
            found == Die::at(index as int),
    {
        if index == 0 {
            Some(Die::D4)
        } else if index == 1 {
            Some(Die::D6)
        } else if index == 2 {
            Some(Die::D8)
        } else if index == 3 {
            Some(Die::D10)
        } else if index == 4 {
            Some(Die::D12)
        } else if index == 5 {
            Some(Die::D20)
        } else if index == 6 {
            Some(Die::D100)
        } else {
            None
        }
    }

    /// The number of faces of the die.
    pub open spec fn spec_sides(self) -> int {
        match self {
            Die::D4 => 4,
            Die::D6 => 6,
            Die::D8 => 8,
            Die::D10 => 10,
            Die::D12 => 12,
            Die::D20 => 20,
            Die::D100 => 100,
        }
    }

    /// Returns the number of faces of the die.
    pub fn sides(self) -> (n: u32)
        ensures
            n == self.spec_sides(),
    {
        match self {
            Die::D4 => 4,
            Die::D6 => 6,
            Die::D8 => 8,
            Die::D10 => 10,
            Die::D12 => 12,
            Die::D20 => 20,
            Die::D100 => 100,
        }
    }
}

/// Whether every value of `rolls` is a face of a die with `sides` faces.
pub open spec fn all_faces(rolls: Seq<u32>, sides: int) -> bool {
    forall|i: int| 0 <= i < rolls.len() ==> 1 <= #[trigger] rolls[i] <= sides
}

/// One number from `low` to `high`, both included, drawn by `rand`'s
/// `Rng::gen_range(low..=high)` on the generator of `rand::thread_rng()`.
/// Trusted: the number lies in the range that was asked for. `gen_range`
/// panics on an empty range, which `low <= high` excludes.
#[verifier::external_body]
fn draw(low: u32, high: u32) -> (drawn: u32)
    requires
        low <= high,
    ensures
        low <= drawn <= high,
{
    rand::Rng::gen_range(&mut rand::thread_rng(), low..=high)
}

/// Throws `count` dice with `sides` faces each, and returns the faces in the
/// order in which they fell. A die needs at least one face; no dice can be
/// thrown whatever their faces.
pub fn roll_dice(count: u32, sides: u32) -> (rolls: Vec<u32>)
    requires
        count > 0 ==> sides >= 1,
    ensures
        rolls@.len() == count,
        all_faces(rolls@, sides as int),
{
    let mut rolls: Vec<u32> = Vec::new();
    let mut thrown: u32 = 0;
    while thrown < count
        invariant
            count > 0 ==> sides >= 1,
            thrown <= count,
            rolls@.len() == thrown,
            all_faces(rolls@, sides as int),
        decreases count - thrown,
    {
        let face: u32 = draw(1, sides);
        rolls.push(face);
        thrown = thrown + 1;
    }
    rolls
}

/// The sum of a sequence of rolls.
pub open spec fn sum_of(rolls: Seq<u32>) -> int
    decreases rolls.len(),
{
    if rolls.len() == 0 {
        0
    } else {
        sum_of(rolls.drop_last()) + rolls.last()
    }
}

/// The sum of `n` values of 32 bits stays below `n` times two to the 32.
pub proof fn lemma_sum_bound(rolls: Seq<u32>)
    ensures
        0 <= sum_of(rolls) <= rolls.len() * 0xffff_ffff,
    decreases rolls.len(),
{
    if rolls.len() > 0 {
        lemma_sum_bound(rolls.drop_last());
    }
}

/// Adds up the rolls. The bound on the length is what keeps the sum inside
/// 64 bits; every result of `roll_dice` meets it.
pub fn dice_total(rolls: &Vec<u32>) -> (total: u64)
    requires
        rolls@.len() <= 0xffff_ffff,
    ensures
        total == sum_of(rolls@),
{
    let mut total: u64 = 0;
    let mut seen: usize = 0;
    while seen < rolls.len()
        invariant
            seen <= rolls@.len(),
            rolls@.len() <= 0xffff_ffff,
            total == sum_of(rolls@.take(seen as int)),
        decreases rolls@.len() - seen,
    {
        proof {
            lemma_sum_bound(rolls@.take(seen as int));
            assert(rolls@.take(seen + 1).drop_last() =~= rolls@.take(seen as int));
            assert(seen * 0xffff_ffff + 0xffff_ffff <= 0xffff_ffff * 0xffff_ffff) by (nonlinear_arith)
                requires
                    seen < 0xffff_ffff,
            ;
        }
        total = total + rolls[seen] as u64;
        seen = seen + 1;
    }
    proof {
        assert(rolls@.take(seen as int) =~= rolls@);
    }
    total
}

/// The rolls written one after the other, with a comma and a space between
/// them.
pub open spec fn rolls_text(rolls: Seq<u32>) -> Seq<char>
    decreases rolls.len(),
{
    if rolls.len() == 0 {
        Seq::empty()
    } else if rolls.len() == 1 {
        decimal_digits(rolls[0] as nat)
    } else {
        rolls_text(rolls.drop_last()) + ", "@ + decimal_digits(rolls.last() as nat)
    }
}

/// How a throw of `count` dice with `sides` faces is called: the count, the
/// letter d, and the sides.
pub open spec fn throw_text(count: u32, sides: u32) -> Seq<char> {
    decimal_digits(count as nat) + "d"@ + decimal_digits(sides as nat)
}

/// Writes the rolls one after the other, with a comma and a space between
/// them.
pub fn dice_list(rolls: &Vec<u32>) -> (list: String)
    ensures
        list@ == rolls_text(rolls@),
{
    let mut list: String = String::new();
    let mut written: usize = 0;
    while written < rolls.len()
        invariant
            written <= rolls@.len(),
            list@ == rolls_text(rolls@.take(written as int)),
        decreases rolls@.len() - written,
    {
        let ghost longer = rolls@.take(written + 1);
        proof {
            assert(longer.drop_last() =~= rolls@.take(written as int));
        }
        if written > 0 {
            list.append(", ");
        }
        push_unsigned(&mut list, rolls[written] as u64);
        written = written + 1;
    }
    assert(rolls@.take(written as int) =~= rolls@);
    list
}

/// Writes how a throw of `count` dice with `sides` faces is called.
pub fn dice_label(count: u32, sides: u32) -> (label: String)
    ensures
        label@ == throw_text(count, sides),
{
    let mut label: String = String::new();
    push_unsigned(&mut label, count as u64);
    label.append("d");
    push_unsigned(&mut label, sides as u64);
    label
}

} // verus!
