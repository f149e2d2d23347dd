//! Dice mechanics: die types, roll specifications, modifiers and results.
use crate::domain::DomainError;
use crate::text::{append_decimal, append_signed_decimal, decimal, signed_decimal};
use vstd::prelude::*;

verus! {

/// Types of dice available in the game.
#[derive(Debug, Clone, Copy, PartialEq, Eq, Hash, Structural)]
pub enum DiceType {
    D4,
    D6,
    D8,
    D10,
    D12,
    D20,
    D100,
}

impl DiceType {
    /// Number of faces of the die.
    pub open spec fn faces(self) -> int {
        match self {
            DiceType::D4 => 4,
            DiceType::D6 => 6,
            DiceType::D8 => 8,
            DiceType::D10 => 10,
            DiceType::D12 => 12,
            DiceType::D20 => 20,
            DiceType::D100 => 100,
        }
    }

    /// Name of the die as written in dice notation ("d6").
    pub open spec fn spec_name(self) -> Seq<char> {
        seq!['d'] + decimal(self.faces() as nat)
    }

    /// Maximum value for this die type.
    pub fn max_value(&self) -> (r: u8)
        ensures
            r as int == self.faces(),
    {
        match self {
            DiceType::D4 => 4,
            DiceType::D6 => 6,
            DiceType::D8 => 8,
            DiceType::D10 => 10,
            DiceType::D12 => 12,
            DiceType::D20 => 20,
            DiceType::D100 => 100,
        }
    }

    /// Number of sides on this die type.
    pub fn sides(&self) -> (r: u8)
        ensures
            r as int == self.faces(),
    {
        self.max_value()
    }

    /// Minimum value this die can roll.
    pub fn min_value(&self) -> (r: u8)
        ensures
            r == 1,
    {
        1
    }

    /// Whether a value can be rolled on this die.
    pub fn is_valid_value(&self, value: u8) -> (r: bool)
        ensures
            r == (1 <= value <= self.faces()),
    {
        value >= self.min_value() && value <= self.max_value()
    }

    /// Dice notation of the die ("d20").
    pub fn to_string(&self) -> (r: String)
        ensures
            r@ == self.spec_name(),
    {
        proof { reveal_strlit("d"); }
        let mut s = String::from_str("d");
        append_decimal(&mut s, self.max_value() as u64);
        s
    }
}

impl Default for DiceType {
    fn default() -> (r: Self)
        ensures
            r == DiceType::D6,
    {
        DiceType::D6
    }
}

/// Modifiers that can be applied to dice rolls.
#[derive(Debug, Clone, Copy, PartialEq, Eq, Structural)]
pub struct DiceModifier {
    pub stat_modifier: i8,
    pub equipment_bonus: i8,
    pub situational_modifier: i8,
    pub luck_bonus: i8,
}

/// Whether four component modifiers pass the validation of `DiceModifier::new`.
pub open spec fn modifier_components_valid(a: int, b: int, c: int, d: int) -> bool {
    &&& -10 <= a <= 10
    &&& -10 <= b <= 10
    &&& -10 <= c <= 10
    &&& -10 <= d <= 10
    &&& -20 <= a + b + c + d <= 20
}

impl DiceModifier {
    /// Sum of the four components.
    pub open spec fn total(self) -> int {
        self.stat_modifier + self.equipment_bonus + self.situational_modifier + self.luck_bonus
    }

    /// Whether the sum of the components can be computed in an `i8`.
    pub open spec fn total_fits(self) -> bool {
        &&& i8::MIN <= self.stat_modifier + self.equipment_bonus <= i8::MAX
        &&& i8::MIN <= self.stat_modifier + self.equipment_bonus + self.situational_modifier <= i8::MAX
        &&& i8::MIN <= self.total() <= i8::MAX
    }

    /// Create a new modifier, each component within [-10, 10] and the sum within [-20, 20].
    pub fn new(stat_modifier: i8, equipment_bonus: i8, situational_modifier: i8, luck_bonus: i8) -> (r: Result<Self, DomainError>)
        ensures
            modifier_components_valid(stat_modifier as int, equipment_bonus as int, situational_modifier as int, luck_bonus as int)
                <==> r is Ok,
            r matches Ok(m) ==> m.stat_modifier == stat_modifier && m.equipment_bonus == equipment_bonus
                && m.situational_modifier == situational_modifier && m.luck_bonus == luck_bonus,
            r matches Err(e) ==> (e matches DomainError::DiceModifierError(msg) && (
                if !(-10 <= stat_modifier <= 10 && -10 <= equipment_bonus <= 10
                    && -10 <= situational_modifier <= 10 && -10 <= luck_bonus <= 10) {
                    msg@ == "Individual modifiers must be between -10 and +10"@
                } else {
                    msg@ == "Total modifier must be between -20 and +20"@
                })),
    {
        if stat_modifier < -10 || stat_modifier > 10 || equipment_bonus < -10 || equipment_bonus > 10
            || situational_modifier < -10 || situational_modifier > 10 || luck_bonus < -10 || luck_bonus > 10 {
            return Err(DomainError::DiceModifierError(String::from_str("Individual modifiers must be between -10 and +10")));
        }
        let total = stat_modifier + equipment_bonus + situational_modifier + luck_bonus;
        if total < -20 || total > 20 {
            return Err(DomainError::DiceModifierError(String::from_str("Total modifier must be between -20 and +20")));
        }
        Ok(DiceModifier { stat_modifier, equipment_bonus, situational_modifier, luck_bonus })
    }

    /// The modifier with no bonuses or penalties.
    pub open spec fn none_spec() -> Self {
        DiceModifier { stat_modifier: 0, equipment_bonus: 0, situational_modifier: 0, luck_bonus: 0 }
    }

    /// A modifier with no bonuses or penalties.
    pub fn none() -> (r: Self)
        ensures
            r.stat_modifier == 0 && r.equipment_bonus == 0 && r.situational_modifier == 0 && r.luck_bonus == 0,
            r == Self::none_spec(),
    {
        DiceModifier { stat_modifier: 0, equipment_bonus: 0, situational_modifier: 0, luck_bonus: 0 }
    }

    /// A modifier with only a stat bonus.
    pub fn from_stat(stat_modifier: i8) -> (r: Result<Self, DomainError>)
        ensures
            r is Ok <==> -10 <= stat_modifier <= 10,
            r matches Ok(m) ==> m == (DiceModifier { stat_modifier, equipment_bonus: 0, situational_modifier: 0, luck_bonus: 0 }),
    {
        Self::new(stat_modifier, 0, 0, 0)
    }

    /// Total modifier value.
    pub fn total_modifier(&self) -> (r: i32)
        requires
            self.total_fits(),
        ensures
            r == self.total(),
    {
        (self.stat_modifier + self.equipment_bonus + self.situational_modifier + self.luck_bonus) as i32
    }

    /// Whether this modifier has no effect.
    pub fn is_zero(&self) -> (r: bool)
        requires
            self.total_fits(),
        ensures
            r == (self.total() == 0),
    {
        self.total_modifier() == 0
    }

    /// Component-wise sum with another modifier, validated like `new`.
    pub fn add(&self, other: &DiceModifier) -> (r: Result<Self, DomainError>)
        requires
            i8::MIN <= self.stat_modifier + other.stat_modifier <= i8::MAX,
            i8::MIN <= self.equipment_bonus + other.equipment_bonus <= i8::MAX,
            i8::MIN <= self.situational_modifier + other.situational_modifier <= i8::MAX,
            i8::MIN <= self.luck_bonus + other.luck_bonus <= i8::MAX,
        ensures
            r is Ok <==> modifier_components_valid(
                self.stat_modifier + other.stat_modifier,
                self.equipment_bonus + other.equipment_bonus,
                self.situational_modifier + other.situational_modifier,
                self.luck_bonus + other.luck_bonus,
            ),
            r matches Ok(m) ==> m.stat_modifier == self.stat_modifier + other.stat_modifier
                && m.equipment_bonus == self.equipment_bonus + other.equipment_bonus
                && m.situational_modifier == self.situational_modifier + other.situational_modifier
                && m.luck_bonus == self.luck_bonus + other.luck_bonus,
    {
        Self::new(
            self.stat_modifier + other.stat_modifier,
            self.equipment_bonus + other.equipment_bonus,
            self.situational_modifier + other.situational_modifier,
            self.luck_bonus + other.luck_bonus,
        )
    }

    /// A situational modifier.
    pub fn situational(modifier: i8) -> (r: Result<Self, DomainError>)
        ensures
            r is Ok <==> -10 <= modifier <= 10,
            r matches Ok(m) ==> m == (DiceModifier { stat_modifier: 0, equipment_bonus: 0, situational_modifier: modifier, luck_bonus: 0 }),
    {
        Self::new(0, 0, modifier, 0)
    }

    /// An equipment bonus.
    pub fn equipment(bonus: i8) -> (r: Result<Self, DomainError>)
        ensures
            r is Ok <==> -10 <= bonus <= 10,
            r matches Ok(m) ==> m == (DiceModifier { stat_modifier: 0, equipment_bonus: bonus, situational_modifier: 0, luck_bonus: 0 }),
    {
        Self::new(0, bonus, 0, 0)
    }

    /// A luck bonus.
    pub fn luck(bonus: i8) -> (r: Result<Self, DomainError>)
        ensures
            r is Ok <==> -10 <= bonus <= 10,
            r matches Ok(m) ==> m == (DiceModifier { stat_modifier: 0, equipment_bonus: 0, situational_modifier: 0, luck_bonus: bonus }),
    {
        Self::new(0, 0, 0, bonus)
    }

    /// Notation of the modifier: empty when zero, "+n" when positive, "-n" when negative.
    pub open spec fn spec_text(self) -> Seq<char> {
        if self.total() == 0 {
            Seq::empty()
        } else if self.total() > 0 {
            seq!['+'] + decimal(self.total() as nat)
        } else {
            signed_decimal(self.total())
        }
    }

    /// Notation of the modifier as shown next to a roll.
    pub fn to_string(&self) -> (r: String)
        requires
            self.total_fits(),
        ensures
            r@ == self.spec_text(),
    {
        let total = self.total_modifier();
        let mut s = String::new();
        if total > 0 {
            proof { reveal_strlit("+"); }
            s.append("+");
            append_decimal(&mut s, total as u64);
        } else if total < 0 {
            append_signed_decimal(&mut s, total as i64);
        }
        assert(s@ =~= self.spec_text());
        s
    }
}

impl Default for DiceModifier {
    fn default() -> (r: Self)
        ensures
            r == (DiceModifier { stat_modifier: 0, equipment_bonus: 0, situational_modifier: 0, luck_bonus: 0 }),
    {
        DiceModifier::none()
    }
}

/// A dice roll: how many dice of which type, with which modifier, and the values
/// rolled when the roll has been made.
#[derive(Debug, Clone, PartialEq, Eq)]
pub struct DiceRoll {
    pub count: u8,
    pub dice_type: DiceType,
    pub modifier: DiceModifier,
    pub rolled: Vec<u8>,
}

/// Whether `r` is the roll specification with these parts and no rolled values.
pub open spec fn roll_of(r: DiceRoll, count: u8, dice_type: DiceType, modifier: DiceModifier) -> bool {
    r.count == count && r.dice_type == dice_type && r.modifier == modifier && r.values().len() == 0
}

impl DiceRoll {
    /// The rolled values (empty for a roll that has not been made).
    pub open spec fn values(&self) -> Seq<u8> {
        self.rolled@
    }

    /// Total of the roll: the rolled values plus the modifier once rolled; before that,
    /// the expected total count * (1 + faces) / 2 + modifier, truncated toward zero.
    pub open spec fn spec_total(self) -> int {
        if self.values().len() > 0 {
            sum_values(self.values()) + self.modifier.total()
        } else {
            let twice = self.count * (1 + self.dice_type.faces()) + 2 * self.modifier.total();
            if twice >= 0 { twice / 2 } else { -((-twice) / 2) }
        }
    }

    /// A roll of `count` dice already made, holding the rolled values.
    pub fn rolled(count: u8, dice_type: DiceType, modifier: DiceModifier, values: Vec<u8>) -> (r: Self)
        ensures
            r.count == count && r.dice_type == dice_type && r.modifier == modifier && r.values() == values@,
    {
        DiceRoll { count, dice_type, modifier, rolled: values }
    }

    /// Create a new dice roll of 1 to 10 dice.
    pub fn new(count: u8, dice_type: DiceType, modifier: DiceModifier) -> (r: Result<Self, DomainError>)
        ensures
            r is Ok <==> 1 <= count <= 10,
            r matches Ok(roll) ==> roll_of(roll, count, dice_type, modifier),
            r matches Err(e) ==> e matches DomainError::InvalidDiceRoll(msg) && (if count == 0 {
                msg@ == "Dice count must be at least 1"@
            } else {
                msg@ == "Maximum 10 dice allowed per roll"@
            }),
    {
        if count == 0 {
            return Err(DomainError::InvalidDiceRoll(String::from_str("Dice count must be at least 1")));
        }
        if count > 10 {
            return Err(DomainError::InvalidDiceRoll(String::from_str("Maximum 10 dice allowed per roll")));
        }
        Ok(DiceRoll { count, dice_type, modifier, rolled: Vec::new() })
    }

    /// A roll without modifier.
    pub fn simple(count: u8, dice_type: DiceType) -> (r: Result<Self, DomainError>)
        ensures
            r is Ok <==> 1 <= count <= 10,
            r matches Ok(roll) ==> roll_of(roll, count, dice_type, (DiceModifier { stat_modifier: 0, equipment_bonus: 0, situational_modifier: 0, luck_bonus: 0 })),
    {
        Self::new(count, dice_type, (DiceModifier { stat_modifier: 0, equipment_bonus: 0, situational_modifier: 0, luck_bonus: 0 }))
    }

    /// A single die roll without modifier.
    pub fn single(dice_type: DiceType) -> (r: Result<Self, DomainError>)
        ensures
            r matches Ok(roll) && roll_of(roll, 1, dice_type, (DiceModifier { stat_modifier: 0, equipment_bonus: 0, situational_modifier: 0, luck_bonus: 0 })),
    {
        Self::simple(1, dice_type)
    }

    /// Minimum possible result.
    pub fn min_result(&self) -> (r: i32)
        requires
            self.modifier.total_fits(),
        ensures
            r == self.count + self.modifier.total(),
    {
        (self.count as i32) + self.modifier.total_modifier()
    }

    /// Maximum possible result.
    pub fn max_result(&self) -> (r: i32)
        requires
            self.modifier.total_fits(),
        ensures
            r == self.count * self.dice_type.faces() + self.modifier.total(),
    {
        (self.count as i32 * self.dice_type.max_value() as i32) + self.modifier.total_modifier()
    }

    /// Whether a natural critical success exists for this die (d20 and d100).
    pub fn is_critical_success_possible(&self) -> (r: bool)
        ensures
            r == (self.dice_type == DiceType::D20 || self.dice_type == DiceType::D100),
    {
        self.dice_type == DiceType::D20 || self.dice_type == DiceType::D100
    }

    /// The natural value that is a critical success, if any.
    pub fn critical_success_value(&self) -> (r: Option<u8>)
        ensures
            r == (if self.dice_type == DiceType::D20 || self.dice_type == DiceType::D100 {
                Some(self.dice_type.faces() as u8)
            } else {
                None
            }),
    {
        if self.is_critical_success_possible() {
            Some(self.dice_type.max_value())
        } else {
            None
        }
    }

    /// The individual rolled values; a roll that has not been made carries none.
    pub fn rolls(&self) -> (r: Vec<u8>)
        ensures
            r@ == self.values(),
    {
        self.rolled.clone()
    }

    /// Total of the roll (see `spec_total`).
    pub fn total(&self) -> (r: i32)
        requires
            self.modifier.total_fits(),
            self.values().len() <= 255,
        ensures
            r == self.spec_total(),
    {
        if self.rolled.len() > 0 {
            let mut sum: i32 = 0;
            let mut i: usize = 0;
            while i < self.rolled.len()
                invariant
                    0 <= i <= self.rolled@.len(),
                    self.rolled@.len() <= 255,
                    sum == sum_values(self.rolled@.take(i as int)),
                    0 <= sum <= 255 * i,
                decreases self.rolled@.len() - i,
            {
                assert(self.rolled@.take(i + 1).drop_last() =~= self.rolled@.take(i as int));
                sum = sum + self.rolled[i] as i32;
                i = i + 1;
            }
            assert(self.rolled@.take(i as int) =~= self.rolled@);
            return sum + self.modifier.total_modifier();
        }
        let faces = self.dice_type.max_value() as i32;
        let count = self.count as i32;
        assert(0 <= count * (1 + faces) <= 255 * 101) by (nonlinear_arith)
            requires
                0 <= count <= 255,
                0 <= faces <= 100,
        ;
        let twice: i32 = count * (1 + faces) + 2 * self.modifier.total_modifier();
        if twice >= 0 {
            twice / 2
        } else {
            -((-twice) / 2)
        }
    }

    /// A roll made from pre-rolled values: the count is the number of values (kept
    /// modulo 256, as a `u8` holds it), without modifier.
    pub fn from_rolls(dice_type: DiceType, rolls: Vec<u8>) -> (r: Result<Self, DomainError>)
        ensures
            r is Ok <==> (rolls@.len() > 0 && rolls@.len() % 256 <= 10),
            r matches Ok(roll) ==> roll.count == rolls@.len() % 256 && roll.dice_type == dice_type
                && roll.modifier == (DiceModifier { stat_modifier: 0, equipment_bonus: 0, situational_modifier: 0, luck_bonus: 0 })
                && roll.values() == rolls@,
    {
        if rolls.len() == 0 {
            return Err(DomainError::InvalidDiceRoll(String::from_str("Cannot create dice roll with no rolls")));
        }
        let count = (rolls.len() % 256) as u8;
        if count > 10 {
            return Err(DomainError::InvalidDiceRoll(String::from_str("Maximum 10 dice allowed per roll")));
        }
        Ok(DiceRoll { count, dice_type, modifier: DiceModifier::none(), rolled: rolls })
    }

    /// Dice notation: "d6", "d20+3", "3d6", "2d8-1".
    pub open spec fn spec_text(self) -> Seq<char> {
        if self.count == 1 {
            self.dice_type.spec_name() + self.modifier.spec_text()
        } else {
            decimal(self.count as nat) + self.dice_type.spec_name() + self.modifier.spec_text()
        }
    }

    /// Dice notation of the roll.
    pub fn to_string(&self) -> (r: String)
        requires
            self.modifier.total_fits(),
        ensures
            r@ == self.spec_text(),
    {
        let mut s = String::new();
        if self.count != 1 {
            append_decimal(&mut s, self.count as u64);
        }
        let d = self.dice_type.to_string();
        s.append(d.as_str());
        let m = self.modifier.to_string();
        s.append(m.as_str());
        assert(s@ =~= self.spec_text());
        s
    }
}

impl Default for DiceRoll {
    fn default() -> (r: Self)
        ensures
            roll_of(r, 1, DiceType::D6, (DiceModifier { stat_modifier: 0, equipment_bonus: 0, situational_modifier: 0, luck_bonus: 0 })),
    {
        DiceRoll { count: 1, dice_type: DiceType::default(), modifier: DiceModifier::default(), rolled: Vec::new() }
    }
}

/// Sum of a sequence of die values.
pub open spec fn sum_values(s: Seq<u8>) -> int
    decreases s.len(),
{
    if s.len() == 0 { 0 } else { sum_values(s.drop_last()) + s.last() }
}

/// Different levels of success or failure.
#[derive(Debug, Clone, Copy, PartialEq, Eq, PartialOrd, Ord, Structural)]
pub enum SuccessLevel {
    CriticalFailure,
    Failure,
    Success,
    GoodSuccess,
    ExceptionalSuccess,
    CriticalSuccess,
}

impl SuccessLevel {
    /// Any kind of success.
    pub fn is_success(&self) -> (r: bool)
        ensures
            r == !(*self == SuccessLevel::CriticalFailure || *self == SuccessLevel::Failure),
    {
        match self {
            SuccessLevel::CriticalFailure | SuccessLevel::Failure => false,
            _ => true,
        }
    }

    /// A critical result, success or failure.
    pub fn is_critical(&self) -> (r: bool)
        ensures
            r == (*self == SuccessLevel::CriticalFailure || *self == SuccessLevel::CriticalSuccess),
    {
        match self {
            SuccessLevel::CriticalSuccess | SuccessLevel::CriticalFailure => true,
            _ => false,
        }
    }

    /// Display name of the level.
    pub open spec fn spec_name(self) -> Seq<char> {
        match self {
            SuccessLevel::CriticalFailure => "Critical Failure"@,
            SuccessLevel::Failure => "Failure"@,
            SuccessLevel::Success => "Success"@,
            SuccessLevel::GoodSuccess => "Good Success"@,
            SuccessLevel::ExceptionalSuccess => "Exceptional Success"@,
            SuccessLevel::CriticalSuccess => "Critical Success"@,
        }
    }

    /// Display name of the level.
    pub fn to_string(&self) -> (r: String)
        ensures
            r@ == self.spec_name(),
    {
        match self {
            SuccessLevel::CriticalFailure => String::from_str("Critical Failure"),
            SuccessLevel::Failure => String::from_str("Failure"),
            SuccessLevel::Success => String::from_str("Success"),
            SuccessLevel::GoodSuccess => String::from_str("Good Success"),
            SuccessLevel::ExceptionalSuccess => String::from_str("Exceptional Success"),
            SuccessLevel::CriticalSuccess => String::from_str("Critical Success"),
        }
    }
}

/// The success level of a final result against a difficulty.
pub open spec fn level_for(crit_success: bool, crit_failure: bool, margin: int) -> SuccessLevel {
    if crit_failure {
        SuccessLevel::CriticalFailure
    } else if crit_success {
        SuccessLevel::CriticalSuccess
    } else if margin >= 10 {
        SuccessLevel::ExceptionalSuccess
    } else if margin >= 5 {
        SuccessLevel::GoodSuccess
    } else if margin >= 0 {
        SuccessLevel::Success
    } else if margin >= -5 {
        SuccessLevel::Failure
    } else {
        SuccessLevel::CriticalFailure
    }
}

/// How a level ranks, from critical failure to critical success.
pub open spec fn level_rank(l: SuccessLevel) -> int {
    match l {
        SuccessLevel::CriticalFailure => 0,
        SuccessLevel::Failure => 1,
        SuccessLevel::Success => 2,
        SuccessLevel::GoodSuccess => 3,
        SuccessLevel::ExceptionalSuccess => 4,
        SuccessLevel::CriticalSuccess => 5,
    }
}

/// Without a critical roll, a result that meets the difficulty (a margin of 0 or
/// more) is a success of some kind and one that misses it is a failure of some
/// kind; a margin under 5 is a plain success, from 5 to 9 a good success, 10 or
/// more exceptional; missing by up to 5 is a failure and by more a critical
/// failure. A critical failure flag always fails, a critical success flag (without
/// one) always succeeds.
pub proof fn success_levels_follow_the_margin(margin: int)
    ensures
        ({
            let l = level_for(false, false, margin);
            &&& (l != SuccessLevel::CriticalFailure && l != SuccessLevel::Failure) <==> margin >= 0
            &&& l == SuccessLevel::Success <==> 0 <= margin < 5
            &&& l == SuccessLevel::GoodSuccess <==> 5 <= margin < 10
            &&& l == SuccessLevel::ExceptionalSuccess <==> 10 <= margin
            &&& l == SuccessLevel::Failure <==> -5 <= margin < 0
            &&& l == SuccessLevel::CriticalFailure <==> margin < -5
        }),
        forall|cs: bool| level_for(cs, true, margin) == SuccessLevel::CriticalFailure,
        level_for(true, false, margin) == SuccessLevel::CriticalSuccess,
{
}

/// A larger margin never gives a worse level.
pub proof fn success_levels_rise_with_the_margin(m1: int, m2: int)
    requires
        m1 <= m2,
    ensures
        level_rank(level_for(false, false, m1)) <= level_rank(level_for(false, false, m2)),
{
}

/// Result of a dice roll with detailed information.
#[derive(Debug, Clone, PartialEq, Eq)]
pub struct DiceResult {
    pub roll: DiceRoll,
    pub raw_results: Vec<u8>,
    pub total_raw: u32,
    pub final_result: i32,
    pub is_critical_success: bool,
    pub is_critical_failure: bool,
}

/// Whether every value can be rolled on the die.
pub open spec fn all_valid(s: Seq<u8>, d: DiceType) -> bool {
    forall|i: int| 0 <= i < s.len() ==> 1 <= #[trigger] s[i] <= d.faces()
}

impl DiceResult {
    /// Build a result from individual die values: one value per die, each valid for the die.
    pub fn new(roll: DiceRoll, raw_results: Vec<u8>, is_critical_success: bool, is_critical_failure: bool) -> (r: Result<Self, DomainError>)
        requires
            roll.modifier.total_fits(),
        ensures
            r is Ok <==> (raw_results@.len() == roll.count && all_valid(raw_results@, roll.dice_type)),
            r matches Ok(res) ==> res.roll == roll && res.raw_results@ == raw_results@
                && res.total_raw == sum_values(raw_results@)
                && res.final_result == sum_values(raw_results@) + roll.modifier.total()
                && res.is_critical_success == is_critical_success
                && res.is_critical_failure == is_critical_failure,
            r matches Err(e) ==> e is InvalidDiceRoll,
    {
        if raw_results.len() != roll.count as usize {
            return Err(DomainError::InvalidDiceRoll(String::from_str("Number of results must match dice count")));
        }
        let mut total: u32 = 0;
        let mut i: usize = 0;
        while i < raw_results.len()
            invariant
                raw_results@.len() == roll.count,
                0 <= i <= raw_results@.len(),
                all_valid(raw_results@.take(i as int), roll.dice_type),
                total == sum_values(raw_results@.take(i as int)),
                total <= 255 * i,
            decreases raw_results@.len() - i,
        {
            let v = raw_results[i];
            if !roll.dice_type.is_valid_value(v) {
                let mut msg = String::from_str("Invalid die result ");
                append_decimal(&mut msg, v as u64);
                msg.append(" for ");
                let d = roll.dice_type.to_string();
                msg.append(d.as_str());
                assert(!all_valid(raw_results@, roll.dice_type) && raw_results@[i as int] == v);
                return Err(DomainError::InvalidDiceRoll(msg));
            }
            assert(raw_results@.take(i + 1).drop_last() =~= raw_results@.take(i as int));
            total = total + v as u32;
            i = i + 1;
        }
        assert(raw_results@.take(i as int) =~= raw_results@);
        let final_result = total as i32 + roll.modifier.total_modifier();
        Ok(DiceResult {
            roll,
            raw_results,
            total_raw: total,
            final_result,
            is_critical_success,
            is_critical_failure,
        })
    }

    /// Whether the result meets or exceeds a difficulty.
    pub fn meets_difficulty(&self, difficulty: u8) -> (r: bool)
        ensures
            r == (self.final_result >= difficulty),
    {
        self.final_result >= difficulty as i32
    }

    /// Margin of success (positive) or failure (negative).
    pub fn margin(&self, difficulty: u8) -> (r: i32)
        requires
            self.final_result - difficulty >= i32::MIN,
        ensures
            r == self.final_result - difficulty,
    {
        self.final_result - difficulty as i32
    }

    /// Whether the roll succeeds against a difficulty.
    pub fn is_success(&self, difficulty: u8) -> (r: bool)
        ensures
            r == (self.final_result >= difficulty),
    {
        self.meets_difficulty(difficulty)
    }

    /// Success level: critical flags first, then by margin.
    pub fn success_level(&self, difficulty: u8) -> (r: SuccessLevel)
        requires
            self.final_result - difficulty >= i32::MIN,
        ensures
            r == level_for(self.is_critical_success, self.is_critical_failure, self.final_result - difficulty),
    {
        if self.is_critical_failure {
            return SuccessLevel::CriticalFailure;
        }
        if self.is_critical_success {
            return SuccessLevel::CriticalSuccess;
        }
        let margin = self.margin(difficulty);
        if margin >= 10 {
            SuccessLevel::ExceptionalSuccess
        } else if margin >= 5 {
            SuccessLevel::GoodSuccess
        } else if margin >= 0 {
            SuccessLevel::Success
        } else if margin >= -5 {
            SuccessLevel::Failure
        } else {
            SuccessLevel::CriticalFailure
        }
    }

    /// "17 (Good Success)" against a difficulty, or the bare result without one.
    pub fn description(&self, difficulty: Option<u8>) -> (r: String)
        requires
            self.final_result - 255 >= i32::MIN,
        ensures
            r@ == match difficulty {
                Some(d) => signed_decimal(self.final_result as int) + " ("@
                    + level_for(self.is_critical_success, self.is_critical_failure, self.final_result - d).spec_name() + ")"@,
                None => signed_decimal(self.final_result as int),
            },
    {
        let mut s = String::new();
        append_signed_decimal(&mut s, self.final_result as i64);
        match difficulty {
            Some(d) => {
                let level = self.success_level(d);
                s.append(" (");
                let name = level.to_string();
                s.append(name.as_str());
                s.append(")");
            },
            None => {},
        }
        s
    }

    /// Text of a result: "4", "15+2=17", "[3, 5]=8".
    pub open spec fn spec_text(&self) -> Seq<char> {
        if self.raw_results@.len() == 1 {
            if self.roll.modifier.total() == 0 {
                signed_decimal(self.final_result as int)
            } else {
                decimal(self.raw_results@[0] as nat) + self.roll.modifier.spec_text() + seq!['=']
                    + signed_decimal(self.final_result as int)
            }
        } else {
            seq!['['] + joined_values(self.raw_results@) + seq![']'] + self.roll.modifier.spec_text()
                + seq!['='] + signed_decimal(self.final_result as int)
        }
    }

    /// Text of the result as shown in the roll log.
    pub fn to_string(&self) -> (r: String)
        requires
            self.roll.modifier.total_fits(),
        ensures
            r@ == self.spec_text(),
    {
        proof {
            reveal_strlit("=");
            reveal_strlit("[");
            reveal_strlit("]");
        }
        let mut s = String::new();
        if self.raw_results.len() == 1 {
            if self.roll.modifier.is_zero() {
                append_signed_decimal(&mut s, self.final_result as i64);
            } else {
                append_decimal(&mut s, self.raw_results[0] as u64);
                let m = self.roll.modifier.to_string();
                s.append(m.as_str());
                s.append("=");
                append_signed_decimal(&mut s, self.final_result as i64);
            }
        } else {
            s.append("[");
            append_joined_values(&mut s, &self.raw_results);
            s.append("]");
            let m = self.roll.modifier.to_string();
            s.append(m.as_str());
            s.append("=");
            append_signed_decimal(&mut s, self.final_result as i64);
        }
        assert(s@ =~= self.spec_text());
        s
    }
}

/// Values separated by ", ".
pub open spec fn joined_values(s: Seq<u8>) -> Seq<char>
    decreases s.len(),
{
    if s.len() == 0 {
        Seq::empty()
    } else if s.len() == 1 {
        decimal(s[0] as nat)
    } else {
        joined_values(s.drop_last()) + ", "@ + decimal(s.last() as nat)
    }
}

fn append_joined_values(s: &mut String, values: &Vec<u8>)
    ensures
        final(s)@ == old(s)@ + joined_values(values@),
{
    let ghost start = s@;
    let mut i: usize = 0;
    while i < values.len()
        invariant
            0 <= i <= values@.len(),
            s@ == start + joined_values(values@.take(i as int)),
        decreases values@.len() - i,
    {
        if i > 0 {
            s.append(", ");
        }
        append_decimal(s, values[i] as u64);
        proof {
            let t = values@.take(i + 1);
            assert(t.drop_last() =~= values@.take(i as int));
            if i == 0 {
                assert(values@.take(0) =~= Seq::<u8>::empty());
            }
        }
        assert(s@ =~= start + joined_values(values@.take(i + 1)));
        i = i + 1;
    }
    assert(values@.take(i as int) =~= values@);
}

impl Default for DiceResult {
    fn default() -> (r: Self)
        ensures
            roll_of(r.roll, 1, DiceType::D6, (DiceModifier { stat_modifier: 0, equipment_bonus: 0, situational_modifier: 0, luck_bonus: 0 })) && r.raw_results@.len() == 0
                && r.total_raw == 0 && r.final_result == 0 && !r.is_critical_success && !r.is_critical_failure,
    {
        DiceResult {
            roll: DiceRoll::default(),
            raw_results: Vec::new(),
            total_raw: 0,
            final_result: 0,
            is_critical_success: false,
            is_critical_failure: false,
        }
    }
}

/// Dice showing valid faces total at least one per die and at most the number of
/// faces per die: a result lies between the lowest and highest results of its roll.
pub proof fn dice_totals_stay_in_range(values: Seq<u8>, d: DiceType)
    requires
        all_valid(values, d),
    ensures
        values.len() <= sum_values(values) <= values.len() * d.faces(),
    decreases values.len(),
{
    if values.len() > 0 {
        let rest = values.drop_last();
        assert forall|i: int| 0 <= i < rest.len() implies 1 <= #[trigger] rest[i] <= d.faces() by {
            assert(rest[i] == values[i]);
        }
        dice_totals_stay_in_range(rest, d);
        assert(1 <= values[values.len() - 1] <= d.faces());
        assert(rest.len() * d.faces() + d.faces() == values.len() * d.faces()) by (nonlinear_arith)
            requires
                rest.len() + 1 == values.len(),
        ;
    }
}

} // verus!
