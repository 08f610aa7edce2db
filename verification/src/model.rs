//! Data model: foods, allergy tags, dietary restrictions and meal types.

use vstd::prelude::*;

verus! {

/// The closed set of allergy tags a food can carry.
#[derive(Clone, Copy, Debug, PartialEq, Eq, Structural)]
pub enum CommonAllergy {
    Dairy,
    Eggs,
    Peanuts,
    TreeNuts,
    Soy,
    Wheat,
    Fish,
    Shellfish,
    Sesame,
}

/// The food categories the suggestion logic distinguishes.
#[derive(Clone, Copy, Debug, PartialEq, Eq, Structural)]
pub enum FoodCategory {
    Fruit,
    Vegetable,
    Other,
}

/// A named dietary restriction, mapped to filter flags by `diet_flags`.
#[derive(Clone, Copy, Debug, PartialEq, Eq, Structural)]
pub enum DietaryRestriction {
    Unrestricted,
    Vegetarian,
    Vegan,
    Pescatarian,
}

/// The meal being planned; snacks are fruit-only.
#[derive(Clone, Copy, Debug, PartialEq, Eq, Structural)]
pub enum MealType {
    Breakfast,
    Lunch,
    Dinner,
    Snack,
}

/// The error kinds an invocation can surface. The library's own functions
/// only ever produce `NotFound`; the two failure kinds exist for callers that
/// reach the food store over a connection and map transport errors onto them.
#[derive(Clone, Copy, Debug, PartialEq, Eq, Structural)]
pub enum FoodError {
    ConnectionFailure,
    QueryFailure,
    NotFound,
}

/// One row of the foods table: reference data, read-only to this library.
#[derive(Debug)]
pub struct Food {
    pub id: i32,
    pub name: String,
    pub category: FoodCategory,
    pub toddler_approved: bool,
    pub is_vegetarian: bool,
    pub is_vegan: bool,
    pub is_pescatarian: bool,
}

impl Clone for Food {
    fn clone(&self) -> (r: Self)
        ensures
            r == *self,
    {
        Food {
            id: self.id,
            name: self.name.clone(),
            category: self.category,
            toddler_approved: self.toddler_approved,
            is_vegetarian: self.is_vegetarian,
            is_vegan: self.is_vegan,
            is_pescatarian: self.is_pescatarian,
        }
    }
}

/// One row of the food-to-allergy relation: the food with identifier
/// `food_id` carries the allergy tag `allergy`.
#[derive(Clone, Copy, Debug, PartialEq, Eq, Structural)]
pub struct AllergyRow {
    pub food_id: i32,
    pub allergy: CommonAllergy,
}

/// The food store as plain data: the foods table and the allergy relation.
/// Read-only reference data; callers load it from wherever it is kept.
pub struct FoodStore {
    pub foods: Vec<Food>,
    pub allergies: Vec<AllergyRow>,
}

/// The dietary filter flags derived from a restriction, as a spec-level triple
/// (vegetarian, vegan, pescatarian).
pub open spec fn spec_diet_flags(diet: DietaryRestriction) -> (bool, bool, bool) {
    match diet {
        DietaryRestriction::Unrestricted => (false, false, false),
        DietaryRestriction::Vegetarian => (true, false, false),
        DietaryRestriction::Vegan => (true, true, false),
        DietaryRestriction::Pescatarian => (false, false, true),
    }
}

/// Maps a dietary restriction to its (vegetarian, vegan, pescatarian) filter
/// flags: vegan implies vegetarian, pescatarian stands alone.
pub fn diet_flags(diet: DietaryRestriction) -> (r: (bool, bool, bool))
    ensures
        r == spec_diet_flags(diet),
{
    match diet {
        DietaryRestriction::Unrestricted => (false, false, false),
        DietaryRestriction::Vegetarian => (true, false, false),
        DietaryRestriction::Vegan => (true, true, false),
        DietaryRestriction::Pescatarian => (false, false, true),
    }
}

} // verus!
