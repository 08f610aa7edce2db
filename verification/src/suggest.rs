//! Suggestion engine: random picks from filtered candidate sets, and the
//! per-meal composition of fruit and vegetable picks.

use vstd::prelude::*;
use crate::model::{DietaryRestriction, Food, FoodCategory, FoodError, FoodStore, MealType,
    diet_flags, spec_diet_flags};
use crate::query::{find_foods, matching_foods};

verus! {

/// The foods of `foods` eligible for `category` under the flags that the
/// dietary restriction `diet` derives, plus the toddler filter.
pub open spec fn diet_candidates(
    foods: Seq<Food>,
    category: FoodCategory,
    diet: DietaryRestriction,
    toddler_only: bool,
) -> Seq<Food> {
    matching_foods(
        foods,
        category,
        spec_diet_flags(diet).0,
        spec_diet_flags(diet).1,
        spec_diet_flags(diet).2,
        toddler_only,
    )
}

/// Relies on rand::random_range: a uniformly random sample from the range
/// `0..n`, which always lies inside it. The range must be non-empty, since
/// rand panics on an empty one.
#[verifier::external_body]
fn random_index(n: usize) -> (r: usize)
    requires
        n > 0,
    ensures
        r < n,
{
    rand::random_range(0..n)
}

/// A uniformly random pick from a non-empty candidate set; `NotFound` exactly
/// when the set is empty. Which member comes back is left open: only
/// membership is promised.
pub fn suggest_one(candidates: &Vec<Food>) -> (r: Result<Food, FoodError>)
    ensures
        r is Ok <==> candidates@.len() > 0,
        r is Ok ==> candidates@.contains(r->Ok_0),
        r is Err ==> r == Err::<Food, FoodError>(FoodError::NotFound),
{
    if candidates.len() == 0 {
        Err(FoodError::NotFound)
    } else {
        let i = random_index(candidates.len());
        let f = candidates[i].clone();
        proof {
            assert(candidates@.contains(candidates@[i as int]));
        }
        Ok(f)
    }
}

/// A random fruit eligible under the given filter flags; `NotFound` exactly
/// when no fruit in the store passes them.
pub fn get_random_fruit(
    store: &FoodStore,
    vegetarian: bool,
    vegan: bool,
    pescatarian: bool,
    toddler_only: bool,
) -> (r: Result<Food, FoodError>)
    ensures
        r is Ok <==> matching_foods(
            store.foods@,
            FoodCategory::Fruit,
            vegetarian,
            vegan,
            pescatarian,
            toddler_only,
        ).len() > 0,
        r is Ok ==> matching_foods(
            store.foods@,
            FoodCategory::Fruit,
            vegetarian,
            vegan,
            pescatarian,
            toddler_only,
        ).contains(r->Ok_0),
        r is Err ==> r == Err::<Food, FoodError>(FoodError::NotFound),
{
    let foods = find_foods(store, FoodCategory::Fruit, vegetarian, vegan, pescatarian, toddler_only);
    suggest_one(&foods)
}

/// A random vegetable eligible under the given filter flags; `NotFound`
/// exactly when no vegetable in the store passes them.
pub fn get_random_vegetable(
    store: &FoodStore,
    vegetarian: bool,
    vegan: bool,
    pescatarian: bool,
    toddler_only: bool,
) -> (r: Result<Food, FoodError>)
    ensures
        r is Ok <==> matching_foods(
            store.foods@,
            FoodCategory::Vegetable,
            vegetarian,
            vegan,
            pescatarian,
            toddler_only,
        ).len() > 0,
        r is Ok ==> matching_foods(
            store.foods@,
            FoodCategory::Vegetable,
            vegetarian,
            vegan,
            pescatarian,
            toddler_only,
        ).contains(r->Ok_0),
        r is Err ==> r == Err::<Food, FoodError>(FoodError::NotFound),
{
    let foods = find_foods(
        store,
        FoodCategory::Vegetable,
        vegetarian,
        vegan,
        pescatarian,
        toddler_only,
    );
    suggest_one(&foods)
}

/// One fruit pick and one vegetable pick, each attempted independently and
/// silently omitted when it finds no candidate: zero, one or two suggestions,
/// fruit first.
pub fn get_meal_suggestions(
    store: &FoodStore,
    vegetarian: bool,
    vegan: bool,
    pescatarian: bool,
    toddler_only: bool,
) -> (r: Vec<Food>)
    ensures
        ({
            let fruits = matching_foods(
                store.foods@,
                FoodCategory::Fruit,
                vegetarian,
                vegan,
                pescatarian,
                toddler_only,
            );
            let vegetables = matching_foods(
                store.foods@,
                FoodCategory::Vegetable,
                vegetarian,
                vegan,
                pescatarian,
                toddler_only,
            );
            &&& r@.len() <= 2
            &&& (fruits.len() > 0 && vegetables.len() > 0) ==> (r@.len() == 2 && fruits.contains(
                r@[0],
            ) && vegetables.contains(r@[1]))
            &&& (fruits.len() > 0 && vegetables.len() == 0) ==> (r@.len() == 1 && fruits.contains(
                r@[0],
            ))
            &&& (fruits.len() == 0 && vegetables.len() > 0) ==> (r@.len() == 1
                && vegetables.contains(r@[0]))
            &&& (fruits.len() == 0 && vegetables.len() == 0) ==> r@.len() == 0
        }),
{
    let mut suggestions: Vec<Food> = Vec::new();
    if let Ok(fruit) = get_random_fruit(store, vegetarian, vegan, pescatarian, toddler_only) {
        suggestions.push(fruit);
    }
    if let Ok(vegetable) = get_random_vegetable(store, vegetarian, vegan, pescatarian, toddler_only) {
        suggestions.push(vegetable);
    }
    suggestions
}

/// The meal suggestion for one request. Breakfast, lunch and dinner tolerate
/// partial results: a fruit and a vegetable pick are attempted and a failed
/// pick is omitted, so they always succeed with zero to two foods. A snack is
/// fruit-only and has nothing to offer without one, so it fails with
/// `NotFound` exactly when no fruit candidate exists, and otherwise returns
/// exactly one fruit.
pub fn suggest_meal(
    store: &FoodStore,
    meal: MealType,
    diet: DietaryRestriction,
    toddler_only: bool,
) -> (r: Result<Vec<Food>, FoodError>)
    ensures
        ({
            let fruits = diet_candidates(store.foods@, FoodCategory::Fruit, diet, toddler_only);
            let vegetables = diet_candidates(
                store.foods@,
                FoodCategory::Vegetable,
                diet,
                toddler_only,
            );
            &&& meal != MealType::Snack ==> (r is Ok && {
                let foods = r->Ok_0@;
                &&& foods.len() <= 2
                &&& (fruits.len() > 0 && vegetables.len() > 0) ==> (foods.len() == 2
                    && fruits.contains(foods[0]) && vegetables.contains(foods[1]))
                &&& (fruits.len() > 0 && vegetables.len() == 0) ==> (foods.len() == 1
                    && fruits.contains(foods[0]))
                &&& (fruits.len() == 0 && vegetables.len() > 0) ==> (foods.len() == 1
                    && vegetables.contains(foods[0]))
                &&& (fruits.len() == 0 && vegetables.len() == 0) ==> foods.len() == 0
            })
            &&& meal == MealType::Snack ==> {
                &&& r is Ok <==> fruits.len() > 0
                &&& r is Ok ==> (r->Ok_0@.len() == 1 && fruits.contains(r->Ok_0@[0]))
                &&& r is Err ==> r == Err::<Vec<Food>, FoodError>(FoodError::NotFound)
            }
        }),
{
    let (vegetarian, vegan, pescatarian) = diet_flags(diet);
    match meal {
        MealType::Snack => {
            let fruit = match get_random_fruit(store, vegetarian, vegan, pescatarian, toddler_only) {
                Ok(f) => f,
                Err(e) => {
                    return Err(e);
                },
            };
            let mut foods: Vec<Food> = Vec::new();
            foods.push(fruit);
            Ok(foods)
        },
        _ => {
            Ok(get_meal_suggestions(store, vegetarian, vegan, pescatarian, toddler_only))
        },
    }
}

} // verus!
