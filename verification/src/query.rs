//! Query layer: filtered lookups of foods by category and dietary flags.

use vstd::prelude::*;
use vstd::seq_lib::group_seq_properties;
use crate::model::{DietaryRestriction, Food, FoodCategory, FoodStore, spec_diet_flags};

verus! {

/// Whether a food is eligible under the given category and filter flags: the
/// category must match exactly, and each active flag (vegetarian, vegan,
/// pescatarian, toddler-only) requires the corresponding food flag to be
/// true; an inactive flag imposes no constraint.
pub open spec fn food_matches(
    f: Food,
    category: FoodCategory,
    vegetarian: bool,
    vegan: bool,
    pescatarian: bool,
    toddler_only: bool,
) -> bool {
    &&& f.category == category
    &&& (vegetarian ==> f.is_vegetarian)
    &&& (vegan ==> f.is_vegan)
    &&& (pescatarian ==> f.is_pescatarian)
    &&& (toddler_only ==> f.toddler_approved)
}

/// The subsequence of `foods` that is eligible under the given category and
/// filter flags, in store order.
pub open spec fn matching_foods(
    foods: Seq<Food>,
    category: FoodCategory,
    vegetarian: bool,
    vegan: bool,
    pescatarian: bool,
    toddler_only: bool,
) -> Seq<Food> {
    foods.filter(
        |f: Food| food_matches(f, category, vegetarian, vegan, pescatarian, toddler_only),
    )
}

/// Returns every food of the store whose category matches exactly and which
/// satisfies every active dietary filter; an empty vector (not an error) when
/// nothing matches. The result keeps store order.
pub fn find_foods(
    store: &FoodStore,
    category: FoodCategory,
    vegetarian: bool,
    vegan: bool,
    pescatarian: bool,
    toddler_only: bool,
) -> (r: Vec<Food>)
    ensures
        r@ == matching_foods(store.foods@, category, vegetarian, vegan, pescatarian, toddler_only),
{
    let foods = &store.foods;
    let mut r: Vec<Food> = Vec::new();
    let mut i: usize = 0;
    while i < foods.len()
        invariant
            i <= foods@.len(),
            r@ == matching_foods(
                foods@.take(i as int),
                category,
                vegetarian,
                vegan,
                pescatarian,
                toddler_only,
            ),
        decreases foods@.len() - i,
    {
        let f = &foods[i];
        if f.category == category && (!vegetarian || f.is_vegetarian) && (!vegan || f.is_vegan)
            && (!pescatarian || f.is_pescatarian) && (!toddler_only || f.toddler_approved) {
            r.push(f.clone());
        }
        proof {
            reveal(Seq::filter);
            assert(foods@.take(i + 1).drop_last() =~= foods@.take(i as int));
            assert(foods@.take(i + 1).last() == foods@[i as int]);
        }
        i = i + 1;
    }
    proof {
        assert(foods@.take(foods@.len() as int) =~= foods@);
    }
    r
}

/// A food that the filter kept is a food of the store that satisfies the
/// category and every active flag.
pub proof fn lemma_matching_food_is_eligible(
    foods: Seq<Food>,
    category: FoodCategory,
    vegetarian: bool,
    vegan: bool,
    pescatarian: bool,
    toddler_only: bool,
    f: Food,
)
    requires
        matching_foods(foods, category, vegetarian, vegan, pescatarian, toddler_only).contains(f),
    ensures
        food_matches(f, category, vegetarian, vegan, pescatarian, toddler_only),
        foods.contains(f),
    decreases foods.len(),
{
    reveal(Seq::filter);
    let kept = matching_foods(foods, category, vegetarian, vegan, pescatarian, toddler_only);
    if foods.len() > 0 {
        let rest = matching_foods(
            foods.drop_last(),
            category,
            vegetarian,
            vegan,
            pescatarian,
            toddler_only,
        );
        if f == foods.last() && food_matches(
            f,
            category,
            vegetarian,
            vegan,
            pescatarian,
            toddler_only,
        ) {
            assert(foods.contains(f)) by {
                assert(foods[foods.len() - 1] == f);
            }
        } else {
            assert(rest.contains(f)) by {
                broadcast use group_seq_properties;

                let j = choose|j: int| 0 <= j < kept.len() && kept[j] == f;
                if kept == rest.push(foods.last()) {
                    assert(j < rest.len());
                    assert(rest[j] == f);
                }
            }
            lemma_matching_food_is_eligible(
                foods.drop_last(),
                category,
                vegetarian,
                vegan,
                pescatarian,
                toddler_only,
                f,
            );
            let j = choose|j: int|
                0 <= j < foods.drop_last().len() && foods.drop_last()[j] == f;
            assert(foods[j] == f);
        }
    }
}

/// Completeness of the query layer: every food of the store that matches the
/// category and every active flag appears in the filtered result.
pub proof fn lemma_matching_foods_complete(
    foods: Seq<Food>,
    category: FoodCategory,
    vegetarian: bool,
    vegan: bool,
    pescatarian: bool,
    toddler_only: bool,
    i: int,
)
    requires
        0 <= i < foods.len(),
        food_matches(foods[i], category, vegetarian, vegan, pescatarian, toddler_only),
    ensures
        matching_foods(foods, category, vegetarian, vegan, pescatarian, toddler_only).contains(
            foods[i],
        ),
{
    broadcast use vstd::seq_lib::group_filter_ensures;

}

/// The filtered result is empty exactly when no food of the store matches:
/// nothing matching yields an empty set, never an error.
pub proof fn lemma_matching_foods_empty_iff(
    foods: Seq<Food>,
    category: FoodCategory,
    vegetarian: bool,
    vegan: bool,
    pescatarian: bool,
    toddler_only: bool,
)
    ensures
        matching_foods(foods, category, vegetarian, vegan, pescatarian, toddler_only).len() == 0
            <==> (forall|i: int|
            0 <= i < foods.len() ==> !food_matches(
                foods[i],
                category,
                vegetarian,
                vegan,
                pescatarian,
                toddler_only,
            )),
{
    let kept = matching_foods(foods, category, vegetarian, vegan, pescatarian, toddler_only);
    if kept.len() == 0 {
        assert forall|i: int| 0 <= i < foods.len() implies !food_matches(
            foods[i],
            category,
            vegetarian,
            vegan,
            pescatarian,
            toddler_only,
        ) by {
            if food_matches(foods[i], category, vegetarian, vegan, pescatarian, toddler_only) {
                lemma_matching_foods_complete(
                    foods,
                    category,
                    vegetarian,
                    vegan,
                    pescatarian,
                    toddler_only,
                    i,
                );
            }
        }
    } else {
        assert(kept.contains(kept[0]));
        lemma_matching_food_is_eligible(
            foods,
            category,
            vegetarian,
            vegan,
            pescatarian,
            toddler_only,
            kept[0],
        );
    }
}

/// Dietary soundness of the query layer: every food the filter keeps under a
/// dietary restriction's derived flags satisfies that restriction exactly
/// (vegan implies both vegan and vegetarian flags), and in toddler mode is
/// toddler-approved.
pub proof fn lemma_diet_filter_sound(
    foods: Seq<Food>,
    category: FoodCategory,
    diet: DietaryRestriction,
    toddler_only: bool,
    f: Food,
)
    requires
        matching_foods(
            foods,
            category,
            spec_diet_flags(diet).0,
            spec_diet_flags(diet).1,
            spec_diet_flags(diet).2,
            toddler_only,
        ).contains(f),
    ensures
        f.category == category,
        diet == DietaryRestriction::Vegetarian ==> f.is_vegetarian,
        diet == DietaryRestriction::Vegan ==> f.is_vegan && f.is_vegetarian,
        diet == DietaryRestriction::Pescatarian ==> f.is_pescatarian,
        toddler_only ==> f.toddler_approved,
        foods.contains(f),
{
    lemma_matching_food_is_eligible(
        foods,
        category,
        spec_diet_flags(diet).0,
        spec_diet_flags(diet).1,
        spec_diet_flags(diet).2,
        toddler_only,
        f,
    );
}

} // verus!
