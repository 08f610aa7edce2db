//! Allergy resolver: the allergy tags recorded for one food identifier.

use vstd::prelude::*;
use crate::model::{AllergyRow, CommonAllergy, FoodStore};

verus! {

/// The allergy tags of the rows of `rows` whose food identifier is
/// `food_id`, in relation order.
pub open spec fn allergens_of(rows: Seq<AllergyRow>, food_id: i32) -> Seq<CommonAllergy>
    decreases rows.len(),
{
    if rows.len() == 0 {
        Seq::empty()
    } else {
        let rest = allergens_of(rows.drop_last(), food_id);
        if rows.last().food_id == food_id {
            rest.push(rows.last().allergy)
        } else {
            rest
        }
    }
}

/// A food with no rows in the relation resolves to no allergens; the result
/// is empty exactly when no row carries the food's identifier.
pub proof fn lemma_allergens_empty_iff_no_rows(rows: Seq<AllergyRow>, food_id: i32)
    ensures
        allergens_of(rows, food_id).len() == 0 <==> (forall|i: int|
            0 <= i < rows.len() ==> rows[i].food_id != food_id),
    decreases rows.len(),
{
    if rows.len() > 0 {
        lemma_allergens_empty_iff_no_rows(rows.drop_last(), food_id);
        if allergens_of(rows, food_id).len() == 0 {
            assert forall|i: int| 0 <= i < rows.len() implies rows[i].food_id != food_id by {
                if i < rows.len() - 1 {
                    assert(rows.drop_last()[i] == rows[i]);
                }
            }
        } else {
            if rows.last().food_id != food_id {
                let j = choose|j: int|
                    0 <= j < rows.drop_last().len() && rows.drop_last()[j].food_id == food_id;
                assert(rows[j].food_id == food_id);
            }
        }
    }
}

/// The allergy tags recorded for `food_id`, in relation order; an empty
/// vector (not an error) when the food has no recorded allergens.
pub fn allergens_for(store: &FoodStore, food_id: i32) -> (r: Vec<CommonAllergy>)
    ensures
        r@ == allergens_of(store.allergies@, food_id),
        r@.len() == 0 <==> (forall|i: int|
            0 <= i < store.allergies@.len() ==> store.allergies@[i].food_id != food_id),
{
    let rows = &store.allergies;
    let mut r: Vec<CommonAllergy> = Vec::new();
    let mut i: usize = 0;
    while i < rows.len()
        invariant
            i <= rows@.len(),
            r@ == allergens_of(rows@.take(i as int), food_id),
        decreases rows@.len() - i,
    {
        let row = &rows[i];
        if row.food_id == food_id {
            r.push(row.allergy);
        }
        proof {
            assert(rows@.take(i + 1).drop_last() =~= rows@.take(i as int));
            assert(rows@.take(i + 1).last() == rows@[i as int]);
        }
        i = i + 1;
    }
    proof {
        assert(rows@.take(rows@.len() as int) =~= rows@);
        lemma_allergens_empty_iff_no_rows(rows@, food_id);
    }
    r
}

} // verus!
