//! Presentation layer: renders a food suggestion, with its allergens and
//! warnings, as a human-readable block of text.

use vstd::prelude::*;
use crate::allergy::{allergens_for, allergens_of};
use crate::model::{AllergyRow, CommonAllergy, Food, FoodCategory, FoodStore};

verus! {

/// The display form of a dietary flag.
pub open spec fn yes_no(b: bool) -> Seq<char> {
    if b {
        "Yes"@
    } else {
        "No"@
    }
}

/// The display name of an allergy tag.
pub open spec fn allergy_label(a: CommonAllergy) -> Seq<char> {
    match a {
        CommonAllergy::Dairy => "Dairy"@,
        CommonAllergy::Eggs => "Eggs"@,
        CommonAllergy::Peanuts => "Peanuts"@,
        CommonAllergy::TreeNuts => "TreeNuts"@,
        CommonAllergy::Soy => "Soy"@,
        CommonAllergy::Wheat => "Wheat"@,
        CommonAllergy::Fish => "Fish"@,
        CommonAllergy::Shellfish => "Shellfish"@,
        CommonAllergy::Sesame => "Sesame"@,
    }
}

/// The display name of a food category.
pub open spec fn category_label(c: FoodCategory) -> Seq<char> {
    match c {
        FoodCategory::Fruit => "fruit"@,
        FoodCategory::Vegetable => "vegetable"@,
        FoodCategory::Other => "other"@,
    }
}

/// One bulleted line per allergy tag, in sequence order.
pub open spec fn allergy_lines(allergies: Seq<CommonAllergy>) -> Seq<char>
    decreases allergies.len(),
{
    if allergies.len() == 0 {
        Seq::empty()
    } else {
        allergy_lines(allergies.drop_last()) + "  - "@ + allergy_label(allergies.last()) + "\n"@
    }
}

/// The multi-line block for one food: name, category, the three dietary
/// flags, a warning when the food is not toddler-approved, and a bulleted
/// allergen list when the food has allergens.
pub open spec fn food_block(f: Food, allergies: Seq<CommonAllergy>) -> Seq<char> {
    "Suggested food: "@ + f.name@ + "\n"@ + "Type: "@ + category_label(f.category) + "\n"@
        + "Dietary info:\n"@ + "  - Vegetarian: "@ + yes_no(f.is_vegetarian) + "\n"@
        + "  - Vegan: "@ + yes_no(f.is_vegan) + "\n"@ + "  - Pescatarian: "@ + yes_no(
        f.is_pescatarian,
    ) + "\n"@ + (if !f.toddler_approved {
        "\nWarning: This food is not toddler-approved and may need substitution!\n"@
    } else {
        Seq::<char>::empty()
    }) + (if allergies.len() > 0 {
        "\nContains allergens:\n"@ + allergy_lines(allergies)
    } else {
        Seq::<char>::empty()
    })
}

/// The blocks for a sequence of foods, each under its own option header, in
/// sequence order, with each food's allergens resolved from the relation.
pub open spec fn option_blocks(foods: Seq<Food>, rows: Seq<AllergyRow>) -> Seq<char>
    decreases foods.len(),
{
    if foods.len() == 0 {
        Seq::empty()
    } else {
        option_blocks(foods.drop_last(), rows) + "\nOption:\n"@ + food_block(
            foods.last(),
            allergens_of(rows, foods.last().id),
        )
    }
}

/// The full rendering of a meal suggestion: a header, then one option block
/// per suggested food.
pub open spec fn meal_block(foods: Seq<Food>, rows: Seq<AllergyRow>) -> Seq<char> {
    "\nMeal Suggestions:\n----------------\n"@ + option_blocks(foods, rows)
}

/// The display form of a dietary flag.
pub fn yes_no_str(b: bool) -> (r: &'static str)
    ensures
        r@ == yes_no(b),
{
    if b {
        "Yes"
    } else {
        "No"
    }
}

/// The display name of an allergy tag.
pub fn allergy_name(a: CommonAllergy) -> (r: &'static str)
    ensures
        r@ == allergy_label(a),
{
    match a {
        CommonAllergy::Dairy => "Dairy",
        CommonAllergy::Eggs => "Eggs",
        CommonAllergy::Peanuts => "Peanuts",
        CommonAllergy::TreeNuts => "TreeNuts",
        CommonAllergy::Soy => "Soy",
        CommonAllergy::Wheat => "Wheat",
        CommonAllergy::Fish => "Fish",
        CommonAllergy::Shellfish => "Shellfish",
        CommonAllergy::Sesame => "Sesame",
    }
}

/// The display name of a food category.
pub fn category_name(c: FoodCategory) -> (r: &'static str)
    ensures
        r@ == category_label(c),
{
    match c {
        FoodCategory::Fruit => "fruit",
        FoodCategory::Vegetable => "vegetable",
        FoodCategory::Other => "other",
    }
}

/// Renders one food and its allergens as the multi-line suggestion block.
pub fn format_food_suggestion(food: &Food, allergies: &Vec<CommonAllergy>) -> (r: String)
    ensures
        r@ == food_block(*food, allergies@),
{
    let mut out = String::new();
    out.append("Suggested food: ");
    out.append(food.name.as_str());
    out.append("\n");
    out.append("Type: ");
    out.append(category_name(food.category));
    out.append("\n");
    out.append("Dietary info:\n");
    out.append("  - Vegetarian: ");
    out.append(yes_no_str(food.is_vegetarian));
    out.append("\n");
    out.append("  - Vegan: ");
    out.append(yes_no_str(food.is_vegan));
    out.append("\n");
    out.append("  - Pescatarian: ");
    out.append(yes_no_str(food.is_pescatarian));
    out.append("\n");
    if !food.toddler_approved {
        out.append("\nWarning: This food is not toddler-approved and may need substitution!\n");
    }
    let ghost flags_part = out@;
    if allergies.len() > 0 {
        out.append("\nContains allergens:\n");
        let ghost list_start = out@;
        let mut i: usize = 0;
        while i < allergies.len()
            invariant
                i <= allergies@.len(),
                list_start == flags_part + "\nContains allergens:\n"@,
                out@ == list_start + allergy_lines(allergies@.take(i as int)),
            decreases allergies@.len() - i,
        {
            out.append("  - ");
            out.append(allergy_name(allergies[i]));
            out.append("\n");
            proof {
                assert(allergies@.take(i + 1).drop_last() =~= allergies@.take(i as int));
                assert(allergies@.take(i + 1).last() == allergies@[i as int]);
                assert(out@ =~= list_start + allergy_lines(allergies@.take(i + 1)));
            }
            i = i + 1;
        }
        proof {
            assert(allergies@.take(allergies@.len() as int) =~= allergies@);
            assert(out@ =~= food_block(*food, allergies@));
        }
    } else {
        proof {
            assert(out@ =~= food_block(*food, allergies@));
        }
    }
    out
}

/// Renders a meal's suggested foods under the meal header, resolving each
/// food's allergens from the store's relation.
pub fn format_meal_suggestions(store: &FoodStore, foods: &Vec<Food>) -> (r: String)
    ensures
        r@ == meal_block(foods@, store.allergies@),
{
    let mut out = String::from_str("\nMeal Suggestions:\n----------------\n");
    let mut i: usize = 0;
    while i < foods.len()
        invariant
            i <= foods@.len(),
            out@ == meal_block(foods@.take(i as int), store.allergies@),
        decreases foods@.len() - i,
    {
        out.append("\nOption:\n");
        let allergies = allergens_for(store, foods[i].id);
        let block = format_food_suggestion(&foods[i], &allergies);
        out.append(block.as_str());
        proof {
            assert(foods@.take(i + 1).drop_last() =~= foods@.take(i as int));
            assert(foods@.take(i + 1).last() == foods@[i as int]);
            assert(out@ =~= meal_block(foods@.take(i + 1), store.allergies@));
        }
        i = i + 1;
    }
    proof {
        assert(foods@.take(foods@.len() as int) =~= foods@);
    }
    out
}

} // verus!
