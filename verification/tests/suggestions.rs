use fussy_food::model::{
    AllergyRow, CommonAllergy, DietaryRestriction, Food, FoodCategory, FoodError, FoodStore,
    MealType, diet_flags,
};
use fussy_food::allergy::allergens_for;
use fussy_food::query::find_foods;
use fussy_food::suggest::{get_meal_suggestions, get_random_fruit, suggest_meal, suggest_one};

fn food(
    id: i32,
    name: &str,
    category: FoodCategory,
    toddler_approved: bool,
    is_vegetarian: bool,
    is_vegan: bool,
    is_pescatarian: bool,
) -> Food {
    Food {
        id,
        name: name.to_string(),
        category,
        toddler_approved,
        is_vegetarian,
        is_vegan,
        is_pescatarian,
    }
}

fn sample_store() -> FoodStore {
    FoodStore {
        foods: vec![
            food(1, "banana", FoodCategory::Fruit, true, true, true, true),
            food(2, "broccoli", FoodCategory::Vegetable, true, true, false, true),
            food(3, "salmon bites", FoodCategory::Other, false, false, false, true),
            food(4, "grapes", FoodCategory::Fruit, false, true, true, true),
        ],
        allergies: vec![
            AllergyRow { food_id: 3, allergy: CommonAllergy::Fish },
            AllergyRow { food_id: 2, allergy: CommonAllergy::Soy },
            AllergyRow { food_id: 3, allergy: CommonAllergy::Sesame },
        ],
    }
}

#[test]
fn diet_flags_mapping() {
    assert_eq!(diet_flags(DietaryRestriction::Unrestricted), (false, false, false));
    assert_eq!(diet_flags(DietaryRestriction::Vegetarian), (true, false, false));
    assert_eq!(diet_flags(DietaryRestriction::Vegan), (true, true, false));
    assert_eq!(diet_flags(DietaryRestriction::Pescatarian), (false, false, true));
}

#[test]
fn find_foods_vegan_only_returns_vegan() {
    let store = sample_store();
    let (vegetarian, vegan, pescatarian) = diet_flags(DietaryRestriction::Vegan);
    let r = find_foods(&store, FoodCategory::Fruit, vegetarian, vegan, pescatarian, false);
    assert_eq!(r.len(), 2);
    for f in &r {
        assert!(f.is_vegan);
        assert!(f.is_vegetarian);
        assert_eq!(f.category, FoodCategory::Fruit);
    }
    assert_eq!(r[0].name, "banana");
    assert_eq!(r[1].name, "grapes");
}

#[test]
fn find_foods_toddler_only_returns_approved() {
    let store = sample_store();
    let r = find_foods(&store, FoodCategory::Fruit, false, false, false, true);
    assert_eq!(r.len(), 1);
    assert!(r[0].toddler_approved);
    assert_eq!(r[0].name, "banana");
}

#[test]
fn find_foods_nothing_matches_gives_empty_set() {
    let store = sample_store();
    let r = find_foods(&store, FoodCategory::Vegetable, false, true, false, false);
    assert!(r.is_empty());
}

#[test]
fn suggest_one_empty_is_not_found() {
    let r = suggest_one(&Vec::new());
    assert_eq!(r.unwrap_err(), FoodError::NotFound);
}

#[test]
fn suggest_one_singleton_returns_the_candidate() {
    let candidates = vec![food(9, "kiwi", FoodCategory::Fruit, true, true, true, true)];
    let r = suggest_one(&candidates).unwrap();
    assert_eq!(r.id, 9);
    assert_eq!(r.name, "kiwi");
}

#[test]
fn suggest_one_always_picks_a_member() {
    let candidates = vec![
        food(1, "apple", FoodCategory::Fruit, true, true, true, true),
        food(2, "pear", FoodCategory::Fruit, true, true, true, true),
        food(3, "plum", FoodCategory::Fruit, true, true, true, true),
    ];
    for _ in 0..50 {
        let r = suggest_one(&candidates).unwrap();
        assert!(candidates.iter().any(|c| c.id == r.id && c.name == r.name));
    }
}

#[test]
fn meal_with_fruit_and_vegetable_gives_two_options() {
    let store = sample_store();
    let r = get_meal_suggestions(&store, false, false, false, false);
    assert_eq!(r.len(), 2);
    assert_eq!(r[0].category, FoodCategory::Fruit);
    assert_eq!(r[1].category, FoodCategory::Vegetable);
    assert_eq!(r[1].name, "broccoli");
}

#[test]
fn meal_with_only_fruit_omits_the_vegetable() {
    let store = sample_store();
    // vegan filters out the only vegetable, so one suggestion remains
    let (vegetarian, vegan, pescatarian) = diet_flags(DietaryRestriction::Vegan);
    let r = get_meal_suggestions(&store, vegetarian, vegan, pescatarian, false);
    assert_eq!(r.len(), 1);
    assert_eq!(r[0].category, FoodCategory::Fruit);
}

#[test]
fn meal_with_no_candidates_is_empty() {
    let store = FoodStore { foods: Vec::new(), allergies: Vec::new() };
    let r = get_meal_suggestions(&store, false, false, false, false);
    assert!(r.is_empty());
}

#[test]
fn snack_without_fruit_is_not_found() {
    let store = FoodStore {
        foods: vec![food(2, "broccoli", FoodCategory::Vegetable, true, true, false, true)],
        allergies: Vec::new(),
    };
    let r = suggest_meal(&store, MealType::Snack, DietaryRestriction::Unrestricted, false);
    assert_eq!(r.unwrap_err(), FoodError::NotFound);
}

#[test]
fn snack_with_fruit_returns_exactly_one_fruit() {
    let store = sample_store();
    let r = suggest_meal(&store, MealType::Snack, DietaryRestriction::Unrestricted, false).unwrap();
    assert_eq!(r.len(), 1);
    assert_eq!(r[0].category, FoodCategory::Fruit);
}

#[test]
fn get_random_fruit_respects_filters() {
    let store = sample_store();
    for _ in 0..20 {
        let f = get_random_fruit(&store, false, false, false, true).unwrap();
        assert_eq!(f.name, "banana");
    }
}

#[test]
fn vegan_dinner_in_toddler_mode_offers_the_fruit_only() {
    let store = FoodStore {
        foods: vec![
            food(1, "banana", FoodCategory::Fruit, true, true, true, true),
            food(2, "broccoli", FoodCategory::Vegetable, true, true, false, true),
        ],
        allergies: Vec::new(),
    };
    let r = suggest_meal(&store, MealType::Dinner, DietaryRestriction::Vegan, true).unwrap();
    assert_eq!(r.len(), 1);
    assert_eq!(r[0].name, "banana");
}

#[test]
fn family_snack_with_no_fruits_fails() {
    let store = FoodStore {
        foods: vec![food(2, "broccoli", FoodCategory::Vegetable, true, true, true, true)],
        allergies: Vec::new(),
    };
    let r = suggest_meal(&store, MealType::Snack, DietaryRestriction::Unrestricted, false);
    assert_eq!(r.unwrap_err(), FoodError::NotFound);
}

#[test]
fn allergens_for_food_without_rows_is_empty() {
    let store = sample_store();
    let r = allergens_for(&store, 1);
    assert!(r.is_empty());
}

#[test]
fn allergens_for_returns_the_recorded_tags_in_order() {
    let store = sample_store();
    let r = allergens_for(&store, 3);
    assert_eq!(r, vec![CommonAllergy::Fish, CommonAllergy::Sesame]);
    let r2 = allergens_for(&store, 2);
    assert_eq!(r2, vec![CommonAllergy::Soy]);
}
