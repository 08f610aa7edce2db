//! Meal-suggestion library for toddler and family meal planning.
//!
//! The food store is modelled as plain data: a table of foods with dietary
//! flags and a relation from food identifiers to allergy tags. The library
//! filters foods by category and dietary restriction, picks random
//! suggestions per meal, resolves allergens, and formats the result.

pub mod allergy;
pub mod model;
pub mod present;
pub mod query;
pub mod suggest;
