//! Verified persistence rules for a small cookbook: ingredients, recipes and
//! the lines that tie an ingredient with a quantity to a recipe.

pub mod bootstrap;
pub mod db;
pub mod decimal;
pub mod error;
pub mod ingredient;
pub mod laws;
pub mod operation;
pub mod recipe;
pub mod recipe_ingredient;
pub mod rows;
pub mod security;
pub mod statement;
pub mod storage;

pub use db::Db;
pub use error::Error;
pub use ingredient::{Ingredient, IngredientMac, IngredientPatch};
pub use recipe::{Recipe, RecipeMac, RecipePatch, RecipePatchInner};
pub use recipe_ingredient::{RecipeIngredientMac, RecipeIngredientPatch};
pub use security::UserCtx;
