//! The statements that the stores send to the storage, and what the storage
//! answers. A store never touches the storage in any other way.

use crate::ingredient::{Ingredient, IngredientView};
use crate::recipe::{Recipe, RecipeView};
use crate::recipe_ingredient::{LineView, RecipeIngredientMac};
use vstd::prelude::*;
use vstd::string::*;

verus! {

/// One request to the storage.
#[derive(Debug, PartialEq, Eq)]
pub enum Statement {
    /// Opens a transaction.
    Begin,
    /// Makes the open transaction's writes permanent.
    Commit,
    /// Undoes the open transaction's writes.
    Rollback,
    InsertIngredient { name: String },
    SelectIngredient { id: i64 },
    UpdateIngredient { id: i64, name: String },
    DeleteIngredient { id: i64 },
    /// All ingredients, the highest identity first.
    ListIngredients,
    InsertRecipe { title: String, cid: i64 },
    SelectRecipe { id: i64 },
    UpdateRecipe { id: i64, title: String, cid: i64 },
    DeleteRecipe { id: i64 },
    /// All recipes, the highest identity first.
    ListRecipes,
    InsertLine {
        recipe_id: i64,
        ingredient_id: i64,
        ingredient_name: String,
        quantity: String,
        cid: i64,
    },
    SelectLine { recipe_id: i64, ingredient_id: i64 },
    UpdateLine { recipe_id: i64, ingredient_id: i64, quantity: String },
    DeleteLine { recipe_id: i64, ingredient_id: i64 },
    /// All lines, those of the highest recipe identity first.
    ListLines,
    ListLinesByRecipe { recipe_id: i64 },
    DeleteLinesByRecipe { recipe_id: i64 },
}

/// The mathematical content of a [`Statement`].
pub enum StatementView {
    Begin,
    Commit,
    Rollback,
    InsertIngredient { name: Seq<char> },
    SelectIngredient { id: int },
    UpdateIngredient { id: int, name: Seq<char> },
    DeleteIngredient { id: int },
    ListIngredients,
    InsertRecipe { title: Seq<char>, cid: int },
    SelectRecipe { id: int },
    UpdateRecipe { id: int, title: Seq<char>, cid: int },
    DeleteRecipe { id: int },
    ListRecipes,
    InsertLine {
        recipe_id: int,
        ingredient_id: int,
        ingredient_name: Seq<char>,
        quantity: Seq<char>,
        cid: int,
    },
    SelectLine { recipe_id: int, ingredient_id: int },
    UpdateLine { recipe_id: int, ingredient_id: int, quantity: Seq<char> },
    DeleteLine { recipe_id: int, ingredient_id: int },
    ListLines,
    ListLinesByRecipe { recipe_id: int },
    DeleteLinesByRecipe { recipe_id: int },
}

impl View for Statement {
    type V = StatementView;

    open spec fn view(&self) -> StatementView {
        match *self {
            Statement::Begin => StatementView::Begin,
            Statement::Commit => StatementView::Commit,
            Statement::Rollback => StatementView::Rollback,
            Statement::InsertIngredient { name } => StatementView::InsertIngredient { name: name@ },
            Statement::SelectIngredient { id } => StatementView::SelectIngredient { id: id as int },
            Statement::UpdateIngredient { id, name } => StatementView::UpdateIngredient {
                id: id as int,
                name: name@,
            },
            Statement::DeleteIngredient { id } => StatementView::DeleteIngredient { id: id as int },
            Statement::ListIngredients => StatementView::ListIngredients,
            Statement::InsertRecipe { title, cid } => StatementView::InsertRecipe {
                title: title@,
                cid: cid as int,
            },
            Statement::SelectRecipe { id } => StatementView::SelectRecipe { id: id as int },
            Statement::UpdateRecipe { id, title, cid } => StatementView::UpdateRecipe {
                id: id as int,
                title: title@,
                cid: cid as int,
            },
            Statement::DeleteRecipe { id } => StatementView::DeleteRecipe { id: id as int },
            Statement::ListRecipes => StatementView::ListRecipes,
            Statement::InsertLine {
                recipe_id,
                ingredient_id,
                ingredient_name,
                quantity,
                cid,
            } => StatementView::InsertLine {
                recipe_id: recipe_id as int,
                ingredient_id: ingredient_id as int,
                ingredient_name: ingredient_name@,
                quantity: quantity@,
                cid: cid as int,
            },
            Statement::SelectLine { recipe_id, ingredient_id } => StatementView::SelectLine {
                recipe_id: recipe_id as int,
                ingredient_id: ingredient_id as int,
            },
            Statement::UpdateLine { recipe_id, ingredient_id, quantity } => {
                StatementView::UpdateLine {
                    recipe_id: recipe_id as int,
                    ingredient_id: ingredient_id as int,
                    quantity: quantity@,
                }
            },
            Statement::DeleteLine { recipe_id, ingredient_id } => StatementView::DeleteLine {
                recipe_id: recipe_id as int,
                ingredient_id: ingredient_id as int,
            },
            Statement::ListLines => StatementView::ListLines,
            Statement::ListLinesByRecipe { recipe_id } => StatementView::ListLinesByRecipe {
                recipe_id: recipe_id as int,
            },
            Statement::DeleteLinesByRecipe { recipe_id } => StatementView::DeleteLinesByRecipe {
                recipe_id: recipe_id as int,
            },
        }
    }
}

/// What the storage answers to one statement.
#[derive(Debug, PartialEq, Eq)]
pub enum Reply {
    /// The statement ran and returns no rows. `last_insert_id` is the
    /// identity that an insert assigned, and 0 where none was assigned.
    Done { last_insert_id: u64 },
    Ingredient(Ingredient),
    Ingredients(Vec<Ingredient>),
    Recipe(Recipe),
    Recipes(Vec<Recipe>),
    Line(RecipeIngredientMac),
    Lines(Vec<RecipeIngredientMac>),
    /// A statement that selects one row found none.
    RowNotFound,
    /// The statement did not run, for the cause given.
    Failed(String),
}

/// The mathematical content of a [`Reply`].
pub enum ReplyView {
    Done { last_insert_id: int },
    Ingredient(IngredientView),
    Ingredients(Seq<IngredientView>),
    Recipe(RecipeView),
    Recipes(Seq<RecipeView>),
    Line(LineView),
    Lines(Seq<LineView>),
    RowNotFound,
    Failed(Seq<char>),
}

impl View for Reply {
    type V = ReplyView;

    open spec fn view(&self) -> ReplyView {
        match *self {
            Reply::Done { last_insert_id } => ReplyView::Done {
                last_insert_id: last_insert_id as int,
            },
            Reply::Ingredient(row) => ReplyView::Ingredient(row@),
            Reply::Ingredients(rows) => ReplyView::Ingredients(rows.deep_view()),
            Reply::Recipe(row) => ReplyView::Recipe(row@),
            Reply::Recipes(rows) => ReplyView::Recipes(rows.deep_view()),
            Reply::Line(row) => ReplyView::Line(row@),
            Reply::Lines(rows) => ReplyView::Lines(rows.deep_view()),
            Reply::RowNotFound => ReplyView::RowNotFound,
            Reply::Failed(cause) => ReplyView::Failed(cause@),
        }
    }
}

/// A value that takes the place of a `?` in a statement's text.
#[derive(Debug, PartialEq, Eq)]
pub enum Bind {
    Int(i64),
    Text(String),
}

/// The mathematical content of a [`Bind`].
pub enum BindView {
    Int(int),
    Text(Seq<char>),
}

impl View for Bind {
    type V = BindView;

    open spec fn view(&self) -> BindView {
        match *self {
            Bind::Int(value) => BindView::Int(value as int),
            Bind::Text(value) => BindView::Text(value@),
        }
    }
}

impl DeepView for Bind {
    type V = BindView;

    open spec fn deep_view(&self) -> BindView {
        self@
    }
}

/// What a statement returns when it runs: nothing, one row of a table, or
/// rows of a table.
#[derive(Debug, Clone, Copy, PartialEq, Eq, Structural)]
pub enum Expect {
    Nothing,
    Ingredient,
    Ingredients,
    Recipe,
    Recipes,
    Line,
    Lines,
}

impl StatementView {
    /// The statement in the storage's language, with a `?` for each value.
    pub open spec fn sql(self) -> Seq<char> {
        match self {
            StatementView::Begin => "BEGIN"@,
            StatementView::Commit => "COMMIT"@,
            StatementView::Rollback => "ROLLBACK"@,
            StatementView::InsertIngredient { .. } => "INSERT INTO ingredients (name) VALUES (?)"@,
            StatementView::SelectIngredient { .. } => "SELECT id, name FROM ingredients WHERE id = ?"@,
            StatementView::UpdateIngredient { .. } => "UPDATE ingredients SET name = ? WHERE id = ?"@,
            StatementView::DeleteIngredient { .. } => "DELETE FROM ingredients WHERE id = ?"@,
            StatementView::ListIngredients => "SELECT id, name FROM ingredients ORDER BY id DESC"@,
            StatementView::InsertRecipe { .. } => "INSERT INTO recipes (title, cid) VALUES (?, ?)"@,
            StatementView::SelectRecipe { .. } => "SELECT id, title, cid, ctime, mtime FROM recipes WHERE id = ?"@,
            StatementView::UpdateRecipe { .. } => "UPDATE recipes SET title = ?, cid = ? WHERE id = ?"@,
            StatementView::DeleteRecipe { .. } => "DELETE FROM recipes WHERE id = ?"@,
            StatementView::ListRecipes => "SELECT id, title, cid, ctime, mtime FROM recipes ORDER BY id DESC"@,
            StatementView::InsertLine { .. } => "INSERT INTO recipe_ingredients (recipe_id, ingredient_id, ingredient_name, quantity, cid) VALUES (?, ?, ?, ?, ?)"@,
            StatementView::SelectLine { .. } => "SELECT recipe_id, ingredient_id, ingredient_name, quantity, cid, ctime, mtime FROM recipe_ingredients WHERE recipe_id = ? AND ingredient_id = ?"@,
            StatementView::UpdateLine { .. } => "UPDATE recipe_ingredients SET quantity = ? WHERE recipe_id = ? AND ingredient_id = ?"@,
            StatementView::DeleteLine { .. } => "DELETE FROM recipe_ingredients WHERE recipe_id = ? AND ingredient_id = ?"@,
            StatementView::ListLines => "SELECT recipe_id, ingredient_id, ingredient_name, quantity, cid, ctime, mtime FROM recipe_ingredients ORDER BY recipe_id DESC"@,
            StatementView::ListLinesByRecipe { .. } => "SELECT recipe_id, ingredient_id, ingredient_name, quantity, cid, ctime, mtime FROM recipe_ingredients WHERE recipe_id = ?"@,
            StatementView::DeleteLinesByRecipe { .. } => "DELETE FROM recipe_ingredients WHERE recipe_id = ?"@,
        }
    }

    /// The statement's values, in the order of the `?` in its text.
    pub open spec fn binds(self) -> Seq<BindView> {
        match self {
            StatementView::Begin => seq![],
            StatementView::Commit => seq![],
            StatementView::Rollback => seq![],
            StatementView::InsertIngredient { name } => seq![BindView::Text(name)],
            StatementView::SelectIngredient { id } => seq![BindView::Int(id)],
            StatementView::UpdateIngredient { id, name } => seq![
                BindView::Text(name),
                BindView::Int(id),
            ],
            StatementView::DeleteIngredient { id } => seq![BindView::Int(id)],
            StatementView::ListIngredients => seq![],
            StatementView::InsertRecipe { title, cid } => seq![
                BindView::Text(title),
                BindView::Int(cid),
            ],
            StatementView::SelectRecipe { id } => seq![BindView::Int(id)],
            StatementView::UpdateRecipe { id, title, cid } => seq![
                BindView::Text(title),
                BindView::Int(cid),
                BindView::Int(id),
            ],
            StatementView::DeleteRecipe { id } => seq![BindView::Int(id)],
            StatementView::ListRecipes => seq![],
            StatementView::InsertLine {
                recipe_id,
                ingredient_id,
                ingredient_name,
                quantity,
                cid,
            } => seq![
                BindView::Int(recipe_id),
                BindView::Int(ingredient_id),
                BindView::Text(ingredient_name),
                BindView::Text(quantity),
                BindView::Int(cid),
            ],
            StatementView::SelectLine { recipe_id, ingredient_id } => seq![
                BindView::Int(recipe_id),
                BindView::Int(ingredient_id),
            ],
            StatementView::UpdateLine { recipe_id, ingredient_id, quantity } => seq![
                BindView::Text(quantity),
                BindView::Int(recipe_id),
                BindView::Int(ingredient_id),
            ],
            StatementView::DeleteLine { recipe_id, ingredient_id } => seq![
                BindView::Int(recipe_id),
                BindView::Int(ingredient_id),
            ],
            StatementView::ListLines => seq![],
            StatementView::ListLinesByRecipe { recipe_id } => seq![BindView::Int(recipe_id)],
            StatementView::DeleteLinesByRecipe { recipe_id } => seq![BindView::Int(recipe_id)],
        }
    }

    /// The statement is one that the storage prepares before it runs it.
    /// Those that begin and end a transaction are not: they go as plain text.
    pub open spec fn prepared(self) -> bool {
        !(self is Begin || self is Commit || self is Rollback)
    }

    /// What the statement returns when it runs.
    pub open spec fn expects(self) -> Expect {
        match self {
            StatementView::SelectIngredient { .. } => Expect::Ingredient,
            StatementView::ListIngredients => Expect::Ingredients,
            StatementView::SelectRecipe { .. } => Expect::Recipe,
            StatementView::ListRecipes => Expect::Recipes,
            StatementView::SelectLine { .. } => Expect::Line,
            StatementView::ListLines => Expect::Lines,
            StatementView::ListLinesByRecipe { .. } => Expect::Lines,
            _ => Expect::Nothing,
        }
    }
}

impl ReplyView {
    /// The answer is one that a statement with this expectation can get: of
    /// the expected kind, or that a single row was not found, or a failure.
    pub open spec fn fits(self, expect: Expect) -> bool {
        match self {
            ReplyView::Done { .. } => expect == Expect::Nothing,
            ReplyView::Ingredient(_) => expect == Expect::Ingredient,
            ReplyView::Ingredients(_) => expect == Expect::Ingredients,
            ReplyView::Recipe(_) => expect == Expect::Recipe,
            ReplyView::Recipes(_) => expect == Expect::Recipes,
            ReplyView::Line(_) => expect == Expect::Line,
            ReplyView::Lines(_) => expect == Expect::Lines,
            ReplyView::RowNotFound => expect == Expect::Ingredient || expect == Expect::Recipe
                || expect == Expect::Line,
            ReplyView::Failed(_) => true,
        }
    }
}

impl Statement {
    /// The statement in the storage's language, with a `?` for each value.
    pub fn sql(&self) -> (text: &'static str)
        ensures
            text@ == self@.sql(),
    {
        match self {
            Statement::Begin => "BEGIN",
            Statement::Commit => "COMMIT",
            Statement::Rollback => "ROLLBACK",
            Statement::InsertIngredient { .. } => "INSERT INTO ingredients (name) VALUES (?)",
            Statement::SelectIngredient { .. } => "SELECT id, name FROM ingredients WHERE id = ?",
            Statement::UpdateIngredient { .. } => "UPDATE ingredients SET name = ? WHERE id = ?",
            Statement::DeleteIngredient { .. } => "DELETE FROM ingredients WHERE id = ?",
            Statement::ListIngredients => "SELECT id, name FROM ingredients ORDER BY id DESC",
            Statement::InsertRecipe { .. } => "INSERT INTO recipes (title, cid) VALUES (?, ?)",
            Statement::SelectRecipe { .. } => "SELECT id, title, cid, ctime, mtime FROM recipes WHERE id = ?",
            Statement::UpdateRecipe { .. } => "UPDATE recipes SET title = ?, cid = ? WHERE id = ?",
            Statement::DeleteRecipe { .. } => "DELETE FROM recipes WHERE id = ?",
            Statement::ListRecipes => "SELECT id, title, cid, ctime, mtime FROM recipes ORDER BY id DESC",
            Statement::InsertLine { .. } => "INSERT INTO recipe_ingredients (recipe_id, ingredient_id, ingredient_name, quantity, cid) VALUES (?, ?, ?, ?, ?)",
            Statement::SelectLine { .. } => "SELECT recipe_id, ingredient_id, ingredient_name, quantity, cid, ctime, mtime FROM recipe_ingredients WHERE recipe_id = ? AND ingredient_id = ?",
            Statement::UpdateLine { .. } => "UPDATE recipe_ingredients SET quantity = ? WHERE recipe_id = ? AND ingredient_id = ?",
            Statement::DeleteLine { .. } => "DELETE FROM recipe_ingredients WHERE recipe_id = ? AND ingredient_id = ?",
            Statement::ListLines => "SELECT recipe_id, ingredient_id, ingredient_name, quantity, cid, ctime, mtime FROM recipe_ingredients ORDER BY recipe_id DESC",
            Statement::ListLinesByRecipe { .. } => "SELECT recipe_id, ingredient_id, ingredient_name, quantity, cid, ctime, mtime FROM recipe_ingredients WHERE recipe_id = ?",
            Statement::DeleteLinesByRecipe { .. } => "DELETE FROM recipe_ingredients WHERE recipe_id = ?",
        }
    }

    /// The statement's values, in the order of the `?` in its text.
    pub fn binds(&self) -> (values: Vec<Bind>)
        ensures
            values.deep_view() == self@.binds(),
    {
        let mut values: Vec<Bind> = Vec::new();
        match self {
            Statement::Begin => {},
            Statement::Commit => {},
            Statement::Rollback => {},
            Statement::InsertIngredient { name } => {
                values.push(Bind::Text(name.clone()));
            },
            Statement::SelectIngredient { id } => {
                values.push(Bind::Int(*id));
            },
            Statement::UpdateIngredient { id, name } => {
                values.push(Bind::Text(name.clone()));
                values.push(Bind::Int(*id));
            },
            Statement::DeleteIngredient { id } => {
                values.push(Bind::Int(*id));
            },
            Statement::ListIngredients => {},
            Statement::InsertRecipe { title, cid } => {
                values.push(Bind::Text(title.clone()));
                values.push(Bind::Int(*cid));
            },
            Statement::SelectRecipe { id } => {
                values.push(Bind::Int(*id));
            },
            Statement::UpdateRecipe { id, title, cid } => {
                values.push(Bind::Text(title.clone()));
                values.push(Bind::Int(*cid));
                values.push(Bind::Int(*id));
            },
            Statement::DeleteRecipe { id } => {
                values.push(Bind::Int(*id));
            },
            Statement::ListRecipes => {},
            Statement::InsertLine { recipe_id, ingredient_id, ingredient_name, quantity, cid } => {
                values.push(Bind::Int(*recipe_id));
                values.push(Bind::Int(*ingredient_id));
                values.push(Bind::Text(ingredient_name.clone()));
                values.push(Bind::Text(quantity.clone()));
                values.push(Bind::Int(*cid));
            },
            Statement::SelectLine { recipe_id, ingredient_id } => {
                values.push(Bind::Int(*recipe_id));
                values.push(Bind::Int(*ingredient_id));
            },
            Statement::UpdateLine { recipe_id, ingredient_id, quantity } => {
                values.push(Bind::Text(quantity.clone()));
                values.push(Bind::Int(*recipe_id));
                values.push(Bind::Int(*ingredient_id));
            },
            Statement::DeleteLine { recipe_id, ingredient_id } => {
                values.push(Bind::Int(*recipe_id));
                values.push(Bind::Int(*ingredient_id));
            },
            Statement::ListLines => {},
            Statement::ListLinesByRecipe { recipe_id } => {
                values.push(Bind::Int(*recipe_id));
            },
            Statement::DeleteLinesByRecipe { recipe_id } => {
                values.push(Bind::Int(*recipe_id));
            },
        }
        assert(values.deep_view() =~= self@.binds());
        values
    }

    /// Tells whether the statement is one that the storage prepares before
    /// it runs it.
    pub fn prepared(&self) -> (prepared: bool)
        ensures
            prepared == self@.prepared(),
    {
        match self {
            Statement::Begin => false,
            Statement::Commit => false,
            Statement::Rollback => false,
            _ => true,
        }
    }

    /// What the statement returns when it runs.
    pub fn expects(&self) -> (expect: Expect)
        ensures
            expect == self@.expects(),
    {
        match self {
            Statement::SelectIngredient { .. } => Expect::Ingredient,
            Statement::ListIngredients => Expect::Ingredients,
            Statement::SelectRecipe { .. } => Expect::Recipe,
            Statement::ListRecipes => Expect::Recipes,
            Statement::SelectLine { .. } => Expect::Line,
            Statement::ListLines => Expect::Lines,
            Statement::ListLinesByRecipe { .. } => Expect::Lines,
            _ => Expect::Nothing,
        }
    }
}

} // verus!
