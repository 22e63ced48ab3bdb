//! What the storage holds and what each statement does to it, stated
//! mathematically. The stores' contracts and the laws speak of this model.

use crate::ingredient::IngredientView;
use crate::recipe::RecipeView;
use crate::recipe_ingredient::LineView;
use crate::rows::{ascending, descending, distinct, find, keep, occurs, reject, reversed, rewrite};
use crate::statement::{Expect, ReplyView, StatementView};
use vstd::prelude::*;

verus! {

/// The rows of the three tables, each in the order of insertion.
pub struct Rows {
    pub ingredients: Seq<IngredientView>,
    pub recipes: Seq<RecipeView>,
    pub lines: Seq<LineView>,
}

/// The whole state of the storage.
pub struct DbView {
    pub rows: Rows,
    /// The identity that the next new ingredient gets.
    pub next_ingredient_id: nat,
    /// The identity that the next new recipe gets.
    pub next_recipe_id: nat,
    /// The time that is stamped on rows as they are written.
    pub clock: int,
    /// The rows as they were when the open transaction began, if one is open.
    pub saved: Option<Rows>,
}

/// The highest identity that a row can have.
pub open spec fn max_id() -> int {
    i64::MAX as int
}

pub open spec fn ingredient_id() -> spec_fn(IngredientView) -> int {
    |row: IngredientView| row.id
}

pub open spec fn recipe_id() -> spec_fn(RecipeView) -> int {
    |row: RecipeView| row.id
}

/// The recipe that a line belongs to.
pub open spec fn line_recipe() -> spec_fn(LineView) -> int {
    |row: LineView| row.recipe_id
}

/// The composite key of a line.
pub open spec fn line_key() -> spec_fn(LineView) -> (int, int) {
    |row: LineView| (row.recipe_id, row.ingredient_id)
}

pub open spec fn ingredient_is(id: int) -> spec_fn(IngredientView) -> bool {
    |row: IngredientView| row.id == id
}

pub open spec fn recipe_is(id: int) -> spec_fn(RecipeView) -> bool {
    |row: RecipeView| row.id == id
}

pub open spec fn line_is(recipe_id: int, ingredient_id: int) -> spec_fn(LineView) -> bool {
    |row: LineView| row.recipe_id == recipe_id && row.ingredient_id == ingredient_id
}

pub open spec fn line_of(recipe_id: int) -> spec_fn(LineView) -> bool {
    |row: LineView| row.recipe_id == recipe_id
}

pub open spec fn renamed(name: Seq<char>) -> spec_fn(IngredientView) -> IngredientView {
    |row: IngredientView| IngredientView { name, ..row }
}

pub open spec fn retitled(title: Seq<char>, cid: int, now: int) -> spec_fn(RecipeView) -> RecipeView {
    |row: RecipeView| RecipeView { title, cid, mtime: now, ..row }
}

pub open spec fn requantified(quantity: Seq<char>, now: int) -> spec_fn(LineView) -> LineView {
    |row: LineView| LineView { quantity, mtime: now, ..row }
}

/// Why an insert fails when the table has no identity left to give.
pub open spec fn cause_identity_exhausted() -> Seq<char> {
    "identity exhausted"@
}

/// Why an insert fails when the line's key is taken.
pub open spec fn cause_duplicate_key() -> Seq<char> {
    "duplicate key"@
}

/// Why a transaction cannot begin inside another.
pub open spec fn cause_transaction_open() -> Seq<char> {
    "transaction already open"@
}

/// The answer to a statement that ran and assigned no identity.
pub open spec fn done() -> ReplyView {
    ReplyView::Done { last_insert_id: 0 }
}

impl Rows {
    pub open spec fn empty() -> Rows {
        Rows { ingredients: Seq::empty(), recipes: Seq::empty(), lines: Seq::empty() }
    }

    /// Identities ascend below the two bounds, and no line's key occurs twice.
    pub open spec fn wf(self, next_ingredient_id: int, next_recipe_id: int) -> bool {
        &&& ascending(self.ingredients, ingredient_id(), next_ingredient_id)
        &&& ascending(self.recipes, recipe_id(), next_recipe_id)
        &&& distinct(self.lines, line_key())
    }

    pub open spec fn ingredient(self, id: int) -> Option<IngredientView> {
        find(self.ingredients, ingredient_is(id))
    }

    pub open spec fn recipe(self, id: int) -> Option<RecipeView> {
        find(self.recipes, recipe_is(id))
    }

    pub open spec fn line(self, recipe_id: int, ingredient_id: int) -> Option<LineView> {
        find(self.lines, line_is(recipe_id, ingredient_id))
    }

    /// The lines of one recipe, in the order of insertion.
    pub open spec fn lines_of(self, recipe_id: int) -> Seq<LineView> {
        keep(self.lines, line_of(recipe_id))
    }
}

impl DbView {
    /// A storage without rows whose first identities are `first_id`.
    pub open spec fn empty(first_id: nat) -> DbView {
        DbView {
            rows: Rows::empty(),
            next_ingredient_id: first_id,
            next_recipe_id: first_id,
            clock: 0,
            saved: None,
        }
    }

    /// The invariant of the storage: the keys of the rows, and of the rows
    /// saved for a rollback, are as [`Rows::wf`] says.
    pub open spec fn wf(self) -> bool {
        &&& self.rows.wf(self.next_ingredient_id as int, self.next_recipe_id as int)
        &&& match self.saved {
            Some(saved) => saved.wf(self.next_ingredient_id as int, self.next_recipe_id as int),
            None => true,
        }
    }

    pub open spec fn with_rows(self, rows: Rows) -> DbView {
        DbView { rows, ..self }
    }

    pub open spec fn with_ingredients(self, ingredients: Seq<IngredientView>) -> DbView {
        self.with_rows(Rows { ingredients, ..self.rows })
    }

    pub open spec fn with_recipes(self, recipes: Seq<RecipeView>) -> DbView {
        self.with_rows(Rows { recipes, ..self.rows })
    }

    pub open spec fn with_lines(self, lines: Seq<LineView>) -> DbView {
        self.with_rows(Rows { lines, ..self.rows })
    }

    pub open spec fn begin(self) -> (DbView, ReplyView) {
        if self.saved is Some {
            (self, ReplyView::Failed(cause_transaction_open()))
        } else {
            (DbView { saved: Some(self.rows), ..self }, done())
        }
    }

    pub open spec fn commit(self) -> (DbView, ReplyView) {
        (DbView { saved: None, ..self }, done())
    }

    pub open spec fn rollback(self) -> (DbView, ReplyView) {
        match self.saved {
            Some(rows) => (DbView { rows, saved: None, ..self }, done()),
            None => (self, done()),
        }
    }

    /// The ingredient that an insert of `name` adds.
    pub open spec fn new_ingredient(self, name: Seq<char>) -> IngredientView {
        IngredientView { id: self.next_ingredient_id as int, name }
    }

    pub open spec fn insert_ingredient(self, name: Seq<char>) -> (DbView, ReplyView) {
        if self.next_ingredient_id > max_id() {
            (self, ReplyView::Failed(cause_identity_exhausted()))
        } else {
            (
                DbView {
                    next_ingredient_id: self.next_ingredient_id + 1,
                    ..self.with_ingredients(self.rows.ingredients.push(self.new_ingredient(name)))
                },
                ReplyView::Done { last_insert_id: self.next_ingredient_id as int },
            )
        }
    }

    pub open spec fn select_ingredient(self, id: int) -> ReplyView {
        match self.rows.ingredient(id) {
            Some(row) => ReplyView::Ingredient(row),
            None => ReplyView::RowNotFound,
        }
    }

    pub open spec fn update_ingredient(self, id: int, name: Seq<char>) -> DbView {
        self.with_ingredients(rewrite(self.rows.ingredients, ingredient_is(id), renamed(name)))
    }

    pub open spec fn delete_ingredient(self, id: int) -> DbView {
        self.with_ingredients(reject(self.rows.ingredients, ingredient_is(id)))
    }

    /// The recipe that an insert of `title` and `cid` adds.
    pub open spec fn new_recipe(self, title: Seq<char>, cid: int) -> RecipeView {
        RecipeView {
            id: self.next_recipe_id as int,
            title,
            cid,
            ctime: self.clock,
            mtime: self.clock,
        }
    }

    pub open spec fn insert_recipe(self, title: Seq<char>, cid: int) -> (DbView, ReplyView) {
        if self.next_recipe_id > max_id() {
            (self, ReplyView::Failed(cause_identity_exhausted()))
        } else {
            (
                DbView {
                    next_recipe_id: self.next_recipe_id + 1,
                    ..self.with_recipes(self.rows.recipes.push(self.new_recipe(title, cid)))
                },
                ReplyView::Done { last_insert_id: self.next_recipe_id as int },
            )
        }
    }

    pub open spec fn select_recipe(self, id: int) -> ReplyView {
        match self.rows.recipe(id) {
            Some(row) => ReplyView::Recipe(row),
            None => ReplyView::RowNotFound,
        }
    }

    pub open spec fn update_recipe(self, id: int, title: Seq<char>, cid: int) -> DbView {
        self.with_recipes(
            rewrite(self.rows.recipes, recipe_is(id), retitled(title, cid, self.clock)),
        )
    }

    pub open spec fn delete_recipe(self, id: int) -> DbView {
        self.with_recipes(reject(self.rows.recipes, recipe_is(id)))
    }

    /// The line that an insert of these values adds.
    pub open spec fn new_line(
        self,
        recipe_id: int,
        ingredient_id: int,
        ingredient_name: Seq<char>,
        quantity: Seq<char>,
        cid: int,
    ) -> LineView {
        LineView {
            recipe_id,
            ingredient_id,
            ingredient_name,
            quantity,
            cid,
            ctime: self.clock,
            mtime: self.clock,
        }
    }

    pub open spec fn insert_line(self, line: LineView) -> (DbView, ReplyView) {
        if self.rows.line(line.recipe_id, line.ingredient_id) is Some {
            (self, ReplyView::Failed(cause_duplicate_key()))
        } else {
            (self.with_lines(self.rows.lines.push(line)), done())
        }
    }

    pub open spec fn select_line(self, recipe_id: int, ingredient_id: int) -> ReplyView {
        match self.rows.line(recipe_id, ingredient_id) {
            Some(row) => ReplyView::Line(row),
            None => ReplyView::RowNotFound,
        }
    }

    pub open spec fn update_line(
        self,
        recipe_id: int,
        ingredient_id: int,
        quantity: Seq<char>,
    ) -> DbView {
        self.with_lines(
            rewrite(
                self.rows.lines,
                line_is(recipe_id, ingredient_id),
                requantified(quantity, self.clock),
            ),
        )
    }

    pub open spec fn delete_line(self, recipe_id: int, ingredient_id: int) -> DbView {
        self.with_lines(reject(self.rows.lines, line_is(recipe_id, ingredient_id)))
    }

    pub open spec fn delete_lines_of(self, recipe_id: int) -> DbView {
        self.with_lines(reject(self.rows.lines, line_of(recipe_id)))
    }

    /// The storage after a statement, and the answer to it.
    pub open spec fn execute(self, statement: StatementView) -> (DbView, ReplyView) {
        match statement {
            StatementView::Begin => self.begin(),
            StatementView::Commit => self.commit(),
            StatementView::Rollback => self.rollback(),
            StatementView::InsertIngredient { name } => self.insert_ingredient(name),
            StatementView::SelectIngredient { id } => (self, self.select_ingredient(id)),
            StatementView::UpdateIngredient { id, name } => (
                self.update_ingredient(id, name),
                done(),
            ),
            StatementView::DeleteIngredient { id } => (self.delete_ingredient(id), done()),
            StatementView::ListIngredients => (
                self,
                ReplyView::Ingredients(reversed(self.rows.ingredients)),
            ),
            StatementView::InsertRecipe { title, cid } => self.insert_recipe(title, cid),
            StatementView::SelectRecipe { id } => (self, self.select_recipe(id)),
            StatementView::UpdateRecipe { id, title, cid } => (
                self.update_recipe(id, title, cid),
                done(),
            ),
            StatementView::DeleteRecipe { id } => (self.delete_recipe(id), done()),
            StatementView::ListRecipes => (self, ReplyView::Recipes(reversed(self.rows.recipes))),
            StatementView::InsertLine {
                recipe_id,
                ingredient_id,
                ingredient_name,
                quantity,
                cid,
            } => self.insert_line(
                self.new_line(recipe_id, ingredient_id, ingredient_name, quantity, cid),
            ),
            StatementView::SelectLine { recipe_id, ingredient_id } => (
                self,
                self.select_line(recipe_id, ingredient_id),
            ),
            StatementView::UpdateLine { recipe_id, ingredient_id, quantity } => (
                self.update_line(recipe_id, ingredient_id, quantity),
                done(),
            ),
            StatementView::DeleteLine { recipe_id, ingredient_id } => (
                self.delete_line(recipe_id, ingredient_id),
                done(),
            ),
            StatementView::ListLines => (
                self,
                ReplyView::Lines(descending(self.rows.lines, line_recipe())),
            ),
            StatementView::ListLinesByRecipe { recipe_id } => (
                self,
                ReplyView::Lines(self.rows.lines_of(recipe_id)),
            ),
            StatementView::DeleteLinesByRecipe { recipe_id } => (
                self.delete_lines_of(recipe_id),
                done(),
            ),
        }
    }
}

/// A line's key occurs in a table exactly if a search for it finds a line.
pub proof fn lemma_line_occurs(lines: Seq<LineView>, recipe_id: int, ingredient_id: int)
    ensures
        occurs(lines, line_key(), (recipe_id, ingredient_id)) == (find(
            lines,
            line_is(recipe_id, ingredient_id),
        ) is Some),
    decreases lines.len(),
{
    if lines.len() > 0 {
        lemma_line_occurs(lines.drop_last(), recipe_id, ingredient_id);
    }
}

/// Every statement keeps the storage's invariant.
pub proof fn lemma_execute_wf(db: DbView, statement: StatementView)
    requires
        db.wf(),
    ensures
        db.execute(statement).0.wf(),
{
    let next_i = db.next_ingredient_id as int;
    let next_r = db.next_recipe_id as int;
    match statement {
        StatementView::InsertIngredient { name } => {
            if db.next_ingredient_id <= max_id() {
                crate::rows::lemma_push_ascending(
                    db.rows.ingredients,
                    db.new_ingredient(name),
                    ingredient_id(),
                    next_i,
                );
                if let Some(saved) = db.saved {
                    crate::rows::lemma_ascending_bound(
                        saved.ingredients,
                        ingredient_id(),
                        next_i,
                        next_i + 1,
                    );
                }
            }
        },
        StatementView::UpdateIngredient { id, name } => {
            crate::rows::lemma_rewrite_ascending(
                db.rows.ingredients,
                ingredient_is(id),
                renamed(name),
                ingredient_id(),
                next_i,
            );
        },
        StatementView::DeleteIngredient { id } => {
            crate::rows::lemma_reject_ascending(
                db.rows.ingredients,
                ingredient_is(id),
                ingredient_id(),
                next_i,
            );
        },
        StatementView::InsertRecipe { title, cid } => {
            if db.next_recipe_id <= max_id() {
                crate::rows::lemma_push_ascending(
                    db.rows.recipes,
                    db.new_recipe(title, cid),
                    recipe_id(),
                    next_r,
                );
                if let Some(saved) = db.saved {
                    crate::rows::lemma_ascending_bound(
                        saved.recipes,
                        recipe_id(),
                        next_r,
                        next_r + 1,
                    );
                }
            }
        },
        StatementView::UpdateRecipe { id, title, cid } => {
            crate::rows::lemma_rewrite_ascending(
                db.rows.recipes,
                recipe_is(id),
                retitled(title, cid, db.clock),
                recipe_id(),
                next_r,
            );
        },
        StatementView::DeleteRecipe { id } => {
            crate::rows::lemma_reject_ascending(
                db.rows.recipes,
                recipe_is(id),
                recipe_id(),
                next_r,
            );
        },
        StatementView::InsertLine { recipe_id, ingredient_id, ingredient_name, quantity, cid } => {
            let line = db.new_line(recipe_id, ingredient_id, ingredient_name, quantity, cid);
            lemma_line_occurs(db.rows.lines, recipe_id, ingredient_id);
            if db.rows.line(recipe_id, ingredient_id) is None {
                crate::rows::lemma_push_distinct(db.rows.lines, line, line_key());
            }
        },
        StatementView::UpdateLine { recipe_id, ingredient_id, quantity } => {
            crate::rows::lemma_rewrite_distinct(
                db.rows.lines,
                line_is(recipe_id, ingredient_id),
                requantified(quantity, db.clock),
                line_key(),
            );
        },
        StatementView::DeleteLine { recipe_id, ingredient_id } => {
            crate::rows::lemma_reject_distinct(
                db.rows.lines,
                line_is(recipe_id, ingredient_id),
                line_key(),
            );
        },
        StatementView::DeleteLinesByRecipe { recipe_id } => {
            crate::rows::lemma_reject_distinct(db.rows.lines, line_of(recipe_id), line_key());
        },
        _ => {},
    }
}

/// The storage answers every statement in the way that the statement
/// expects, and a statement that is not prepared has no values and returns
/// no rows.
pub proof fn lemma_execute_fits(db: DbView, statement: StatementView)
    ensures
        db.execute(statement).1.fits(statement.expects()),
        !statement.prepared() ==> statement.binds().len() == 0 && statement.expects()
            == Expect::Nothing,
{
}

} // verus!
