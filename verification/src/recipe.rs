//! Recipes and the store that keeps each one together with its lines.

use crate::db::Db;
use crate::error::{result_view, Error, ErrorView};
use crate::operation::{
    abort, abort_view, commit, commit_view, failure, failure_view, finish, finish_view, no_rows,
    no_rows_view, not_found, not_found_view, recipe_view, recipes_view, run, Action, ActionView,
    Operation, OperationView, Outcome, OutcomeView,
};
use crate::recipe_ingredient::{
    ingredient_id_field, missing_field_view, quantity_or_default, LinePatchView, LineView,
    RecipeIngredientMac, RecipeIngredientPatch,
};
use crate::security::UserCtx;
use crate::statement::{Reply, ReplyView, Statement, StatementView};
use crate::rows::{find, keep, lemma_find_rewrite, reject, reversed};
use crate::storage::{
    cause_duplicate_key, cause_identity_exhausted, cause_transaction_open, line_is, line_of,
    max_id, recipe_is, retitled, DbView,
};
use vstd::prelude::*;
use vstd::string::*;

verus! {

/// A recipe as it is stored, without its lines.
#[derive(Debug, PartialEq, Eq)]
pub struct Recipe {
    pub id: i64,
    pub title: String,
    pub cid: i64,
    pub ctime: i64,
    pub mtime: i64,
}

/// The mathematical content of a [`Recipe`].
pub struct RecipeView {
    pub id: int,
    pub title: Seq<char>,
    pub cid: int,
    pub ctime: int,
    pub mtime: int,
}

impl View for Recipe {
    type V = RecipeView;

    open spec fn view(&self) -> RecipeView {
        RecipeView {
            id: self.id as int,
            title: self.title@,
            cid: self.cid as int,
            ctime: self.ctime as int,
            mtime: self.mtime as int,
        }
    }
}

impl DeepView for Recipe {
    type V = RecipeView;

    open spec fn deep_view(&self) -> RecipeView {
        self@
    }
}

impl Clone for Recipe {
    fn clone(&self) -> (copy: Self)
        ensures
            copy == *self,
    {
        Recipe {
            id: self.id,
            title: self.title.clone(),
            cid: self.cid,
            ctime: self.ctime,
            mtime: self.mtime,
        }
    }
}

/// The recipe's own fields that a caller may supply. An absent field is
/// written with its default, never left as it was.
#[derive(Debug, Default, Clone, PartialEq, Eq)]
pub struct RecipePatchInner {
    pub title: Option<String>,
    pub cid: Option<i64>,
}

/// What a caller supplies for a recipe: its own fields and, if the lines are
/// to be written too, the whole new set of lines.
#[derive(Debug, Default, Clone, PartialEq, Eq)]
pub struct RecipePatch {
    pub recipe_patch: RecipePatchInner,
    pub ingredients: Option<Vec<RecipeIngredientPatch>>,
}

/// The mathematical content of a [`RecipePatchInner`].
pub struct RecipePatchInnerView {
    pub title: Option<Seq<char>>,
    pub cid: Option<int>,
}

/// The mathematical content of a [`RecipePatch`].
pub struct RecipePatchView {
    pub recipe_patch: RecipePatchInnerView,
    pub ingredients: Option<Seq<LinePatchView>>,
}

impl View for RecipePatchInner {
    type V = RecipePatchInnerView;

    open spec fn view(&self) -> RecipePatchInnerView {
        RecipePatchInnerView {
            title: self.title.deep_view(),
            cid: match self.cid {
                Some(cid) => Some(cid as int),
                None => None,
            },
        }
    }
}

impl View for RecipePatch {
    type V = RecipePatchView;

    open spec fn view(&self) -> RecipePatchView {
        RecipePatchView {
            recipe_patch: self.recipe_patch@,
            ingredients: self.ingredients.deep_view(),
        }
    }
}

/// The title written for a recipe whose patch has none.
pub open spec fn default_title() -> Seq<char> {
    "Untitled Recipe"@
}

impl RecipePatchInnerView {
    /// The title that this patch writes.
    pub open spec fn title_or_default(self) -> Seq<char> {
        match self.title {
            Some(title) => title,
            None => default_title(),
        }
    }

    /// The creator that this patch writes.
    pub open spec fn cid_or_default(self) -> int {
        match self.cid {
            Some(cid) => cid,
            None => 0,
        }
    }
}

/// A recipe together with its lines.
pub type Aggregate = (Recipe, Vec<RecipeIngredientMac>);

/// The mathematical content of an [`Aggregate`].
pub type AggregateView = (RecipeView, Seq<LineView>);

/// The table that holds the recipes.
pub open spec fn recipes_table() -> Seq<char> {
    "recipes"@
}

/// A line of a patch with its defaults applied, ready to be written under a
/// recipe.
#[derive(Debug, PartialEq, Eq)]
pub struct LineDraft {
    pub ingredient_id: i64,
    pub ingredient_name: String,
    pub quantity: String,
}

/// The mathematical content of a [`LineDraft`].
pub struct LineDraftView {
    pub ingredient_id: int,
    pub ingredient_name: Seq<char>,
    pub quantity: Seq<char>,
}

impl View for LineDraft {
    type V = LineDraftView;

    open spec fn view(&self) -> LineDraftView {
        LineDraftView {
            ingredient_id: self.ingredient_id as int,
            ingredient_name: self.ingredient_name@,
            quantity: self.quantity@,
        }
    }
}

impl DeepView for LineDraft {
    type V = LineDraftView;

    open spec fn deep_view(&self) -> LineDraftView {
        self@
    }
}

/// The draft of a patch's line. The patch's recipe is not looked at: the line
/// goes under the recipe that is being written.
pub open spec fn draft_view(patch: LinePatchView) -> LineDraftView {
    LineDraftView {
        ingredient_id: match patch.ingredient_id {
            Some(id) => id,
            None => 0,
        },
        ingredient_name: patch.ingredient_name,
        quantity: patch.quantity_or_default(),
    }
}

/// The drafts of a patch's lines, if each of them names its ingredient.
pub open spec fn drafts_view(patches: Seq<LinePatchView>) -> Option<Seq<LineDraftView>> {
    if forall|i: int| 0 <= i < patches.len() ==> (#[trigger] patches[i]).ingredient_id is Some {
        Some(Seq::new(patches.len(), |i: int| draft_view(patches[i])))
    } else {
        None
    }
}

/// The drafts of the lines that a recipe's patch asks to be written: none
/// where the patch has no lines; no answer where a line does not name its
/// ingredient.
pub open spec fn planned_view(ingredients: Option<Seq<LinePatchView>>) -> Option<
    Option<Seq<LineDraftView>>,
> {
    match ingredients {
        None => Some(None),
        Some(patches) => match drafts_view(patches) {
            Some(drafts) => Some(Some(drafts)),
            None => None,
        },
    }
}

/// The drafts of a patch's lines, or the error for a line that does not name
/// its ingredient.
pub fn drafts(patches: &Vec<RecipeIngredientPatch>) -> (result: Result<Vec<LineDraft>, Error>)
    ensures
        result_view(result) == match drafts_view(patches.deep_view()) {
            Some(drafts) => Ok(drafts),
            None => Err(missing_field_view(ingredient_id_field())),
        },
{
    let ghost all = patches.deep_view();
    let mut out: Vec<LineDraft> = Vec::new();
    let mut i: usize = 0;
    while i < patches.len()
        invariant
            i <= patches.len(),
            all == patches.deep_view(),
            out.len() == i,
            forall|k: int| 0 <= k < i ==> (#[trigger] all[k]).ingredient_id is Some,
            forall|k: int| 0 <= k < i ==> (#[trigger] out[k])@ == draft_view(all[k]),
        decreases patches.len() - i,
    {
        match patches[i].ingredient_id {
            None => {
                assert(all[i as int].ingredient_id is None);
                return Err(Error::MissingField("recipe_ingredients", "ingredient_id"));
            },
            Some(ingredient_id) => {
                out.push(
                    LineDraft {
                        ingredient_id,
                        ingredient_name: patches[i].ingredient_name.clone(),
                        quantity: quantity_or_default(patches[i].quantity.clone()),
                    },
                );
            },
        }
        i += 1;
    }
    assert(out.deep_view() =~= Seq::new(all.len(), |i: int| draft_view(all[i])));
    Ok(out)
}

/// Where a recipe operation stands between two statements.
#[derive(Debug, PartialEq, Eq)]
pub enum RecipeOp {
    /// A create opened its transaction; the recipe is inserted next.
    CreateBegun { title: String, cid: i64, lines: Vec<LineDraft>, user: i64 },
    /// A create sent the insert; the row that it made is read next.
    CreateInserted { lines: Vec<LineDraft>, user: i64 },
    /// An update opened its transaction; the recipe is rewritten next.
    UpdateBegun { id: i64, title: String, cid: i64, lines: Option<Vec<LineDraft>>, user: i64 },
    /// An update sent the rewrite; the row is read next.
    UpdateWritten { id: i64, lines: Option<Vec<LineDraft>>, user: i64 },
    /// A create or an update asked for the recipe's row. With `lines`, they
    /// are written next, after the old ones are removed if `clear` says so.
    /// If there is no row, `missing` is the error.
    Fetched { id: i64, lines: Option<Vec<LineDraft>>, user: i64, missing: Error, clear: bool },
    /// The removal of the recipe's old lines was sent; the new ones follow.
    Cleared { id: i64, recipe: Recipe, lines: Vec<LineDraft>, user: i64 },
    /// The inserts of the first `written` lines were sent.
    LineWritten { id: i64, recipe: Recipe, lines: Vec<LineDraft>, written: usize, user: i64 },
    /// A get asked for the recipe's row; its lines are asked for next.
    Read { id: i64, missing: Error },
    /// The recipe's lines were asked for; with them the result is whole.
    /// Inside a transaction the commit comes first.
    LinesAsked { recipe: Recipe, atomic: bool },
    /// A delete opened its transaction; the row is read next.
    DeleteBegun { id: i64 },
    /// A delete asked for the row; its lines are asked for next.
    DeleteFetched { id: i64 },
    /// A delete asked for the lines; they are removed next.
    DeleteListed { id: i64, recipe: Recipe },
    /// A delete sent the removal of the lines; the row is removed next.
    DeleteCleared { id: i64, recipe: Recipe, lines: Vec<RecipeIngredientMac> },
    /// A delete sent the removal of the row; the commit is next.
    DeleteRemoved { recipe: Recipe, lines: Vec<RecipeIngredientMac> },
    /// All recipes were asked for; the lines of each are asked for next.
    AllAsked,
    /// The lines of the recipe behind those in `done` were asked for.
    Collecting { recipes: Vec<Recipe>, done: Vec<(Recipe, Vec<RecipeIngredientMac>)> },
}

/// The mathematical content of a [`RecipeOp`].
pub enum RecipeOpView {
    CreateBegun { title: Seq<char>, cid: int, lines: Seq<LineDraftView>, user: int },
    CreateInserted { lines: Seq<LineDraftView>, user: int },
    UpdateBegun {
        id: int,
        title: Seq<char>,
        cid: int,
        lines: Option<Seq<LineDraftView>>,
        user: int,
    },
    UpdateWritten { id: int, lines: Option<Seq<LineDraftView>>, user: int },
    Fetched {
        id: int,
        lines: Option<Seq<LineDraftView>>,
        user: int,
        missing: ErrorView,
        clear: bool,
    },
    Cleared { id: int, recipe: RecipeView, lines: Seq<LineDraftView>, user: int },
    LineWritten {
        id: int,
        recipe: RecipeView,
        lines: Seq<LineDraftView>,
        written: int,
        user: int,
    },
    Read { id: int, missing: ErrorView },
    LinesAsked { recipe: RecipeView, atomic: bool },
    DeleteBegun { id: int },
    DeleteFetched { id: int },
    DeleteListed { id: int, recipe: RecipeView },
    DeleteCleared { id: int, recipe: RecipeView, lines: Seq<LineView> },
    DeleteRemoved { recipe: RecipeView, lines: Seq<LineView> },
    AllAsked,
    Collecting { recipes: Seq<RecipeView>, done: Seq<AggregateView> },
}

impl View for RecipeOp {
    type V = RecipeOpView;

    open spec fn view(&self) -> RecipeOpView {
        match *self {
            RecipeOp::CreateBegun { title, cid, lines, user } => RecipeOpView::CreateBegun {
                title: title@,
                cid: cid as int,
                lines: lines.deep_view(),
                user: user as int,
            },
            RecipeOp::CreateInserted { lines, user } => RecipeOpView::CreateInserted {
                lines: lines.deep_view(),
                user: user as int,
            },
            RecipeOp::UpdateBegun { id, title, cid, lines, user } => RecipeOpView::UpdateBegun {
                id: id as int,
                title: title@,
                cid: cid as int,
                lines: lines.deep_view(),
                user: user as int,
            },
            RecipeOp::UpdateWritten { id, lines, user } => RecipeOpView::UpdateWritten {
                id: id as int,
                lines: lines.deep_view(),
                user: user as int,
            },
            RecipeOp::Fetched { id, lines, user, missing, clear } => RecipeOpView::Fetched {
                id: id as int,
                lines: lines.deep_view(),
                user: user as int,
                missing: missing@,
                clear,
            },
            RecipeOp::Cleared { id, recipe, lines, user } => RecipeOpView::Cleared {
                id: id as int,
                recipe: recipe@,
                lines: lines.deep_view(),
                user: user as int,
            },
            RecipeOp::LineWritten { id, recipe, lines, written, user } => {
                RecipeOpView::LineWritten {
                    id: id as int,
                    recipe: recipe@,
                    lines: lines.deep_view(),
                    written: written as int,
                    user: user as int,
                }
            },
            RecipeOp::Read { id, missing } => RecipeOpView::Read {
                id: id as int,
                missing: missing@,
            },
            RecipeOp::LinesAsked { recipe, atomic } => RecipeOpView::LinesAsked {
                recipe: recipe@,
                atomic,
            },
            RecipeOp::DeleteBegun { id } => RecipeOpView::DeleteBegun { id: id as int },
            RecipeOp::DeleteFetched { id } => RecipeOpView::DeleteFetched { id: id as int },
            RecipeOp::DeleteListed { id, recipe } => RecipeOpView::DeleteListed {
                id: id as int,
                recipe: recipe@,
            },
            RecipeOp::DeleteCleared { id, recipe, lines } => RecipeOpView::DeleteCleared {
                id: id as int,
                recipe: recipe@,
                lines: lines.deep_view(),
            },
            RecipeOp::DeleteRemoved { recipe, lines } => RecipeOpView::DeleteRemoved {
                recipe: recipe@,
                lines: lines.deep_view(),
            },
            RecipeOp::AllAsked => RecipeOpView::AllAsked,
            RecipeOp::Collecting { recipes, done } => RecipeOpView::Collecting {
                recipes: recipes.deep_view(),
                done: done.deep_view(),
            },
        }
    }
}

/// The statement that writes a draft as a line of the recipe `id`, made by
/// `user`.
pub open spec fn line_statement(id: int, draft: LineDraftView, user: int) -> StatementView {
    StatementView::InsertLine {
        recipe_id: id,
        ingredient_id: draft.ingredient_id,
        ingredient_name: draft.ingredient_name,
        quantity: draft.quantity,
        cid: user,
    }
}

/// How many lines a state still has to write, at most.
pub open spec fn count(lines: Option<Seq<LineDraftView>>) -> nat {
    match lines {
        Some(lines) => lines.len(),
        None => 0,
    }
}

impl RecipeOpView {
    /// Asks for the lines of `recipe`, which is stored under `id`.
    pub open spec fn ask_lines(id: int, recipe: RecipeView, atomic: bool) -> (
        OperationView,
        ActionView,
    ) {
        (
            OperationView::Recipe(RecipeOpView::LinesAsked { recipe, atomic }),
            ActionView::Run(StatementView::ListLinesByRecipe { recipe_id: id }),
        )
    }

    /// Writes the line at `from`, or asks for the recipe's lines when all are
    /// written.
    pub open spec fn write_from(
        id: int,
        recipe: RecipeView,
        lines: Seq<LineDraftView>,
        from: int,
        user: int,
    ) -> (OperationView, ActionView) {
        if 0 <= from < lines.len() {
            (
                OperationView::Recipe(
                    RecipeOpView::LineWritten { id, recipe, lines, written: from + 1, user },
                ),
                ActionView::Run(line_statement(id, lines[from], user)),
            )
        } else {
            Self::ask_lines(id, recipe, true)
        }
    }

    /// Asks for the lines of the recipe behind those in `done`, or returns
    /// `done` when none is left.
    pub open spec fn collect_from(recipes: Seq<RecipeView>, done: Seq<AggregateView>) -> (
        OperationView,
        ActionView,
    ) {
        if done.len() < recipes.len() {
            (
                OperationView::Recipe(RecipeOpView::Collecting { recipes, done }),
                ActionView::Run(
                    StatementView::ListLinesByRecipe { recipe_id: recipes[done.len() as int].id },
                ),
            )
        } else {
            finish_view(Ok(OutcomeView::Recipes(done)))
        }
    }

    /// The operation that creates a recipe with its lines on behalf of
    /// `user`, and its first statement; or, for a line that does not name its
    /// ingredient, its error at once.
    pub open spec fn create(user: int, data: RecipePatchView) -> (OperationView, ActionView) {
        match planned_view(data.ingredients) {
            None => finish_view(Err(missing_field_view(ingredient_id_field()))),
            Some(lines) => (
                OperationView::Recipe(
                    RecipeOpView::CreateBegun {
                        title: data.recipe_patch.title_or_default(),
                        cid: data.recipe_patch.cid_or_default(),
                        lines: match lines {
                            Some(lines) => lines,
                            None => Seq::empty(),
                        },
                        user,
                    },
                ),
                ActionView::Run(StatementView::Begin),
            ),
        }
    }

    /// The operation that reads a recipe with its lines, and its first
    /// statement.
    pub open spec fn get(id: int) -> (OperationView, ActionView) {
        (
            OperationView::Recipe(
                RecipeOpView::Read { id, missing: not_found_view(recipes_table(), id) },
            ),
            ActionView::Run(StatementView::SelectRecipe { id }),
        )
    }

    /// The operation that rewrites a recipe and, if the patch has lines,
    /// replaces its lines, and its first statement; or, for a line that does
    /// not name its ingredient, its error at once.
    pub open spec fn update(user: int, id: int, data: RecipePatchView) -> (
        OperationView,
        ActionView,
    ) {
        match planned_view(data.ingredients) {
            None => finish_view(Err(missing_field_view(ingredient_id_field()))),
            Some(lines) => (
                OperationView::Recipe(
                    RecipeOpView::UpdateBegun {
                        id,
                        title: data.recipe_patch.title_or_default(),
                        cid: data.recipe_patch.cid_or_default(),
                        lines,
                        user,
                    },
                ),
                ActionView::Run(StatementView::Begin),
            ),
        }
    }

    /// The operation that lists all recipes with their lines, and its first
    /// statement.
    pub open spec fn list() -> (OperationView, ActionView) {
        (OperationView::Recipe(RecipeOpView::AllAsked), ActionView::Run(StatementView::ListRecipes))
    }

    /// The operation that deletes a recipe with its lines, and its first
    /// statement.
    pub open spec fn delete(id: int) -> (OperationView, ActionView) {
        (
            OperationView::Recipe(RecipeOpView::DeleteBegun { id }),
            ActionView::Run(StatementView::Begin),
        )
    }

    pub open spec fn step(self, reply: ReplyView) -> (OperationView, ActionView) {
        match self {
            RecipeOpView::CreateBegun { title, cid, lines, user } => match reply {
                ReplyView::Done { .. } => (
                    OperationView::Recipe(RecipeOpView::CreateInserted { lines, user }),
                    ActionView::Run(StatementView::InsertRecipe { title, cid }),
                ),
                _ => finish_view(Err(failure_view(reply))),
            },
            RecipeOpView::CreateInserted { lines, user } => match reply {
                ReplyView::Done { last_insert_id } if last_insert_id <= max_id() => (
                    OperationView::Recipe(
                        RecipeOpView::Fetched {
                            id: last_insert_id,
                            lines: Some(lines),
                            user,
                            missing: no_rows_view(),
                            clear: false,
                        },
                    ),
                    ActionView::Run(StatementView::SelectRecipe { id: last_insert_id }),
                ),
                _ => abort_view(failure_view(reply)),
            },
            RecipeOpView::UpdateBegun { id, title, cid, lines, user } => match reply {
                ReplyView::Done { .. } => (
                    OperationView::Recipe(RecipeOpView::UpdateWritten { id, lines, user }),
                    ActionView::Run(StatementView::UpdateRecipe { id, title, cid }),
                ),
                _ => finish_view(Err(failure_view(reply))),
            },
            RecipeOpView::UpdateWritten { id, lines, user } => match reply {
                ReplyView::Done { .. } => (
                    OperationView::Recipe(
                        RecipeOpView::Fetched {
                            id,
                            lines,
                            user,
                            missing: not_found_view(recipes_table(), id),
                            clear: true,
                        },
                    ),
                    ActionView::Run(StatementView::SelectRecipe { id }),
                ),
                _ => abort_view(failure_view(reply)),
            },
            RecipeOpView::Fetched { id, lines, user, missing, clear } => match reply {
                ReplyView::Recipe(recipe) => match lines {
                    None => Self::ask_lines(id, recipe, true),
                    Some(lines) => if clear {
                        (
                            OperationView::Recipe(
                                RecipeOpView::Cleared { id, recipe, lines, user },
                            ),
                            ActionView::Run(StatementView::DeleteLinesByRecipe { recipe_id: id }),
                        )
                    } else {
                        Self::write_from(id, recipe, lines, 0, user)
                    },
                },
                ReplyView::RowNotFound => abort_view(missing),
                _ => abort_view(failure_view(reply)),
            },
            RecipeOpView::Cleared { id, recipe, lines, user } => match reply {
                ReplyView::Done { .. } => Self::write_from(id, recipe, lines, 0, user),
                _ => abort_view(failure_view(reply)),
            },
            RecipeOpView::LineWritten { id, recipe, lines, written, user } => match reply {
                ReplyView::Done { .. } => Self::write_from(id, recipe, lines, written, user),
                _ => abort_view(failure_view(reply)),
            },
            RecipeOpView::Read { id, missing } => match reply {
                ReplyView::Recipe(recipe) => Self::ask_lines(id, recipe, false),
                ReplyView::RowNotFound => finish_view(Err(missing)),
                _ => finish_view(Err(failure_view(reply))),
            },
            RecipeOpView::LinesAsked { recipe, atomic } => match reply {
                ReplyView::Lines(lines) => if atomic {
                    commit_view(OutcomeView::Recipe(recipe, lines))
                } else {
                    finish_view(Ok(OutcomeView::Recipe(recipe, lines)))
                },
                _ => if atomic {
                    abort_view(failure_view(reply))
                } else {
                    finish_view(Err(failure_view(reply)))
                },
            },
            RecipeOpView::DeleteBegun { id } => match reply {
                ReplyView::Done { .. } => (
                    OperationView::Recipe(RecipeOpView::DeleteFetched { id }),
                    ActionView::Run(StatementView::SelectRecipe { id }),
                ),
                _ => finish_view(Err(failure_view(reply))),
            },
            RecipeOpView::DeleteFetched { id } => match reply {
                ReplyView::Recipe(recipe) => (
                    OperationView::Recipe(RecipeOpView::DeleteListed { id, recipe }),
                    ActionView::Run(StatementView::ListLinesByRecipe { recipe_id: id }),
                ),
                ReplyView::RowNotFound => abort_view(not_found_view(recipes_table(), id)),
                _ => abort_view(failure_view(reply)),
            },
            RecipeOpView::DeleteListed { id, recipe } => match reply {
                ReplyView::Lines(lines) => (
                    OperationView::Recipe(RecipeOpView::DeleteCleared { id, recipe, lines }),
                    ActionView::Run(StatementView::DeleteLinesByRecipe { recipe_id: id }),
                ),
                _ => abort_view(failure_view(reply)),
            },
            RecipeOpView::DeleteCleared { id, recipe, lines } => match reply {
                ReplyView::Done { .. } => (
                    OperationView::Recipe(RecipeOpView::DeleteRemoved { recipe, lines }),
                    ActionView::Run(StatementView::DeleteRecipe { id }),
                ),
                _ => abort_view(failure_view(reply)),
            },
            RecipeOpView::DeleteRemoved { recipe, lines } => match reply {
                ReplyView::Done { .. } => commit_view(OutcomeView::Recipe(recipe, lines)),
                _ => abort_view(failure_view(reply)),
            },
            RecipeOpView::AllAsked => match reply {
                ReplyView::Recipes(recipes) => Self::collect_from(recipes, Seq::empty()),
                _ => finish_view(Err(failure_view(reply))),
            },
            RecipeOpView::Collecting { recipes, done } => match reply {
                ReplyView::Lines(lines) if done.len() < recipes.len() => Self::collect_from(
                    recipes,
                    done.push((recipes[done.len() as int], lines)),
                ),
                _ => finish_view(Err(failure_view(reply))),
            },
        }
    }

    /// The operation has opened a transaction and not yet asked to end it.
    pub open spec fn holds_transaction(self) -> bool {
        match self {
            RecipeOpView::CreateInserted { .. } => true,
            RecipeOpView::UpdateWritten { .. } => true,
            RecipeOpView::Fetched { .. } => true,
            RecipeOpView::Cleared { .. } => true,
            RecipeOpView::LineWritten { .. } => true,
            RecipeOpView::LinesAsked { atomic, .. } => atomic,
            RecipeOpView::DeleteFetched { .. } => true,
            RecipeOpView::DeleteListed { .. } => true,
            RecipeOpView::DeleteCleared { .. } => true,
            RecipeOpView::DeleteRemoved { .. } => true,
            _ => false,
        }
    }

    /// The operation has asked for a transaction and awaits the answer.
    pub open spec fn begins_transaction(self) -> bool {
        self is CreateBegun || self is UpdateBegun || self is DeleteBegun
    }

    pub open spec fn stage(self) -> nat {
        match self {
            RecipeOpView::AllAsked => 1,
            _ => 0,
        }
    }

    pub open spec fn remaining(self) -> nat {
        match self {
            RecipeOpView::CreateBegun { lines, .. } => lines.len() + 7,
            RecipeOpView::CreateInserted { lines, .. } => lines.len() + 6,
            RecipeOpView::UpdateBegun { lines, .. } => count(lines) + 7,
            RecipeOpView::UpdateWritten { lines, .. } => count(lines) + 6,
            RecipeOpView::Fetched { lines, .. } => count(lines) + 5,
            RecipeOpView::Cleared { lines, .. } => lines.len() + 4,
            RecipeOpView::LineWritten { lines, written, .. } => if 0 <= written <= lines.len() {
                (lines.len() - written + 3) as nat
            } else {
                3
            },
            RecipeOpView::Read { .. } => 3,
            RecipeOpView::LinesAsked { .. } => 2,
            RecipeOpView::DeleteBegun { .. } => 6,
            RecipeOpView::DeleteFetched { .. } => 5,
            RecipeOpView::DeleteListed { .. } => 4,
            RecipeOpView::DeleteCleared { .. } => 3,
            RecipeOpView::DeleteRemoved { .. } => 2,
            RecipeOpView::AllAsked => 0,
            RecipeOpView::Collecting { recipes, done } => if done.len() < recipes.len() {
                (recipes.len() - done.len()) as nat
            } else {
                1
            },
        }
    }
}

impl RecipePatchInner {
    /// The title that this patch writes.
    pub fn title_or_default(title: Option<String>) -> (text: String)
        ensures
            text@ == match title {
                Some(given) => given@,
                None => default_title(),
            },
    {
        match title {
            Some(given) => given,
            None => String::from_str("Untitled Recipe"),
        }
    }

    /// The creator that this patch writes.
    pub fn cid_or_default(cid: Option<i64>) -> (creator: i64)
        ensures
            creator == match cid {
                Some(given) => given,
                None => 0,
            },
    {
        match cid {
            Some(given) => given,
            None => 0,
        }
    }
}

/// The drafts of the lines that a recipe's patch asks to be written.
fn planned(ingredients: &Option<Vec<RecipeIngredientPatch>>) -> (result: Result<
    Option<Vec<LineDraft>>,
    Error,
>)
    ensures
        result_view(result) == match planned_view(ingredients.deep_view()) {
            Some(lines) => Ok(lines),
            None => Err(missing_field_view(ingredient_id_field())),
        },
{
    match ingredients {
        None => Ok(None),
        Some(patches) => match drafts(patches) {
            Ok(lines) => Ok(Some(lines)),
            Err(error) => Err(error),
        },
    }
}

impl RecipeOp {
    fn ask_lines(id: i64, recipe: Recipe, atomic: bool) -> (next: (Operation, Action))
        ensures
            (next.0@, next.1@) == RecipeOpView::ask_lines(id as int, recipe@, atomic),
    {
        (
            Operation::Recipe(RecipeOp::LinesAsked { recipe, atomic }),
            Action::Run(Statement::ListLinesByRecipe { recipe_id: id }),
        )
    }

    fn write_from(id: i64, recipe: Recipe, lines: Vec<LineDraft>, from: usize, user: i64) -> (next:
        (Operation, Action))
        ensures
            (next.0@, next.1@) == RecipeOpView::write_from(
                id as int,
                recipe@,
                lines.deep_view(),
                from as int,
                user as int,
            ),
    {
        if from < lines.len() {
            let statement = Statement::InsertLine {
                recipe_id: id,
                ingredient_id: lines[from].ingredient_id,
                ingredient_name: lines[from].ingredient_name.clone(),
                quantity: lines[from].quantity.clone(),
                cid: user,
            };
            (
                Operation::Recipe(
                    RecipeOp::LineWritten { id, recipe, lines, written: from + 1, user },
                ),
                Action::Run(statement),
            )
        } else {
            RecipeOp::ask_lines(id, recipe, true)
        }
    }

    fn collect_from(recipes: Vec<Recipe>, done: Vec<(Recipe, Vec<RecipeIngredientMac>)>) -> (next:
        (Operation, Action))
        ensures
            (next.0@, next.1@) == RecipeOpView::collect_from(
                recipes.deep_view(),
                done.deep_view(),
            ),
    {
        if done.len() < recipes.len() {
            let recipe_id = recipes[done.len()].id;
            (
                Operation::Recipe(RecipeOp::Collecting { recipes, done }),
                Action::Run(Statement::ListLinesByRecipe { recipe_id }),
            )
        } else {
            finish(Ok(Outcome::Recipes(done)))
        }
    }

    /// The operation that creates a recipe with its lines on behalf of `utx`,
    /// and its first statement; or, for a line that does not name its
    /// ingredient, its error at once.
    pub fn create(utx: &UserCtx, data: RecipePatch) -> (start: (Operation, Action))
        ensures
            (start.0@, start.1@) == RecipeOpView::create(utx.user_id as int, data@),
    {
        match planned(&data.ingredients) {
            Err(error) => finish(Err(error)),
            Ok(lines) => {
                let lines = match lines {
                    Some(lines) => lines,
                    None => {
                        let none: Vec<LineDraft> = Vec::new();
                        assert(none.deep_view() =~= Seq::empty());
                        none
                    },
                };
                (
                    Operation::Recipe(
                        RecipeOp::CreateBegun {
                            title: RecipePatchInner::title_or_default(data.recipe_patch.title),
                            cid: RecipePatchInner::cid_or_default(data.recipe_patch.cid),
                            lines,
                            user: utx.user_id,
                        },
                    ),
                    Action::Run(Statement::Begin),
                )
            },
        }
    }

    /// The operation that reads a recipe with its lines, and its first
    /// statement.
    pub fn get(id: i64) -> (start: (Operation, Action))
        ensures
            (start.0@, start.1@) == RecipeOpView::get(id as int),
    {
        (
            Operation::Recipe(RecipeOp::Read { id, missing: not_found("recipes", id) }),
            Action::Run(Statement::SelectRecipe { id }),
        )
    }

    /// The operation that rewrites a recipe and, if the patch has lines,
    /// replaces its lines, and its first statement; or, for a line that does
    /// not name its ingredient, its error at once.
    pub fn update(utx: &UserCtx, id: i64, data: RecipePatch) -> (start: (Operation, Action))
        ensures
            (start.0@, start.1@) == RecipeOpView::update(utx.user_id as int, id as int, data@),
    {
        match planned(&data.ingredients) {
            Err(error) => finish(Err(error)),
            Ok(lines) => (
                Operation::Recipe(
                    RecipeOp::UpdateBegun {
                        id,
                        title: RecipePatchInner::title_or_default(data.recipe_patch.title),
                        cid: RecipePatchInner::cid_or_default(data.recipe_patch.cid),
                        lines,
                        user: utx.user_id,
                    },
                ),
                Action::Run(Statement::Begin),
            ),
        }
    }

    /// The operation that lists all recipes with their lines, and its first
    /// statement.
    pub fn list() -> (start: (Operation, Action))
        ensures
            (start.0@, start.1@) == RecipeOpView::list(),
    {
        (Operation::Recipe(RecipeOp::AllAsked), Action::Run(Statement::ListRecipes))
    }

    /// The operation that deletes a recipe with its lines, and its first
    /// statement.
    pub fn delete(id: i64) -> (start: (Operation, Action))
        ensures
            (start.0@, start.1@) == RecipeOpView::delete(id as int),
    {
        (Operation::Recipe(RecipeOp::DeleteBegun { id }), Action::Run(Statement::Begin))
    }

    /// Takes the answer to the statement that the operation named last.
    pub fn step(self, reply: Reply) -> (next: (Operation, Action))
        ensures
            (next.0@, next.1@) == self@.step(reply@),
    {
        match self {
            RecipeOp::CreateBegun { title, cid, lines, user } => match reply {
                Reply::Done { .. } => (
                    Operation::Recipe(RecipeOp::CreateInserted { lines, user }),
                    Action::Run(Statement::InsertRecipe { title, cid }),
                ),
                other => finish(Err(failure(other))),
            },
            RecipeOp::CreateInserted { lines, user } => match reply {
                Reply::Done { last_insert_id } if last_insert_id <= i64::MAX as u64 => (
                    Operation::Recipe(
                        RecipeOp::Fetched {
                            id: last_insert_id as i64,
                            lines: Some(lines),
                            user,
                            missing: no_rows(),
                            clear: false,
                        },
                    ),
                    Action::Run(Statement::SelectRecipe { id: last_insert_id as i64 }),
                ),
                other => abort(failure(other)),
            },
            RecipeOp::UpdateBegun { id, title, cid, lines, user } => match reply {
                Reply::Done { .. } => (
                    Operation::Recipe(RecipeOp::UpdateWritten { id, lines, user }),
                    Action::Run(Statement::UpdateRecipe { id, title, cid }),
                ),
                other => finish(Err(failure(other))),
            },
            RecipeOp::UpdateWritten { id, lines, user } => match reply {
                Reply::Done { .. } => (
                    Operation::Recipe(
                        RecipeOp::Fetched {
                            id,
                            lines,
                            user,
                            missing: not_found("recipes", id),
                            clear: true,
                        },
                    ),
                    Action::Run(Statement::SelectRecipe { id }),
                ),
                other => abort(failure(other)),
            },
            RecipeOp::Fetched { id, lines, user, missing, clear } => match reply {
                Reply::Recipe(recipe) => match lines {
                    None => RecipeOp::ask_lines(id, recipe, true),
                    Some(lines) => if clear {
                        (
                            Operation::Recipe(RecipeOp::Cleared { id, recipe, lines, user }),
                            Action::Run(Statement::DeleteLinesByRecipe { recipe_id: id }),
                        )
                    } else {
                        RecipeOp::write_from(id, recipe, lines, 0, user)
                    },
                },
                Reply::RowNotFound => abort(missing),
                other => abort(failure(other)),
            },
            RecipeOp::Cleared { id, recipe, lines, user } => match reply {
                Reply::Done { .. } => RecipeOp::write_from(id, recipe, lines, 0, user),
                other => abort(failure(other)),
            },
            RecipeOp::LineWritten { id, recipe, lines, written, user } => match reply {
                Reply::Done { .. } => RecipeOp::write_from(id, recipe, lines, written, user),
                other => abort(failure(other)),
            },
            RecipeOp::Read { id, missing } => match reply {
                Reply::Recipe(recipe) => RecipeOp::ask_lines(id, recipe, false),
                Reply::RowNotFound => finish(Err(missing)),
                other => finish(Err(failure(other))),
            },
            RecipeOp::LinesAsked { recipe, atomic } => match reply {
                Reply::Lines(lines) => if atomic {
                    commit(Outcome::Recipe(recipe, lines))
                } else {
                    finish(Ok(Outcome::Recipe(recipe, lines)))
                },
                other => if atomic {
                    abort(failure(other))
                } else {
                    finish(Err(failure(other)))
                },
            },
            RecipeOp::DeleteBegun { id } => match reply {
                Reply::Done { .. } => (
                    Operation::Recipe(RecipeOp::DeleteFetched { id }),
                    Action::Run(Statement::SelectRecipe { id }),
                ),
                other => finish(Err(failure(other))),
            },
            RecipeOp::DeleteFetched { id } => match reply {
                Reply::Recipe(recipe) => (
                    Operation::Recipe(RecipeOp::DeleteListed { id, recipe }),
                    Action::Run(Statement::ListLinesByRecipe { recipe_id: id }),
                ),
                Reply::RowNotFound => abort(not_found("recipes", id)),
                other => abort(failure(other)),
            },
            RecipeOp::DeleteListed { id, recipe } => match reply {
                Reply::Lines(lines) => (
                    Operation::Recipe(RecipeOp::DeleteCleared { id, recipe, lines }),
                    Action::Run(Statement::DeleteLinesByRecipe { recipe_id: id }),
                ),
                other => abort(failure(other)),
            },
            RecipeOp::DeleteCleared { id, recipe, lines } => match reply {
                Reply::Done { .. } => (
                    Operation::Recipe(RecipeOp::DeleteRemoved { recipe, lines }),
                    Action::Run(Statement::DeleteRecipe { id }),
                ),
                other => abort(failure(other)),
            },
            RecipeOp::DeleteRemoved { recipe, lines } => match reply {
                Reply::Done { .. } => commit(Outcome::Recipe(recipe, lines)),
                other => abort(failure(other)),
            },
            RecipeOp::AllAsked => match reply {
                Reply::Recipes(recipes) => {
                    let done: Vec<(Recipe, Vec<RecipeIngredientMac>)> = Vec::new();
                    assert(done.deep_view() =~= Seq::empty());
                    RecipeOp::collect_from(recipes, done)
                },
                other => finish(Err(failure(other))),
            },
            RecipeOp::Collecting { recipes, done } => {
                let mut done = done;
                match reply {
                    Reply::Lines(lines) if done.len() < recipes.len() => {
                        let ghost before = done.deep_view();
                        let recipe = recipes[done.len()].clone();
                        let ghost pair = (recipe@, lines.deep_view());
                        done.push((recipe, lines));
                        assert(done.deep_view() =~= before.push(pair));
                        RecipeOp::collect_from(recipes, done)
                    },
                    other => finish(Err(failure(other))),
                }
            },
        }
    }
}

/// The lines that the drafts become under the recipe `id`, written by `user`
/// at the time `clock`.
pub open spec fn lines_from(clock: int, id: int, drafts: Seq<LineDraftView>, user: int) -> Seq<
    LineView,
> {
    Seq::new(
        drafts.len(),
        |i: int|
            LineView {
                recipe_id: id,
                ingredient_id: drafts[i].ingredient_id,
                ingredient_name: drafts[i].ingredient_name,
                quantity: drafts[i].quantity,
                cid: user,
                ctime: clock,
                mtime: clock,
            },
    )
}

/// The table after `lines` are inserted one by one, if each of them finds
/// its key free when its turn comes.
pub open spec fn add_lines(table: Seq<LineView>, lines: Seq<LineView>) -> Option<Seq<LineView>>
    decreases lines.len(),
{
    if lines.len() == 0 {
        Some(table)
    } else if find(table, line_is(lines[0].recipe_id, lines[0].ingredient_id)) is Some {
        None
    } else {
        add_lines(table.push(lines[0]), lines.skip(1))
    }
}

/// Each recipe with its lines.
pub open spec fn aggregates(recipes: Seq<RecipeView>, lines: Seq<LineView>) -> Seq<AggregateView> {
    Seq::new(recipes.len(), |i: int| (recipes[i], keep(lines, line_of(recipes[i].id))))
}

/// The drafts to write where a patch may have none.
pub open spec fn drafts_or_none(lines: Option<Seq<LineDraftView>>) -> Seq<LineDraftView> {
    match lines {
        Some(lines) => lines,
        None => Seq::empty(),
    }
}

/// The recipe store. It keeps each recipe together with its lines.
pub struct RecipeMac;

impl RecipeMac {
    /// What `create` returns and leaves in the storage. A patch with a line
    /// that names no ingredient is refused before the storage is touched. In
    /// a transaction that the caller has left open, and when no identity is
    /// left, the storage fails and nothing changes. Else the recipe gets the
    /// next identity, the patch's title and creator or their defaults, and
    /// its lines are inserted under it in the patch's order. If a line's key
    /// is taken, neither the recipe nor any line stays, and only the identity
    /// is spent. The result is the recipe with all lines stored under it.
    pub open spec fn spec_create(db: DbView, user: int, data: RecipePatchView) -> (
        DbView,
        Result<AggregateView, ErrorView>,
    ) {
        match planned_view(data.ingredients) {
            None => (db, Err(missing_field_view(ingredient_id_field()))),
            Some(lines) => if db.saved is Some {
                (db, Err(ErrorView::StorageFailure(cause_transaction_open())))
            } else if db.next_recipe_id > max_id() {
                (db, Err(ErrorView::StorageFailure(cause_identity_exhausted())))
            } else {
                let id = db.next_recipe_id as int;
                let recipe = db.new_recipe(
                    data.recipe_patch.title_or_default(),
                    data.recipe_patch.cid_or_default(),
                );
                let spent = DbView { next_recipe_id: db.next_recipe_id + 1, ..db };
                match add_lines(
                    db.rows.lines,
                    lines_from(db.clock, id, drafts_or_none(lines), user),
                ) {
                    None => (spent, Err(ErrorView::StorageFailure(cause_duplicate_key()))),
                    Some(table) => (
                        spent.with_recipes(db.rows.recipes.push(recipe)).with_lines(table),
                        Ok((recipe, keep(table, line_of(id)))),
                    ),
                }
            },
        }
    }

    /// What `get` returns: the recipe with that identity and its lines, or
    /// that there is none. The storage stays as it is.
    pub open spec fn spec_get(db: DbView, id: int) -> (DbView, Result<AggregateView, ErrorView>) {
        match db.rows.recipe(id) {
            Some(recipe) => (db, Ok((recipe, db.rows.lines_of(id)))),
            None => (db, Err(not_found_view(recipes_table(), id))),
        }
    }

    /// What `update` returns and leaves in the storage. A patch with a line
    /// that names no ingredient is refused before the storage is touched. In
    /// a transaction that the caller has left open the storage fails. If the
    /// identity is not in the table, that is the error. Else the recipe gets
    /// the patch's title and creator or their defaults, modified at the
    /// storage's time. Without lines in the patch the recipe's lines stay.
    /// With lines, the old ones are removed and the patch's lines inserted in
    /// their order; if two of them have one key, the storage fails. Every
    /// error leaves the storage as it was.
    pub open spec fn spec_update(db: DbView, user: int, id: int, data: RecipePatchView) -> (
        DbView,
        Result<AggregateView, ErrorView>,
    ) {
        let title = data.recipe_patch.title_or_default();
        let cid = data.recipe_patch.cid_or_default();
        match planned_view(data.ingredients) {
            None => (db, Err(missing_field_view(ingredient_id_field()))),
            Some(lines) => if db.saved is Some {
                (db, Err(ErrorView::StorageFailure(cause_transaction_open())))
            } else {
                match db.rows.recipe(id) {
                    None => (db, Err(not_found_view(recipes_table(), id))),
                    Some(row) => {
                        let recipe = RecipeView { title, cid, mtime: db.clock, ..row };
                        let rewritten = db.update_recipe(id, title, cid);
                        match lines {
                            None => (rewritten, Ok((recipe, db.rows.lines_of(id)))),
                            Some(drafts) => match add_lines(
                                reject(db.rows.lines, line_of(id)),
                                lines_from(db.clock, id, drafts, user),
                            ) {
                                None => (
                                    db,
                                    Err(ErrorView::StorageFailure(cause_duplicate_key())),
                                ),
                                Some(table) => (
                                    rewritten.with_lines(table),
                                    Ok((recipe, keep(table, line_of(id)))),
                                ),
                            },
                        }
                    },
                }
            },
        }
    }

    /// What `list` returns: all recipes, the last created first, each with
    /// its lines.
    pub open spec fn spec_list(db: DbView) -> (DbView, Result<Seq<AggregateView>, ErrorView>) {
        (db, Ok(aggregates(reversed(db.rows.recipes), db.rows.lines)))
    }

    /// What `delete` returns and leaves in the storage: the recipe and its
    /// lines as they were, and the tables without them; no change, and that
    /// there is none, if the identity is not in the table. Inside a
    /// transaction that the caller has left open, a storage failure and no
    /// change.
    pub open spec fn spec_delete(db: DbView, id: int) -> (
        DbView,
        Result<AggregateView, ErrorView>,
    ) {
        if db.saved is Some {
            (db, Err(ErrorView::StorageFailure(cause_transaction_open())))
        } else {
            match db.rows.recipe(id) {
                Some(recipe) => (
                    db.delete_lines_of(id).delete_recipe(id),
                    Ok((recipe, db.rows.lines_of(id))),
                ),
                None => (db, Err(not_found_view(recipes_table(), id))),
            }
        }
    }

    /// Inside a transaction, writing the drafts from `from` on and returning
    /// the recipe with its lines ends with the lines added and the
    /// transaction committed, or, if a key is taken, with the transaction
    /// rolled back.
    pub proof fn lemma_write_runs(
        db: DbView,
        id: int,
        recipe: RecipeView,
        lines: Seq<LineDraftView>,
        from: int,
        user: int,
    )
        requires
            0 <= from <= lines.len(),
            db.saved is Some,
        ensures
            ({
                let start = RecipeOpView::write_from(id, recipe, lines, from, user);
                start.0.run(db, start.1) == match add_lines(
                    db.rows.lines,
                    lines_from(db.clock, id, lines, user).skip(from),
                ) {
                    None => (
                        db.rollback().0,
                        Err(ErrorView::StorageFailure(cause_duplicate_key())),
                    ),
                    Some(table) => (
                        db.with_lines(table).commit().0,
                        Ok(OutcomeView::Recipe(recipe, keep(table, line_of(id)))),
                    ),
                }
            }),
        decreases lines.len() - from,
    {
        reveal_with_fuel(OperationView::run, 4);
        let planned = lines_from(db.clock, id, lines, user);
        if from == lines.len() {
            assert(db.with_lines(db.rows.lines) == db);
        } else {
            let line = planned[from];
            assert(planned.skip(from)[0] == line);
            assert(planned.skip(from).skip(1) =~= planned.skip(from + 1));
            if find(db.rows.lines, line_is(line.recipe_id, line.ingredient_id)) is None {
                let db1 = db.with_lines(db.rows.lines.push(line));
                Self::lemma_write_runs(db1, id, recipe, lines, from + 1, user);
                assert(db1.rollback().0 == db.rollback().0);
                assert forall|table: Seq<LineView>| #[trigger]
                    db1.with_lines(table) == db.with_lines(table) by {}
            }
        }
    }

    /// Asking for the lines of the recipes behind those in `done` ends with
    /// every recipe paired with its lines.
    pub proof fn lemma_collect_runs(db: DbView, recipes: Seq<RecipeView>, done: Seq<AggregateView>)
        requires
            done.len() <= recipes.len(),
            done == aggregates(recipes, db.rows.lines).take(done.len() as int),
        ensures
            ({
                let start = RecipeOpView::collect_from(recipes, done);
                start.0.run(db, start.1) == (
                    db,
                    Ok::<OutcomeView, ErrorView>(
                        OutcomeView::Recipes(aggregates(recipes, db.rows.lines)),
                    ),
                )
            }),
        decreases recipes.len() - done.len(),
    {
        reveal_with_fuel(OperationView::run, 2);
        let all = aggregates(recipes, db.rows.lines);
        if done.len() == recipes.len() {
            assert(all.take(done.len() as int) =~= all);
        } else {
            let k = done.len() as int;
            let more = done.push(all[k]);
            assert(more =~= all.take(k + 1));
            Self::lemma_collect_runs(db, recipes, more);
        }
    }

    /// Run against the storage model, the operation that `create` starts ends
    /// as [`Self::spec_create`] says.
    pub proof fn lemma_create_runs(db: DbView, user: int, data: RecipePatchView)
        ensures
            ({
                let start = RecipeOpView::create(user, data);
                let end = start.0.run(db, start.1);
                (end.0, recipe_view(end.1)) == Self::spec_create(db, user, data)
            }),
    {
        reveal_with_fuel(OperationView::run, 4);
        if let Some(lines) = planned_view(data.ingredients) {
            if db.saved is None && db.next_recipe_id <= max_id() {
                let drafts = drafts_or_none(lines);
                let id = db.next_recipe_id as int;
                let recipe = db.new_recipe(
                    data.recipe_patch.title_or_default(),
                    data.recipe_patch.cid_or_default(),
                );
                let db2 = db.begin().0.insert_recipe(recipe.title, recipe.cid).0;
                Self::lemma_write_runs(db2, id, recipe, drafts, 0, user);
                let planned = lines_from(db.clock, id, drafts, user);
                assert(planned.skip(0) =~= planned);
            }
        }
    }

    /// Run against the storage model, the operation that `get` starts ends as
    /// [`Self::spec_get`] says.
    pub proof fn lemma_get_runs(db: DbView, id: int)
        ensures
            ({
                let start = RecipeOpView::get(id);
                let end = start.0.run(db, start.1);
                (end.0, recipe_view(end.1)) == Self::spec_get(db, id)
            }),
    {
        reveal_with_fuel(OperationView::run, 3);
    }

    /// Run against the storage model, the operation that `update` starts ends
    /// as [`Self::spec_update`] says.
    pub proof fn lemma_update_runs(db: DbView, user: int, id: int, data: RecipePatchView)
        ensures
            ({
                let start = RecipeOpView::update(user, id, data);
                let end = start.0.run(db, start.1);
                (end.0, recipe_view(end.1)) == Self::spec_update(db, user, id, data)
            }),
    {
        reveal_with_fuel(OperationView::run, 7);
        let title = data.recipe_patch.title_or_default();
        let cid = data.recipe_patch.cid_or_default();
        if let Some(lines) = planned_view(data.ingredients) {
            if db.saved is None {
                lemma_find_rewrite(
                    db.rows.recipes,
                    recipe_is(id),
                    retitled(title, cid, db.clock),
                );
                if let Some(row) = db.rows.recipe(id) {
                    if let Some(drafts) = lines {
                        let recipe = RecipeView { title, cid, mtime: db.clock, ..row };
                        let db2 = db.begin().0.update_recipe(id, title, cid).delete_lines_of(id);
                        Self::lemma_write_runs(db2, id, recipe, drafts, 0, user);
                        let planned = lines_from(db.clock, id, drafts, user);
                        assert(planned.skip(0) =~= planned);
                    }
                }
            }
        }
    }

    /// Run against the storage model, the operation that `list` starts ends
    /// as [`Self::spec_list`] says.
    pub proof fn lemma_list_runs(db: DbView)
        ensures
            ({
                let start = RecipeOpView::list();
                let end = start.0.run(db, start.1);
                (end.0, recipes_view(end.1)) == Self::spec_list(db)
            }),
    {
        reveal_with_fuel(OperationView::run, 2);
        let recipes = reversed(db.rows.recipes);
        assert(aggregates(recipes, db.rows.lines).take(0) =~= Seq::<AggregateView>::empty());
        Self::lemma_collect_runs(db, recipes, Seq::empty());
    }

    /// Run against the storage model, the operation that `delete` starts ends
    /// as [`Self::spec_delete`] says.
    pub proof fn lemma_delete_runs(db: DbView, id: int)
        ensures
            ({
                let start = RecipeOpView::delete(id);
                let end = start.0.run(db, start.1);
                (end.0, recipe_view(end.1)) == Self::spec_delete(db, id)
            }),
    {
        reveal_with_fuel(OperationView::run, 7);
    }

    /// Stores a new recipe with the patch's lines, all or nothing, and
    /// returns the recipe and its lines as stored.
    pub fn create(db: &mut Db, utx: &UserCtx, data: RecipePatch) -> (result: Result<
        (Recipe, Vec<RecipeIngredientMac>),
        Error,
    >)
        requires
            old(db).wf(),
        ensures
            final(db).wf(),
            (final(db)@, result_view(result)) == Self::spec_create(
                old(db)@,
                utx.user_id as int,
                data@,
            ),
    {
        proof {
            Self::lemma_create_runs(db@, utx.user_id as int, data@);
        }
        let start = RecipeOp::create(utx, data);
        Outcome::recipe(run(db, start.0, start.1))
    }

    /// Returns the recipe with the identity `id` and its lines.
    pub fn get(db: &mut Db, _utx: &UserCtx, id: i64) -> (result: Result<
        (Recipe, Vec<RecipeIngredientMac>),
        Error,
    >)
        requires
            old(db).wf(),
        ensures
            final(db).wf(),
            (final(db)@, result_view(result)) == Self::spec_get(old(db)@, id as int),
    {
        proof {
            Self::lemma_get_runs(db@, id as int);
        }
        let start = RecipeOp::get(id);
        Outcome::recipe(run(db, start.0, start.1))
    }

    /// Writes the patch's title and creator, or their defaults, over those of
    /// the recipe `id`; replaces its lines by the patch's, if the patch has
    /// lines; and returns the recipe and its lines as stored. All or nothing.
    pub fn update(db: &mut Db, utx: &UserCtx, id: i64, data: RecipePatch) -> (result: Result<
        (Recipe, Vec<RecipeIngredientMac>),
        Error,
    >)
        requires
            old(db).wf(),
        ensures
            final(db).wf(),
            (final(db)@, result_view(result)) == Self::spec_update(
                old(db)@,
                utx.user_id as int,
                id as int,
                data@,
            ),
    {
        proof {
            Self::lemma_update_runs(db@, utx.user_id as int, id as int, data@);
        }
        let start = RecipeOp::update(utx, id, data);
        Outcome::recipe(run(db, start.0, start.1))
    }

    /// Returns all recipes, the highest identity first, each with its lines.
    pub fn list(db: &mut Db, _utx: &UserCtx) -> (result: Result<
        Vec<(Recipe, Vec<RecipeIngredientMac>)>,
        Error,
    >)
        requires
            old(db).wf(),
        ensures
            final(db).wf(),
            (final(db)@, result_view(result)) == Self::spec_list(old(db)@),
    {
        proof {
            Self::lemma_list_runs(db@);
        }
        let start = RecipeOp::list();
        Outcome::recipes(run(db, start.0, start.1))
    }

    /// Removes the recipe `id` and its lines, and returns them as they were.
    pub fn delete(db: &mut Db, _utx: &UserCtx, id: i64) -> (result: Result<
        (Recipe, Vec<RecipeIngredientMac>),
        Error,
    >)
        requires
            old(db).wf(),
        ensures
            final(db).wf(),
            (final(db)@, result_view(result)) == Self::spec_delete(old(db)@, id as int),
    {
        proof {
            Self::lemma_delete_runs(db@, id as int);
        }
        let start = RecipeOp::delete(id);
        Outcome::recipe(run(db, start.0, start.1))
    }
}

} // verus!
