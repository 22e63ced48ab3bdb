//! Recipe lines: one ingredient with its quantity in one recipe.

use crate::db::Db;
use crate::error::{result_view, Error, ErrorView};
use crate::operation::{
    abort, abort_view, commit, commit_view, failure, failure_view, finish, finish_view, line_view,
    lines_view, no_rows, no_rows_view, not_found, not_found_view, nothing_view, run, Action,
    ActionView, Operation, OperationView, Outcome, OutcomeView,
};
use crate::rows::{descending, lemma_find_rewrite, lemma_rewrite_none};
use crate::security::UserCtx;
use crate::statement::{Reply, ReplyView, Statement, StatementView};
use crate::storage::{
    cause_duplicate_key, cause_transaction_open, line_is, line_recipe, requantified, DbView,
};
use vstd::prelude::*;
use vstd::string::*;

verus! {

/// A line of a recipe as it is stored, keyed by the recipe and the
/// ingredient together. The type also carries the line store's operations.
#[derive(Debug, PartialEq, Eq)]
pub struct RecipeIngredientMac {
    pub recipe_id: i64,
    pub ingredient_id: i64,
    pub ingredient_name: String,
    pub quantity: String,
    pub cid: i64,
    pub ctime: i64,
    pub mtime: i64,
}

/// The mathematical content of a [`RecipeIngredientMac`].
pub struct LineView {
    pub recipe_id: int,
    pub ingredient_id: int,
    pub ingredient_name: Seq<char>,
    pub quantity: Seq<char>,
    pub cid: int,
    pub ctime: int,
    pub mtime: int,
}

impl View for RecipeIngredientMac {
    type V = LineView;

    open spec fn view(&self) -> LineView {
        LineView {
            recipe_id: self.recipe_id as int,
            ingredient_id: self.ingredient_id as int,
            ingredient_name: self.ingredient_name@,
            quantity: self.quantity@,
            cid: self.cid as int,
            ctime: self.ctime as int,
            mtime: self.mtime as int,
        }
    }
}

impl DeepView for RecipeIngredientMac {
    type V = LineView;

    open spec fn deep_view(&self) -> LineView {
        self@
    }
}

impl Clone for RecipeIngredientMac {
    fn clone(&self) -> (copy: Self)
        ensures
            copy == *self,
    {
        RecipeIngredientMac {
            recipe_id: self.recipe_id,
            ingredient_id: self.ingredient_id,
            ingredient_name: self.ingredient_name.clone(),
            quantity: self.quantity.clone(),
            cid: self.cid,
            ctime: self.ctime,
            mtime: self.mtime,
        }
    }
}

/// The fields of a line that a caller may supply. The two identities cannot
/// be defaulted; an absent quantity is written as the default quantity.
#[derive(Debug, Default, Clone, PartialEq, Eq)]
pub struct RecipeIngredientPatch {
    pub recipe_id: Option<i64>,
    pub ingredient_id: Option<i64>,
    pub ingredient_name: String,
    pub quantity: Option<String>,
}

/// The mathematical content of a [`RecipeIngredientPatch`].
pub struct LinePatchView {
    pub recipe_id: Option<int>,
    pub ingredient_id: Option<int>,
    pub ingredient_name: Seq<char>,
    pub quantity: Option<Seq<char>>,
}

impl View for RecipeIngredientPatch {
    type V = LinePatchView;

    open spec fn view(&self) -> LinePatchView {
        LinePatchView {
            recipe_id: match self.recipe_id {
                Some(id) => Some(id as int),
                None => None,
            },
            ingredient_id: match self.ingredient_id {
                Some(id) => Some(id as int),
                None => None,
            },
            ingredient_name: self.ingredient_name@,
            quantity: self.quantity.deep_view(),
        }
    }
}

impl DeepView for RecipeIngredientPatch {
    type V = LinePatchView;

    open spec fn deep_view(&self) -> LinePatchView {
        self@
    }
}

/// The quantity written for a line whose patch has none.
pub open spec fn default_quantity() -> Seq<char> {
    "1 unit"@
}

impl LinePatchView {
    /// The quantity that this patch writes.
    pub open spec fn quantity_or_default(self) -> Seq<char> {
        match self.quantity {
            Some(quantity) => quantity,
            None => default_quantity(),
        }
    }
}

/// The table that holds the lines.
pub open spec fn lines_table() -> Seq<char> {
    "recipe_ingredients"@
}

/// The field that names a line's recipe.
pub open spec fn recipe_id_field() -> Seq<char> {
    "recipe_id"@
}

/// The field that names a line's ingredient.
pub open spec fn ingredient_id_field() -> Seq<char> {
    "ingredient_id"@
}

/// The error for a patch that does not say which recipe or which ingredient
/// its line belongs to.
pub open spec fn missing_field_view(field: Seq<char>) -> ErrorView {
    ErrorView::MissingField(lines_table(), field)
}

/// Where a line operation stands between two statements.
#[derive(Debug, PartialEq, Eq)]
pub enum LineOp {
    /// The insert was sent; the row that it made is read next.
    Inserted { recipe_id: i64, ingredient_id: i64 },
    /// The update was sent; the row is read next.
    Updated { recipe_id: i64, ingredient_id: i64 },
    /// One row was asked for and is the result. If there is none, `missing`
    /// is the error.
    Row { missing: Error },
    /// Rows were asked for.
    Rows,
    /// The removal of a recipe's lines was sent.
    Cleared,
    /// A delete opened its transaction; the row is read next.
    DeleteBegun { recipe_id: i64, ingredient_id: i64 },
    /// A delete asked for the row; it is removed next.
    DeleteFetched { recipe_id: i64, ingredient_id: i64 },
    /// A delete sent the removal of `row`; the commit is next.
    DeleteRemoved { row: RecipeIngredientMac },
}

/// The mathematical content of a [`LineOp`].
pub enum LineOpView {
    Inserted { recipe_id: int, ingredient_id: int },
    Updated { recipe_id: int, ingredient_id: int },
    Row { missing: ErrorView },
    Rows,
    Cleared,
    DeleteBegun { recipe_id: int, ingredient_id: int },
    DeleteFetched { recipe_id: int, ingredient_id: int },
    DeleteRemoved { row: LineView },
}

impl View for LineOp {
    type V = LineOpView;

    open spec fn view(&self) -> LineOpView {
        match *self {
            LineOp::Inserted { recipe_id, ingredient_id } => LineOpView::Inserted {
                recipe_id: recipe_id as int,
                ingredient_id: ingredient_id as int,
            },
            LineOp::Updated { recipe_id, ingredient_id } => LineOpView::Updated {
                recipe_id: recipe_id as int,
                ingredient_id: ingredient_id as int,
            },
            LineOp::Row { missing } => LineOpView::Row { missing: missing@ },
            LineOp::Rows => LineOpView::Rows,
            LineOp::Cleared => LineOpView::Cleared,
            LineOp::DeleteBegun { recipe_id, ingredient_id } => LineOpView::DeleteBegun {
                recipe_id: recipe_id as int,
                ingredient_id: ingredient_id as int,
            },
            LineOp::DeleteFetched { recipe_id, ingredient_id } => LineOpView::DeleteFetched {
                recipe_id: recipe_id as int,
                ingredient_id: ingredient_id as int,
            },
            LineOp::DeleteRemoved { row } => LineOpView::DeleteRemoved { row: row@ },
        }
    }
}

impl LineOpView {
    /// The operation that reads the line back which an insert or an update
    /// wrote, and its statement.
    pub open spec fn read(recipe_id: int, ingredient_id: int, missing: ErrorView) -> (
        OperationView,
        ActionView,
    ) {
        (
            OperationView::Line(LineOpView::Row { missing }),
            ActionView::Run(StatementView::SelectLine { recipe_id, ingredient_id }),
        )
    }

    /// The operation that creates a line on behalf of `user`, and its first
    /// statement; or, for a patch without one of the two identities, its
    /// error at once.
    pub open spec fn create(user: int, data: LinePatchView) -> (OperationView, ActionView) {
        match (data.recipe_id, data.ingredient_id) {
            (None, _) => finish_view(Err(missing_field_view(recipe_id_field()))),
            (Some(_), None) => finish_view(Err(missing_field_view(ingredient_id_field()))),
            (Some(recipe_id), Some(ingredient_id)) => (
                OperationView::Line(LineOpView::Inserted { recipe_id, ingredient_id }),
                ActionView::Run(
                    StatementView::InsertLine {
                        recipe_id,
                        ingredient_id,
                        ingredient_name: data.ingredient_name,
                        quantity: data.quantity_or_default(),
                        cid: user,
                    },
                ),
            ),
        }
    }

    /// The operation that reads a line, and its first statement.
    pub open spec fn get(recipe_id: int, ingredient_id: int) -> (OperationView, ActionView) {
        Self::read(recipe_id, ingredient_id, not_found_view(lines_table(), recipe_id))
    }

    /// The operation that rewrites a line's quantity, and its first
    /// statement.
    pub open spec fn update(recipe_id: int, ingredient_id: int, data: LinePatchView) -> (
        OperationView,
        ActionView,
    ) {
        (
            OperationView::Line(LineOpView::Updated { recipe_id, ingredient_id }),
            ActionView::Run(
                StatementView::UpdateLine {
                    recipe_id,
                    ingredient_id,
                    quantity: data.quantity_or_default(),
                },
            ),
        )
    }

    /// The operation that lists all lines, and its first statement.
    pub open spec fn list() -> (OperationView, ActionView) {
        (OperationView::Line(LineOpView::Rows), ActionView::Run(StatementView::ListLines))
    }

    /// The operation that lists the lines of a recipe, and its first
    /// statement.
    pub open spec fn list_by_recipe(recipe_id: int) -> (OperationView, ActionView) {
        (
            OperationView::Line(LineOpView::Rows),
            ActionView::Run(StatementView::ListLinesByRecipe { recipe_id }),
        )
    }

    /// The operation that deletes a line, and its first statement.
    pub open spec fn delete(recipe_id: int, ingredient_id: int) -> (OperationView, ActionView) {
        (
            OperationView::Line(LineOpView::DeleteBegun { recipe_id, ingredient_id }),
            ActionView::Run(StatementView::Begin),
        )
    }

    /// The operation that deletes the lines of a recipe, and its first
    /// statement.
    pub open spec fn delete_by_recipe(recipe_id: int) -> (OperationView, ActionView) {
        (
            OperationView::Line(LineOpView::Cleared),
            ActionView::Run(StatementView::DeleteLinesByRecipe { recipe_id }),
        )
    }

    pub open spec fn step(self, reply: ReplyView) -> (OperationView, ActionView) {
        match self {
            LineOpView::Inserted { recipe_id, ingredient_id } => match reply {
                ReplyView::Done { .. } => Self::read(recipe_id, ingredient_id, no_rows_view()),
                _ => finish_view(Err(failure_view(reply))),
            },
            LineOpView::Updated { recipe_id, ingredient_id } => match reply {
                ReplyView::Done { .. } => Self::get(recipe_id, ingredient_id),
                _ => finish_view(Err(failure_view(reply))),
            },
            LineOpView::Row { missing } => match reply {
                ReplyView::Line(row) => finish_view(Ok(OutcomeView::Line(row))),
                ReplyView::RowNotFound => finish_view(Err(missing)),
                _ => finish_view(Err(failure_view(reply))),
            },
            LineOpView::Rows => match reply {
                ReplyView::Lines(rows) => finish_view(Ok(OutcomeView::Lines(rows))),
                _ => finish_view(Err(failure_view(reply))),
            },
            LineOpView::Cleared => match reply {
                ReplyView::Done { .. } => finish_view(Ok(OutcomeView::Nothing)),
                _ => finish_view(Err(failure_view(reply))),
            },
            LineOpView::DeleteBegun { recipe_id, ingredient_id } => match reply {
                ReplyView::Done { .. } => (
                    OperationView::Line(LineOpView::DeleteFetched { recipe_id, ingredient_id }),
                    ActionView::Run(StatementView::SelectLine { recipe_id, ingredient_id }),
                ),
                _ => finish_view(Err(failure_view(reply))),
            },
            LineOpView::DeleteFetched { recipe_id, ingredient_id } => match reply {
                ReplyView::Line(row) => (
                    OperationView::Line(LineOpView::DeleteRemoved { row }),
                    ActionView::Run(StatementView::DeleteLine { recipe_id, ingredient_id }),
                ),
                ReplyView::RowNotFound => abort_view(not_found_view(lines_table(), recipe_id)),
                _ => abort_view(failure_view(reply)),
            },
            LineOpView::DeleteRemoved { row } => match reply {
                ReplyView::Done { .. } => commit_view(OutcomeView::Line(row)),
                _ => abort_view(failure_view(reply)),
            },
        }
    }

    /// The operation has opened a transaction and not yet asked to end it.
    pub open spec fn holds_transaction(self) -> bool {
        self is DeleteFetched || self is DeleteRemoved
    }

    pub open spec fn remaining(self) -> nat {
        match self {
            LineOpView::Inserted { .. } => 2,
            LineOpView::Updated { .. } => 2,
            LineOpView::Row { .. } => 1,
            LineOpView::Rows => 1,
            LineOpView::Cleared => 1,
            LineOpView::DeleteBegun { .. } => 4,
            LineOpView::DeleteFetched { .. } => 3,
            LineOpView::DeleteRemoved { .. } => 2,
        }
    }
}

/// The quantity that a patch writes.
pub fn quantity_or_default(quantity: Option<String>) -> (text: String)
    ensures
        text@ == match quantity {
            Some(given) => given@,
            None => default_quantity(),
        },
{
    match quantity {
        Some(given) => given,
        None => String::from_str("1 unit"),
    }
}

impl LineOp {
    fn read(recipe_id: i64, ingredient_id: i64, missing: Error) -> (start: (Operation, Action))
        ensures
            (start.0@, start.1@) == LineOpView::read(
                recipe_id as int,
                ingredient_id as int,
                missing@,
            ),
    {
        (
            Operation::Line(LineOp::Row { missing }),
            Action::Run(Statement::SelectLine { recipe_id, ingredient_id }),
        )
    }

    /// The operation that creates a line on behalf of `utx`, and its first
    /// statement; or, for a patch without one of the two identities, its
    /// error at once.
    pub fn create(utx: &UserCtx, data: RecipeIngredientPatch) -> (start: (Operation, Action))
        ensures
            (start.0@, start.1@) == LineOpView::create(utx.user_id as int, data@),
    {
        match (data.recipe_id, data.ingredient_id) {
            (None, _) => finish(Err(Error::MissingField("recipe_ingredients", "recipe_id"))),
            (Some(_), None) => finish(
                Err(Error::MissingField("recipe_ingredients", "ingredient_id")),
            ),
            (Some(recipe_id), Some(ingredient_id)) => (
                Operation::Line(LineOp::Inserted { recipe_id, ingredient_id }),
                Action::Run(
                    Statement::InsertLine {
                        recipe_id,
                        ingredient_id,
                        ingredient_name: data.ingredient_name,
                        quantity: quantity_or_default(data.quantity),
                        cid: utx.user_id,
                    },
                ),
            ),
        }
    }

    /// The operation that reads a line, and its first statement.
    pub fn get(recipe_id: i64, ingredient_id: i64) -> (start: (Operation, Action))
        ensures
            (start.0@, start.1@) == LineOpView::get(recipe_id as int, ingredient_id as int),
    {
        LineOp::read(recipe_id, ingredient_id, not_found("recipe_ingredients", recipe_id))
    }

    /// The operation that rewrites a line's quantity, and its first
    /// statement.
    pub fn update(recipe_id: i64, ingredient_id: i64, data: RecipeIngredientPatch) -> (start: (
        Operation,
        Action,
    ))
        ensures
            (start.0@, start.1@) == LineOpView::update(
                recipe_id as int,
                ingredient_id as int,
                data@,
            ),
    {
        (
            Operation::Line(LineOp::Updated { recipe_id, ingredient_id }),
            Action::Run(
                Statement::UpdateLine {
                    recipe_id,
                    ingredient_id,
                    quantity: quantity_or_default(data.quantity),
                },
            ),
        )
    }

    /// The operation that lists all lines, and its first statement.
    pub fn list() -> (start: (Operation, Action))
        ensures
            (start.0@, start.1@) == LineOpView::list(),
    {
        (Operation::Line(LineOp::Rows), Action::Run(Statement::ListLines))
    }

    /// The operation that lists the lines of a recipe, and its first
    /// statement.
    pub fn list_by_recipe(recipe_id: i64) -> (start: (Operation, Action))
        ensures
            (start.0@, start.1@) == LineOpView::list_by_recipe(recipe_id as int),
    {
        (Operation::Line(LineOp::Rows), Action::Run(Statement::ListLinesByRecipe { recipe_id }))
    }

    /// The operation that deletes a line, and its first statement.
    pub fn delete(recipe_id: i64, ingredient_id: i64) -> (start: (Operation, Action))
        ensures
            (start.0@, start.1@) == LineOpView::delete(recipe_id as int, ingredient_id as int),
    {
        (
            Operation::Line(LineOp::DeleteBegun { recipe_id, ingredient_id }),
            Action::Run(Statement::Begin),
        )
    }

    /// The operation that deletes the lines of a recipe, and its first
    /// statement.
    pub fn delete_by_recipe(recipe_id: i64) -> (start: (Operation, Action))
        ensures
            (start.0@, start.1@) == LineOpView::delete_by_recipe(recipe_id as int),
    {
        (
            Operation::Line(LineOp::Cleared),
            Action::Run(Statement::DeleteLinesByRecipe { recipe_id }),
        )
    }

    /// Takes the answer to the statement that the operation named last.
    pub fn step(self, reply: Reply) -> (next: (Operation, Action))
        ensures
            (next.0@, next.1@) == self@.step(reply@),
    {
        match self {
            LineOp::Inserted { recipe_id, ingredient_id } => match reply {
                Reply::Done { .. } => LineOp::read(recipe_id, ingredient_id, no_rows()),
                other => finish(Err(failure(other))),
            },
            LineOp::Updated { recipe_id, ingredient_id } => match reply {
                Reply::Done { .. } => LineOp::get(recipe_id, ingredient_id),
                other => finish(Err(failure(other))),
            },
            LineOp::Row { missing } => match reply {
                Reply::Line(row) => finish(Ok(Outcome::Line(row))),
                Reply::RowNotFound => finish(Err(missing)),
                other => finish(Err(failure(other))),
            },
            LineOp::Rows => match reply {
                Reply::Lines(rows) => finish(Ok(Outcome::Lines(rows))),
                other => finish(Err(failure(other))),
            },
            LineOp::Cleared => match reply {
                Reply::Done { .. } => finish(Ok(Outcome::Nothing)),
                other => finish(Err(failure(other))),
            },
            LineOp::DeleteBegun { recipe_id, ingredient_id } => match reply {
                Reply::Done { .. } => (
                    Operation::Line(LineOp::DeleteFetched { recipe_id, ingredient_id }),
                    Action::Run(Statement::SelectLine { recipe_id, ingredient_id }),
                ),
                other => finish(Err(failure(other))),
            },
            LineOp::DeleteFetched { recipe_id, ingredient_id } => match reply {
                Reply::Line(row) => (
                    Operation::Line(LineOp::DeleteRemoved { row }),
                    Action::Run(Statement::DeleteLine { recipe_id, ingredient_id }),
                ),
                Reply::RowNotFound => abort(not_found("recipe_ingredients", recipe_id)),
                other => abort(failure(other)),
            },
            LineOp::DeleteRemoved { row } => match reply {
                Reply::Done { .. } => commit(Outcome::Line(row)),
                other => abort(failure(other)),
            },
        }
    }
}

impl RecipeIngredientMac {
    /// What `create` returns and leaves in the storage: the new line, with
    /// the patch's quantity or the default, made by `user` at the storage's
    /// time. A patch without one of the two identities is refused, and so is
    /// a key that is taken; neither changes the storage.
    pub open spec fn spec_create(db: DbView, user: int, data: LinePatchView) -> (
        DbView,
        Result<LineView, ErrorView>,
    ) {
        match (data.recipe_id, data.ingredient_id) {
            (None, _) => (db, Err(missing_field_view(recipe_id_field()))),
            (Some(_), None) => (db, Err(missing_field_view(ingredient_id_field()))),
            (Some(recipe_id), Some(ingredient_id)) => {
                let line = db.new_line(
                    recipe_id,
                    ingredient_id,
                    data.ingredient_name,
                    data.quantity_or_default(),
                    user,
                );
                if db.rows.line(recipe_id, ingredient_id) is Some {
                    (db, Err(ErrorView::StorageFailure(cause_duplicate_key())))
                } else {
                    (db.insert_line(line).0, Ok(line))
                }
            },
        }
    }

    /// What `get` returns: the line with that key, or that there is none.
    /// The storage stays as it is.
    pub open spec fn spec_get(db: DbView, recipe_id: int, ingredient_id: int) -> (
        DbView,
        Result<LineView, ErrorView>,
    ) {
        match db.rows.line(recipe_id, ingredient_id) {
            Some(row) => (db, Ok(row)),
            None => (db, Err(not_found_view(lines_table(), recipe_id))),
        }
    }

    /// What `update` returns and leaves in the storage: the line with the
    /// patch's quantity or the default in place of its old one, modified at
    /// the storage's time; no change, and that there is none, if the key is
    /// not in the table.
    pub open spec fn spec_update(
        db: DbView,
        recipe_id: int,
        ingredient_id: int,
        data: LinePatchView,
    ) -> (DbView, Result<LineView, ErrorView>) {
        match db.rows.line(recipe_id, ingredient_id) {
            Some(row) => (
                db.update_line(recipe_id, ingredient_id, data.quantity_or_default()),
                Ok(LineView { quantity: data.quantity_or_default(), mtime: db.clock, ..row }),
            ),
            None => (db, Err(not_found_view(lines_table(), recipe_id))),
        }
    }

    /// What `list` returns: all lines, those of the last created recipe
    /// first, the lines of one recipe in the order of their insertion.
    pub open spec fn spec_list(db: DbView) -> (DbView, Result<Seq<LineView>, ErrorView>) {
        (db, Ok(descending(db.rows.lines, line_recipe())))
    }

    /// What `delete` returns and leaves in the storage: the line as it was,
    /// and the table without it; no change, and that there is none, if the
    /// key is not in the table. Inside a transaction that the caller has left
    /// open, a storage failure and no change.
    pub open spec fn spec_delete(db: DbView, recipe_id: int, ingredient_id: int) -> (
        DbView,
        Result<LineView, ErrorView>,
    ) {
        if db.saved is Some {
            (db, Err(ErrorView::StorageFailure(cause_transaction_open())))
        } else {
            match db.rows.line(recipe_id, ingredient_id) {
                Some(row) => (db.delete_line(recipe_id, ingredient_id), Ok(row)),
                None => (db, Err(not_found_view(lines_table(), recipe_id))),
            }
        }
    }

    /// What `list_by_recipe` returns: the lines of the recipe, in the order
    /// of their insertion.
    pub open spec fn spec_list_by_recipe(db: DbView, recipe_id: int) -> (
        DbView,
        Result<Seq<LineView>, ErrorView>,
    ) {
        (db, Ok(db.rows.lines_of(recipe_id)))
    }

    /// What `delete_by_recipe` leaves in the storage: the table without the
    /// recipe's lines.
    pub open spec fn spec_delete_by_recipe(db: DbView, recipe_id: int) -> (
        DbView,
        Result<(), ErrorView>,
    ) {
        (db.delete_lines_of(recipe_id), Ok(()))
    }

    /// Run against the storage model, the operation that `create` starts ends
    /// as [`Self::spec_create`] says.
    pub proof fn lemma_create_runs(db: DbView, user: int, data: LinePatchView)
        ensures
            ({
                let start = LineOpView::create(user, data);
                let end = start.0.run(db, start.1);
                (end.0, line_view(end.1)) == Self::spec_create(db, user, data)
            }),
    {
        reveal_with_fuel(OperationView::run, 3);
    }

    /// Run against the storage model, the operation that `get` starts ends as
    /// [`Self::spec_get`] says.
    pub proof fn lemma_get_runs(db: DbView, recipe_id: int, ingredient_id: int)
        ensures
            ({
                let start = LineOpView::get(recipe_id, ingredient_id);
                let end = start.0.run(db, start.1);
                (end.0, line_view(end.1)) == Self::spec_get(db, recipe_id, ingredient_id)
            }),
    {
        reveal_with_fuel(OperationView::run, 2);
    }

    /// Run against the storage model, the operation that `update` starts ends
    /// as [`Self::spec_update`] says.
    pub proof fn lemma_update_runs(
        db: DbView,
        recipe_id: int,
        ingredient_id: int,
        data: LinePatchView,
    )
        ensures
            ({
                let start = LineOpView::update(recipe_id, ingredient_id, data);
                let end = start.0.run(db, start.1);
                (end.0, line_view(end.1)) == Self::spec_update(
                    db,
                    recipe_id,
                    ingredient_id,
                    data,
                )
            }),
    {
        reveal_with_fuel(OperationView::run, 3);
        let accept = line_is(recipe_id, ingredient_id);
        let change = requantified(data.quantity_or_default(), db.clock);
        lemma_find_rewrite(db.rows.lines, accept, change);
        if db.rows.line(recipe_id, ingredient_id) is None {
            lemma_rewrite_none(db.rows.lines, accept, change);
            assert(db.update_line(recipe_id, ingredient_id, data.quantity_or_default()) == db);
        }
    }

    /// Run against the storage model, the operation that `list` starts ends
    /// as [`Self::spec_list`] says.
    pub proof fn lemma_list_runs(db: DbView)
        ensures
            ({
                let start = LineOpView::list();
                let end = start.0.run(db, start.1);
                (end.0, lines_view(end.1)) == Self::spec_list(db)
            }),
    {
        reveal_with_fuel(OperationView::run, 2);
    }

    /// Run against the storage model, the operation that `delete` starts ends
    /// as [`Self::spec_delete`] says.
    pub proof fn lemma_delete_runs(db: DbView, recipe_id: int, ingredient_id: int)
        ensures
            ({
                let start = LineOpView::delete(recipe_id, ingredient_id);
                let end = start.0.run(db, start.1);
                (end.0, line_view(end.1)) == Self::spec_delete(db, recipe_id, ingredient_id)
            }),
    {
        reveal_with_fuel(OperationView::run, 5);
    }

    /// Run against the storage model, the operation that `list_by_recipe`
    /// starts ends as [`Self::spec_list_by_recipe`] says.
    pub proof fn lemma_list_by_recipe_runs(db: DbView, recipe_id: int)
        ensures
            ({
                let start = LineOpView::list_by_recipe(recipe_id);
                let end = start.0.run(db, start.1);
                (end.0, lines_view(end.1)) == Self::spec_list_by_recipe(db, recipe_id)
            }),
    {
        reveal_with_fuel(OperationView::run, 2);
    }

    /// Run against the storage model, the operation that `delete_by_recipe`
    /// starts ends as [`Self::spec_delete_by_recipe`] says.
    pub proof fn lemma_delete_by_recipe_runs(db: DbView, recipe_id: int)
        ensures
            ({
                let start = LineOpView::delete_by_recipe(recipe_id);
                let end = start.0.run(db, start.1);
                (end.0, nothing_view(end.1)) == Self::spec_delete_by_recipe(db, recipe_id)
            }),
    {
        reveal_with_fuel(OperationView::run, 2);
    }

    /// Stores a new line on behalf of the caller and returns it as stored.
    pub fn create(db: &mut Db, utx: &UserCtx, data: RecipeIngredientPatch) -> (result: Result<
        RecipeIngredientMac,
        Error,
    >)
        requires
            old(db).wf(),
        ensures
            final(db).wf(),
            (final(db)@, result_view(result)) == Self::spec_create(
                old(db)@,
                utx.user_id as int,
                data@,
            ),
    {
        proof {
            Self::lemma_create_runs(db@, utx.user_id as int, data@);
        }
        let start = LineOp::create(utx, data);
        Outcome::line(run(db, start.0, start.1))
    }

    /// Returns the line of the ingredient `ingredient_id` in the recipe
    /// `recipe_id`.
    pub fn get(db: &mut Db, _utx: &UserCtx, recipe_id: i64, ingredient_id: i64) -> (result: Result<
        RecipeIngredientMac,
        Error,
    >)
        requires
            old(db).wf(),
        ensures
            final(db).wf(),
            (final(db)@, result_view(result)) == Self::spec_get(
                old(db)@,
                recipe_id as int,
                ingredient_id as int,
            ),
    {
        proof {
            Self::lemma_get_runs(db@, recipe_id as int, ingredient_id as int);
        }
        let start = LineOp::get(recipe_id, ingredient_id);
        Outcome::line(run(db, start.0, start.1))
    }

    /// Writes the patch's quantity, or the default where it has none, over
    /// the quantity of a line, and returns the line as stored.
    pub fn update(
        db: &mut Db,
        _utx: &UserCtx,
        recipe_id: i64,
        ingredient_id: i64,
        data: RecipeIngredientPatch,
    ) -> (result: Result<RecipeIngredientMac, Error>)
        requires
            old(db).wf(),
        ensures
            final(db).wf(),
            (final(db)@, result_view(result)) == Self::spec_update(
                old(db)@,
                recipe_id as int,
                ingredient_id as int,
                data@,
            ),
    {
        proof {
            Self::lemma_update_runs(db@, recipe_id as int, ingredient_id as int, data@);
        }
        let start = LineOp::update(recipe_id, ingredient_id, data);
        Outcome::line(run(db, start.0, start.1))
    }

    /// Returns all lines, those of the highest recipe identity first.
    pub fn list(db: &mut Db, _utx: &UserCtx) -> (result: Result<Vec<RecipeIngredientMac>, Error>)
        requires
            old(db).wf(),
        ensures
            final(db).wf(),
            (final(db)@, result_view(result)) == Self::spec_list(old(db)@),
    {
        proof {
            Self::lemma_list_runs(db@);
        }
        let start = LineOp::list();
        Outcome::lines(run(db, start.0, start.1))
    }

    /// Removes a line and returns it as it was.
    pub fn delete(db: &mut Db, _utx: &UserCtx, recipe_id: i64, ingredient_id: i64) -> (result:
        Result<RecipeIngredientMac, Error>)
        requires
            old(db).wf(),
        ensures
            final(db).wf(),
            (final(db)@, result_view(result)) == Self::spec_delete(
                old(db)@,
                recipe_id as int,
                ingredient_id as int,
            ),
    {
        proof {
            Self::lemma_delete_runs(db@, recipe_id as int, ingredient_id as int);
        }
        let start = LineOp::delete(recipe_id, ingredient_id);
        Outcome::line(run(db, start.0, start.1))
    }

    /// Returns the lines of one recipe.
    pub fn list_by_recipe(db: &mut Db, recipe_id: i64) -> (result: Result<
        Vec<RecipeIngredientMac>,
        Error,
    >)
        requires
            old(db).wf(),
        ensures
            final(db).wf(),
            (final(db)@, result_view(result)) == Self::spec_list_by_recipe(
                old(db)@,
                recipe_id as int,
            ),
    {
        proof {
            Self::lemma_list_by_recipe_runs(db@, recipe_id as int);
        }
        let start = LineOp::list_by_recipe(recipe_id);
        Outcome::lines(run(db, start.0, start.1))
    }

    /// Removes the lines of one recipe.
    pub fn delete_by_recipe(db: &mut Db, recipe_id: i64) -> (result: Result<(), Error>)
        requires
            old(db).wf(),
        ensures
            final(db).wf(),
            (final(db)@, result_view(result)) == Self::spec_delete_by_recipe(
                old(db)@,
                recipe_id as int,
            ),
    {
        proof {
            Self::lemma_delete_by_recipe_runs(db@, recipe_id as int);
        }
        let start = LineOp::delete_by_recipe(recipe_id);
        Outcome::nothing(run(db, start.0, start.1))
    }
}

} // verus!
