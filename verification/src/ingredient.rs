//! Ingredients and the store that keeps them.

use crate::db::Db;
use crate::error::{result_view, Error, ErrorView};
use crate::operation::{
    abort, abort_view, commit, commit_view, failure, failure_view, finish, finish_view,
    ingredient_view, ingredients_view, no_rows, no_rows_view, not_found, not_found_view, run,
    Action, ActionView, Operation, OperationView, Outcome, OutcomeView,
};
use crate::rows::{lemma_find_rewrite, lemma_rewrite_none, reversed};
use crate::security::UserCtx;
use crate::statement::{Reply, ReplyView, Statement, StatementView};
use crate::storage::{
    cause_identity_exhausted, cause_transaction_open, ingredient_is, max_id, renamed, DbView,
};
use vstd::prelude::*;
use vstd::string::*;

verus! {

/// An ingredient as it is stored.
#[derive(Debug, PartialEq, Eq)]
pub struct Ingredient {
    pub id: i64,
    pub name: String,
}

/// The mathematical content of an [`Ingredient`].
pub struct IngredientView {
    pub id: int,
    pub name: Seq<char>,
}

impl View for Ingredient {
    type V = IngredientView;

    open spec fn view(&self) -> IngredientView {
        IngredientView { id: self.id as int, name: self.name@ }
    }
}

impl DeepView for Ingredient {
    type V = IngredientView;

    open spec fn deep_view(&self) -> IngredientView {
        self@
    }
}

impl Clone for Ingredient {
    fn clone(&self) -> (copy: Self)
        ensures
            copy == *self,
    {
        Ingredient { id: self.id, name: self.name.clone() }
    }
}

/// The fields of an ingredient that a caller may supply. An absent field is
/// written with its default, never left as it was.
#[derive(Debug, Default, Clone, PartialEq, Eq)]
pub struct IngredientPatch {
    pub name: Option<String>,
}

/// The mathematical content of an [`IngredientPatch`].
pub struct IngredientPatchView {
    pub name: Option<Seq<char>>,
}

impl View for IngredientPatch {
    type V = IngredientPatchView;

    open spec fn view(&self) -> IngredientPatchView {
        IngredientPatchView { name: self.name.deep_view() }
    }
}

/// The name written for an ingredient whose patch has none.
pub open spec fn default_name() -> Seq<char> {
    "untitled"@
}

impl IngredientPatchView {
    /// The name that this patch writes.
    pub open spec fn name_or_default(self) -> Seq<char> {
        match self.name {
            Some(name) => name,
            None => default_name(),
        }
    }
}

/// The table that holds the ingredients.
pub open spec fn ingredients_table() -> Seq<char> {
    "ingredients"@
}

/// Where an ingredient operation stands between two statements.
#[derive(Debug, PartialEq, Eq)]
pub enum IngredientOp {
    /// The insert was sent; the row that it made is read next.
    Inserted,
    /// The update was sent; the row is read next.
    Updated { id: i64 },
    /// One row was asked for and is the result. If there is none, `missing`
    /// is the error.
    Row { missing: Error },
    /// All rows were asked for.
    Rows,
    /// A delete opened its transaction; the row is read next.
    DeleteBegun { id: i64 },
    /// A delete asked for the row; it is removed next.
    DeleteFetched { id: i64 },
    /// A delete sent the removal of `row`; the commit is next.
    DeleteRemoved { row: Ingredient },
}

/// The mathematical content of an [`IngredientOp`].
pub enum IngredientOpView {
    Inserted,
    Updated { id: int },
    Row { missing: ErrorView },
    Rows,
    DeleteBegun { id: int },
    DeleteFetched { id: int },
    DeleteRemoved { row: IngredientView },
}

impl View for IngredientOp {
    type V = IngredientOpView;

    open spec fn view(&self) -> IngredientOpView {
        match *self {
            IngredientOp::Inserted => IngredientOpView::Inserted,
            IngredientOp::Updated { id } => IngredientOpView::Updated { id: id as int },
            IngredientOp::Row { missing } => IngredientOpView::Row { missing: missing@ },
            IngredientOp::Rows => IngredientOpView::Rows,
            IngredientOp::DeleteBegun { id } => IngredientOpView::DeleteBegun { id: id as int },
            IngredientOp::DeleteFetched { id } => IngredientOpView::DeleteFetched {
                id: id as int,
            },
            IngredientOp::DeleteRemoved { row } => IngredientOpView::DeleteRemoved { row: row@ },
        }
    }
}

impl IngredientOpView {
    /// The operation that creates an ingredient, and its first statement.
    pub open spec fn create(data: IngredientPatchView) -> (OperationView, ActionView) {
        (
            OperationView::Ingredient(IngredientOpView::Inserted),
            ActionView::Run(StatementView::InsertIngredient { name: data.name_or_default() }),
        )
    }

    /// The operation that reads an ingredient, and its first statement.
    pub open spec fn get(id: int) -> (OperationView, ActionView) {
        (
            OperationView::Ingredient(
                IngredientOpView::Row { missing: not_found_view(ingredients_table(), id) },
            ),
            ActionView::Run(StatementView::SelectIngredient { id }),
        )
    }

    /// The operation that rewrites an ingredient, and its first statement.
    pub open spec fn update(id: int, data: IngredientPatchView) -> (OperationView, ActionView) {
        (
            OperationView::Ingredient(IngredientOpView::Updated { id }),
            ActionView::Run(
                StatementView::UpdateIngredient { id, name: data.name_or_default() },
            ),
        )
    }

    /// The operation that lists the ingredients, and its first statement.
    pub open spec fn list() -> (OperationView, ActionView) {
        (
            OperationView::Ingredient(IngredientOpView::Rows),
            ActionView::Run(StatementView::ListIngredients),
        )
    }

    /// The operation that deletes an ingredient, and its first statement.
    pub open spec fn delete(id: int) -> (OperationView, ActionView) {
        (
            OperationView::Ingredient(IngredientOpView::DeleteBegun { id }),
            ActionView::Run(StatementView::Begin),
        )
    }

    pub open spec fn step(self, reply: ReplyView) -> (OperationView, ActionView) {
        match self {
            IngredientOpView::Inserted => match reply {
                ReplyView::Done { last_insert_id } if last_insert_id <= max_id() => (
                    OperationView::Ingredient(IngredientOpView::Row { missing: no_rows_view() }),
                    ActionView::Run(StatementView::SelectIngredient { id: last_insert_id }),
                ),
                _ => finish_view(Err(failure_view(reply))),
            },
            IngredientOpView::Updated { id } => match reply {
                ReplyView::Done { .. } => IngredientOpView::get(id),
                _ => finish_view(Err(failure_view(reply))),
            },
            IngredientOpView::Row { missing } => match reply {
                ReplyView::Ingredient(row) => finish_view(Ok(OutcomeView::Ingredient(row))),
                ReplyView::RowNotFound => finish_view(Err(missing)),
                _ => finish_view(Err(failure_view(reply))),
            },
            IngredientOpView::Rows => match reply {
                ReplyView::Ingredients(rows) => finish_view(Ok(OutcomeView::Ingredients(rows))),
                _ => finish_view(Err(failure_view(reply))),
            },
            IngredientOpView::DeleteBegun { id } => match reply {
                ReplyView::Done { .. } => (
                    OperationView::Ingredient(IngredientOpView::DeleteFetched { id }),
                    ActionView::Run(StatementView::SelectIngredient { id }),
                ),
                _ => finish_view(Err(failure_view(reply))),
            },
            IngredientOpView::DeleteFetched { id } => match reply {
                ReplyView::Ingredient(row) => (
                    OperationView::Ingredient(IngredientOpView::DeleteRemoved { row }),
                    ActionView::Run(StatementView::DeleteIngredient { id }),
                ),
                ReplyView::RowNotFound => abort_view(not_found_view(ingredients_table(), id)),
                _ => abort_view(failure_view(reply)),
            },
            IngredientOpView::DeleteRemoved { row } => match reply {
                ReplyView::Done { .. } => commit_view(OutcomeView::Ingredient(row)),
                _ => abort_view(failure_view(reply)),
            },
        }
    }

    /// The operation has opened a transaction and not yet asked to end it.
    pub open spec fn holds_transaction(self) -> bool {
        self is DeleteFetched || self is DeleteRemoved
    }

    pub open spec fn remaining(self) -> nat {
        match self {
            IngredientOpView::Inserted => 2,
            IngredientOpView::Updated { .. } => 2,
            IngredientOpView::Row { .. } => 1,
            IngredientOpView::Rows => 1,
            IngredientOpView::DeleteBegun { .. } => 4,
            IngredientOpView::DeleteFetched { .. } => 3,
            IngredientOpView::DeleteRemoved { .. } => 2,
        }
    }
}

impl IngredientPatch {
    /// The name that this patch writes.
    pub fn name_or_default(self) -> (name: String)
        ensures
            name@ == self@.name_or_default(),
    {
        match self.name {
            Some(name) => name,
            None => String::from_str("untitled"),
        }
    }
}

impl IngredientOp {
    /// The operation that creates an ingredient, and its first statement.
    pub fn create(data: IngredientPatch) -> (start: (Operation, Action))
        ensures
            (start.0@, start.1@) == IngredientOpView::create(data@),
    {
        (
            Operation::Ingredient(IngredientOp::Inserted),
            Action::Run(Statement::InsertIngredient { name: data.name_or_default() }),
        )
    }

    /// The operation that reads an ingredient, and its first statement.
    pub fn get(id: i64) -> (start: (Operation, Action))
        ensures
            (start.0@, start.1@) == IngredientOpView::get(id as int),
    {
        (
            Operation::Ingredient(IngredientOp::Row { missing: not_found("ingredients", id) }),
            Action::Run(Statement::SelectIngredient { id }),
        )
    }

    /// The operation that rewrites an ingredient, and its first statement.
    pub fn update(id: i64, data: IngredientPatch) -> (start: (Operation, Action))
        ensures
            (start.0@, start.1@) == IngredientOpView::update(id as int, data@),
    {
        (
            Operation::Ingredient(IngredientOp::Updated { id }),
            Action::Run(Statement::UpdateIngredient { id, name: data.name_or_default() }),
        )
    }

    /// The operation that lists the ingredients, and its first statement.
    pub fn list() -> (start: (Operation, Action))
        ensures
            (start.0@, start.1@) == IngredientOpView::list(),
    {
        (Operation::Ingredient(IngredientOp::Rows), Action::Run(Statement::ListIngredients))
    }

    /// The operation that deletes an ingredient, and its first statement.
    pub fn delete(id: i64) -> (start: (Operation, Action))
        ensures
            (start.0@, start.1@) == IngredientOpView::delete(id as int),
    {
        (Operation::Ingredient(IngredientOp::DeleteBegun { id }), Action::Run(Statement::Begin))
    }

    /// Takes the answer to the statement that the operation named last.
    pub fn step(self, reply: Reply) -> (next: (Operation, Action))
        ensures
            (next.0@, next.1@) == self@.step(reply@),
    {
        match self {
            IngredientOp::Inserted => match reply {
                Reply::Done { last_insert_id } if last_insert_id <= i64::MAX as u64 => (
                    Operation::Ingredient(IngredientOp::Row { missing: no_rows() }),
                    Action::Run(Statement::SelectIngredient { id: last_insert_id as i64 }),
                ),
                other => finish(Err(failure(other))),
            },
            IngredientOp::Updated { id } => match reply {
                Reply::Done { .. } => IngredientOp::get(id),
                other => finish(Err(failure(other))),
            },
            IngredientOp::Row { missing } => match reply {
                Reply::Ingredient(row) => finish(Ok(Outcome::Ingredient(row))),
                Reply::RowNotFound => finish(Err(missing)),
                other => finish(Err(failure(other))),
            },
            IngredientOp::Rows => match reply {
                Reply::Ingredients(rows) => finish(Ok(Outcome::Ingredients(rows))),
                other => finish(Err(failure(other))),
            },
            IngredientOp::DeleteBegun { id } => match reply {
                Reply::Done { .. } => (
                    Operation::Ingredient(IngredientOp::DeleteFetched { id }),
                    Action::Run(Statement::SelectIngredient { id }),
                ),
                other => finish(Err(failure(other))),
            },
            IngredientOp::DeleteFetched { id } => match reply {
                Reply::Ingredient(row) => (
                    Operation::Ingredient(IngredientOp::DeleteRemoved { row }),
                    Action::Run(Statement::DeleteIngredient { id }),
                ),
                Reply::RowNotFound => abort(not_found("ingredients", id)),
                other => abort(failure(other)),
            },
            IngredientOp::DeleteRemoved { row } => match reply {
                Reply::Done { .. } => commit(Outcome::Ingredient(row)),
                other => abort(failure(other)),
            },
        }
    }
}

/// The ingredient store. Its operations take the storage and the caller's
/// identity; the identity is accepted for a uniform signature and not used.
pub struct IngredientMac;

impl IngredientMac {
    /// What `create` returns and leaves in the storage: the new ingredient
    /// under the next identity, with the patch's name or the default; a
    /// storage failure and no change if no identity is left.
    pub open spec fn spec_create(db: DbView, data: IngredientPatchView) -> (
        DbView,
        Result<IngredientView, ErrorView>,
    ) {
        if db.next_ingredient_id > max_id() {
            (db, Err(ErrorView::StorageFailure(cause_identity_exhausted())))
        } else {
            (
                db.insert_ingredient(data.name_or_default()).0,
                Ok(db.new_ingredient(data.name_or_default())),
            )
        }
    }

    /// What `get` returns: the ingredient with that identity, or that there
    /// is none. The storage stays as it is.
    pub open spec fn spec_get(db: DbView, id: int) -> (DbView, Result<IngredientView, ErrorView>) {
        match db.rows.ingredient(id) {
            Some(row) => (db, Ok(row)),
            None => (db, Err(not_found_view(ingredients_table(), id))),
        }
    }

    /// What `update` returns and leaves in the storage: the ingredient with
    /// the patch's name or the default in place of its old name; no change,
    /// and that there is none, if the identity is not in the table.
    pub open spec fn spec_update(db: DbView, id: int, data: IngredientPatchView) -> (
        DbView,
        Result<IngredientView, ErrorView>,
    ) {
        match db.rows.ingredient(id) {
            Some(row) => (
                db.update_ingredient(id, data.name_or_default()),
                Ok(IngredientView { name: data.name_or_default(), ..row }),
            ),
            None => (db, Err(not_found_view(ingredients_table(), id))),
        }
    }

    /// What `list` returns: all ingredients, the last created first.
    pub open spec fn spec_list(db: DbView) -> (DbView, Result<Seq<IngredientView>, ErrorView>) {
        (db, Ok(reversed(db.rows.ingredients)))
    }

    /// What `delete` returns and leaves in the storage: the ingredient as it
    /// was, and the table without it; no change, and that there is none, if
    /// the identity is not in the table. Inside a transaction that the caller
    /// has left open, a storage failure and no change.
    pub open spec fn spec_delete(db: DbView, id: int) -> (
        DbView,
        Result<IngredientView, ErrorView>,
    ) {
        if db.saved is Some {
            (db, Err(ErrorView::StorageFailure(cause_transaction_open())))
        } else {
            match db.rows.ingredient(id) {
                Some(row) => (db.delete_ingredient(id), Ok(row)),
                None => (db, Err(not_found_view(ingredients_table(), id))),
            }
        }
    }

    /// Run against the storage model, the operation that `create` starts ends
    /// as [`Self::spec_create`] says.
    pub proof fn lemma_create_runs(db: DbView, data: IngredientPatchView)
        ensures
            ({
                let start = IngredientOpView::create(data);
                let end = start.0.run(db, start.1);
                (end.0, ingredient_view(end.1)) == Self::spec_create(db, data)
            }),
    {
        reveal_with_fuel(OperationView::run, 3);
    }

    /// Run against the storage model, the operation that `get` starts ends as
    /// [`Self::spec_get`] says.
    pub proof fn lemma_get_runs(db: DbView, id: int)
        ensures
            ({
                let start = IngredientOpView::get(id);
                let end = start.0.run(db, start.1);
                (end.0, ingredient_view(end.1)) == Self::spec_get(db, id)
            }),
    {
        reveal_with_fuel(OperationView::run, 2);
    }

    /// Run against the storage model, the operation that `update` starts ends
    /// as [`Self::spec_update`] says.
    pub proof fn lemma_update_runs(db: DbView, id: int, data: IngredientPatchView)
        ensures
            ({
                let start = IngredientOpView::update(id, data);
                let end = start.0.run(db, start.1);
                (end.0, ingredient_view(end.1)) == Self::spec_update(db, id, data)
            }),
    {
        reveal_with_fuel(OperationView::run, 3);
        let name = data.name_or_default();
        lemma_find_rewrite(db.rows.ingredients, ingredient_is(id), renamed(name));
        if db.rows.ingredient(id) is None {
            lemma_rewrite_none(db.rows.ingredients, ingredient_is(id), renamed(name));
            assert(db.update_ingredient(id, name) == db);
        }
    }

    /// Run against the storage model, the operation that `list` starts ends
    /// as [`Self::spec_list`] says.
    pub proof fn lemma_list_runs(db: DbView)
        ensures
            ({
                let start = IngredientOpView::list();
                let end = start.0.run(db, start.1);
                (end.0, ingredients_view(end.1)) == Self::spec_list(db)
            }),
    {
        reveal_with_fuel(OperationView::run, 2);
    }

    /// Run against the storage model, the operation that `delete` starts ends
    /// as [`Self::spec_delete`] says.
    pub proof fn lemma_delete_runs(db: DbView, id: int)
        ensures
            ({
                let start = IngredientOpView::delete(id);
                let end = start.0.run(db, start.1);
                (end.0, ingredient_view(end.1)) == Self::spec_delete(db, id)
            }),
    {
        reveal_with_fuel(OperationView::run, 5);
    }

    /// Stores a new ingredient and returns it as stored. An identity in the
    /// patch's place has no way in: the storage assigns it.
    pub fn create(db: &mut Db, _utx: &UserCtx, data: IngredientPatch) -> (result: Result<
        Ingredient,
        Error,
    >)
        requires
            old(db).wf(),
        ensures
            final(db).wf(),
            (final(db)@, result_view(result)) == Self::spec_create(old(db)@, data@),
    {
        proof {
            Self::lemma_create_runs(db@, data@);
        }
        let start = IngredientOp::create(data);
        Outcome::ingredient(run(db, start.0, start.1))
    }

    /// Returns the ingredient with the identity `id`.
    pub fn get(db: &mut Db, _utx: &UserCtx, id: i64) -> (result: Result<Ingredient, Error>)
        requires
            old(db).wf(),
        ensures
            final(db).wf(),
            (final(db)@, result_view(result)) == Self::spec_get(old(db)@, id as int),
    {
        proof {
            Self::lemma_get_runs(db@, id as int);
        }
        let start = IngredientOp::get(id);
        Outcome::ingredient(run(db, start.0, start.1))
    }

    /// Writes the patch's name, or the default where it has none, over the
    /// name of the ingredient `id`, and returns the ingredient as stored.
    pub fn update(db: &mut Db, _utx: &UserCtx, id: i64, data: IngredientPatch) -> (result: Result<
        Ingredient,
        Error,
    >)
        requires
            old(db).wf(),
        ensures
            final(db).wf(),
            (final(db)@, result_view(result)) == Self::spec_update(old(db)@, id as int, data@),
    {
        proof {
            Self::lemma_update_runs(db@, id as int, data@);
        }
        let start = IngredientOp::update(id, data);
        Outcome::ingredient(run(db, start.0, start.1))
    }

    /// Returns all ingredients, the highest identity first.
    pub fn list(db: &mut Db, _utx: &UserCtx) -> (result: Result<Vec<Ingredient>, Error>)
        requires
            old(db).wf(),
        ensures
            final(db).wf(),
            (final(db)@, result_view(result)) == Self::spec_list(old(db)@),
    {
        proof {
            Self::lemma_list_runs(db@);
        }
        let start = IngredientOp::list();
        Outcome::ingredients(run(db, start.0, start.1))
    }

    /// Removes the ingredient `id` and returns it as it was.
    pub fn delete(db: &mut Db, _utx: &UserCtx, id: i64) -> (result: Result<Ingredient, Error>)
        requires
            old(db).wf(),
        ensures
            final(db).wf(),
            (final(db)@, result_view(result)) == Self::spec_delete(old(db)@, id as int),
    {
        proof {
            Self::lemma_delete_runs(db@, id as int);
        }
        let start = IngredientOp::delete(id);
        Outcome::ingredient(run(db, start.0, start.1))
    }
}

} // verus!
