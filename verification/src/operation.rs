//! A store operation as a conversation with the storage: the operation names
//! a statement, is told the answer, and names the next statement or its
//! result. Whoever holds the storage carries the statements over; here that
//! is [`run`], against a storage kept in memory.

use crate::db::Db;
use crate::decimal::{decimal, decimal_string};
use crate::error::{result_view, Error, ErrorView};
use crate::ingredient::{Ingredient, IngredientOp, IngredientOpView, IngredientView};
use crate::recipe::{Recipe, RecipeOp, RecipeOpView, RecipeView};
use crate::recipe_ingredient::{LineOp, LineOpView, LineView, RecipeIngredientMac};
use crate::statement::{Reply, ReplyView, Statement, StatementView};
use crate::storage::DbView;
use vstd::prelude::*;
use vstd::string::*;

verus! {

/// What an operation hands back when it succeeds.
#[derive(Debug, PartialEq, Eq)]
pub enum Outcome {
    Ingredient(Ingredient),
    Ingredients(Vec<Ingredient>),
    Line(RecipeIngredientMac),
    Lines(Vec<RecipeIngredientMac>),
    Recipe(Recipe, Vec<RecipeIngredientMac>),
    Recipes(Vec<(Recipe, Vec<RecipeIngredientMac>)>),
    Nothing,
}

/// The mathematical content of an [`Outcome`].
pub enum OutcomeView {
    Ingredient(IngredientView),
    Ingredients(Seq<IngredientView>),
    Line(LineView),
    Lines(Seq<LineView>),
    Recipe(RecipeView, Seq<LineView>),
    Recipes(Seq<(RecipeView, Seq<LineView>)>),
    Nothing,
}

impl View for Outcome {
    type V = OutcomeView;

    open spec fn view(&self) -> OutcomeView {
        match *self {
            Outcome::Ingredient(row) => OutcomeView::Ingredient(row@),
            Outcome::Ingredients(rows) => OutcomeView::Ingredients(rows.deep_view()),
            Outcome::Line(row) => OutcomeView::Line(row@),
            Outcome::Lines(rows) => OutcomeView::Lines(rows.deep_view()),
            Outcome::Recipe(recipe, lines) => OutcomeView::Recipe(recipe@, lines.deep_view()),
            Outcome::Recipes(all) => OutcomeView::Recipes(all.deep_view()),
            Outcome::Nothing => OutcomeView::Nothing,
        }
    }
}

impl DeepView for Outcome {
    type V = OutcomeView;

    open spec fn deep_view(&self) -> OutcomeView {
        self@
    }
}

/// What an operation wants next.
#[derive(Debug, PartialEq, Eq)]
pub enum Action {
    /// The statement is to be run and the answer handed to
    /// [`Operation::step`].
    Run(Statement),
    /// The operation is over, with this result.
    Return(Result<Outcome, Error>),
}

/// The mathematical content of an [`Action`].
pub enum ActionView {
    Run(StatementView),
    Return(Result<OutcomeView, ErrorView>),
}

impl View for Action {
    type V = ActionView;

    open spec fn view(&self) -> ActionView {
        match *self {
            Action::Run(statement) => ActionView::Run(statement@),
            Action::Return(result) => ActionView::Return(result_view(result)),
        }
    }
}

/// Where an operation stands between two statements.
#[derive(Debug, PartialEq, Eq)]
pub enum Operation {
    Ingredient(IngredientOp),
    Line(LineOp),
    Recipe(RecipeOp),
    /// The commit was sent; once it is through, the outcome is returned.
    Committing(Outcome),
    /// The rollback was sent; whatever comes of it, the error is returned.
    Aborting(Error),
    /// The result has been returned.
    Finished,
}

/// The mathematical content of an [`Operation`].
pub enum OperationView {
    Ingredient(IngredientOpView),
    Line(LineOpView),
    Recipe(RecipeOpView),
    Committing(OutcomeView),
    Aborting(ErrorView),
    Finished,
}

impl View for Operation {
    type V = OperationView;

    open spec fn view(&self) -> OperationView {
        match *self {
            Operation::Ingredient(op) => OperationView::Ingredient(op@),
            Operation::Line(op) => OperationView::Line(op@),
            Operation::Recipe(op) => OperationView::Recipe(op@),
            Operation::Committing(outcome) => OperationView::Committing(outcome@),
            Operation::Aborting(error) => OperationView::Aborting(error@),
            Operation::Finished => OperationView::Finished,
        }
    }
}

/// Why an operation fails when a row that must exist is not found.
pub open spec fn cause_no_rows() -> Seq<char> {
    "no rows returned by a query that expected to return at least one row"@
}

/// Why an operation fails when the answer does not fit the statement.
pub open spec fn cause_unexpected_reply() -> Seq<char> {
    "unexpected reply"@
}

/// Why a step fails when the operation is already over.
pub open spec fn cause_finished() -> Seq<char> {
    "operation already finished"@
}

/// The error for a row that a read, update or delete did not find.
pub open spec fn not_found_view(table: Seq<char>, id: int) -> ErrorView {
    ErrorView::EntityNotFound(table, decimal(id))
}

/// The error that an answer stands for where no other meaning is given to
/// it: the storage's own cause, or that the answer is out of place.
pub open spec fn failure_view(reply: ReplyView) -> ErrorView {
    match reply {
        ReplyView::Failed(cause) => ErrorView::StorageFailure(cause),
        ReplyView::RowNotFound => ErrorView::StorageFailure(cause_no_rows()),
        _ => ErrorView::StorageFailure(cause_unexpected_reply()),
    }
}

/// The error for a row that must exist and was not found.
pub open spec fn no_rows_view() -> ErrorView {
    ErrorView::StorageFailure(cause_no_rows())
}

/// The operation ends with `result`.
pub open spec fn finish_view(result: Result<OutcomeView, ErrorView>) -> (
    OperationView,
    ActionView,
) {
    (OperationView::Finished, ActionView::Return(result))
}

/// The transaction is rolled back, and `error` is returned after that.
pub open spec fn abort_view(error: ErrorView) -> (OperationView, ActionView) {
    (OperationView::Aborting(error), ActionView::Run(StatementView::Rollback))
}

/// The transaction is committed, and `outcome` is returned after that.
pub open spec fn commit_view(outcome: OutcomeView) -> (OperationView, ActionView) {
    (OperationView::Committing(outcome), ActionView::Run(StatementView::Commit))
}

pub(crate) fn not_found(table: &'static str, id: i64) -> (error: Error)
    ensures
        error@ == not_found_view(table@, id as int),
{
    Error::EntityNotFound(table, decimal_string(id))
}

pub(crate) fn failure(reply: Reply) -> (error: Error)
    ensures
        error@ == failure_view(reply@),
{
    match reply {
        Reply::Failed(cause) => Error::StorageFailure(cause),
        Reply::RowNotFound => Error::StorageFailure(
            String::from_str(
                "no rows returned by a query that expected to return at least one row",
            ),
        ),
        _ => Error::StorageFailure(String::from_str("unexpected reply")),
    }
}

pub(crate) fn no_rows() -> (error: Error)
    ensures
        error@ == no_rows_view(),
{
    Error::StorageFailure(
        String::from_str("no rows returned by a query that expected to return at least one row"),
    )
}

pub(crate) fn finish(result: Result<Outcome, Error>) -> (next: (Operation, Action))
    ensures
        (next.0@, next.1@) == finish_view(result_view(result)),
{
    (Operation::Finished, Action::Return(result))
}

pub(crate) fn abort(error: Error) -> (next: (Operation, Action))
    ensures
        (next.0@, next.1@) == abort_view(error@),
{
    (Operation::Aborting(error), Action::Run(Statement::Rollback))
}

pub(crate) fn commit(outcome: Outcome) -> (next: (Operation, Action))
    ensures
        (next.0@, next.1@) == commit_view(outcome@),
{
    (Operation::Committing(outcome), Action::Run(Statement::Commit))
}

impl OperationView {
    /// What the operation does with the answer to the statement it named:
    /// where it stands afterwards and what it wants next.
    pub open spec fn step(self, reply: ReplyView) -> (OperationView, ActionView) {
        match self {
            OperationView::Ingredient(op) => op.step(reply),
            OperationView::Line(op) => op.step(reply),
            OperationView::Recipe(op) => op.step(reply),
            OperationView::Committing(outcome) => match reply {
                ReplyView::Done { .. } => finish_view(Ok(outcome)),
                _ => finish_view(Err(failure_view(reply))),
            },
            OperationView::Aborting(error) => finish_view(Err(error)),
            OperationView::Finished => finish_view(
                Err(ErrorView::StorageFailure(cause_finished())),
            ),
        }
    }

    /// The operation has opened a transaction and not yet asked to end it.
    pub open spec fn holds_transaction(self) -> bool {
        match self {
            OperationView::Ingredient(op) => op.holds_transaction(),
            OperationView::Line(op) => op.holds_transaction(),
            OperationView::Recipe(op) => op.holds_transaction(),
            _ => false,
        }
    }

    /// The operation has asked for a transaction and awaits the answer.
    pub open spec fn begins_transaction(self) -> bool {
        match self {
            OperationView::Ingredient(op) => op is DeleteBegun,
            OperationView::Line(op) => op is DeleteBegun,
            OperationView::Recipe(op) => op.begins_transaction(),
            _ => false,
        }
    }

    /// A bound on the number of statements that the operation still names.
    pub open spec fn remaining(self) -> nat {
        match self {
            OperationView::Ingredient(op) => op.remaining(),
            OperationView::Line(op) => op.remaining(),
            OperationView::Recipe(op) => op.remaining(),
            OperationView::Committing(_) => 1,
            OperationView::Aborting(_) => 1,
            OperationView::Finished => 0,
        }
    }

    /// 1 while the number of statements still to come hangs on an answer
    /// that is still to come, and 0 from then on.
    pub open spec fn stage(self) -> nat {
        match self {
            OperationView::Recipe(op) => op.stage(),
            _ => 0,
        }
    }

    /// The storage and the result after the operation has run to its end on
    /// `db`, its statements answered as the storage model says.
    pub open spec fn run(self, db: DbView, action: ActionView) -> (
        DbView,
        Result<OutcomeView, ErrorView>,
    )
        decreases self.stage(), distance(self, action),
    {
        match action {
            ActionView::Return(result) => (db, result),
            ActionView::Run(statement) => {
                let (db1, reply) = db.execute(statement);
                let (next, action1) = self.step(reply);
                if nearer(next, action1, self, action) {
                    next.run(db1, action1)
                } else {
                    (db1, Err(ErrorView::StorageFailure(cause_finished())))
                }
            },
        }
    }
}

/// A bound on the number of statements that are still to be run, the one in
/// `action` included.
pub open spec fn distance(op: OperationView, action: ActionView) -> nat {
    match action {
        ActionView::Return(_) => 0,
        ActionView::Run(_) => op.remaining() + 1,
    }
}

/// The operation at `next` is nearer to its end than at `op`.
pub open spec fn nearer(
    next: OperationView,
    wanted: ActionView,
    op: OperationView,
    action: ActionView,
) -> bool {
    next.stage() < op.stage() || (next.stage() == op.stage() && distance(next, wanted)
        < distance(op, action))
}

/// Every step brings the operation nearer to its end, and a step that returns
/// a result ends it.
pub proof fn lemma_step_progress(op: OperationView, reply: ReplyView)
    ensures
        op.step(reply).1 is Return ==> op.step(reply).0 is Finished,
        forall|statement: StatementView|
            #[trigger] nearer(
                op.step(reply).0,
                op.step(reply).1,
                op,
                ActionView::Run(statement),
            ),
{
}

impl Operation {
    /// Takes the answer to the statement that the operation named last.
    pub fn step(self, reply: Reply) -> (next: (Operation, Action))
        ensures
            (next.0@, next.1@) == self@.step(reply@),
    {
        match self {
            Operation::Ingredient(op) => op.step(reply),
            Operation::Line(op) => op.step(reply),
            Operation::Recipe(op) => op.step(reply),
            Operation::Committing(outcome) => match reply {
                Reply::Done { .. } => finish(Ok(outcome)),
                other => finish(Err(failure(other))),
            },
            Operation::Aborting(error) => finish(Err(error)),
            Operation::Finished => finish(
                Err(Error::StorageFailure(String::from_str("operation already finished"))),
            ),
        }
    }
}

/// Runs an operation to its end against the storage kept in memory.
pub fn run(db: &mut Db, op: Operation, action: Action) -> (result: Result<Outcome, Error>)
    requires
        old(db).wf(),
    ensures
        final(db).wf(),
        (final(db)@, result_view(result)) == op@.run(old(db)@, action@),
{
    let ghost goal = op@.run(db@, action@);
    let mut current = op;
    let mut wanted = action;
    loop
        invariant
            db.wf(),
            goal == op@.run(old(db)@, action@),
            current@.run(db@, wanted@) == goal,
        decreases current@.stage(), distance(current@, wanted@),
    {
        match wanted {
            Action::Return(result) => {
                return result;
            },
            Action::Run(statement) => {
                let reply = db.execute(statement);
                proof {
                    lemma_step_progress(current@, reply@);
                    assert(nearer(
                        current@.step(reply@).0,
                        current@.step(reply@).1,
                        current@,
                        ActionView::Run(statement@),
                    ));
                }
                let next = current.step(reply);
                current = next.0;
                wanted = next.1;
            },
        }
    }
}

/// Why a result is refused when it is not of the kind that the operation
/// yields.
pub open spec fn cause_unexpected_outcome() -> Seq<char> {
    "unexpected outcome"@
}

pub open spec fn mismatch_view() -> ErrorView {
    ErrorView::StorageFailure(cause_unexpected_outcome())
}

fn mismatch() -> (error: Error)
    ensures
        error@ == mismatch_view(),
{
    Error::StorageFailure(String::from_str("unexpected outcome"))
}

/// The result of an operation that yields one ingredient.
pub open spec fn ingredient_view(result: Result<OutcomeView, ErrorView>) -> Result<
    IngredientView,
    ErrorView,
> {
    match result {
        Ok(OutcomeView::Ingredient(row)) => Ok(row),
        Ok(_) => Err(mismatch_view()),
        Err(error) => Err(error),
    }
}

/// The result of an operation that yields all ingredients.
pub open spec fn ingredients_view(result: Result<OutcomeView, ErrorView>) -> Result<
    Seq<IngredientView>,
    ErrorView,
> {
    match result {
        Ok(OutcomeView::Ingredients(rows)) => Ok(rows),
        Ok(_) => Err(mismatch_view()),
        Err(error) => Err(error),
    }
}

/// The result of an operation that yields one line.
pub open spec fn line_view(result: Result<OutcomeView, ErrorView>) -> Result<LineView, ErrorView> {
    match result {
        Ok(OutcomeView::Line(row)) => Ok(row),
        Ok(_) => Err(mismatch_view()),
        Err(error) => Err(error),
    }
}

/// The result of an operation that yields lines.
pub open spec fn lines_view(result: Result<OutcomeView, ErrorView>) -> Result<
    Seq<LineView>,
    ErrorView,
> {
    match result {
        Ok(OutcomeView::Lines(rows)) => Ok(rows),
        Ok(_) => Err(mismatch_view()),
        Err(error) => Err(error),
    }
}

/// The result of an operation that yields nothing but its success.
pub open spec fn nothing_view(result: Result<OutcomeView, ErrorView>) -> Result<(), ErrorView> {
    match result {
        Ok(OutcomeView::Nothing) => Ok(()),
        Ok(_) => Err(mismatch_view()),
        Err(error) => Err(error),
    }
}

/// The result of an operation that yields one recipe with its lines.
pub open spec fn recipe_view(result: Result<OutcomeView, ErrorView>) -> Result<
    (RecipeView, Seq<LineView>),
    ErrorView,
> {
    match result {
        Ok(OutcomeView::Recipe(recipe, lines)) => Ok((recipe, lines)),
        Ok(_) => Err(mismatch_view()),
        Err(error) => Err(error),
    }
}

/// The result of an operation that yields all recipes with their lines.
pub open spec fn recipes_view(result: Result<OutcomeView, ErrorView>) -> Result<
    Seq<(RecipeView, Seq<LineView>)>,
    ErrorView,
> {
    match result {
        Ok(OutcomeView::Recipes(all)) => Ok(all),
        Ok(_) => Err(mismatch_view()),
        Err(error) => Err(error),
    }
}

impl Outcome {
    /// The result of an operation that yields one recipe with its lines.
    pub fn recipe(result: Result<Outcome, Error>) -> (aggregate: Result<
        (Recipe, Vec<RecipeIngredientMac>),
        Error,
    >)
        ensures
            result_view(aggregate) == recipe_view(result_view(result)),
    {
        match result {
            Ok(Outcome::Recipe(recipe, lines)) => Ok((recipe, lines)),
            Ok(_) => Err(mismatch()),
            Err(error) => Err(error),
        }
    }

    /// The result of an operation that yields all recipes with their lines.
    pub fn recipes(result: Result<Outcome, Error>) -> (all: Result<
        Vec<(Recipe, Vec<RecipeIngredientMac>)>,
        Error,
    >)
        ensures
            result_view(all) == recipes_view(result_view(result)),
    {
        match result {
            Ok(Outcome::Recipes(all)) => Ok(all),
            Ok(_) => Err(mismatch()),
            Err(error) => Err(error),
        }
    }

    /// The result of an operation that yields one line.
    pub fn line(result: Result<Outcome, Error>) -> (row: Result<RecipeIngredientMac, Error>)
        ensures
            result_view(row) == line_view(result_view(result)),
    {
        match result {
            Ok(Outcome::Line(row)) => Ok(row),
            Ok(_) => Err(mismatch()),
            Err(error) => Err(error),
        }
    }

    /// The result of an operation that yields lines.
    pub fn lines(result: Result<Outcome, Error>) -> (rows: Result<
        Vec<RecipeIngredientMac>,
        Error,
    >)
        ensures
            result_view(rows) == lines_view(result_view(result)),
    {
        match result {
            Ok(Outcome::Lines(rows)) => Ok(rows),
            Ok(_) => Err(mismatch()),
            Err(error) => Err(error),
        }
    }

    /// The result of an operation that yields nothing but its success.
    pub fn nothing(result: Result<Outcome, Error>) -> (unit: Result<(), Error>)
        ensures
            result_view(unit) == nothing_view(result_view(result)),
    {
        match result {
            Ok(Outcome::Nothing) => Ok(()),
            Ok(_) => Err(mismatch()),
            Err(error) => Err(error),
        }
    }

    /// The result of an operation that yields one ingredient.
    pub fn ingredient(result: Result<Outcome, Error>) -> (row: Result<Ingredient, Error>)
        ensures
            result_view(row) == ingredient_view(result_view(result)),
    {
        match result {
            Ok(Outcome::Ingredient(row)) => Ok(row),
            Ok(_) => Err(mismatch()),
            Err(error) => Err(error),
        }
    }

    /// The result of an operation that yields all ingredients.
    pub fn ingredients(result: Result<Outcome, Error>) -> (rows: Result<Vec<Ingredient>, Error>)
        ensures
            result_view(rows) == ingredients_view(result_view(result)),
    {
        match result {
            Ok(Outcome::Ingredients(rows)) => Ok(rows),
            Ok(_) => Err(mismatch()),
            Err(error) => Err(error),
        }
    }
}

} // verus!
