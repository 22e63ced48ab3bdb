//! What holds of the stores whatever the storage holds: laws that relate
//! several operations, proved of the stores' own contracts.

use crate::decimal::decimal;
use crate::error::ErrorView;
use crate::ingredient::{default_name, IngredientMac, IngredientPatchView, IngredientView};
use crate::operation::{
    abort_view, distance, failure_view, lemma_step_progress, nearer, ActionView, OperationView,
};
use crate::recipe::{
    add_lines, aggregates, default_title, drafts_or_none, lines_from, planned_view, AggregateView,
    LineDraftView, RecipeMac, RecipePatchInnerView, RecipePatchView,
};
use crate::recipe_ingredient::{LinePatchView, LineView, RecipeIngredientMac};
use crate::rows::{
    falling, find, keep, lemma_distinct_index, lemma_descending_falls, lemma_find_accepts,
    lemma_find_beyond, lemma_find_none, lemma_find_none_at, lemma_find_reject, lemma_find_rewrite, lemma_keep_all,
    lemma_keep_apart, lemma_keep_concat, lemma_keep_rejected, lemma_kept_none_found_none,
    lemma_reversed_falls, reject, reversed, strictly_falling,
};
use crate::statement::{ReplyView, StatementView};
use crate::storage::{
    ingredient_id, line_key, ingredient_is, lemma_execute_wf, line_is, line_of,
    line_recipe, max_id, recipe_id, recipe_is, renamed, retitled, DbView,
};
use vstd::prelude::*;

verus! {

/// However an operation runs, it leaves the storage's invariant in place, and
/// never takes back an identity that was given out.
pub proof fn operations_keep_the_invariant(op: OperationView, db: DbView, action: ActionView)
    requires
        db.wf(),
    ensures
        op.run(db, action).0.wf(),
        op.run(db, action).0.next_ingredient_id >= db.next_ingredient_id,
        op.run(db, action).0.next_recipe_id >= db.next_recipe_id,
    decreases op.stage(), distance(op, action),
{
    if let ActionView::Run(statement) = action {
        lemma_execute_wf(db, statement);
        let (db1, reply) = db.execute(statement);
        lemma_step_progress(op, reply);
        let (next, wanted) = op.step(reply);
        assert(nearer(next, wanted, op, ActionView::Run(statement)));
        operations_keep_the_invariant(next, db1, wanted);
    }
}

/// An operation that holds a transaction returns nothing before it has asked
/// to end the transaction: whatever the storage answers, it names another
/// statement, and either goes on inside the transaction, or commits and waits
/// to return its outcome, or rolls back and waits to return its error.
pub proof fn transactions_are_ended(op: OperationView, reply: ReplyView)
    requires
        op.holds_transaction(),
    ensures
        ({
            let (next, wanted) = op.step(reply);
            &&& wanted is Run
            &&& !next.holds_transaction() ==> {
                ||| next is Committing && wanted == ActionView::Run(StatementView::Commit)
                ||| next is Aborting && wanted == ActionView::Run(StatementView::Rollback)
            }
            &&& next.holds_transaction() ==> wanted != ActionView::Run(StatementView::Commit)
                && wanted != ActionView::Run(StatementView::Rollback) && wanted
                != ActionView::Run(StatementView::Begin)
        }),
{
}

/// A failure of the storage inside a transaction is answered by a rollback,
/// after which the storage's cause is returned.
pub proof fn failures_roll_back(op: OperationView, cause: Seq<char>)
    requires
        op.holds_transaction(),
    ensures
        op.step(ReplyView::Failed(cause)) == abort_view(ErrorView::StorageFailure(cause)),
        op.step(ReplyView::Failed(cause)).0.step(ReplyView::Failed(cause)).1 == ActionView::Return(
            Err(ErrorView::StorageFailure(cause)),
        ),
{
}

/// An operation that asked for a transaction holds it once the storage has
/// granted it, and else returns the failure without a rollback.
pub proof fn transactions_begin_or_fail(op: OperationView, reply: ReplyView)
    requires
        op.begins_transaction(),
    ensures
        reply is Done ==> op.step(reply).0.holds_transaction(),
        !(reply is Done) ==> op.step(reply).1 == ActionView::Return(Err(failure_view(reply))),
{
}

/// An operation that holds no transaction and has asked for none asks
/// neither for a commit nor for a rollback.
pub proof fn no_transaction_is_ended_twice(op: OperationView, reply: ReplyView)
    requires
        !op.holds_transaction(),
    ensures
        op.step(reply).1 != ActionView::Run(StatementView::Commit),
        op.step(reply).1 != ActionView::Run(StatementView::Rollback),
        !op.begins_transaction() ==> !op.step(reply).0.holds_transaction(),
{
}

/// In a storage that keeps its invariant no two lines have the same recipe
/// and the same ingredient.
pub proof fn lines_differ_in_their_keys(db: DbView)
    requires
        db.wf(),
    ensures
        forall|i: int, j: int|
            0 <= i < j < db.rows.lines.len() ==> !((#[trigger] db.rows.lines[i]).recipe_id == (
            #[trigger] db.rows.lines[j]).recipe_id && db.rows.lines[i].ingredient_id
                == db.rows.lines[j].ingredient_id),
{
    lemma_distinct_index(db.rows.lines, line_key());
    assert forall|i: int, j: int| 0 <= i < j < db.rows.lines.len() implies !((
    #[trigger] db.rows.lines[i]).recipe_id == (#[trigger] db.rows.lines[j]).recipe_id
        && db.rows.lines[i].ingredient_id == db.rows.lines[j].ingredient_id) by {
        assert((line_key())(db.rows.lines[i]) != (line_key())(db.rows.lines[j]));
    }
}

/// A store operation that finds no transaction open leaves none open.
pub proof fn stores_leave_no_transaction_open(
    db: DbView,
    user: int,
    id: int,
    other: int,
    ingredient: IngredientPatchView,
    line: LinePatchView,
    recipe: RecipePatchView,
)
    requires
        db.saved is None,
    ensures
        IngredientMac::spec_create(db, ingredient).0.saved is None,
        IngredientMac::spec_get(db, id).0.saved is None,
        IngredientMac::spec_update(db, id, ingredient).0.saved is None,
        IngredientMac::spec_list(db).0.saved is None,
        IngredientMac::spec_delete(db, id).0.saved is None,
        RecipeIngredientMac::spec_create(db, user, line).0.saved is None,
        RecipeIngredientMac::spec_get(db, id, other).0.saved is None,
        RecipeIngredientMac::spec_update(db, id, other, line).0.saved is None,
        RecipeIngredientMac::spec_list(db).0.saved is None,
        RecipeIngredientMac::spec_delete(db, id, other).0.saved is None,
        RecipeIngredientMac::spec_list_by_recipe(db, id).0.saved is None,
        RecipeIngredientMac::spec_delete_by_recipe(db, id).0.saved is None,
        RecipeMac::spec_create(db, user, recipe).0.saved is None,
        RecipeMac::spec_get(db, id).0.saved is None,
        RecipeMac::spec_update(db, user, id, recipe).0.saved is None,
        RecipeMac::spec_list(db).0.saved is None,
        RecipeMac::spec_delete(db, id).0.saved is None,
{
}

/// An identity that the storage has not given out yet names no ingredient
/// and no recipe.
pub proof fn identities_not_given_name_nothing(db: DbView, id: int)
    requires
        db.wf(),
    ensures
        id >= db.next_ingredient_id ==> db.rows.ingredient(id) is None,
        id >= db.next_recipe_id ==> db.rows.recipe(id) is None,
{
    if id >= db.next_ingredient_id {
        lemma_find_beyond(
            db.rows.ingredients,
            ingredient_is(id),
            ingredient_id(),
            db.next_ingredient_id as int,
            id,
        );
    }
    if id >= db.next_recipe_id {
        lemma_find_beyond(db.rows.recipes, recipe_is(id), recipe_id(), db.next_recipe_id as int, id);
    }
}

/// A new ingredient gets the identity that the storage gives out next, and no
/// ingredient has that identity before.
pub proof fn ingredient_create_assigns_a_new_identity(db: DbView, data: IngredientPatchView)
    requires
        db.wf(),
    ensures
        IngredientMac::spec_create(db, data).1 matches Ok(row) ==> row.id == db.next_ingredient_id
            && db.rows.ingredient(row.id) is None,
{
    identities_not_given_name_nothing(db, db.next_ingredient_id as int);
}

/// Reading the identity of an ingredient that was just created returns what
/// the creation returned.
pub proof fn ingredient_round_trip(db: DbView, data: IngredientPatchView)
    ensures
        ({
            let created = IngredientMac::spec_create(db, data);
            created.1 matches Ok(row) ==> IngredientMac::spec_get(created.0, row.id) == (
                created.0,
                Ok::<IngredientView, ErrorView>(row),
            )
        }),
{
}

/// Reading, updating and deleting an ingredient that does not exist fail
/// alike: with the table's name and the identity, and without a change.
pub proof fn ingredient_not_found(db: DbView, id: int, data: IngredientPatchView)
    requires
        db.rows.ingredient(id) is None,
    ensures
        ({
            let missing = (
                db,
                Err::<IngredientView, ErrorView>(
                    ErrorView::EntityNotFound("ingredients"@, decimal(id)),
                ),
            );
            &&& IngredientMac::spec_get(db, id) == missing
            &&& IngredientMac::spec_update(db, id, data) == missing
            &&& db.saved is None ==> IngredientMac::spec_delete(db, id) == missing
        }),
{
}

/// An update with an empty patch writes the default name, whatever the name
/// was, and a read afterwards returns it.
pub proof fn ingredient_update_resets_the_name(db: DbView, id: int)
    requires
        db.rows.ingredient(id) is Some,
    ensures
        ({
            let updated = IngredientMac::spec_update(db, id, IngredientPatchView { name: None });
            let row = IngredientView { id, name: "untitled"@ };
            &&& updated.1 == Ok::<IngredientView, ErrorView>(row)
            &&& IngredientMac::spec_get(updated.0, id) == (
                updated.0,
                Ok::<IngredientView, ErrorView>(row),
            )
        }),
{
    lemma_find_accepts(db.rows.ingredients, ingredient_is(id));
    lemma_find_rewrite(db.rows.ingredients, ingredient_is(id), renamed(default_name()));
}

/// An ingredient that was deleted is not found afterwards.
pub proof fn ingredient_delete_removes(db: DbView, id: int)
    ensures
        ({
            let deleted = IngredientMac::spec_delete(db, id);
            deleted.1 is Ok ==> deleted.0.rows.ingredient(id) is None
        }),
{
    lemma_find_reject(db.rows.ingredients, ingredient_is(id));
}

/// The list of ingredients is the table read backwards, so it has every
/// ingredient once, and the identities fall from each to the next.
pub proof fn ingredient_list_falls(db: DbView)
    requires
        db.wf(),
    ensures
        IngredientMac::spec_list(db).1 matches Ok(rows) && rows.len() == db.rows.ingredients.len()
            && strictly_falling(rows, ingredient_id()) && forall|i: int|
            0 <= i < rows.len() ==> #[trigger] rows[i] == db.rows.ingredients[rows.len() - 1 - i],
{
    lemma_reversed_falls(db.rows.ingredients, ingredient_id(), db.next_ingredient_id as int);
}

/// Reading the key of a line that was just created returns what the creation
/// returned.
pub proof fn line_round_trip(db: DbView, user: int, data: LinePatchView)
    ensures
        ({
            let created = RecipeIngredientMac::spec_create(db, user, data);
            created.1 matches Ok(row) ==> RecipeIngredientMac::spec_get(
                created.0,
                row.recipe_id,
                row.ingredient_id,
            ) == (created.0, Ok::<LineView, ErrorView>(row))
        }),
{
}

/// Reading, updating and deleting a line that does not exist fail alike: with
/// the table's name and the recipe's identity, and without a change.
pub proof fn line_not_found(db: DbView, recipe_id: int, ingredient_id: int, data: LinePatchView)
    requires
        db.rows.line(recipe_id, ingredient_id) is None,
    ensures
        ({
            let missing = (
                db,
                Err::<LineView, ErrorView>(
                    ErrorView::EntityNotFound("recipe_ingredients"@, decimal(recipe_id)),
                ),
            );
            &&& RecipeIngredientMac::spec_get(db, recipe_id, ingredient_id) == missing
            &&& RecipeIngredientMac::spec_update(db, recipe_id, ingredient_id, data) == missing
            &&& db.saved is None ==> RecipeIngredientMac::spec_delete(
                db,
                recipe_id,
                ingredient_id,
            ) == missing
        }),
{
}

/// A second line under the key of a line that was just created is refused,
/// and the first stays as it is.
pub proof fn line_key_is_taken_once(
    db: DbView,
    user: int,
    data: LinePatchView,
    other_user: int,
    other: LinePatchView,
)
    requires
        other.recipe_id == data.recipe_id,
        other.ingredient_id == data.ingredient_id,
    ensures
        ({
            let first = RecipeIngredientMac::spec_create(db, user, data);
            first.1 is Ok ==> RecipeIngredientMac::spec_create(first.0, other_user, other) == (
                first.0,
                Err::<LineView, ErrorView>(ErrorView::StorageFailure("duplicate key"@)),
            )
        }),
{
}

/// The list of lines has every line once, the recipes' identities falling or
/// staying from each to the next.
pub proof fn line_list_falls(db: DbView)
    ensures
        RecipeIngredientMac::spec_list(db).1 matches Ok(rows) && falling(rows, line_recipe())
            && rows.to_multiset() == db.rows.lines.to_multiset(),
{
    lemma_descending_falls(db.rows.lines, line_recipe());
}

/// Lines that find their keys free, in the table and among themselves, are
/// all added, behind the table's lines and in their order.
pub proof fn lemma_add_lines_free(table: Seq<LineView>, lines: Seq<LineView>)
    requires
        forall|i: int|
            0 <= i < lines.len() ==> find(
                table,
                line_is((#[trigger] lines[i]).recipe_id, lines[i].ingredient_id),
            ) is None,
        forall|i: int, j: int|
            0 <= i < j < lines.len() ==> !(line_is(
                (#[trigger] lines[i]).recipe_id,
                lines[i].ingredient_id,
            ))(#[trigger] lines[j]),
    ensures
        add_lines(table, lines) == Some(table + lines),
    decreases lines.len(),
{
    if lines.len() == 0 {
        assert(table + lines =~= table);
    } else {
        let more = table.push(lines[0]);
        let rest = lines.skip(1);
        assert forall|i: int| 0 <= i < rest.len() implies find(
            more,
            line_is((#[trigger] rest[i]).recipe_id, rest[i].ingredient_id),
        ) is None by {
            assert(rest[i] == lines[i + 1]);
            assert(more.drop_last() =~= table);
            assert(!(line_is(lines[0].recipe_id, lines[0].ingredient_id))(lines[i + 1]));
        }
        assert forall|i: int, j: int| 0 <= i < j < rest.len() implies !(line_is(
            (#[trigger] rest[i]).recipe_id,
            rest[i].ingredient_id,
        ))(#[trigger] rest[j]) by {
            assert(rest[i] == lines[i + 1] && rest[j] == lines[j + 1]);
        }
        lemma_add_lines_free(more, rest);
        assert(more + rest =~= table + lines);
    }
}

/// Whatever lines are added stand behind the table's lines, in their order.
pub proof fn lemma_add_lines_appends(table: Seq<LineView>, lines: Seq<LineView>)
    ensures
        add_lines(table, lines) matches Some(sum) ==> sum == table + lines,
    decreases lines.len(),
{
    if lines.len() == 0 {
        assert(table + lines =~= table);
    } else if find(table, line_is(lines[0].recipe_id, lines[0].ingredient_id)) is None {
        lemma_add_lines_appends(table.push(lines[0]), lines.skip(1));
        assert(table.push(lines[0]) + lines.skip(1) =~= table + lines);
    }
}

/// The drafts' ingredients differ from each other.
pub open spec fn ingredients_differ(drafts: Seq<LineDraftView>) -> bool {
    forall|i: int, j: int|
        0 <= i < j < drafts.len() ==> (#[trigger] drafts[i]).ingredient_id
            != (#[trigger] drafts[j]).ingredient_id
}

/// Lines drafted for one recipe, with ingredients that differ, are all added
/// to a table that has no line of that recipe, and are then that recipe's
/// lines.
pub proof fn lemma_add_drafted(
    table: Seq<LineView>,
    clock: int,
    id: int,
    drafts: Seq<LineDraftView>,
    user: int,
)
    requires
        keep(table, line_of(id)).len() == 0,
        ingredients_differ(drafts),
    ensures
        add_lines(table, lines_from(clock, id, drafts, user)) == Some(
            table + lines_from(clock, id, drafts, user),
        ),
        keep(table + lines_from(clock, id, drafts, user), line_of(id)) == lines_from(
            clock,
            id,
            drafts,
            user,
        ),
{
    let lines = lines_from(clock, id, drafts, user);
    assert forall|i: int| 0 <= i < lines.len() implies find(
        table,
        line_is((#[trigger] lines[i]).recipe_id, lines[i].ingredient_id),
    ) is None by {
        lemma_kept_none_found_none(table, line_of(id), line_is(id, lines[i].ingredient_id));
    }
    assert forall|i: int, j: int| 0 <= i < j < lines.len() implies !(line_is(
        (#[trigger] lines[i]).recipe_id,
        lines[i].ingredient_id,
    ))(#[trigger] lines[j]) by {
        assert(drafts[i].ingredient_id != drafts[j].ingredient_id);
    }
    lemma_add_lines_free(table, lines);
    lemma_keep_concat(table, lines, line_of(id));
    lemma_keep_all(lines, line_of(id));
    assert(keep(table, line_of(id)) =~= Seq::<LineView>::empty());
    assert(keep(table, line_of(id)) + lines =~= lines);
}

/// Reading the identity of a recipe that was just created returns what the
/// creation returned: the recipe and the same lines.
pub proof fn recipe_round_trip(db: DbView, user: int, data: RecipePatchView)
    ensures
        ({
            let created = RecipeMac::spec_create(db, user, data);
            created.1 matches Ok(aggregate) ==> RecipeMac::spec_get(created.0, aggregate.0.id)
                == (created.0, Ok::<AggregateView, ErrorView>(aggregate))
        }),
{
}

/// A new recipe gets the identity that the storage gives out next, and no
/// recipe has that identity before.
pub proof fn recipe_create_assigns_a_new_identity(db: DbView, user: int, data: RecipePatchView)
    requires
        db.wf(),
    ensures
        RecipeMac::spec_create(db, user, data).1 matches Ok(aggregate) ==> aggregate.0.id
            == db.next_recipe_id && db.rows.recipe(aggregate.0.id) is None,
{
    identities_not_given_name_nothing(db, db.next_recipe_id as int);
}

/// A creation that fails leaves every table as it was.
pub proof fn recipe_create_is_all_or_nothing(db: DbView, user: int, data: RecipePatchView)
    ensures
        RecipeMac::spec_create(db, user, data).1 is Err ==> RecipeMac::spec_create(
            db,
            user,
            data,
        ).0.rows == db.rows,
{
}

/// Reading, updating and deleting a recipe that does not exist fail alike:
/// with the table's name and the identity, and without a change. The update
/// is one whose lines all name their ingredient, for a line that names none
/// is refused before the storage is asked.
pub proof fn recipe_not_found(db: DbView, user: int, id: int, data: RecipePatchView)
    requires
        db.rows.recipe(id) is None,
        db.saved is None,
    ensures
        ({
            let missing = (
                db,
                Err::<AggregateView, ErrorView>(ErrorView::EntityNotFound("recipes"@, decimal(id))),
            );
            &&& RecipeMac::spec_get(db, id) == missing
            &&& planned_view(data.ingredients) is Some ==> RecipeMac::spec_update(
                db,
                user,
                id,
                data,
            ) == missing
            &&& RecipeMac::spec_delete(db, id) == missing
        }),
{
}

/// An update with an empty patch writes the default title and the creator 0,
/// whatever they were, and leaves the lines; a read afterwards returns the
/// same.
pub proof fn recipe_update_resets_the_fields(db: DbView, user: int, id: int)
    requires
        db.rows.recipe(id) is Some,
        db.saved is None,
    ensures
        ({
            let empty = RecipePatchView {
                recipe_patch: RecipePatchInnerView { title: None, cid: None },
                ingredients: None,
            };
            let updated = RecipeMac::spec_update(db, user, id, empty);
            &&& updated.1 matches Ok(aggregate) && aggregate.0.id == id && aggregate.0.title
                == "Untitled Recipe"@ && aggregate.0.cid == 0 && aggregate.1 == db.rows.lines_of(
                id,
            )
            &&& RecipeMac::spec_get(updated.0, id) == (updated.0, updated.1)
        }),
{
    lemma_find_accepts(db.rows.recipes, recipe_is(id));
    lemma_find_rewrite(db.rows.recipes, recipe_is(id), retitled(default_title(), 0, db.clock));
}

/// An update that fails leaves the storage as it was.
pub proof fn recipe_update_is_all_or_nothing(db: DbView, user: int, id: int, data: RecipePatchView)
    ensures
        RecipeMac::spec_update(db, user, id, data).1 is Err ==> RecipeMac::spec_update(
            db,
            user,
            id,
            data,
        ).0 == db,
{
}

/// A recipe created with lines whose ingredients differ, under an identity
/// that no stored line refers to, is stored, and a read returns exactly the
/// patch's lines in the patch's order, each with its quantity or, where the
/// patch gave none, the default.
pub proof fn recipe_create_stores_the_lines(db: DbView, user: int, data: RecipePatchView)
    requires
        db.saved is None,
        db.next_recipe_id <= max_id(),
        planned_view(data.ingredients) is Some,
        ingredients_differ(drafts_or_none(planned_view(data.ingredients)->Some_0)),
        db.rows.lines_of(db.next_recipe_id as int).len() == 0,
    ensures
        ({
            let id = db.next_recipe_id as int;
            let drafts = drafts_or_none(planned_view(data.ingredients)->Some_0);
            let created = RecipeMac::spec_create(db, user, data);
            &&& created.1 matches Ok(aggregate) && aggregate.0.id == id && aggregate.1
                == lines_from(db.clock, id, drafts, user)
            &&& RecipeMac::spec_get(created.0, id) == (created.0, created.1)
            &&& data.ingredients matches Some(patches) ==> drafts.len() == patches.len()
                && forall|i: int|
                0 <= i < patches.len() ==> (#[trigger] drafts[i]).ingredient_id
                    == patches[i].ingredient_id->Some_0 && drafts[i].quantity
                    == patches[i].quantity_or_default()
        }),
{
    let id = db.next_recipe_id as int;
    let drafts = drafts_or_none(planned_view(data.ingredients)->Some_0);
    lemma_add_drafted(db.rows.lines, db.clock, id, drafts, user);
}

/// An update with lines whose ingredients differ replaces the recipe's lines:
/// afterwards the recipe has exactly the patch's lines, in the patch's order,
/// none of its old ones stays, and the lines of every other recipe are as
/// they were.
pub proof fn recipe_update_replaces_the_lines(
    db: DbView,
    user: int,
    id: int,
    data: RecipePatchView,
    other: int,
)
    requires
        db.saved is None,
        db.rows.recipe(id) is Some,
        planned_view(data.ingredients) matches Some(Some(drafts)) && ingredients_differ(drafts),
        other != id,
    ensures
        ({
            let drafts = planned_view(data.ingredients)->Some_0->Some_0;
            let updated = RecipeMac::spec_update(db, user, id, data);
            &&& updated.1 matches Ok(aggregate) && aggregate.1 == lines_from(
                db.clock,
                id,
                drafts,
                user,
            )
            &&& updated.0.rows.lines_of(id) == lines_from(db.clock, id, drafts, user)
            &&& updated.0.rows.lines_of(other) == db.rows.lines_of(other)
        }),
{
    let drafts = planned_view(data.ingredients)->Some_0->Some_0;
    let cleared = reject(db.rows.lines, line_of(id));
    let lines = lines_from(db.clock, id, drafts, user);
    lemma_keep_rejected(db.rows.lines, line_of(id));
    lemma_add_drafted(cleared, db.clock, id, drafts, user);
    lemma_keep_concat(cleared, lines, line_of(other));
    lemma_keep_apart(db.rows.lines, line_of(other), line_of(id));
    assert(keep(lines, line_of(other)) =~= Seq::<LineView>::empty()) by {
        crate::rows::lemma_keep_accepts(lines, line_of(other));
        if keep(lines, line_of(other)).len() > 0 {
            let row = keep(lines, line_of(other))[0];
            let k = choose|k: int| 0 <= k < lines.len() && lines[k] == row;
            assert(lines[k].recipe_id == id);
        }
    }
    assert(keep(cleared, line_of(other)) + keep(lines, line_of(other)) =~= keep(
        cleared,
        line_of(other),
    ));
}

/// A line of the recipe that is not among an update's lines is not found
/// after the update.
pub proof fn recipe_update_drops_old_lines(
    db: DbView,
    user: int,
    id: int,
    data: RecipePatchView,
    ingredient: int,
)
    requires
        planned_view(data.ingredients) matches Some(Some(drafts)) && forall|i: int|
            0 <= i < drafts.len() ==> (#[trigger] drafts[i]).ingredient_id != ingredient,
    ensures
        ({
            let updated = RecipeMac::spec_update(db, user, id, data);
            updated.1 is Ok ==> updated.0.rows.line(id, ingredient) is None
        }),
{
    let drafts = planned_view(data.ingredients)->Some_0->Some_0;
    let updated = RecipeMac::spec_update(db, user, id, data);
    if updated.1 is Ok {
        let cleared = reject(db.rows.lines, line_of(id));
        let lines = lines_from(db.clock, id, drafts, user);
        lemma_add_lines_appends(cleared, lines);
        let table = cleared + lines;
        lemma_keep_rejected(db.rows.lines, line_of(id));
        crate::rows::lemma_keep_accepts(cleared, line_of(id));
        assert forall|i: int| 0 <= i < table.len() implies !(line_is(id, ingredient))(
            #[trigger] table[i],
        ) by {
            if i < cleared.len() {
                if cleared[i].recipe_id == id {
                    lemma_kept_none_found_none(
                        cleared,
                        line_of(id),
                        line_is(id, cleared[i].ingredient_id),
                    );
                    lemma_find_none_at(cleared, line_is(id, cleared[i].ingredient_id), i);
                }
            } else {
                assert(table[i] == lines[i - cleared.len()]);
                assert(drafts[i - cleared.len()].ingredient_id != ingredient);
            }
        }
        lemma_find_none(table, line_is(id, ingredient));
    }
}

/// A recipe that was deleted is not found afterwards, and no line of it is
/// left.
pub proof fn recipe_delete_removes(db: DbView, id: int)
    ensures
        ({
            let deleted = RecipeMac::spec_delete(db, id);
            deleted.1 is Ok ==> deleted.0.rows.recipe(id) is None && deleted.0.rows.lines_of(id)
                == Seq::<LineView>::empty() && deleted.1 == RecipeMac::spec_get(db, id).1
        }),
{
    lemma_find_reject(db.rows.recipes, recipe_is(id));
    lemma_keep_rejected(db.rows.lines, line_of(id));
}

/// The list of recipes is the table read backwards, so it has every recipe
/// once, the identities fall from each to the next, and each recipe comes
/// with its own lines.
pub proof fn recipe_list_falls(db: DbView)
    requires
        db.wf(),
    ensures
        RecipeMac::spec_list(db).1 matches Ok(all) && all.len() == db.rows.recipes.len()
            && forall|i: int, j: int|
            0 <= i < j < all.len() ==> (#[trigger] all[i]).0.id > (#[trigger] all[j]).0.id,
        forall|i: int|
            0 <= i < db.rows.recipes.len() ==> (#[trigger] RecipeMac::spec_list(
                db,
            ).1->Ok_0[i]).0 == db.rows.recipes[db.rows.recipes.len() - 1 - i],
        forall|i: int|
            0 <= i < db.rows.recipes.len() ==> (#[trigger] RecipeMac::spec_list(
                db,
            ).1->Ok_0[i]).1 == db.rows.lines_of(RecipeMac::spec_list(db).1->Ok_0[i].0.id),
{
    lemma_reversed_falls(db.rows.recipes, recipe_id(), db.next_recipe_id as int);
    let back = reversed(db.rows.recipes);
    let all = aggregates(back, db.rows.lines);
    assert forall|i: int, j: int| 0 <= i < j < all.len() implies (#[trigger] all[i]).0.id > (
    #[trigger] all[j]).0.id by {
        assert(all[i].0 == back[i] && all[j].0 == back[j]);
        assert((recipe_id())(back[i]) > (recipe_id())(back[j]));
    }
}

} // verus!
