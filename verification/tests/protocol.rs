use cookbook::ingredient::IngredientOp;
use cookbook::operation::{run, Action, Operation, Outcome};
use cookbook::recipe::{drafts, LineDraft, RecipeOp};
use cookbook::recipe_ingredient::LineOp;
use cookbook::statement::{Reply, Statement};
use cookbook::{
    Db, Error, Ingredient, IngredientPatch, Recipe, RecipeIngredientMac, RecipeIngredientPatch,
    RecipePatch, RecipePatchInner, UserCtx,
};

fn done(last_insert_id: u64) -> Reply {
    Reply::Done { last_insert_id }
}

fn failed(cause: &str) -> Reply {
    Reply::Failed(cause.to_string())
}

fn storage_failure(cause: &str) -> Action {
    Action::Return(Err(Error::StorageFailure(cause.to_string())))
}

fn recipe_row(id: i64, title: &str) -> Recipe {
    Recipe { id, title: title.to_string(), cid: 0, ctime: 0, mtime: 0 }
}

fn line_row(recipe_id: i64, ingredient_id: i64, quantity: &str) -> RecipeIngredientMac {
    RecipeIngredientMac {
        recipe_id,
        ingredient_id,
        ingredient_name: "x".to_string(),
        quantity: quantity.to_string(),
        cid: 1,
        ctime: 0,
        mtime: 0,
    }
}

fn two_lines() -> Option<Vec<RecipeIngredientPatch>> {
    Some(vec![
        RecipeIngredientPatch {
            recipe_id: None,
            ingredient_id: Some(10),
            ingredient_name: "a".to_string(),
            quantity: Some("1 a".to_string()),
        },
        RecipeIngredientPatch {
            recipe_id: None,
            ingredient_id: Some(11),
            ingredient_name: "b".to_string(),
            quantity: None,
        },
    ])
}

fn insert_line(recipe_id: i64, ingredient_id: i64, name: &str, quantity: &str, cid: i64) -> Action {
    Action::Run(Statement::InsertLine {
        recipe_id,
        ingredient_id,
        ingredient_name: name.to_string(),
        quantity: quantity.to_string(),
        cid,
    })
}

#[test]
fn ingredient_create_names_insert_then_select() {
    let (op, action) = IngredientOp::create(IngredientPatch { name: None });
    assert_eq!(Action::Run(Statement::InsertIngredient { name: "untitled".to_string() }), action);
    let (op, action) = op.step(done(1000));
    assert_eq!(Action::Run(Statement::SelectIngredient { id: 1000 }), action);
    let row = Ingredient { id: 1000, name: "untitled".to_string() };
    let (op, action) = op.step(Reply::Ingredient(row.clone()));
    assert_eq!(Operation::Finished, op);
    assert_eq!(Action::Return(Ok(Outcome::Ingredient(row))), action);
}

#[test]
fn ingredient_create_never_reports_not_found() {
    let (op, _) = IngredientOp::create(IngredientPatch { name: Some("salt".to_string()) });
    let (op, _) = op.step(done(7));
    let (_, action) = op.step(Reply::RowNotFound);
    assert_eq!(
        storage_failure("no rows returned by a query that expected to return at least one row"),
        action
    );
}

#[test]
fn ingredient_create_refuses_an_identity_out_of_range() {
    let (op, _) = IngredientOp::create(IngredientPatch { name: None });
    let (op, action) = op.step(done(i64::MAX as u64 + 1));
    assert_eq!(Operation::Finished, op);
    assert_eq!(storage_failure("unexpected reply"), action);
}

#[test]
fn ingredient_get_maps_the_answers() {
    let (op, action) = IngredientOp::get(5);
    assert_eq!(Action::Run(Statement::SelectIngredient { id: 5 }), action);
    let (_, action) = op.step(Reply::RowNotFound);
    assert_eq!(Action::Return(Err(Error::EntityNotFound("ingredients", "5".to_string()))), action);

    let (op, _) = IngredientOp::get(5);
    let (_, action) = op.step(failed("connection lost"));
    assert_eq!(storage_failure("connection lost"), action);

    let (op, _) = IngredientOp::get(5);
    let (_, action) = op.step(Reply::Lines(vec![]));
    assert_eq!(storage_failure("unexpected reply"), action);
}

#[test]
fn ingredient_update_writes_then_reads() {
    let (op, action) = IngredientOp::update(5, IngredientPatch { name: None });
    assert_eq!(
        Action::Run(Statement::UpdateIngredient { id: 5, name: "untitled".to_string() }),
        action
    );
    let (op, action) = op.step(done(0));
    assert_eq!(Action::Run(Statement::SelectIngredient { id: 5 }), action);
    // the row vanished between the write and the read
    let (_, action) = op.step(Reply::RowNotFound);
    assert_eq!(Action::Return(Err(Error::EntityNotFound("ingredients", "5".to_string()))), action);
}

#[test]
fn ingredient_delete_runs_in_a_transaction() {
    let (op, action) = IngredientOp::delete(5);
    assert_eq!(Action::Run(Statement::Begin), action);
    let (op, action) = op.step(done(0));
    assert_eq!(Action::Run(Statement::SelectIngredient { id: 5 }), action);
    let row = Ingredient { id: 5, name: "salt".to_string() };
    let (op, action) = op.step(Reply::Ingredient(row.clone()));
    assert_eq!(Action::Run(Statement::DeleteIngredient { id: 5 }), action);
    let (op, action) = op.step(done(0));
    assert_eq!(Action::Run(Statement::Commit), action);
    let (_, action) = op.step(done(0));
    assert_eq!(Action::Return(Ok(Outcome::Ingredient(row))), action);
}

#[test]
fn ingredient_delete_rolls_back_when_the_removal_fails() {
    let (op, _) = IngredientOp::delete(5);
    let (op, _) = op.step(done(0));
    let (op, _) = op.step(Reply::Ingredient(Ingredient { id: 5, name: "salt".to_string() }));
    let (op, action) = op.step(failed("lock wait timeout"));
    assert_eq!(Action::Run(Statement::Rollback), action);
    // whatever the rollback answers, the first error is reported
    let (op, action) = op.step(failed("gone away"));
    assert_eq!(Operation::Finished, op);
    assert_eq!(storage_failure("lock wait timeout"), action);
}

#[test]
fn ingredient_delete_that_cannot_begin_does_not_roll_back() {
    let (op, _) = IngredientOp::delete(5);
    let (op, action) = op.step(failed("pool timed out"));
    assert_eq!(Operation::Finished, op);
    assert_eq!(storage_failure("pool timed out"), action);
}

#[test]
fn a_failed_commit_is_a_storage_failure() {
    let (op, _) = IngredientOp::delete(5);
    let (op, _) = op.step(done(0));
    let (op, _) = op.step(Reply::Ingredient(Ingredient { id: 5, name: "salt".to_string() }));
    let (op, _) = op.step(done(0));
    let (_, action) = op.step(failed("deadlock"));
    assert_eq!(storage_failure("deadlock"), action);
}

#[test]
fn a_finished_operation_takes_no_more_answers() {
    let (op, _) = IngredientOp::list();
    let (op, action) = op.step(Reply::Ingredients(vec![]));
    assert_eq!(Action::Return(Ok(Outcome::Ingredients(vec![]))), action);
    let (op, action) = op.step(done(0));
    assert_eq!(Operation::Finished, op);
    assert_eq!(storage_failure("operation already finished"), action);
}

#[test]
fn line_create_inserts_for_the_caller_then_reads_by_key() {
    let utx = UserCtx { user_id: 42 };
    let patch = RecipeIngredientPatch {
        recipe_id: Some(3),
        ingredient_id: Some(4),
        ingredient_name: "salt".to_string(),
        quantity: None,
    };
    let (op, action) = LineOp::create(&utx, patch);
    assert_eq!(insert_line(3, 4, "salt", "1 unit", 42), action);
    let (_, action) = op.step(done(0));
    assert_eq!(Action::Run(Statement::SelectLine { recipe_id: 3, ingredient_id: 4 }), action);
}

#[test]
fn line_create_without_identities_names_no_statement() {
    let utx = UserCtx { user_id: 42 };
    let (op, action) = LineOp::create(&utx, RecipeIngredientPatch::default());
    assert_eq!(Operation::Finished, op);
    assert_eq!(
        Action::Return(Err(Error::MissingField("recipe_ingredients", "recipe_id"))),
        action
    );
}

#[test]
fn line_operations_name_their_statements() {
    assert_eq!(Action::Run(Statement::ListLines), LineOp::list().1);
    assert_eq!(
        Action::Run(Statement::ListLinesByRecipe { recipe_id: 8 }),
        LineOp::list_by_recipe(8).1
    );
    assert_eq!(
        Action::Run(Statement::DeleteLinesByRecipe { recipe_id: 8 }),
        LineOp::delete_by_recipe(8).1
    );
    assert_eq!(Action::Run(Statement::Begin), LineOp::delete(8, 9).1);
    let quantity = RecipeIngredientPatch { quantity: Some("2".to_string()), ..Default::default() };
    assert_eq!(
        Action::Run(Statement::UpdateLine {
            recipe_id: 8,
            ingredient_id: 9,
            quantity: "2".to_string()
        }),
        LineOp::update(8, 9, quantity).1
    );
    let (op, _) = LineOp::delete_by_recipe(8);
    assert_eq!(Action::Return(Ok(Outcome::Nothing)), op.step(done(0)).1);
    let (op, _) = LineOp::get(8, 9);
    assert_eq!(
        Action::Return(Err(Error::EntityNotFound("recipe_ingredients", "8".to_string()))),
        op.step(Reply::RowNotFound).1
    );
}

#[test]
fn drafts_apply_the_defaults_and_ask_for_the_ingredient() {
    let patches = two_lines().unwrap();
    assert_eq!(
        Ok(vec![
            LineDraft {
                ingredient_id: 10,
                ingredient_name: "a".to_string(),
                quantity: "1 a".to_string()
            },
            LineDraft {
                ingredient_id: 11,
                ingredient_name: "b".to_string(),
                quantity: "1 unit".to_string()
            },
        ]),
        drafts(&patches)
    );
    let mut broken = patches;
    broken[1].ingredient_id = None;
    assert_eq!(Err(Error::MissingField("recipe_ingredients", "ingredient_id")), drafts(&broken));
    assert_eq!(Ok(vec![]), drafts(&vec![]));
}

#[test]
fn recipe_create_names_its_statements_in_order() {
    let utx = UserCtx { user_id: 42 };
    let patch = RecipePatch {
        recipe_patch: RecipePatchInner { title: None, cid: None },
        ingredients: two_lines(),
    };
    let (op, action) = RecipeOp::create(&utx, patch);
    assert_eq!(Action::Run(Statement::Begin), action);
    let (op, action) = op.step(done(0));
    assert_eq!(
        Action::Run(Statement::InsertRecipe { title: "Untitled Recipe".to_string(), cid: 0 }),
        action
    );
    let (op, action) = op.step(done(1001));
    assert_eq!(Action::Run(Statement::SelectRecipe { id: 1001 }), action);
    let recipe = recipe_row(1001, "Untitled Recipe");
    let (op, action) = op.step(Reply::Recipe(recipe.clone()));
    assert_eq!(insert_line(1001, 10, "a", "1 a", 42), action);
    let (op, action) = op.step(done(0));
    assert_eq!(insert_line(1001, 11, "b", "1 unit", 42), action);
    let (op, action) = op.step(done(0));
    assert_eq!(Action::Run(Statement::ListLinesByRecipe { recipe_id: 1001 }), action);
    let lines = vec![line_row(1001, 10, "1 a"), line_row(1001, 11, "1 unit")];
    let (op, action) = op.step(Reply::Lines(lines.clone()));
    assert_eq!(Action::Run(Statement::Commit), action);
    let (op, action) = op.step(done(0));
    assert_eq!(Operation::Finished, op);
    assert_eq!(Action::Return(Ok(Outcome::Recipe(recipe, lines))), action);
}

#[test]
fn recipe_create_rolls_back_when_a_line_fails() {
    let utx = UserCtx { user_id: 42 };
    let patch = RecipePatch { recipe_patch: RecipePatchInner::default(), ingredients: two_lines() };
    let (op, _) = RecipeOp::create(&utx, patch);
    let (op, _) = op.step(done(0));
    let (op, _) = op.step(done(1001));
    let (op, _) = op.step(Reply::Recipe(recipe_row(1001, "Untitled Recipe")));
    let (op, _) = op.step(done(0));
    let (op, action) = op.step(failed("duplicate key"));
    assert_eq!(Action::Run(Statement::Rollback), action);
    let (_, action) = op.step(done(0));
    assert_eq!(storage_failure("duplicate key"), action);
}

#[test]
fn recipe_create_does_not_report_not_found() {
    let utx = UserCtx { user_id: 42 };
    let (op, _) = RecipeOp::create(&utx, RecipePatch::default());
    let (op, _) = op.step(done(0));
    let (op, _) = op.step(done(1001));
    let (op, action) = op.step(Reply::RowNotFound);
    assert_eq!(Action::Run(Statement::Rollback), action);
    let (_, action) = op.step(done(0));
    assert_eq!(
        storage_failure("no rows returned by a query that expected to return at least one row"),
        action
    );
}

#[test]
fn recipe_create_with_a_broken_line_names_no_statement() {
    let utx = UserCtx { user_id: 42 };
    let mut lines = two_lines().unwrap();
    lines[0].ingredient_id = None;
    let patch = RecipePatch { recipe_patch: RecipePatchInner::default(), ingredients: Some(lines) };
    let (op, action) = RecipeOp::create(&utx, patch);
    assert_eq!(Operation::Finished, op);
    assert_eq!(
        Action::Return(Err(Error::MissingField("recipe_ingredients", "ingredient_id"))),
        action
    );
}

#[test]
fn recipe_update_with_lines_clears_before_it_writes() {
    let utx = UserCtx { user_id: 42 };
    let patch = RecipePatch {
        recipe_patch: RecipePatchInner { title: Some("soup".to_string()), cid: Some(3) },
        ingredients: two_lines(),
    };
    let (op, action) = RecipeOp::update(&utx, 1000, patch);
    assert_eq!(Action::Run(Statement::Begin), action);
    let (op, action) = op.step(done(0));
    assert_eq!(
        Action::Run(Statement::UpdateRecipe { id: 1000, title: "soup".to_string(), cid: 3 }),
        action
    );
    let (op, action) = op.step(done(0));
    assert_eq!(Action::Run(Statement::SelectRecipe { id: 1000 }), action);
    let (op, action) = op.step(Reply::Recipe(recipe_row(1000, "soup")));
    assert_eq!(Action::Run(Statement::DeleteLinesByRecipe { recipe_id: 1000 }), action);
    let (op, action) = op.step(done(0));
    assert_eq!(insert_line(1000, 10, "a", "1 a", 42), action);
    let (op, action) = op.step(done(0));
    assert_eq!(insert_line(1000, 11, "b", "1 unit", 42), action);
    let (_, action) = op.step(done(0));
    assert_eq!(Action::Run(Statement::ListLinesByRecipe { recipe_id: 1000 }), action);
}

#[test]
fn recipe_update_without_lines_leaves_them_alone() {
    let utx = UserCtx { user_id: 42 };
    let (op, _) = RecipeOp::update(&utx, 1000, RecipePatch::default());
    let (op, action) = op.step(done(0));
    assert_eq!(
        Action::Run(Statement::UpdateRecipe {
            id: 1000,
            title: "Untitled Recipe".to_string(),
            cid: 0
        }),
        action
    );
    let (op, _) = op.step(done(0));
    let (op, action) = op.step(Reply::Recipe(recipe_row(1000, "Untitled Recipe")));
    assert_eq!(Action::Run(Statement::ListLinesByRecipe { recipe_id: 1000 }), action);
    let (_, action) = op.step(Reply::Lines(vec![]));
    assert_eq!(Action::Run(Statement::Commit), action);
}

#[test]
fn recipe_update_of_a_missing_row_rolls_back_with_not_found() {
    let utx = UserCtx { user_id: 42 };
    let patch = RecipePatch { recipe_patch: RecipePatchInner::default(), ingredients: two_lines() };
    let (op, _) = RecipeOp::update(&utx, 77, patch);
    let (op, _) = op.step(done(0));
    let (op, _) = op.step(done(0));
    let (op, action) = op.step(Reply::RowNotFound);
    assert_eq!(Action::Run(Statement::Rollback), action);
    let (_, action) = op.step(done(0));
    assert_eq!(Action::Return(Err(Error::EntityNotFound("recipes", "77".to_string()))), action);
}

#[test]
fn recipe_get_reads_row_then_lines_without_a_transaction() {
    let (op, action) = RecipeOp::get(1000);
    assert_eq!(Action::Run(Statement::SelectRecipe { id: 1000 }), action);
    let (op, action) = op.step(Reply::Recipe(recipe_row(1000, "soup")));
    assert_eq!(Action::Run(Statement::ListLinesByRecipe { recipe_id: 1000 }), action);
    let (op, action) = op.step(failed("timeout"));
    assert_eq!(Operation::Finished, op);
    assert_eq!(storage_failure("timeout"), action);
}

#[test]
fn recipe_delete_removes_lines_and_row_in_one_transaction() {
    let (op, action) = RecipeOp::delete(1000);
    assert_eq!(Action::Run(Statement::Begin), action);
    let (op, action) = op.step(done(0));
    assert_eq!(Action::Run(Statement::SelectRecipe { id: 1000 }), action);
    let (op, action) = op.step(Reply::Recipe(recipe_row(1000, "soup")));
    assert_eq!(Action::Run(Statement::ListLinesByRecipe { recipe_id: 1000 }), action);
    let lines = vec![line_row(1000, 10, "1 a")];
    let (op, action) = op.step(Reply::Lines(lines.clone()));
    assert_eq!(Action::Run(Statement::DeleteLinesByRecipe { recipe_id: 1000 }), action);
    let (op, action) = op.step(done(0));
    assert_eq!(Action::Run(Statement::DeleteRecipe { id: 1000 }), action);
    let (op, action) = op.step(done(0));
    assert_eq!(Action::Run(Statement::Commit), action);
    let (_, action) = op.step(done(0));
    assert_eq!(Action::Return(Ok(Outcome::Recipe(recipe_row(1000, "soup"), lines))), action);
}

#[test]
fn recipe_list_asks_for_the_lines_of_each_recipe() {
    let (op, action) = RecipeOp::list();
    assert_eq!(Action::Run(Statement::ListRecipes), action);
    let recipes = vec![recipe_row(1001, "soup"), recipe_row(1000, "salad")];
    let (op, action) = op.step(Reply::Recipes(recipes));
    assert_eq!(Action::Run(Statement::ListLinesByRecipe { recipe_id: 1001 }), action);
    let (op, action) = op.step(Reply::Lines(vec![line_row(1001, 10, "1 a")]));
    assert_eq!(Action::Run(Statement::ListLinesByRecipe { recipe_id: 1000 }), action);
    let (_, action) = op.step(Reply::Lines(vec![]));
    assert_eq!(
        Action::Return(Ok(Outcome::Recipes(vec![
            (recipe_row(1001, "soup"), vec![line_row(1001, 10, "1 a")]),
            (recipe_row(1000, "salad"), vec![]),
        ]))),
        action
    );
}

#[test]
fn recipe_list_of_no_recipes_ends_at_once() {
    let (op, _) = RecipeOp::list();
    let (op, action) = op.step(Reply::Recipes(vec![]));
    assert_eq!(Operation::Finished, op);
    assert_eq!(Action::Return(Ok(Outcome::Recipes(vec![]))), action);
}

#[test]
fn outcomes_of_the_wrong_kind_are_refused() {
    let row = Ingredient { id: 1, name: "salt".to_string() };
    assert_eq!(Ok(row.clone()), Outcome::ingredient(Ok(Outcome::Ingredient(row.clone()))));
    assert_eq!(
        Err(Error::StorageFailure("unexpected outcome".to_string())),
        Outcome::ingredient(Ok(Outcome::Nothing))
    );
    assert_eq!(
        Err(Error::StorageFailure("unexpected outcome".to_string())),
        Outcome::recipes(Ok(Outcome::Ingredient(row)))
    );
    assert_eq!(
        Err(Error::StorageFailure("boom".to_string())),
        Outcome::lines(Err(Error::StorageFailure("boom".to_string())))
    );
    assert_eq!(Ok(()), Outcome::nothing(Ok(Outcome::Nothing)));
    assert_eq!(Ok(vec![]), Outcome::ingredients(Ok(Outcome::Ingredients(vec![]))));
    assert_eq!(
        Ok(line_row(1, 2, "q")),
        Outcome::line(Ok(Outcome::Line(line_row(1, 2, "q"))))
    );
    assert_eq!(
        Ok((recipe_row(1, "t"), vec![])),
        Outcome::recipe(Ok(Outcome::Recipe(recipe_row(1, "t"), vec![])))
    );
}

#[test]
fn run_carries_an_operation_to_its_end() {
    let mut db = Db::new(1000);
    let (op, action) = IngredientOp::create(IngredientPatch { name: Some("salt".to_string()) });
    let outcome = run(&mut db, op, action);
    assert_eq!(
        Ok(Outcome::Ingredient(Ingredient { id: 1000, name: "salt".to_string() })),
        outcome
    );
    let (op, action) = IngredientOp::list();
    assert_eq!(
        Ok(Outcome::Ingredients(vec![Ingredient { id: 1000, name: "salt".to_string() }])),
        run(&mut db, op, action)
    );
}

#[test]
fn operations_fail_inside_a_transaction_left_open() {
    let mut db = Db::new(1000);
    let utx = UserCtx { user_id: 1 };
    assert_eq!(done(0), db.execute(Statement::Begin));
    assert_eq!(
        Err(Error::StorageFailure("transaction already open".to_string())),
        cookbook::RecipeMac::create(&mut db, &utx, RecipePatch::default())
    );
    assert_eq!(
        Err(Error::StorageFailure("transaction already open".to_string())),
        cookbook::IngredientMac::delete(&mut db, &utx, 1000)
    );
    assert_eq!(done(0), db.execute(Statement::Commit));
    assert!(cookbook::RecipeMac::create(&mut db, &utx, RecipePatch::default()).is_ok());
}
