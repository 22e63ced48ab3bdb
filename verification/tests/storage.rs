use cookbook::decimal::decimal_string;
use cookbook::statement::{Bind, Expect, Reply, Statement};
use cookbook::{Db, Error, Ingredient, Recipe, RecipeIngredientMac};

fn done(last_insert_id: u64) -> Reply {
    Reply::Done { last_insert_id }
}

fn insert_line(recipe_id: i64, ingredient_id: i64, quantity: &str) -> Statement {
    Statement::InsertLine {
        recipe_id,
        ingredient_id,
        ingredient_name: "n".to_string(),
        quantity: quantity.to_string(),
        cid: 3,
    }
}

#[test]
fn decimal_string_is_the_usual_notation() {
    for n in [0, 7, 10, 99, 1000, 9999, -1, -10, -4711, i64::MAX, i64::MIN, i64::MIN + 1] {
        assert_eq!(n.to_string(), decimal_string(n));
    }
    assert_eq!("-9223372036854775808", decimal_string(i64::MIN));
    assert_eq!("1000", decimal_string(1000));
}

#[test]
fn error_messages() {
    assert_eq!(
        "Entity Not Found - ingredients[99]",
        Error::EntityNotFound("ingredients", "99".to_string()).message()
    );
    assert_eq!("disk full", Error::StorageFailure("disk full".to_string()).message());
    assert_eq!(
        "Missing Field - recipe_ingredients.recipe_id",
        Error::MissingField("recipe_ingredients", "recipe_id").message()
    );
}

#[test]
fn storage_assigns_identities_from_its_first() {
    let mut db = Db::new(1000);
    assert_eq!(done(1000), db.execute(Statement::InsertIngredient { name: "a".to_string() }));
    assert_eq!(done(1001), db.execute(Statement::InsertIngredient { name: "b".to_string() }));
    assert_eq!(done(1000), db.execute(Statement::InsertRecipe { title: "t".to_string(), cid: 1 }));
    assert_eq!(
        Reply::Ingredient(Ingredient { id: 1001, name: "b".to_string() }),
        db.execute(Statement::SelectIngredient { id: 1001 })
    );
    assert_eq!(Reply::RowNotFound, db.execute(Statement::SelectIngredient { id: 1002 }));
    assert_eq!(Reply::RowNotFound, db.execute(Statement::SelectRecipe { id: 1001 }));
}

#[test]
fn storage_without_identities_left_refuses_inserts() {
    let mut db = Db::new(u64::MAX);
    assert_eq!(
        Reply::Failed("identity exhausted".to_string()),
        db.execute(Statement::InsertIngredient { name: "a".to_string() })
    );
    assert_eq!(
        Reply::Failed("identity exhausted".to_string()),
        db.execute(Statement::InsertRecipe { title: "t".to_string(), cid: 0 })
    );
    assert_eq!(Reply::Ingredients(vec![]), db.execute(Statement::ListIngredients));
}

#[test]
fn storage_updates_and_deletes_by_identity() {
    let mut db = Db::new(1);
    db.execute(Statement::InsertIngredient { name: "a".to_string() });
    db.execute(Statement::InsertIngredient { name: "b".to_string() });
    db.execute(Statement::InsertIngredient { name: "c".to_string() });
    assert_eq!(
        done(0),
        db.execute(Statement::UpdateIngredient { id: 2, name: "B".to_string() })
    );
    assert_eq!(done(0), db.execute(Statement::UpdateIngredient { id: 9, name: "Z".to_string() }));
    assert_eq!(done(0), db.execute(Statement::DeleteIngredient { id: 1 }));
    assert_eq!(done(0), db.execute(Statement::DeleteIngredient { id: 9 }));
    assert_eq!(
        Reply::Ingredients(vec![
            Ingredient { id: 3, name: "c".to_string() },
            Ingredient { id: 2, name: "B".to_string() },
        ]),
        db.execute(Statement::ListIngredients)
    );
}

#[test]
fn storage_stamps_recipes_with_its_clock() {
    let mut db = Db::new(1);
    db.set_clock(10);
    db.execute(Statement::InsertRecipe { title: "t".to_string(), cid: 4 });
    db.set_clock(20);
    db.execute(Statement::InsertRecipe { title: "u".to_string(), cid: 5 });
    db.set_clock(30);
    db.execute(Statement::UpdateRecipe { id: 1, title: "T".to_string(), cid: 6 });
    assert_eq!(
        Reply::Recipes(vec![
            Recipe { id: 2, title: "u".to_string(), cid: 5, ctime: 20, mtime: 20 },
            Recipe { id: 1, title: "T".to_string(), cid: 6, ctime: 10, mtime: 30 },
        ]),
        db.execute(Statement::ListRecipes)
    );
    assert_eq!(done(0), db.execute(Statement::DeleteRecipe { id: 2 }));
    assert_eq!(
        Reply::Recipe(Recipe { id: 1, title: "T".to_string(), cid: 6, ctime: 10, mtime: 30 }),
        db.execute(Statement::SelectRecipe { id: 1 })
    );
    assert_eq!(Reply::RowNotFound, db.execute(Statement::SelectRecipe { id: 2 }));
}

#[test]
fn storage_keeps_one_line_per_key() {
    let mut db = Db::new(1);
    db.set_clock(8);
    assert_eq!(done(0), db.execute(insert_line(1, 2, "first")));
    assert_eq!(Reply::Failed("duplicate key".to_string()), db.execute(insert_line(1, 2, "second")));
    assert_eq!(done(0), db.execute(insert_line(2, 2, "other recipe")));
    assert_eq!(done(0), db.execute(insert_line(1, 3, "other ingredient")));
    assert_eq!(
        Reply::Line(RecipeIngredientMac {
            recipe_id: 1,
            ingredient_id: 2,
            ingredient_name: "n".to_string(),
            quantity: "first".to_string(),
            cid: 3,
            ctime: 8,
            mtime: 8,
        }),
        db.execute(Statement::SelectLine { recipe_id: 1, ingredient_id: 2 })
    );
    assert_eq!(
        Reply::RowNotFound,
        db.execute(Statement::SelectLine { recipe_id: 2, ingredient_id: 3 })
    );
}

#[test]
fn storage_rewrites_and_removes_lines() {
    let mut db = Db::new(1);
    for (recipe_id, ingredient_id) in [(1, 1), (2, 1), (1, 2), (3, 1)] {
        db.execute(insert_line(recipe_id, ingredient_id, "q"));
    }
    db.set_clock(4);
    db.execute(Statement::UpdateLine { recipe_id: 1, ingredient_id: 2, quantity: "Q".to_string() });
    db.execute(Statement::DeleteLine { recipe_id: 2, ingredient_id: 1 });
    let seen = |reply: Reply| -> Vec<(i64, i64, String, i64)> {
        match reply {
            Reply::Lines(lines) => lines
                .into_iter()
                .map(|line| (line.recipe_id, line.ingredient_id, line.quantity, line.mtime))
                .collect(),
            other => panic!("{:?}", other),
        }
    };
    assert_eq!(
        vec![(3, 1, "q".to_string(), 0), (1, 1, "q".to_string(), 0), (1, 2, "Q".to_string(), 4)],
        seen(db.execute(Statement::ListLines))
    );
    assert_eq!(
        vec![(1, 1, "q".to_string(), 0), (1, 2, "Q".to_string(), 4)],
        seen(db.execute(Statement::ListLinesByRecipe { recipe_id: 1 }))
    );
    db.execute(Statement::DeleteLinesByRecipe { recipe_id: 1 });
    assert_eq!(vec![(3, 1, "q".to_string(), 0)], seen(db.execute(Statement::ListLines)));
}

#[test]
fn storage_rolls_back_rows_and_keeps_identities_spent() {
    let mut db = Db::new(1);
    db.execute(Statement::InsertIngredient { name: "kept".to_string() });
    assert_eq!(done(0), db.execute(Statement::Begin));
    assert_eq!(
        Reply::Failed("transaction already open".to_string()),
        db.execute(Statement::Begin)
    );
    db.execute(Statement::InsertIngredient { name: "undone".to_string() });
    db.execute(Statement::DeleteIngredient { id: 1 });
    db.execute(insert_line(1, 1, "undone"));
    assert_eq!(done(0), db.execute(Statement::Rollback));
    assert_eq!(
        Reply::Ingredients(vec![Ingredient { id: 1, name: "kept".to_string() }]),
        db.execute(Statement::ListIngredients)
    );
    assert_eq!(Reply::Lines(vec![]), db.execute(Statement::ListLines));
    assert_eq!(done(3), db.execute(Statement::InsertIngredient { name: "next".to_string() }));
    // a rollback or a commit without a transaction changes nothing
    assert_eq!(done(0), db.execute(Statement::Rollback));
    assert_eq!(done(0), db.execute(Statement::Commit));
    assert_eq!(done(0), db.execute(Statement::Begin));
    db.execute(Statement::DeleteIngredient { id: 1 });
    assert_eq!(done(0), db.execute(Statement::Commit));
    assert_eq!(done(0), db.execute(Statement::Rollback));
    assert_eq!(
        Reply::Ingredients(vec![Ingredient { id: 3, name: "next".to_string() }]),
        db.execute(Statement::ListIngredients)
    );
}

#[test]
fn statements_carry_their_text_and_values() {
    let insert = insert_line(1, 2, "q");
    assert_eq!(
        "INSERT INTO recipe_ingredients (recipe_id, ingredient_id, ingredient_name, quantity, cid) VALUES (?, ?, ?, ?, ?)",
        insert.sql()
    );
    assert_eq!(
        vec![
            Bind::Int(1),
            Bind::Int(2),
            Bind::Text("n".to_string()),
            Bind::Text("q".to_string()),
            Bind::Int(3)
        ],
        insert.binds()
    );
    assert_eq!(Expect::Nothing, insert.expects());

    let update = Statement::UpdateRecipe { id: 5, title: "t".to_string(), cid: 6 };
    assert_eq!("UPDATE recipes SET title = ?, cid = ? WHERE id = ?", update.sql());
    assert_eq!(vec![Bind::Text("t".to_string()), Bind::Int(6), Bind::Int(5)], update.binds());

    let rename = Statement::UpdateIngredient { id: 5, name: "n".to_string() };
    assert_eq!("UPDATE ingredients SET name = ? WHERE id = ?", rename.sql());
    assert_eq!(vec![Bind::Text("n".to_string()), Bind::Int(5)], rename.binds());

    let requantify =
        Statement::UpdateLine { recipe_id: 1, ingredient_id: 2, quantity: "q".to_string() };
    assert_eq!(
        vec![Bind::Text("q".to_string()), Bind::Int(1), Bind::Int(2)],
        requantify.binds()
    );

    assert_eq!("SELECT id, name FROM ingredients ORDER BY id DESC", Statement::ListIngredients.sql());
    assert_eq!(Expect::Ingredients, Statement::ListIngredients.expects());
    assert!(Statement::ListIngredients.binds().is_empty());
    assert_eq!(Expect::Recipe, Statement::SelectRecipe { id: 1 }.expects());
    assert_eq!(Expect::Recipes, Statement::ListRecipes.expects());
    assert_eq!(Expect::Ingredient, Statement::SelectIngredient { id: 1 }.expects());
    assert_eq!(Expect::Line, Statement::SelectLine { recipe_id: 1, ingredient_id: 1 }.expects());
    assert_eq!(Expect::Lines, Statement::ListLines.expects());
    assert_eq!(Expect::Lines, Statement::ListLinesByRecipe { recipe_id: 1 }.expects());
    assert_eq!(Expect::Nothing, Statement::Begin.expects());
    assert!(!Statement::Begin.prepared());
    assert!(!Statement::Commit.prepared());
    assert!(!Statement::Rollback.prepared());
    assert!(Statement::ListIngredients.prepared());
    assert!(insert.prepared());
    assert_eq!("BEGIN", Statement::Begin.sql());
    assert_eq!("COMMIT", Statement::Commit.sql());
    assert_eq!("ROLLBACK", Statement::Rollback.sql());
}

#[test]
fn every_statement_has_as_many_values_as_its_text_has_marks() {
    let statements = vec![
        Statement::Begin,
        Statement::Commit,
        Statement::Rollback,
        Statement::InsertIngredient { name: "n".to_string() },
        Statement::SelectIngredient { id: 1 },
        Statement::UpdateIngredient { id: 1, name: "n".to_string() },
        Statement::DeleteIngredient { id: 1 },
        Statement::ListIngredients,
        Statement::InsertRecipe { title: "t".to_string(), cid: 1 },
        Statement::SelectRecipe { id: 1 },
        Statement::UpdateRecipe { id: 1, title: "t".to_string(), cid: 1 },
        Statement::DeleteRecipe { id: 1 },
        Statement::ListRecipes,
        insert_line(1, 2, "q"),
        Statement::SelectLine { recipe_id: 1, ingredient_id: 2 },
        Statement::UpdateLine { recipe_id: 1, ingredient_id: 2, quantity: "q".to_string() },
        Statement::DeleteLine { recipe_id: 1, ingredient_id: 2 },
        Statement::ListLines,
        Statement::ListLinesByRecipe { recipe_id: 1 },
        Statement::DeleteLinesByRecipe { recipe_id: 1 },
    ];
    for statement in statements {
        let marks = statement.sql().chars().filter(|c| *c == '?').count();
        assert_eq!(marks, statement.binds().len(), "{:?}", statement);
    }
}
