use cookbook::{
    Db, Error, IngredientMac, IngredientPatch, RecipeIngredientMac, RecipeIngredientPatch,
    RecipeMac, RecipePatch, RecipePatchInner, UserCtx,
};

/// A storage as the stores first find it: the ingredient 1000 "tomatoes" and
/// the recipe 1000 "spaghetti", and the caller 123.
fn recipe_fixture() -> (Db, UserCtx) {
    let mut db = Db::new(1000);
    let utx = UserCtx { user_id: 123 };
    let tomatoes = IngredientPatch { name: Some("tomatoes".to_string()) };
    IngredientMac::create(&mut db, &utx, tomatoes).unwrap();
    let spaghetti = RecipePatch {
        recipe_patch: RecipePatchInner { title: Some("spaghetti".to_string()), cid: Some(123) },
        ingredients: None,
    };
    RecipeMac::create(&mut db, &utx, spaghetti).unwrap();
    (db, utx)
}

fn line_patch(ingredient_id: i64, name: &str, quantity: &str) -> RecipeIngredientPatch {
    RecipeIngredientPatch {
        recipe_id: None,
        ingredient_id: Some(ingredient_id),
        ingredient_name: name.to_string(),
        quantity: Some(quantity.to_string()),
    }
}

#[test]
fn model_recipe_create() {
    // -- FIXTURE
    let (mut db, utx) = recipe_fixture();
    let data_fx = RecipePatch {
        recipe_patch: RecipePatchInner {
            title: Some("test - model_recipe_create 1".to_string()),
            cid: Some(123),
            ..Default::default()
        },
        ingredients: Some(vec![RecipeIngredientPatch {
            ingredient_id: Some(1000),
            ingredient_name: "tomatoes".to_string(),
            quantity: Some("2 cups".to_string()),
            ..Default::default()
        }]),
    };

    // -- ACTION
    let recipe_created = RecipeMac::create(&mut db, &utx, data_fx.clone()).unwrap();

    // -- CHECK
    assert!(recipe_created.0.id >= 1000, "ID should be >= 1000");
    assert_eq!(data_fx.recipe_patch.title.unwrap(), recipe_created.0.title);
}

#[test]
fn model_recipe_get() {
    // -- FIXTURE
    let (mut db, utx) = recipe_fixture();

    let data_fx = RecipePatch {
        recipe_patch: RecipePatchInner {
            title: Some("tomato soup".to_string()),
            cid: Some(123),
            ..Default::default()
        },
        ingredients: Some(vec![RecipeIngredientPatch {
            ingredient_id: Some(1000),
            ingredient_name: "tomatoes".to_string(),
            quantity: Some("2 cups".to_string()),
            ..Default::default()
        }]),
    };

    let _recipe_created = RecipeMac::create(&mut db, &utx, data_fx.clone()).unwrap();

    // -- ACTION
    let (recipe, ingredients) = RecipeMac::get(&mut db, &utx, 1001).unwrap();

    // -- CHECK
    assert_eq!(1001, recipe.id);
    assert_eq!("tomato soup", recipe.title);
    assert_eq!(1, ingredients.len());
    assert_eq!(1000, ingredients[0].ingredient_id);
    assert_eq!("2 cups", ingredients[0].quantity);
}

#[test]
fn model_recipe_get_wrong_id() {
    // -- FIXTURE
    let (mut db, utx) = recipe_fixture();

    // -- ACTION
    let result = RecipeMac::get(&mut db, &utx, 99);

    // -- CHECK
    match result {
        Ok(_) => assert!(false, "Should not succeed"),
        Err(Error::EntityNotFound(typ, id)) => {
            assert_eq!("recipes", typ);
            assert_eq!(99.to_string(), id);
        }
        other_error => assert!(false, "Wrong Error: {:?}", other_error),
    }
}

#[test]
fn model_recipe_update_ok() {
    // -- FIXTURE
    let (mut db, utx) = recipe_fixture();
    let data_fx = RecipePatch {
        recipe_patch: RecipePatchInner {
            title: Some("test - model_recipe_update_ok 1".to_string()),
            cid: Some(123),
            ..Default::default()
        },
        ingredients: Some(vec![RecipeIngredientPatch {
            ingredient_id: Some(1000),
            ingredient_name: "tomatoes".to_string(),
            quantity: Some("2 cups".to_string()),
            ..Default::default()
        }]),
    };
    let recipe_fx = RecipeMac::create(&mut db, &utx, data_fx.clone()).unwrap();
    let update_data_fx = RecipePatch {
        recipe_patch: RecipePatchInner {
            title: Some("test - model_recipe_update_ok 2".to_string()),
            ..Default::default()
        },
        ingredients: Some(vec![RecipeIngredientPatch {
            ingredient_id: Some(1000),
            ingredient_name: "tomatoes".to_string(),
            quantity: Some("3 tbsp".to_string()),
            ..Default::default()
        }]),
    };

    // -- ACTION
    let recipe_updated =
        RecipeMac::update(&mut db, &utx, recipe_fx.0.id, update_data_fx.clone()).unwrap();

    // -- CHECK
    let recipes = RecipeMac::list(&mut db, &utx).unwrap();
    assert_eq!(2, recipes.len());
    assert_eq!(recipe_fx.0.id, recipe_updated.0.id);
    assert_eq!(
        update_data_fx.recipe_patch.title.unwrap(),
        recipe_updated.0.title
    );
}

#[test]
fn model_recipe_list() {
    // -- FIXTURE
    let (mut db, utx) = recipe_fixture();

    // -- ACTION
    let recipes = RecipeMac::list(&mut db, &utx).unwrap();

    // -- CHECK
    assert_eq!(1, recipes.len());
    assert_eq!(1000, recipes[0].0.id);
    assert_eq!("spaghetti", recipes[0].0.title);
}

#[test]
fn model_recipe_delete_simple() {
    // -- FIXTURE
    let (mut db, utx) = recipe_fixture();

    // -- ACTION
    let recipe = RecipeMac::delete(&mut db, &utx, 1000).unwrap();

    // -- CHECK - deleted item
    assert_eq!(1000, recipe.0.id);
    assert_eq!("spaghetti", recipe.0.title);

    // -- CHECK - list
    let recipes = RecipeMac::list(&mut db, &utx).unwrap();
    assert_eq!(0, recipes.len());
}

#[test]
fn recipe_create_without_fields_takes_the_defaults() {
    let (mut db, utx) = recipe_fixture();
    db.set_clock(77);
    let (recipe, lines) = RecipeMac::create(&mut db, &utx, RecipePatch::default()).unwrap();
    assert_eq!(1001, recipe.id);
    assert_eq!("Untitled Recipe", recipe.title);
    assert_eq!(0, recipe.cid);
    assert_eq!(77, recipe.ctime);
    assert_eq!(77, recipe.mtime);
    assert!(lines.is_empty());
}

#[test]
fn recipe_round_trip_on_values() {
    let (mut db, utx) = recipe_fixture();
    let patch = RecipePatch {
        recipe_patch: RecipePatchInner { title: Some("salad".to_string()), cid: Some(9) },
        ingredients: Some(vec![line_patch(1000, "tomatoes", "3"), line_patch(1001, "basil", "1 leaf")]),
    };
    let created = RecipeMac::create(&mut db, &utx, patch).unwrap();
    let read = RecipeMac::get(&mut db, &utx, created.0.id).unwrap();
    assert_eq!(created, read);
}

#[test]
fn recipe_create_stores_exactly_the_lines_of_the_patch() {
    let (mut db, utx) = recipe_fixture();
    db.set_clock(5);
    let patch = RecipePatch {
        recipe_patch: RecipePatchInner { title: Some("salad".to_string()), cid: Some(9) },
        ingredients: Some(vec![
            line_patch(1002, "basil", "1 leaf"),
            line_patch(1000, "tomatoes", "3"),
            RecipeIngredientPatch {
                recipe_id: Some(4),
                ingredient_id: Some(1001),
                ingredient_name: "oil".to_string(),
                quantity: None,
            },
        ]),
    };
    RecipeMac::create(&mut db, &utx, patch).unwrap();
    let (recipe, lines) = RecipeMac::get(&mut db, &utx, 1001).unwrap();
    assert_eq!("salad", recipe.title);
    assert_eq!(9, recipe.cid);
    assert_eq!(3, lines.len());
    let expected = [(1002, "basil", "1 leaf"), (1000, "tomatoes", "3"), (1001, "oil", "1 unit")];
    for (line, (ingredient_id, name, quantity)) in lines.iter().zip(expected) {
        assert_eq!(1001, line.recipe_id);
        assert_eq!(ingredient_id, line.ingredient_id);
        assert_eq!(name, line.ingredient_name);
        assert_eq!(quantity, line.quantity);
        assert_eq!(123, line.cid);
        assert_eq!(5, line.ctime);
        assert_eq!(5, line.mtime);
    }
}

#[test]
fn recipe_create_with_a_repeated_ingredient_stores_nothing() {
    let (mut db, utx) = recipe_fixture();
    let patch = RecipePatch {
        recipe_patch: RecipePatchInner { title: Some("salad".to_string()), cid: None },
        ingredients: Some(vec![
            line_patch(1000, "tomatoes", "3"),
            line_patch(1001, "basil", "1 leaf"),
            line_patch(1000, "tomatoes", "4"),
        ]),
    };
    assert_eq!(
        Err(Error::StorageFailure("duplicate key".to_string())),
        RecipeMac::create(&mut db, &utx, patch)
    );
    let recipes = RecipeMac::list(&mut db, &utx).unwrap();
    assert_eq!(1, recipes.len());
    assert_eq!(1000, recipes[0].0.id);
    assert!(RecipeIngredientMac::list(&mut db, &utx).unwrap().is_empty());
    // the identity 1001 is spent
    let (next, _) = RecipeMac::create(&mut db, &utx, RecipePatch::default()).unwrap();
    assert_eq!(1002, next.id);
}

#[test]
fn recipe_create_with_a_line_without_ingredient_is_refused() {
    let (mut db, utx) = recipe_fixture();
    let patch = RecipePatch {
        recipe_patch: RecipePatchInner::default(),
        ingredients: Some(vec![
            line_patch(1000, "tomatoes", "3"),
            RecipeIngredientPatch { quantity: Some("1".to_string()), ..Default::default() },
        ]),
    };
    assert_eq!(
        Err(Error::MissingField("recipe_ingredients", "ingredient_id")),
        RecipeMac::create(&mut db, &utx, patch.clone())
    );
    assert_eq!(
        Err(Error::MissingField("recipe_ingredients", "ingredient_id")),
        RecipeMac::update(&mut db, &utx, 1000, patch)
    );
    // nothing was written and no identity spent
    let (next, _) = RecipeMac::create(&mut db, &utx, RecipePatch::default()).unwrap();
    assert_eq!(1001, next.id);
    assert_eq!("spaghetti", RecipeMac::get(&mut db, &utx, 1000).unwrap().0.title);
}

#[test]
fn recipe_create_finds_a_line_that_was_stored_under_its_identity_before() {
    let (mut db, utx) = recipe_fixture();
    let stray = RecipeIngredientPatch {
        recipe_id: Some(1001),
        ingredient_id: Some(1000),
        ingredient_name: "tomatoes".to_string(),
        quantity: Some("a few".to_string()),
    };
    RecipeIngredientMac::create(&mut db, &utx, stray).unwrap();
    let patch = RecipePatch {
        recipe_patch: RecipePatchInner::default(),
        ingredients: Some(vec![line_patch(1001, "basil", "1 leaf")]),
    };
    let (recipe, lines) = RecipeMac::create(&mut db, &utx, patch).unwrap();
    assert_eq!(1001, recipe.id);
    let quantities: Vec<&str> = lines.iter().map(|line| line.quantity.as_str()).collect();
    assert_eq!(vec!["a few", "1 leaf"], quantities);
}

#[test]
fn recipe_update_with_empty_patch_resets_title_and_creator() {
    let (mut db, utx) = recipe_fixture();
    let lines = RecipePatch {
        recipe_patch: RecipePatchInner { title: Some("spaghetti".to_string()), cid: Some(123) },
        ingredients: Some(vec![line_patch(1000, "tomatoes", "2 cups")]),
    };
    RecipeMac::update(&mut db, &utx, 1000, lines).unwrap();
    db.set_clock(50);

    let (recipe, lines) = RecipeMac::update(&mut db, &utx, 1000, RecipePatch::default()).unwrap();
    assert_eq!(1000, recipe.id);
    assert_eq!("Untitled Recipe", recipe.title);
    assert_eq!(0, recipe.cid);
    assert_eq!(0, recipe.ctime);
    assert_eq!(50, recipe.mtime);
    // the patch has no lines: those stored stay
    assert_eq!(1, lines.len());
    assert_eq!("2 cups", lines[0].quantity);
    assert_eq!((recipe, lines), RecipeMac::get(&mut db, &utx, 1000).unwrap());
}

#[test]
fn recipe_update_replaces_the_lines() {
    let (mut db, utx) = recipe_fixture();
    let other = RecipePatch {
        recipe_patch: RecipePatchInner { title: Some("soup".to_string()), cid: None },
        ingredients: Some(vec![line_patch(1000, "tomatoes", "1 can")]),
    };
    RecipeMac::create(&mut db, &utx, other).unwrap();
    let first = RecipePatch {
        recipe_patch: RecipePatchInner::default(),
        ingredients: Some(vec![line_patch(1000, "tomatoes", "2 cups"), line_patch(1001, "salt", "1 pinch")]),
    };
    RecipeMac::update(&mut db, &utx, 1000, first).unwrap();
    let second = RecipePatch {
        recipe_patch: RecipePatchInner { title: Some("spaghetti".to_string()), cid: Some(1) },
        ingredients: Some(vec![line_patch(1001, "salt", "2 pinches"), line_patch(1002, "basil", "1 leaf")]),
    };

    let (recipe, lines) = RecipeMac::update(&mut db, &utx, 1000, second).unwrap();

    assert_eq!("spaghetti", recipe.title);
    let stored: Vec<(i64, &str)> =
        lines.iter().map(|line| (line.ingredient_id, line.quantity.as_str())).collect();
    assert_eq!(vec![(1001, "2 pinches"), (1002, "1 leaf")], stored);
    assert_eq!(
        Err(Error::EntityNotFound("recipe_ingredients", "1000".to_string())),
        RecipeIngredientMac::get(&mut db, &utx, 1000, 1000)
    );
    // the other recipe keeps its line
    let (_, untouched) = RecipeMac::get(&mut db, &utx, 1001).unwrap();
    assert_eq!(1, untouched.len());
    assert_eq!("1 can", untouched[0].quantity);
}

#[test]
fn recipe_update_with_no_lines_at_all_removes_the_lines() {
    let (mut db, utx) = recipe_fixture();
    let first = RecipePatch {
        recipe_patch: RecipePatchInner::default(),
        ingredients: Some(vec![line_patch(1000, "tomatoes", "2 cups")]),
    };
    RecipeMac::update(&mut db, &utx, 1000, first).unwrap();
    let none = RecipePatch { recipe_patch: RecipePatchInner::default(), ingredients: Some(vec![]) };
    let (_, lines) = RecipeMac::update(&mut db, &utx, 1000, none).unwrap();
    assert!(lines.is_empty());
    assert!(RecipeIngredientMac::list_by_recipe(&mut db, 1000).unwrap().is_empty());
}

#[test]
fn recipe_update_that_fails_changes_nothing() {
    let (mut db, utx) = recipe_fixture();
    let first = RecipePatch {
        recipe_patch: RecipePatchInner { title: Some("spaghetti".to_string()), cid: Some(123) },
        ingredients: Some(vec![line_patch(1000, "tomatoes", "2 cups")]),
    };
    let before = RecipeMac::update(&mut db, &utx, 1000, first).unwrap();
    let twice = RecipePatch {
        recipe_patch: RecipePatchInner { title: Some("changed".to_string()), cid: Some(5) },
        ingredients: Some(vec![line_patch(1001, "salt", "1"), line_patch(1001, "salt", "2")]),
    };
    assert_eq!(
        Err(Error::StorageFailure("duplicate key".to_string())),
        RecipeMac::update(&mut db, &utx, 1000, twice)
    );
    assert_eq!(before, RecipeMac::get(&mut db, &utx, 1000).unwrap());
}

#[test]
fn recipe_update_and_delete_of_a_missing_row_are_not_found() {
    let (mut db, utx) = recipe_fixture();
    let patch = RecipePatch {
        recipe_patch: RecipePatchInner { title: Some("ghost".to_string()), cid: None },
        ingredients: Some(vec![line_patch(1000, "tomatoes", "2 cups")]),
    };
    assert_eq!(
        Err(Error::EntityNotFound("recipes", "2000".to_string())),
        RecipeMac::update(&mut db, &utx, 2000, patch)
    );
    assert_eq!(
        Err(Error::EntityNotFound("recipes", "2000".to_string())),
        RecipeMac::delete(&mut db, &utx, 2000)
    );
    // the lines of the failed update were not left behind
    assert!(RecipeIngredientMac::list(&mut db, &utx).unwrap().is_empty());
    assert_eq!(1, RecipeMac::list(&mut db, &utx).unwrap().len());
}

#[test]
fn recipe_delete_returns_the_snapshot_and_removes_the_lines() {
    let (mut db, utx) = recipe_fixture();
    let patch = RecipePatch {
        recipe_patch: RecipePatchInner { title: Some("spaghetti".to_string()), cid: Some(123) },
        ingredients: Some(vec![line_patch(1000, "tomatoes", "2 cups")]),
    };
    let stored = RecipeMac::update(&mut db, &utx, 1000, patch).unwrap();
    let deleted = RecipeMac::delete(&mut db, &utx, 1000).unwrap();
    assert_eq!(stored, deleted);
    assert!(RecipeIngredientMac::list(&mut db, &utx).unwrap().is_empty());
    assert_eq!(
        Err(Error::EntityNotFound("recipes", "1000".to_string())),
        RecipeMac::get(&mut db, &utx, 1000)
    );
}

#[test]
fn recipe_list_is_ordered_by_falling_identity_with_each_recipes_lines() {
    let (mut db, utx) = recipe_fixture();
    for (title, ingredient) in [("soup", 1000), ("salad", 1001), ("stew", 1002)] {
        let patch = RecipePatch {
            recipe_patch: RecipePatchInner { title: Some(title.to_string()), cid: None },
            ingredients: Some(vec![line_patch(ingredient, "x", title)]),
        };
        RecipeMac::create(&mut db, &utx, patch).unwrap();
    }
    RecipeMac::delete(&mut db, &utx, 1002).unwrap();
    let recipes = RecipeMac::list(&mut db, &utx).unwrap();
    let seen: Vec<(i64, &str, usize)> = recipes
        .iter()
        .map(|(recipe, lines)| (recipe.id, recipe.title.as_str(), lines.len()))
        .collect();
    assert_eq!(vec![(1003, "stew", 1), (1001, "soup", 1), (1000, "spaghetti", 0)], seen);
    assert_eq!("stew", recipes[0].1[0].quantity);
    assert_eq!(1003, recipes[0].1[0].recipe_id);
}

#[test]
fn end_to_end_tomato_soup() {
    let mut db = Db::new(1000);
    let utx = UserCtx { user_id: 123 };
    let ingredient =
        IngredientMac::create(&mut db, &utx, IngredientPatch { name: Some("tomatoes".to_string()) })
            .unwrap();
    assert!(ingredient.id >= 1000);
    let patch = RecipePatch {
        recipe_patch: RecipePatchInner { title: Some("tomato soup".to_string()), cid: None },
        ingredients: Some(vec![line_patch(ingredient.id, "tomatoes", "2 cups")]),
    };
    let created = RecipeMac::create(&mut db, &utx, patch).unwrap();

    let (recipe, lines) = RecipeMac::get(&mut db, &utx, created.0.id).unwrap();
    assert_eq!("tomato soup", recipe.title);
    assert_eq!(1, lines.len());
    assert_eq!("2 cups", lines[0].quantity);
    assert_eq!(ingredient.id, lines[0].ingredient_id);

    let deleted = RecipeMac::delete(&mut db, &utx, recipe.id).unwrap();
    assert_eq!((recipe, lines), deleted);

    let listed = RecipeMac::list(&mut db, &utx).unwrap();
    assert!(listed.iter().all(|(recipe, _)| recipe.id != deleted.0.id));
    assert!(listed.is_empty());
}
