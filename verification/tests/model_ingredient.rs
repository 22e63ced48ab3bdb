use cookbook::{Db, Error, IngredientMac, IngredientPatch, RecipeMac, RecipePatch, RecipePatchInner, UserCtx};

/// A storage as the stores first find it: the ingredient 1000 "tomatoes" and
/// the recipe 1000 "spaghetti", and the caller 123.
fn ingredient_fixture() -> (Db, UserCtx) {
    let mut db = Db::new(1000);
    let utx = UserCtx { user_id: 123 };
    let tomatoes = IngredientPatch { name: Some("tomatoes".to_string()) };
    IngredientMac::create(&mut db, &utx, tomatoes).unwrap();
    let spaghetti = RecipePatch {
        recipe_patch: RecipePatchInner { title: Some("spaghetti".to_string()), cid: Some(123) },
        ingredients: None,
    };
    RecipeMac::create(&mut db, &utx, spaghetti).unwrap();
    (db, utx)
}

#[test]
fn model_ingredient_create() {
    // -- FIXTURE
    let (mut db, utx) = ingredient_fixture();
    let data_fx = IngredientPatch {
        name: Some("test - model_ingredient_create 1".to_string()),
        ..Default::default()
    };

    // -- ACTION
    let ingredient_created = IngredientMac::create(&mut db, &utx, data_fx.clone()).unwrap();

    // -- CHECK
    assert!(ingredient_created.id >= 1000, "ID should be >= 1000");
    assert_eq!(data_fx.name.unwrap(), ingredient_created.name);
}

#[test]
fn model_ingredient_get() {
    // -- FIXTURE
    let (mut db, utx) = ingredient_fixture();

    // -- ACTION
    let ingredient = IngredientMac::get(&mut db, &utx, 1000).unwrap();

    // -- CHECK
    assert_eq!(1000, ingredient.id);
    assert_eq!("tomatoes", ingredient.name);
}

#[test]
fn model_ingredient_get_wrong_id() {
    // -- FIXTURE
    let (mut db, utx) = ingredient_fixture();

    // -- ACTION
    let result = IngredientMac::get(&mut db, &utx, 99);

    // -- CHECK
    match result {
        Ok(_) => assert!(false, "Should not succeed"),
        Err(Error::EntityNotFound(typ, id)) => {
            assert_eq!("ingredients", typ);
            assert_eq!(99.to_string(), id);
        }
        other_error => assert!(false, "Wrong Error: {:?}", other_error),
    }
}

#[test]
fn model_ingredient_update_ok() {
    // -- FIXTURE
    let (mut db, utx) = ingredient_fixture();
    let data_fx = IngredientPatch {
        name: Some("test - model_ingredient_update_ok 1".to_string()),
        ..Default::default()
    };
    let ingredient_fx = IngredientMac::create(&mut db, &utx, data_fx.clone()).unwrap();
    let update_data_fx = IngredientPatch {
        name: Some("test - model_ingredient_update_ok 2".to_string()),
        ..Default::default()
    };

    // -- ACTION
    let ingredient_updated =
        IngredientMac::update(&mut db, &utx, ingredient_fx.id, update_data_fx.clone()).unwrap();

    // -- CHECK
    let ingredients = IngredientMac::list(&mut db, &utx).unwrap();
    assert_eq!(2, ingredients.len());
    assert_eq!(ingredient_fx.id, ingredient_updated.id);
    assert_eq!(update_data_fx.name.unwrap(), ingredient_updated.name);
}

#[test]
fn model_ingredient_list() {
    // -- FIXTURE
    let (mut db, utx) = ingredient_fixture();

    // -- ACTION
    let ingredients = IngredientMac::list(&mut db, &utx).unwrap();

    // -- CHECK
    assert_eq!(1, ingredients.len());
    // ingredient 1000
    assert_eq!(1000, ingredients[0].id);
    assert_eq!("tomatoes", ingredients[0].name);
}

#[test]
fn model_ingredient_delete_simple() {
    // -- FIXTURE
    let (mut db, utx) = ingredient_fixture();

    // -- ACTION
    let ingredient = IngredientMac::delete(&mut db, &utx, 1000).unwrap();

    // -- CHECK - deleted item
    assert_eq!(1000, ingredient.id);
    assert_eq!("tomatoes", ingredient.name);

    // -- CHECK - list
    let ingredients = IngredientMac::list(&mut db, &utx).unwrap();
    assert_eq!(0, ingredients.len());
}

#[test]
fn ingredient_create_without_name_is_untitled() {
    let (mut db, utx) = ingredient_fixture();
    let created = IngredientMac::create(&mut db, &utx, IngredientPatch::default()).unwrap();
    assert_eq!(1001, created.id);
    assert_eq!("untitled", created.name);
}

#[test]
fn ingredient_round_trip_on_values() {
    let (mut db, utx) = ingredient_fixture();
    let patch = IngredientPatch { name: Some("basil".to_string()) };
    let created = IngredientMac::create(&mut db, &utx, patch).unwrap();
    let read = IngredientMac::get(&mut db, &utx, created.id).unwrap();
    assert_eq!(created, read);
}

#[test]
fn ingredient_update_with_empty_patch_resets_the_name() {
    let (mut db, utx) = ingredient_fixture();
    let updated = IngredientMac::update(&mut db, &utx, 1000, IngredientPatch { name: None }).unwrap();
    assert_eq!(1000, updated.id);
    assert_eq!("untitled", updated.name);
    let read = IngredientMac::get(&mut db, &utx, 1000).unwrap();
    assert_eq!("untitled", read.name);
}

#[test]
fn ingredient_update_and_delete_of_a_missing_row_are_not_found() {
    let (mut db, utx) = ingredient_fixture();
    let patch = IngredientPatch { name: Some("salt".to_string()) };
    assert_eq!(
        Err(Error::EntityNotFound("ingredients", "4711".to_string())),
        IngredientMac::update(&mut db, &utx, 4711, patch)
    );
    assert_eq!(
        Err(Error::EntityNotFound("ingredients", "-3".to_string())),
        IngredientMac::delete(&mut db, &utx, -3)
    );
    let ingredients = IngredientMac::list(&mut db, &utx).unwrap();
    assert_eq!(1, ingredients.len());
    assert_eq!("tomatoes", ingredients[0].name);
}

#[test]
fn ingredient_list_is_ordered_by_falling_identity() {
    let (mut db, utx) = ingredient_fixture();
    for name in ["salt", "pepper", "basil"] {
        IngredientMac::create(&mut db, &utx, IngredientPatch { name: Some(name.to_string()) })
            .unwrap();
    }
    IngredientMac::delete(&mut db, &utx, 1002).unwrap();
    let ingredients = IngredientMac::list(&mut db, &utx).unwrap();
    let ids: Vec<i64> = ingredients.iter().map(|row| row.id).collect();
    assert_eq!(vec![1003, 1001, 1000], ids);
    let names: Vec<&str> = ingredients.iter().map(|row| row.name.as_str()).collect();
    assert_eq!(vec!["basil", "salt", "tomatoes"], names);
}

#[test]
fn ingredient_identity_is_not_given_twice() {
    let (mut db, utx) = ingredient_fixture();
    let first = IngredientMac::create(&mut db, &utx, IngredientPatch::default()).unwrap();
    IngredientMac::delete(&mut db, &utx, first.id).unwrap();
    let second = IngredientMac::create(&mut db, &utx, IngredientPatch::default()).unwrap();
    assert_eq!(1001, first.id);
    assert_eq!(1002, second.id);
}

#[test]
fn ingredient_create_fails_when_identities_are_exhausted() {
    let mut db = Db::new(i64::MAX as u64);
    let utx = UserCtx { user_id: 123 };
    let last = IngredientMac::create(&mut db, &utx, IngredientPatch::default()).unwrap();
    assert_eq!(i64::MAX, last.id);
    assert_eq!(
        Err(Error::StorageFailure("identity exhausted".to_string())),
        IngredientMac::create(&mut db, &utx, IngredientPatch::default())
    );
    assert_eq!(1, IngredientMac::list(&mut db, &utx).unwrap().len());
}

#[test]
fn ingredient_first_identity_is_what_the_storage_was_made_with() {
    let mut db = Db::new(1);
    let utx = UserCtx { user_id: 7 };
    let created = IngredientMac::create(&mut db, &utx, IngredientPatch::default()).unwrap();
    assert_eq!(1, created.id);
}
