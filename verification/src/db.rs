//! A storage kept in memory. It answers each statement as the model in
//! [`crate::storage`] says, so the stores can run against it as they run
//! against a database.

use crate::ingredient::Ingredient;
use crate::recipe::Recipe;
use crate::recipe_ingredient::RecipeIngredientMac;
use crate::rows::{
    descending, find, keep, lemma_place_at, lemma_take_next, reject, reversed, rewrite,
};
use crate::statement::{Reply, Statement};
use crate::storage::{
    ingredient_is, lemma_execute_wf, line_is, line_of, line_recipe, recipe_is, renamed,
    requantified, retitled, DbView, Rows,
};
use vstd::prelude::*;
use vstd::string::*;

verus! {

struct Tables {
    ingredients: Vec<Ingredient>,
    recipes: Vec<Recipe>,
    lines: Vec<RecipeIngredientMac>,
}

impl View for Tables {
    type V = Rows;

    closed spec fn view(&self) -> Rows {
        Rows {
            ingredients: self.ingredients.deep_view(),
            recipes: self.recipes.deep_view(),
            lines: self.lines.deep_view(),
        }
    }
}

/// A storage kept in memory.
pub struct Db {
    tables: Tables,
    next_ingredient_id: u64,
    next_recipe_id: u64,
    clock: i64,
    saved: Option<Tables>,
}

impl View for Db {
    type V = DbView;

    closed spec fn view(&self) -> DbView {
        DbView {
            rows: self.tables@,
            next_ingredient_id: self.next_ingredient_id as nat,
            next_recipe_id: self.next_recipe_id as nat,
            clock: self.clock as int,
            saved: match self.saved {
                Some(tables) => Some(tables@),
                None => None,
            },
        }
    }
}

fn find_ingredient(rows: &Vec<Ingredient>, id: i64) -> (found: Option<Ingredient>)
    ensures
        found.deep_view() == find(rows.deep_view(), ingredient_is(id as int)),
{
    let ghost all = rows.deep_view();
    let ghost accept = ingredient_is(id as int);
    let mut i = rows.len();
    assert(all.take(i as int) =~= all);
    while i > 0
        invariant
            i <= rows.len(),
            all == rows.deep_view(),
            accept == ingredient_is(id as int),
            find(all, accept) == find(all.take(i as int), accept),
        decreases i,
    {
        i -= 1;
        proof {
            lemma_take_next(all, i as int);
        }
        if rows[i].id == id {
            return Some(rows[i].clone());
        }
    }
    None
}

fn without_ingredient(rows: &Vec<Ingredient>, id: i64) -> (out: Vec<Ingredient>)
    ensures
        out.deep_view() == reject(rows.deep_view(), ingredient_is(id as int)),
{
    let ghost all = rows.deep_view();
    let ghost accept = ingredient_is(id as int);
    let mut out: Vec<Ingredient> = Vec::new();
    let mut i: usize = 0;
    assert(out.deep_view() =~= reject(all.take(0), accept));
    while i < rows.len()
        invariant
            i <= rows.len(),
            all == rows.deep_view(),
            accept == ingredient_is(id as int),
            out.deep_view() == reject(all.take(i as int), accept),
        decreases rows.len() - i,
    {
        proof {
            lemma_take_next(all, i as int);
        }
        if rows[i].id != id {
            let ghost before = out.deep_view();
            out.push(rows[i].clone());
            assert(out.deep_view() =~= before.push(all[i as int]));
        }
        i += 1;
    }
    assert(all.take(i as int) =~= all);
    out
}

fn with_ingredient_name(rows: &Vec<Ingredient>, id: i64, name: &String) -> (out: Vec<Ingredient>)
    ensures
        out.deep_view() == rewrite(rows.deep_view(), ingredient_is(id as int), renamed(name@)),
{
    let ghost all = rows.deep_view();
    let ghost accept = ingredient_is(id as int);
    let ghost change = renamed(name@);
    let mut out: Vec<Ingredient> = Vec::new();
    let mut i: usize = 0;
    assert(out.deep_view() =~= rewrite(all.take(0), accept, change));
    while i < rows.len()
        invariant
            i <= rows.len(),
            all == rows.deep_view(),
            accept == ingredient_is(id as int),
            change == renamed(name@),
            out.deep_view() == rewrite(all.take(i as int), accept, change),
        decreases rows.len() - i,
    {
        proof {
            lemma_take_next(all, i as int);
        }
        let ghost before = out.deep_view();
        if rows[i].id == id {
            out.push(Ingredient { id: rows[i].id, name: name.clone() });
            assert(out.deep_view() =~= before.push(change(all[i as int])));
        } else {
            out.push(rows[i].clone());
            assert(out.deep_view() =~= before.push(all[i as int]));
        }
        i += 1;
    }
    assert(all.take(i as int) =~= all);
    out
}

fn ingredients_reversed(rows: &Vec<Ingredient>) -> (out: Vec<Ingredient>)
    ensures
        out.deep_view() == reversed(rows.deep_view()),
{
    let mut out: Vec<Ingredient> = Vec::new();
    let mut i = rows.len();
    while i > 0
        invariant
            i <= rows.len(),
            out.len() == rows.len() - i,
            forall|j: int| 0 <= j < out.len() ==> out[j] == rows[rows.len() - 1 - j],
        decreases i,
    {
        i -= 1;
        out.push(rows[i].clone());
    }
    assert(out.deep_view() =~= reversed(rows.deep_view()));
    out
}

fn find_recipe(rows: &Vec<Recipe>, id: i64) -> (found: Option<Recipe>)
    ensures
        found.deep_view() == find(rows.deep_view(), recipe_is(id as int)),
{
    let ghost all = rows.deep_view();
    let ghost accept = recipe_is(id as int);
    let mut i = rows.len();
    assert(all.take(i as int) =~= all);
    while i > 0
        invariant
            i <= rows.len(),
            all == rows.deep_view(),
            accept == recipe_is(id as int),
            find(all, accept) == find(all.take(i as int), accept),
        decreases i,
    {
        i -= 1;
        proof {
            lemma_take_next(all, i as int);
        }
        if rows[i].id == id {
            return Some(rows[i].clone());
        }
    }
    None
}

fn without_recipe(rows: &Vec<Recipe>, id: i64) -> (out: Vec<Recipe>)
    ensures
        out.deep_view() == reject(rows.deep_view(), recipe_is(id as int)),
{
    let ghost all = rows.deep_view();
    let ghost accept = recipe_is(id as int);
    let mut out: Vec<Recipe> = Vec::new();
    let mut i: usize = 0;
    assert(out.deep_view() =~= reject(all.take(0), accept));
    while i < rows.len()
        invariant
            i <= rows.len(),
            all == rows.deep_view(),
            accept == recipe_is(id as int),
            out.deep_view() == reject(all.take(i as int), accept),
        decreases rows.len() - i,
    {
        proof {
            lemma_take_next(all, i as int);
        }
        if rows[i].id != id {
            let ghost before = out.deep_view();
            out.push(rows[i].clone());
            assert(out.deep_view() =~= before.push(all[i as int]));
        }
        i += 1;
    }
    assert(all.take(i as int) =~= all);
    out
}

fn with_recipe_fields(rows: &Vec<Recipe>, id: i64, title: &String, cid: i64, now: i64) -> (out:
    Vec<Recipe>)
    ensures
        out.deep_view() == rewrite(
            rows.deep_view(),
            recipe_is(id as int),
            retitled(title@, cid as int, now as int),
        ),
{
    let ghost all = rows.deep_view();
    let ghost accept = recipe_is(id as int);
    let ghost change = retitled(title@, cid as int, now as int);
    let mut out: Vec<Recipe> = Vec::new();
    let mut i: usize = 0;
    assert(out.deep_view() =~= rewrite(all.take(0), accept, change));
    while i < rows.len()
        invariant
            i <= rows.len(),
            all == rows.deep_view(),
            accept == recipe_is(id as int),
            change == retitled(title@, cid as int, now as int),
            out.deep_view() == rewrite(all.take(i as int), accept, change),
        decreases rows.len() - i,
    {
        proof {
            lemma_take_next(all, i as int);
        }
        let ghost before = out.deep_view();
        if rows[i].id == id {
            out.push(
                Recipe {
                    id: rows[i].id,
                    title: title.clone(),
                    cid,
                    ctime: rows[i].ctime,
                    mtime: now,
                },
            );
            assert(out.deep_view() =~= before.push(change(all[i as int])));
        } else {
            out.push(rows[i].clone());
            assert(out.deep_view() =~= before.push(all[i as int]));
        }
        i += 1;
    }
    assert(all.take(i as int) =~= all);
    out
}

fn recipes_reversed(rows: &Vec<Recipe>) -> (out: Vec<Recipe>)
    ensures
        out.deep_view() == reversed(rows.deep_view()),
{
    let mut out: Vec<Recipe> = Vec::new();
    let mut i = rows.len();
    while i > 0
        invariant
            i <= rows.len(),
            out.len() == rows.len() - i,
            forall|j: int| 0 <= j < out.len() ==> out[j] == rows[rows.len() - 1 - j],
        decreases i,
    {
        i -= 1;
        out.push(rows[i].clone());
    }
    assert(out.deep_view() =~= reversed(rows.deep_view()));
    out
}

/// Which lines a statement is about: the one with a key, or all of a recipe.
enum LineFilter {
    Key(i64, i64),
    Recipe(i64),
}

impl LineFilter {
    spec fn accept(self) -> spec_fn(crate::recipe_ingredient::LineView) -> bool {
        match self {
            LineFilter::Key(recipe_id, ingredient_id) => line_is(
                recipe_id as int,
                ingredient_id as int,
            ),
            LineFilter::Recipe(recipe_id) => line_of(recipe_id as int),
        }
    }

    fn accepts(&self, row: &RecipeIngredientMac) -> (hit: bool)
        ensures
            hit == (self.accept())(row@),
    {
        match self {
            LineFilter::Key(recipe_id, ingredient_id) => row.recipe_id == *recipe_id
                && row.ingredient_id == *ingredient_id,
            LineFilter::Recipe(recipe_id) => row.recipe_id == *recipe_id,
        }
    }
}

fn find_line(rows: &Vec<RecipeIngredientMac>, recipe_id: i64, ingredient_id: i64) -> (found: Option<
    RecipeIngredientMac,
>)
    ensures
        found.deep_view() == find(
            rows.deep_view(),
            line_is(recipe_id as int, ingredient_id as int),
        ),
{
    let ghost all = rows.deep_view();
    let ghost accept = line_is(recipe_id as int, ingredient_id as int);
    let mut i = rows.len();
    assert(all.take(i as int) =~= all);
    while i > 0
        invariant
            i <= rows.len(),
            all == rows.deep_view(),
            accept == line_is(recipe_id as int, ingredient_id as int),
            find(all, accept) == find(all.take(i as int), accept),
        decreases i,
    {
        i -= 1;
        proof {
            lemma_take_next(all, i as int);
        }
        if rows[i].recipe_id == recipe_id && rows[i].ingredient_id == ingredient_id {
            return Some(rows[i].clone());
        }
    }
    None
}

fn lines_kept(rows: &Vec<RecipeIngredientMac>, filter: &LineFilter) -> (out: Vec<
    RecipeIngredientMac,
>)
    ensures
        out.deep_view() == keep(rows.deep_view(), filter.accept()),
{
    let ghost all = rows.deep_view();
    let ghost accept = filter.accept();
    let mut out: Vec<RecipeIngredientMac> = Vec::new();
    let mut i: usize = 0;
    assert(out.deep_view() =~= keep(all.take(0), accept));
    while i < rows.len()
        invariant
            i <= rows.len(),
            all == rows.deep_view(),
            accept == filter.accept(),
            out.deep_view() == keep(all.take(i as int), accept),
        decreases rows.len() - i,
    {
        proof {
            lemma_take_next(all, i as int);
        }
        if filter.accepts(&rows[i]) {
            let ghost before = out.deep_view();
            out.push(rows[i].clone());
            assert(out.deep_view() =~= before.push(all[i as int]));
        }
        i += 1;
    }
    assert(all.take(i as int) =~= all);
    out
}

fn lines_rejected(rows: &Vec<RecipeIngredientMac>, filter: &LineFilter) -> (out: Vec<
    RecipeIngredientMac,
>)
    ensures
        out.deep_view() == reject(rows.deep_view(), filter.accept()),
{
    let ghost all = rows.deep_view();
    let ghost accept = filter.accept();
    let mut out: Vec<RecipeIngredientMac> = Vec::new();
    let mut i: usize = 0;
    assert(out.deep_view() =~= reject(all.take(0), accept));
    while i < rows.len()
        invariant
            i <= rows.len(),
            all == rows.deep_view(),
            accept == filter.accept(),
            out.deep_view() == reject(all.take(i as int), accept),
        decreases rows.len() - i,
    {
        proof {
            lemma_take_next(all, i as int);
        }
        if !filter.accepts(&rows[i]) {
            let ghost before = out.deep_view();
            out.push(rows[i].clone());
            assert(out.deep_view() =~= before.push(all[i as int]));
        }
        i += 1;
    }
    assert(all.take(i as int) =~= all);
    out
}

fn with_line_quantity(
    rows: &Vec<RecipeIngredientMac>,
    recipe_id: i64,
    ingredient_id: i64,
    quantity: &String,
    now: i64,
) -> (out: Vec<RecipeIngredientMac>)
    ensures
        out.deep_view() == rewrite(
            rows.deep_view(),
            line_is(recipe_id as int, ingredient_id as int),
            requantified(quantity@, now as int),
        ),
{
    let ghost all = rows.deep_view();
    let ghost accept = line_is(recipe_id as int, ingredient_id as int);
    let ghost change = requantified(quantity@, now as int);
    let mut out: Vec<RecipeIngredientMac> = Vec::new();
    let mut i: usize = 0;
    assert(out.deep_view() =~= rewrite(all.take(0), accept, change));
    while i < rows.len()
        invariant
            i <= rows.len(),
            all == rows.deep_view(),
            accept == line_is(recipe_id as int, ingredient_id as int),
            change == requantified(quantity@, now as int),
            out.deep_view() == rewrite(all.take(i as int), accept, change),
        decreases rows.len() - i,
    {
        proof {
            lemma_take_next(all, i as int);
        }
        let ghost before = out.deep_view();
        if rows[i].recipe_id == recipe_id && rows[i].ingredient_id == ingredient_id {
            out.push(
                RecipeIngredientMac {
                    recipe_id: rows[i].recipe_id,
                    ingredient_id: rows[i].ingredient_id,
                    ingredient_name: rows[i].ingredient_name.clone(),
                    quantity: quantity.clone(),
                    cid: rows[i].cid,
                    ctime: rows[i].ctime,
                    mtime: now,
                },
            );
            assert(out.deep_view() =~= before.push(change(all[i as int])));
        } else {
            out.push(rows[i].clone());
            assert(out.deep_view() =~= before.push(all[i as int]));
        }
        i += 1;
    }
    assert(all.take(i as int) =~= all);
    out
}

fn lines_descending(rows: &Vec<RecipeIngredientMac>) -> (out: Vec<RecipeIngredientMac>)
    ensures
        out.deep_view() == descending(rows.deep_view(), line_recipe()),
{
    let ghost all = rows.deep_view();
    let ghost rank = line_recipe();
    let mut out: Vec<RecipeIngredientMac> = Vec::new();
    let mut i: usize = 0;
    assert(out.deep_view() =~= descending(all.take(0), rank));
    while i < rows.len()
        invariant
            i <= rows.len(),
            out.len() == i,
            all == rows.deep_view(),
            rank == line_recipe(),
            out.deep_view() == descending(all.take(i as int), rank),
        decreases rows.len() - i,
    {
        proof {
            lemma_take_next(all, i as int);
        }
        let ghost sorted = out.deep_view();
        let mut at = out.len();
        while at > 0 && out[at - 1].recipe_id < rows[i].recipe_id
            invariant
                at <= out.len(),
                sorted == out.deep_view(),
                all == rows.deep_view(),
                i < rows.len(),
                rank == line_recipe(),
                forall|j: int| at <= j < sorted.len() ==> rank(#[trigger] sorted[j]) < rank(
                    all[i as int],
                ),
            decreases at,
        {
            at -= 1;
        }
        proof {
            lemma_place_at(sorted, all[i as int], rank, at as int);
        }
        out.insert(at, rows[i].clone());
        assert(out.deep_view() =~= sorted.insert(at as int, all[i as int]));
        i += 1;
    }
    assert(all.take(i as int) =~= all);
    out
}

fn copy_tables(tables: &Tables) -> (copy: Tables)
    ensures
        copy@ == tables@,
{
    let ingredients = tables.ingredients.clone();
    let recipes = tables.recipes.clone();
    let lines = tables.lines.clone();
    assert(ingredients.deep_view() =~= tables.ingredients.deep_view());
    assert(recipes.deep_view() =~= tables.recipes.deep_view());
    assert(lines.deep_view() =~= tables.lines.deep_view());
    Tables { ingredients, recipes, lines }
}

fn done() -> (reply: Reply)
    ensures
        reply@ == crate::storage::done(),
{
    Reply::Done { last_insert_id: 0 }
}

impl Db {
    /// The invariant of the storage.
    pub open spec fn wf(&self) -> bool {
        self@.wf()
    }

    /// A storage without rows. The first ingredient and the first recipe get
    /// the identity `first_id`.
    pub fn new(first_id: u64) -> (db: Db)
        ensures
            db.wf(),
            db@ == DbView::empty(first_id as nat),
    {
        let db = Db {
            tables: Tables { ingredients: Vec::new(), recipes: Vec::new(), lines: Vec::new() },
            next_ingredient_id: first_id,
            next_recipe_id: first_id,
            clock: 0,
            saved: None,
        };
        assert(db@.rows.ingredients =~= Seq::empty());
        assert(db@.rows.recipes =~= Seq::empty());
        assert(db@.rows.lines =~= Seq::empty());
        db
    }

    /// Sets the time that is stamped on the rows written from now on.
    pub fn set_clock(&mut self, now: i64)
        requires
            old(self).wf(),
        ensures
            final(self).wf(),
            final(self)@ == (DbView { clock: now as int, ..old(self)@ }),
    {
        self.clock = now;
    }

    /// Runs one statement and answers it.
    pub fn execute(&mut self, statement: Statement) -> (reply: Reply)
        requires
            old(self).wf(),
        ensures
            final(self).wf(),
            (final(self)@, reply@) == old(self)@.execute(statement@),
    {
        proof {
            lemma_execute_wf(self@, statement@);
        }
        match statement {
            Statement::Begin => {
                if self.saved.is_some() {
                    Reply::Failed(String::from_str("transaction already open"))
                } else {
                    self.saved = Some(copy_tables(&self.tables));
                    done()
                }
            },
            Statement::Commit => {
                self.saved = None;
                done()
            },
            Statement::Rollback => {
                let saved = self.saved.take();
                match saved {
                    Some(tables) => {
                        self.tables = tables;
                    },
                    None => {},
                }
                done()
            },
            Statement::InsertIngredient { name } => {
                if self.next_ingredient_id > i64::MAX as u64 {
                    Reply::Failed(String::from_str("identity exhausted"))
                } else {
                    let id = self.next_ingredient_id;
                    let ghost before = self.tables.ingredients.deep_view();
                    let row = Ingredient { id: id as i64, name };
                    self.tables.ingredients.push(row);
                    self.next_ingredient_id = id + 1;
                    assert(self.tables.ingredients.deep_view() =~= before.push(row@));
                    Reply::Done { last_insert_id: id }
                }
            },
            Statement::SelectIngredient { id } => {
                match find_ingredient(&self.tables.ingredients, id) {
                    Some(row) => Reply::Ingredient(row),
                    None => Reply::RowNotFound,
                }
            },
            Statement::UpdateIngredient { id, name } => {
                self.tables.ingredients = with_ingredient_name(&self.tables.ingredients, id, &name);
                done()
            },
            Statement::DeleteIngredient { id } => {
                self.tables.ingredients = without_ingredient(&self.tables.ingredients, id);
                done()
            },
            Statement::ListIngredients => Reply::Ingredients(
                ingredients_reversed(&self.tables.ingredients),
            ),
            Statement::InsertRecipe { title, cid } => {
                if self.next_recipe_id > i64::MAX as u64 {
                    Reply::Failed(String::from_str("identity exhausted"))
                } else {
                    let id = self.next_recipe_id;
                    let ghost before = self.tables.recipes.deep_view();
                    let row = Recipe {
                        id: id as i64,
                        title,
                        cid,
                        ctime: self.clock,
                        mtime: self.clock,
                    };
                    self.tables.recipes.push(row);
                    self.next_recipe_id = id + 1;
                    assert(self.tables.recipes.deep_view() =~= before.push(row@));
                    Reply::Done { last_insert_id: id }
                }
            },
            Statement::SelectRecipe { id } => {
                match find_recipe(&self.tables.recipes, id) {
                    Some(row) => Reply::Recipe(row),
                    None => Reply::RowNotFound,
                }
            },
            Statement::UpdateRecipe { id, title, cid } => {
                self.tables.recipes = with_recipe_fields(
                    &self.tables.recipes,
                    id,
                    &title,
                    cid,
                    self.clock,
                );
                done()
            },
            Statement::DeleteRecipe { id } => {
                self.tables.recipes = without_recipe(&self.tables.recipes, id);
                done()
            },
            Statement::ListRecipes => Reply::Recipes(recipes_reversed(&self.tables.recipes)),
            Statement::InsertLine { recipe_id, ingredient_id, ingredient_name, quantity, cid } => {
                match find_line(&self.tables.lines, recipe_id, ingredient_id) {
                    Some(_) => Reply::Failed(String::from_str("duplicate key")),
                    None => {
                        let ghost before = self.tables.lines.deep_view();
                        let row = RecipeIngredientMac {
                            recipe_id,
                            ingredient_id,
                            ingredient_name,
                            quantity,
                            cid,
                            ctime: self.clock,
                            mtime: self.clock,
                        };
                        self.tables.lines.push(row);
                        assert(self.tables.lines.deep_view() =~= before.push(row@));
                        done()
                    },
                }
            },
            Statement::SelectLine { recipe_id, ingredient_id } => {
                match find_line(&self.tables.lines, recipe_id, ingredient_id) {
                    Some(row) => Reply::Line(row),
                    None => Reply::RowNotFound,
                }
            },
            Statement::UpdateLine { recipe_id, ingredient_id, quantity } => {
                self.tables.lines = with_line_quantity(
                    &self.tables.lines,
                    recipe_id,
                    ingredient_id,
                    &quantity,
                    self.clock,
                );
                done()
            },
            Statement::DeleteLine { recipe_id, ingredient_id } => {
                self.tables.lines = lines_rejected(
                    &self.tables.lines,
                    &LineFilter::Key(recipe_id, ingredient_id),
                );
                done()
            },
            Statement::ListLines => Reply::Lines(lines_descending(&self.tables.lines)),
            Statement::ListLinesByRecipe { recipe_id } => Reply::Lines(
                lines_kept(&self.tables.lines, &LineFilter::Recipe(recipe_id)),
            ),
            Statement::DeleteLinesByRecipe { recipe_id } => {
                self.tables.lines = lines_rejected(
                    &self.tables.lines,
                    &LineFilter::Recipe(recipe_id),
                );
                done()
            },
        }
    }
}

} // verus!
