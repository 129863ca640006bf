use vstd::prelude::*;
use crate::models::{catalog, get_available_models, model_file_of, pair_views, DEFAULT_MODEL};

verus! {

/// What the first-run setup reports.
#[derive(Debug)]
pub struct SetupStatus {
    pub models_initialized: bool,
    pub default_model_installed: bool,
    pub available_models: Vec<String>,
    pub installed_models: Vec<String>,
}

pub open spec fn string_views(v: Seq<String>) -> Seq<Seq<char>> {
    v.map_values(|s: String| s@)
}

/// `found` appended to `listed`, each name only when it is not there yet.
pub open spec fn add_unique(listed: Seq<Seq<char>>, found: Seq<Seq<char>>) -> Seq<Seq<char>>
    decreases found.len(),
{
    if found.len() == 0 {
        listed
    } else {
        let before = add_unique(listed, found.drop_last());
        if before.contains(found.last()) {
            before
        } else {
            before.push(found.last())
        }
    }
}

/// The names in the catalog.
pub open spec fn catalog_names() -> Seq<Seq<char>> {
    catalog().map_values(|p: (Seq<char>, Seq<char>)| p.0)
}

/// The names of the downloadable models.
pub fn available_model_names() -> (r: Vec<String>)
    ensures
        string_views(r@) == catalog_names(),
{
    let models = get_available_models();
    let mut names: Vec<String> = Vec::new();
    let mut i: usize = 0;
    assert(pair_views(models@).len() == models@.len());
    while i < models.len()
        invariant
            i <= models@.len() == catalog().len(),
            pair_views(models@) == catalog(),
            string_views(names@) == catalog_names().take(i as int),
        decreases models@.len() - i,
    {
        assert(pair_views(models@)[i as int] == (models@[i as int].0@, models@[i as int].1@));
        assert(catalog_names()[i as int] == models@[i as int].0@);
        let ghost before = names@;
        names.push(String::from_str(models[i].0));
        assert(string_views(names@) =~= string_views(before).push(models@[i as int].0@));
        i = i + 1;
        assert(string_views(names@) =~= catalog_names().take(i as int));
    }
    assert(catalog_names().take(i as int) =~= catalog_names());
    names
}

fn contains_name(names: &Vec<String>, name: &String) -> (r: bool)
    ensures
        r == string_views(names@).contains(name@),
{
    let mut i: usize = 0;
    while i < names.len()
        invariant
            i <= names@.len(),
            forall|j: int| 0 <= j < i ==> names@[j]@ != name@,
        decreases names@.len() - i,
    {
        if names[i] == *name {
            assert(string_views(names@)[i as int] == name@);
            return true;
        }
        i = i + 1;
    }
    assert forall|j: int| 0 <= j < string_views(names@).len() implies string_views(names@)[j]
        != name@ by {
        assert(string_views(names@)[j] == names@[j]@);
    }
    false
}

/// The installed models: those found in the project directory, then the model
/// files found in the models directory that are not listed yet.
pub fn installed_models(in_project: Vec<String>, in_models_dir: &Vec<String>) -> (r: Vec<String>)
    ensures
        string_views(r@) == add_unique(string_views(in_project@), string_views(in_models_dir@)),
{
    let mut listed = in_project;
    let ghost start = string_views(listed@);
    let mut i: usize = 0;
    while i < in_models_dir.len()
        invariant
            i <= in_models_dir@.len(),
            string_views(listed@) == add_unique(start, string_views(in_models_dir@).take(i as int)),
        decreases in_models_dir@.len() - i,
    {
        let ghost found = string_views(in_models_dir@).take(i + 1);
        assert(found.drop_last() =~= string_views(in_models_dir@).take(i as int));
        assert(found.last() == in_models_dir@[i as int]@);
        if !contains_name(&listed, &in_models_dir[i]) {
            let ghost before = listed@;
            listed.push(in_models_dir[i].clone());
            assert(string_views(listed@) =~= string_views(before).push(in_models_dir@[i as int]@));
        }
        i = i + 1;
    }
    assert(string_views(in_models_dir@).take(i as int) =~= string_views(in_models_dir@));
    listed
}

/// The file name of the model installed by default.
pub fn default_model_file() -> (r: String)
    ensures
        r@ == model_file_of(DEFAULT_MODEL@),
{
    crate::models::model_file_name(DEFAULT_MODEL)
}

} // verus!
