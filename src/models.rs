use vstd::prelude::*;
use crate::postprocess::{lower_of, to_lowercase};

verus! {

/// The model installed when none is chosen.
pub const DEFAULT_MODEL: &'static str = "base";

/// The sizes of speech-recognition model the application can load.
#[derive(Clone, Copy, Debug, PartialEq, Eq, Structural)]
pub enum ModelSize {
    Tiny,
    Base,
    Small,
    Medium,
    Large,
}

/// The file a model of each size is stored in.
pub open spec fn filename_of(m: ModelSize) -> Seq<char> {
    match m {
        ModelSize::Tiny => "ggml-tiny.bin"@,
        ModelSize::Base => "ggml-base.bin"@,
        ModelSize::Small => "ggml-small.bin"@,
        ModelSize::Medium => "ggml-medium.bin"@,
        ModelSize::Large => "ggml-large-v3.bin"@,
    }
}

/// The size a lowercase name stands for.
pub open spec fn model_named(s: Seq<char>) -> Option<ModelSize> {
    if s == "tiny"@ {
        Some(ModelSize::Tiny)
    } else if s == "base"@ {
        Some(ModelSize::Base)
    } else if s == "small"@ {
        Some(ModelSize::Small)
    } else if s == "medium"@ {
        Some(ModelSize::Medium)
    } else if s == "large"@ {
        Some(ModelSize::Large)
    } else {
        None
    }
}

impl ModelSize {
    /// The name of the model's file.
    pub fn filename(&self) -> (r: &'static str)
        ensures
            r@ == filename_of(*self),
    {
        match self {
            ModelSize::Tiny => "ggml-tiny.bin",
            ModelSize::Base => "ggml-base.bin",
            ModelSize::Small => "ggml-small.bin",
            ModelSize::Medium => "ggml-medium.bin",
            ModelSize::Large => "ggml-large-v3.bin",
        }
    }

    /// The size named by an already lowercase name.
    pub fn from_lowercase(s: &str) -> (r: Option<ModelSize>)
        ensures
            r == model_named(s@),
    {
        let name = String::from_str(s);
        if name == String::from_str("tiny") {
            Some(ModelSize::Tiny)
        } else if name == String::from_str("base") {
            Some(ModelSize::Base)
        } else if name == String::from_str("small") {
            Some(ModelSize::Small)
        } else if name == String::from_str("medium") {
            Some(ModelSize::Medium)
        } else if name == String::from_str("large") {
            Some(ModelSize::Large)
        } else {
            None
        }
    }

    /// The size named by `s`, in any letter case.
    pub fn from_str(s: &str) -> (r: Option<ModelSize>)
        ensures
            r == model_named(lower_of(s@)),
    {
        let lowered = to_lowercase(s);
        ModelSize::from_lowercase(lowered.as_str())
    }
}

/// The models that can be downloaded: name and address.
pub open spec fn catalog() -> Seq<(Seq<char>, Seq<char>)> {
    seq![
        ("tiny"@, "https://huggingface.co/ggerganov/whisper.cpp/resolve/main/ggml-tiny.bin"@),
        ("base"@, "https://huggingface.co/ggerganov/whisper.cpp/resolve/main/ggml-base.bin"@),
        ("small"@, "https://huggingface.co/ggerganov/whisper.cpp/resolve/main/ggml-small.bin"@),
    ]
}

pub open spec fn pair_views(v: Seq<(&'static str, &'static str)>) -> Seq<(Seq<char>, Seq<char>)> {
    v.map_values(|p: (&'static str, &'static str)| (p.0@, p.1@))
}

/// The address of a model in the catalog, looked up by name.
pub open spec fn catalog_url(name: Seq<char>) -> Option<Seq<char>> {
    if name == catalog()[0].0 {
        Some(catalog()[0].1)
    } else if name == catalog()[1].0 {
        Some(catalog()[1].1)
    } else if name == catalog()[2].0 {
        Some(catalog()[2].1)
    } else {
        None
    }
}

/// The downloadable models, as name and address.
pub fn get_available_models() -> (r: Vec<(&'static str, &'static str)>)
    ensures
        pair_views(r@) == catalog(),
{
    let r = vec![
        ("tiny", "https://huggingface.co/ggerganov/whisper.cpp/resolve/main/ggml-tiny.bin"),
        ("base", "https://huggingface.co/ggerganov/whisper.cpp/resolve/main/ggml-base.bin"),
        ("small", "https://huggingface.co/ggerganov/whisper.cpp/resolve/main/ggml-small.bin"),
    ];
    assert(pair_views(r@) =~= catalog());
    r
}

/// The address a model of the catalog is downloaded from.
pub fn model_url(name: &str) -> (r: Option<&'static str>)
    ensures
        match r {
            Some(u) => catalog_url(name@) == Some(u@),
            None => catalog_url(name@) is None,
        },
{
    let models = get_available_models();
    let wanted = String::from_str(name);
    assert(pair_views(models@).len() == models@.len());
    assert(catalog().len() == 3);
    let mut i: usize = 0;
    while i < models.len()
        invariant
            i <= models@.len() == 3,
            pair_views(models@) == catalog(),
            wanted@ == name@,
            forall|j: int| 0 <= j < i ==> catalog()[j].0 != name@,
        decreases models@.len() - i,
    {
        assert(pair_views(models@)[i as int] == (models@[i as int].0@, models@[i as int].1@));
        if String::from_str(models[i].0) == wanted {
            return Some(models[i].1);
        }
        i = i + 1;
    }
    None
}

/// The file name `ggml-<name>.bin` of a model.
pub open spec fn model_file_of(name: Seq<char>) -> Seq<char> {
    "ggml-"@ + name + ".bin"@
}

/// The file name of the model called `name`.
pub fn model_file_name(name: &str) -> (r: String)
    ensures
        r@ == model_file_of(name@),
{
    let r = String::from_str("ggml-");
    let r = r.concat(name);
    r.concat(".bin")
}

/// Holds the loaded recognition model, if any, for the life of the process.
pub struct ModelStore<C> {
    context: Option<C>,
}

impl<C> ModelStore<C> {
    /// The loaded model.
    pub closed spec fn slot(&self) -> Option<C> {
        self.context
    }

    /// An empty store.
    pub fn new() -> (r: ModelStore<C>)
        ensures
            r.slot() is None,
    {
        ModelStore { context: None }
    }

    pub fn is_loaded(&self) -> (r: bool)
        ensures
            r == self.slot() is Some,
    {
        self.context.is_some()
    }

    /// The loaded model, to run recognition with.
    pub fn context(&self) -> (r: Option<&C>)
        ensures
            match r {
                Some(c) => self.slot() == Some(*c),
                None => self.slot() is None,
            },
    {
        match &self.context {
            Some(c) => Some(c),
            None => None,
        }
    }
}

/// Loads the model of the given size with `load` and keeps it, unless a model
/// is loaded already, in which case nothing is loaded again. A failed load
/// leaves the store empty and passes its message on.
pub fn initialize_model<C, F: FnOnce(ModelSize) -> Result<C, String>>(
    store: &mut ModelStore<C>,
    model_size: ModelSize,
    load: F,
) -> (r: Result<(), String>)
    requires
        old(store).slot() is None ==> load.requires((model_size,)),
    ensures
        old(store).slot() is Some ==> r is Ok && final(store).slot() == old(store).slot(),
        old(store).slot() is None ==> exists|res: Result<C, String>|
            #[trigger] load.ensures((model_size,), res) && match res {
                Ok(c) => r is Ok && final(store).slot() == Some(c),
                Err(e) => r == Err::<(), String>(e) && final(store).slot() is None,
            },
{
    if store.context.is_some() {
        return Ok(());
    }
    match load(model_size) {
        Ok(c) => {
            store.context = Some(c);
            Ok(())
        },
        Err(e) => Err(e),
    }
}

/// Prepares recognition with a model of the given size; see `initialize_model`.
pub fn init<C, F: FnOnce(ModelSize) -> Result<C, String>>(
    store: &mut ModelStore<C>,
    model_size: ModelSize,
    load: F,
) -> (r: Result<(), String>)
    requires
        old(store).slot() is None ==> load.requires((model_size,)),
    ensures
        old(store).slot() is Some ==> r is Ok && final(store).slot() == old(store).slot(),
        old(store).slot() is None ==> exists|res: Result<C, String>|
            #[trigger] load.ensures((model_size,), res) && match res {
                Ok(c) => r is Ok && final(store).slot() == Some(c),
                Err(e) => r == Err::<(), String>(e) && final(store).slot() is None,
            },
{
    initialize_model(store, model_size, load)
}

} // verus!
