use vstd::prelude::*;

verus! {

/// A key/value pair of build options, as views.
pub type OptionPairs = Seq<(Seq<char>, Seq<char>)>;

/// No two pairs share a key.
pub open spec fn keys_unique(pairs: OptionPairs) -> bool {
    forall|i: int, j: int| 0 <= i < j < pairs.len() ==> pairs[i].0 != pairs[j].0
}

/// The view of owned option pairs.
pub open spec fn owned_pairs_view(pairs: Seq<(String, String)>) -> OptionPairs {
    pairs.map_values(|p: (String, String)| (p.0@, p.1@))
}

/// The view of borrowed option pairs.
pub open spec fn borrowed_pairs_view<'a>(pairs: Seq<(&'a str, &'a str)>) -> OptionPairs {
    pairs.map_values(|p: (&'a str, &'a str)| (p.0@, p.1@))
}

/// What a configuration says, as mathematical values.
pub struct ConfigView {
    pub options: Option<OptionPairs>,
    pub native_file: Option<Seq<char>>,
    pub install: bool,
}

/// The configuration of one build: options handed to the configure step as
/// `-D<key>=<value>`, an optional native-toolchain file, and whether the
/// build step also installs.
#[derive(Clone)]
pub struct Config {
    pub options: Option<Vec<(String, String)>>,
    pub native_file: Option<String>,
    pub install: bool,
}

impl View for Config {
    type V = ConfigView;

    open spec fn view(&self) -> ConfigView {
        ConfigView {
            options: match self.options {
                Some(o) => Some(owned_pairs_view(o@)),
                None => None,
            },
            native_file: match self.native_file {
                Some(p) => Some(p@),
                None => None,
            },
            install: self.install,
        }
    }
}

impl Config {
    /// The options, when set, have unique keys.
    pub open spec fn wf(&self) -> bool {
        self@.options is Some ==> keys_unique(self@.options->0)
    }

    /// A configuration with no options, no native file and no install step.
    pub fn new() -> (r: Config)
        ensures
            r@ == (ConfigView { options: None, native_file: None, install: false }),
            r.wf(),
    {
        Config { options: None, native_file: None, install: false }
    }

    /// Sets whether the build step installs its outputs.
    pub fn install(self, val: bool) -> (r: Self)
        ensures
            r@ == (ConfigView { install: val, ..self@ }),
            self.wf() ==> r.wf(),
    {
        let mut config = self;
        config.install = val;
        config
    }

    /// Replaces the options wholesale by owned copies of the given pairs.
    pub fn options<'a>(self, options: Vec<(&'a str, &'a str)>) -> (r: Self)
        requires
            keys_unique(borrowed_pairs_view(options@)),
        ensures
            r@ == (ConfigView { options: Some(borrowed_pairs_view(options@)), ..self@ }),
            r.wf(),
    {
        let mut owned: Vec<(String, String)> = Vec::new();
        let mut i: usize = 0;
        while i < options.len()
            invariant
                i <= options@.len(),
                owned@.len() == i,
                forall|j: int|
                    0 <= j < i ==> (#[trigger] owned@[j]).0@ == options@[j].0@ && owned@[j].1@
                        == options@[j].1@,
            decreases options@.len() - i,
        {
            let (key, value) = options[i];
            owned.push((key.to_owned(), value.to_owned()));
            i = i + 1;
        }
        proof {
            assert(owned_pairs_view(owned@) =~= borrowed_pairs_view(options@));
        }
        let mut config = self;
        config.options = Some(owned);
        config
    }

    /// Stores a copy of the native-toolchain file's path.
    pub fn native_file(self, native_file: &str) -> (r: Self)
        ensures
            r@ == (ConfigView { native_file: Some(native_file@), ..self@ }),
            self.wf() ==> r.wf(),
    {
        let mut config = self;
        config.native_file = Some(native_file.to_owned());
        config
    }
}

} // verus!
