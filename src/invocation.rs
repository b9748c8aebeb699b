use vstd::prelude::*;

use crate::config::{Config, ConfigView, OptionPairs};

verus! {

broadcast use vstd::string::group_string_axioms;

/// The two build profiles that the configure step accepts.
#[derive(Clone, Copy, PartialEq, Eq, Structural, Debug)]
pub enum Profile {
    Release,
    Debug,
}

/// The profile that a host's profile name stands for, if any.
pub open spec fn profile_named(name: Seq<char>) -> Option<Profile> {
    if name == "release"@ {
        Some(Profile::Release)
    } else if name == "debug"@ {
        Some(Profile::Debug)
    } else {
        None
    }
}

impl Profile {
    /// The name handed to the configure step's `--buildtype`.
    pub open spec fn spec_name(self) -> Seq<char> {
        match self {
            Profile::Release => "release"@,
            Profile::Debug => "debug"@,
        }
    }

    /// Reads a host's profile name: `release` and `debug` are the only names
    /// accepted; every other name gives `None`, never a default.
    pub fn from_name(name: &str) -> (r: Option<Profile>)
        ensures
            r == profile_named(name@),
    {
        let given = name.to_owned();
        if given == "release".to_owned() {
            Some(Profile::Release)
        } else if given == "debug".to_owned() {
            Some(Profile::Debug)
        } else {
            None
        }
    }

    /// The name handed to the configure step's `--buildtype`.
    pub fn name(&self) -> (r: String)
        ensures
            r@ == self.spec_name(),
    {
        match self {
            Profile::Release => "release".to_owned(),
            Profile::Debug => "debug".to_owned(),
        }
    }
}

/// The views of a list of strings.
pub open spec fn strings_view(v: Seq<String>) -> Seq<Seq<char>> {
    v.map_values(|s: String| s@)
}

/// One option as a configure flag: `-D<key>=<value>`, both unaltered.
pub open spec fn define_flag(key: Seq<char>, value: Seq<char>) -> Seq<char> {
    "-D"@ + key + "="@ + value
}

/// One `-D` flag for each option, in the options' order.
pub open spec fn option_flags(options: Option<OptionPairs>) -> Seq<Seq<char>> {
    match options {
        Some(pairs) => pairs.map_values(|p: (Seq<char>, Seq<char>)| define_flag(p.0, p.1)),
        None => Seq::empty(),
    }
}

/// `--native-file <path>` when a native file is set, nothing otherwise.
pub open spec fn native_file_args(native_file: Option<Seq<char>>) -> Seq<Seq<char>> {
    match native_file {
        Some(path) => seq!["--native-file"@, path],
        None => Seq::empty(),
    }
}

/// The configure step's arguments: `setup --buildtype <profile>`, then the
/// native-file pair, then the option flags, then the build directory.
pub open spec fn configure_args_of(profile: Profile, build_dir: Seq<char>, config: ConfigView) -> Seq<
    Seq<char>,
> {
    seq!["setup"@, "--buildtype"@, profile.spec_name()] + native_file_args(config.native_file)
        + option_flags(config.options) + seq![build_dir]
}

/// The build step's arguments: `install` alone when installing, else none.
pub open spec fn build_args_of(install: bool) -> Seq<Seq<char>> {
    if install {
        seq!["install"@]
    } else {
        Seq::empty()
    }
}

/// Formats one option as `-D<key>=<value>`.
pub fn define_flag_for(key: &str, value: &str) -> (r: String)
    ensures
        r@ == define_flag(key@, value@),
{
    let mut flag = "-D".to_owned();
    flag.append(key);
    flag.append("=");
    flag.append(value);
    flag
}

/// Assembles the configure step's argument list for a build directory.
pub fn configure_args(profile: Profile, build_dir: &str, config: &Config) -> (r: Vec<String>)
    ensures
        strings_view(r@) == configure_args_of(profile, build_dir@, config@),
{
    let mut args: Vec<String> = Vec::new();
    args.push("setup".to_owned());
    args.push("--buildtype".to_owned());
    args.push(profile.name());
    match &config.native_file {
        Some(path) => {
            args.push("--native-file".to_owned());
            args.push(path.clone());
        },
        None => {},
    }
    let ghost prefix = strings_view(args@);
    proof {
        assert(prefix =~= seq!["setup"@, "--buildtype"@, profile.spec_name()] + native_file_args(
            config@.native_file,
        ));
    }
    match &config.options {
        Some(options) => {
            let ghost flags = option_flags(config@.options);
            let mut i: usize = 0;
            while i < options.len()
                invariant
                    i <= options@.len(),
                    flags == option_flags(config@.options),
                    config@.options == Some(crate::config::owned_pairs_view(options@)),
                    strings_view(args@) == prefix + flags.take(i as int),
                decreases options@.len() - i,
            {
                let flag = define_flag_for(options[i].0.as_str(), options[i].1.as_str());
                let ghost before = args@;
                args.push(flag);
                proof {
                    assert(flags[i as int] == define_flag(options@[i as int].0@, options@[i as int].1@));
                    assert(strings_view(args@) =~= strings_view(before).push(flag@));
                    assert(flags.take(i + 1) =~= flags.take(i as int).push(flags[i as int]));
                    assert(strings_view(args@) =~= prefix + flags.take(i + 1));
                }
                i = i + 1;
            }
            proof {
                assert(flags.take(i as int) =~= flags);
            }
        },
        None => {
            assert(strings_view(args@) =~= prefix + option_flags(config@.options));
        },
    }
    args.push(build_dir.to_owned());
    proof {
        assert(strings_view(args@) =~= configure_args_of(profile, build_dir@, config@));
    }
    args
}

/// The build step's argument list: `install` alone when installing.
pub fn build_args(install: bool) -> (r: Vec<String>)
    ensures
        strings_view(r@) == build_args_of(install),
        install ==> r@.len() == 1 && r@[0]@ == "install"@,
        !install ==> r@.len() == 0,
{
    let mut args: Vec<String> = Vec::new();
    if install {
        args.push("install".to_owned());
    }
    proof {
        assert(strings_view(args@) =~= build_args_of(install));
    }
    args
}

/// Leaving the options unset and setting them to no pairs give the same
/// configure arguments: options only ever add flags.
pub proof fn lemma_unset_options_as_empty(profile: Profile, build_dir: Seq<char>, config: ConfigView)
    ensures
        configure_args_of(profile, build_dir, ConfigView { options: None, ..config })
            == configure_args_of(
            profile,
            build_dir,
            ConfigView { options: Some(Seq::empty()), ..config },
        ),
{
    let with_empty = ConfigView { options: Some(Seq::<(Seq<char>, Seq<char>)>::empty()), ..config };
    assert(option_flags(with_empty.options) =~= Seq::empty());
}

/// The configure arguments hold one `-D<key>=<value>` flag for each of the
/// `n` options, each key and value reproduced unaltered, and no other
/// arguments but the fixed prefix, the native-file pair and the build
/// directory.
pub proof fn lemma_one_flag_per_option(profile: Profile, build_dir: Seq<char>, config: ConfigView)
    ensures
        ({
            let args = configure_args_of(profile, build_dir, config);
            let pairs = match config.options {
                Some(p) => p,
                None => Seq::empty(),
            };
            let k = native_file_args(config.native_file).len() as int;
            &&& args.len() == 4 + k + pairs.len()
            &&& forall|i: int|
                0 <= i < pairs.len() ==> #[trigger] args[3 + k + i] == define_flag(
                    pairs[i].0,
                    pairs[i].1,
                )
            &&& args.subrange(0, 3) == seq!["setup"@, "--buildtype"@, profile.spec_name()]
            &&& args.subrange(3, 3 + k) == native_file_args(config.native_file)
            &&& args.last() == build_dir
        }),
{
    let args = configure_args_of(profile, build_dir, config);
    let k = native_file_args(config.native_file).len() as int;
    assert(args.subrange(0, 3) =~= seq!["setup"@, "--buildtype"@, profile.spec_name()]);
    assert(args.subrange(3, 3 + k) =~= native_file_args(config.native_file));
}

/// No option flag is the token `--native-file`.
proof fn lemma_flag_is_not_native_file(key: Seq<char>, value: Seq<char>)
    ensures
        define_flag(key, value) != "--native-file"@,
{
    reveal_strlit("-D");
    reveal_strlit("--native-file");
    assert(define_flag(key, value)[1] == 'D');
    assert("--native-file"@[1] == '-');
}

/// No fixed argument is the token `--native-file`.
proof fn lemma_fixed_args_are_not_native_file(profile: Profile)
    ensures
        "setup"@ != "--native-file"@,
        "--buildtype"@ != "--native-file"@,
        profile.spec_name() != "--native-file"@,
{
    reveal_strlit("--native-file");
    reveal_strlit("setup");
    reveal_strlit("--buildtype");
    reveal_strlit("release");
    reveal_strlit("debug");
    assert("--buildtype"@[2] != "--native-file"@[2]);
}

/// A native file set yields `--native-file <path>` as two adjacent
/// arguments, the path unaltered; none set yields no `--native-file` token
/// ahead of the build directory.
pub proof fn lemma_native_file_pair(profile: Profile, build_dir: Seq<char>, config: ConfigView)
    ensures
        ({
            let args = configure_args_of(profile, build_dir, config);
            match config.native_file {
                Some(path) => args[3] == "--native-file"@ && args[4] == path,
                None => forall|i: int| 0 <= i < args.len() - 1 ==> #[trigger] args[i] != "--native-file"@,
            }
        }),
{
    let args = configure_args_of(profile, build_dir, config);
    lemma_one_flag_per_option(profile, build_dir, config);
    if config.native_file is None {
        let pairs = match config.options {
            Some(p) => p,
            None => Seq::empty(),
        };
        assert forall|i: int| 0 <= i < args.len() - 1 implies #[trigger] args[i] != "--native-file"@ by {
            if i < 3 {
                lemma_fixed_args_are_not_native_file(profile);
                assert(args[i] == args.subrange(0, 3)[i]);
            } else {
                let j = i - 3;
                assert(args[3 + 0 + j] == define_flag(pairs[j].0, pairs[j].1));
                lemma_flag_is_not_native_file(pairs[j].0, pairs[j].1);
            }
        }
    }
}

} // verus!
