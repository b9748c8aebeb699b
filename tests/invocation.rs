use meson_next::invocation::{build_args, configure_args, define_flag_for, Profile};
use meson_next::Config;

fn strs(v: &[String]) -> Vec<&str> {
    v.iter().map(|s| s.as_str()).collect()
}

#[test]
fn profile_names_map_to_themselves() {
    assert_eq!(Profile::from_name("release"), Some(Profile::Release));
    assert_eq!(Profile::from_name("debug"), Some(Profile::Debug));
    assert_eq!(Profile::Release.name(), "release");
    assert_eq!(Profile::Debug.name(), "debug");
}

#[test]
fn other_profile_names_are_rejected() {
    assert_eq!(Profile::from_name(""), None);
    assert_eq!(Profile::from_name("Release"), None);
    assert_eq!(Profile::from_name("bench"), None);
    assert_eq!(Profile::from_name("debug "), None);
}

#[test]
fn define_flag_keeps_key_and_value() {
    assert_eq!(define_flag_for("opt", "val"), "-Dopt=val");
    assert_eq!(define_flag_for("a=b", "x y"), "-Da=b=x y");
    assert_eq!(define_flag_for("", ""), "-D=");
}

#[test]
fn configure_args_without_options() {
    let args = configure_args(Profile::Release, "out/build", &Config::new());
    assert_eq!(strs(&args), vec!["setup", "--buildtype", "release", "out/build"]);
}

#[test]
fn unset_options_match_empty_options() {
    let unset = configure_args(Profile::Debug, "b", &Config::new());
    let empty = configure_args(Profile::Debug, "b", &Config::new().options(vec![]));
    assert_eq!(unset, empty);
}

#[test]
fn one_flag_per_option() {
    let c = Config::new().options(vec![("a", "1"), ("b", "2"), ("c", "x y")]);
    let args = configure_args(Profile::Debug, "b", &c);
    assert_eq!(
        strs(&args),
        vec!["setup", "--buildtype", "debug", "-Da=1", "-Db=2", "-Dc=x y", "b"]
    );
    assert_eq!(args.iter().filter(|a| a.starts_with("-D")).count(), 3);
}

#[test]
fn native_file_pair_is_adjacent() {
    let c = Config::new().native_file("native.ini").options(vec![("k", "v")]);
    let args = configure_args(Profile::Release, "b", &c);
    assert_eq!(
        strs(&args),
        vec!["setup", "--buildtype", "release", "--native-file", "native.ini", "-Dk=v", "b"]
    );
}

#[test]
fn no_native_file_no_flag() {
    let c = Config::new().options(vec![("k", "v")]);
    let args = configure_args(Profile::Release, "b", &c);
    assert!(!args.iter().any(|a| a == "--native-file"));
}

#[test]
fn build_args_follow_install() {
    assert_eq!(build_args(true), vec![String::from("install")]);
    assert!(build_args(false).is_empty());
}
