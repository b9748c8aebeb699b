use meson_next::invocation::Profile;
use meson_next::orchestration::{Action, Orchestrator, Stage};
use meson_next::Config;

fn strs(v: &[String]) -> Vec<&str> {
    v.iter().map(|s| s.as_str()).collect()
}

#[test]
fn fresh_directory_configures_then_builds() {
    let c = Config::new().options(vec![("opt", "val")]);
    let mut o = Orchestrator::new("clib", "out/build", c, Profile::Debug);
    match o.start(false) {
        Action::Configure { dir, args } => {
            assert_eq!(dir, "clib");
            assert_eq!(
                strs(&args),
                vec!["setup", "--buildtype", "debug", "-Dopt=val", "out/build"]
            );
        }
        _ => panic!("expected the configure command"),
    }
    assert_eq!(o.stage, Stage::Configuring);
    match o.command_exited(true) {
        Action::Build { dir, args } => {
            assert_eq!(dir, "out/build");
            assert!(args.is_empty());
        }
        _ => panic!("expected the build command"),
    }
    assert!(matches!(o.command_exited(true), Action::Finish));
    assert_eq!(o.stage, Stage::Done);
}

#[test]
fn configured_directory_skips_configure_and_installs() {
    let c = Config::new().install(true).options(vec![("ignored", "1")]);
    let mut o = Orchestrator::new("clib", "out/build", c, Profile::Release);
    match o.start(true) {
        Action::Build { dir, args } => {
            assert_eq!(dir, "out/build");
            assert_eq!(strs(&args), vec!["install"]);
        }
        _ => panic!("expected the build command"),
    }
    assert_eq!(o.stage, Stage::Building);
    assert!(matches!(o.command_exited(true), Action::Finish));
}

#[test]
fn failed_configure_aborts_before_build() {
    let mut o = Orchestrator::new("clib", "out/build", Config::new(), Profile::Debug);
    assert!(matches!(o.start(false), Action::Configure { .. }));
    assert!(matches!(o.command_exited(false), Action::Abort));
    assert_eq!(o.stage, Stage::Aborted);
}

#[test]
fn failed_build_aborts() {
    let mut o = Orchestrator::new("clib", "out/build", Config::new(), Profile::Debug);
    assert!(matches!(o.start(true), Action::Build { .. }));
    assert!(matches!(o.command_exited(false), Action::Abort));
    assert_eq!(o.stage, Stage::Aborted);
}
