use vstd::prelude::*;

use crate::config::Config;
use crate::invocation::{
    build_args, build_args_of, configure_args, configure_args_of, strings_view, Profile,
};

verus! {

/// Where one run stands.
#[derive(Clone, Copy, PartialEq, Eq, Structural, Debug)]
pub enum Stage {
    /// Nothing has been looked at yet.
    Start,
    /// The configure command is running.
    Configuring,
    /// The build command is running.
    Building,
    /// Both needed commands succeeded.
    Done,
    /// A command failed; nothing more runs.
    Aborted,
}

/// What a run does next, without its arguments.
#[derive(Clone, Copy, PartialEq, Eq, Structural, Debug)]
pub enum Step {
    Configure,
    Build,
    Finish,
    Abort,
}

/// The stage and step that follow from looking at whether the build
/// directory already holds the generated manifest.
pub open spec fn after_inspection(configured: bool) -> (Stage, Step) {
    if configured {
        (Stage::Building, Step::Build)
    } else {
        (Stage::Configuring, Step::Configure)
    }
}

/// The stage and step that follow when the running command exits.
pub open spec fn after_exit(stage: Stage, success: bool) -> (Stage, Step) {
    if !success {
        (Stage::Aborted, Step::Abort)
    } else if stage == Stage::Configuring {
        (Stage::Building, Step::Build)
    } else {
        (Stage::Done, Step::Finish)
    }
}

/// A command is running in this stage.
pub open spec fn is_running(stage: Stage) -> bool {
    stage == Stage::Configuring || stage == Stage::Building
}

/// The steps taken from `stage` as the running commands exit with the given
/// outcomes, until the run ends or the outcomes run out.
pub open spec fn steps_from(stage: Stage, exits: Seq<bool>) -> Seq<Step>
    decreases exits.len(),
{
    if exits.len() == 0 || !is_running(stage) {
        Seq::empty()
    } else {
        let (next, step) = after_exit(stage, exits[0]);
        seq![step] + steps_from(next, exits.drop_first())
    }
}

/// Every step of a run: the one chosen on inspection, then those chosen as
/// the commands exit.
pub open spec fn run_steps(configured: bool, exits: Seq<bool>) -> Seq<Step> {
    let (stage, step) = after_inspection(configured);
    seq![step] + steps_from(stage, exits)
}

/// A command to launch: which tool, in which directory, with which arguments.
pub enum Action {
    /// Run the configure tool in the project directory.
    Configure { dir: String, args: Vec<String> },
    /// Run the build tool in the build directory.
    Build { dir: String, args: Vec<String> },
    /// The run succeeded.
    Finish,
    /// A command failed: the run must end the process.
    Abort,
}

impl Action {
    pub open spec fn step(&self) -> Step {
        match self {
            Action::Configure { .. } => Step::Configure,
            Action::Build { .. } => Step::Build,
            Action::Finish => Step::Finish,
            Action::Abort => Step::Abort,
        }
    }
}

/// One run of the two-stage build, as a state machine: the caller reports
/// what it finds and how each command exits, and is told what to run next.
pub struct Orchestrator {
    pub project_dir: String,
    pub build_dir: String,
    pub config: Config,
    pub profile: Profile,
    pub stage: Stage,
}

impl Orchestrator {
    /// `a` is the action that takes step `step` for this run.
    pub open spec fn performs(&self, a: Action, step: Step) -> bool {
        &&& a.step() == step
        &&& a matches Action::Configure { dir, args } ==> dir@ == self.project_dir@ && strings_view(
            args@,
        ) == configure_args_of(self.profile, self.build_dir@, self.config@)
        &&& a matches Action::Build { dir, args } ==> dir@ == self.build_dir@ && strings_view(args@)
            == build_args_of(self.config@.install)
    }

    /// The run's fixed inputs are those of `other`.
    pub open spec fn same_run(&self, other: &Orchestrator) -> bool {
        &&& self.project_dir@ == other.project_dir@
        &&& self.build_dir@ == other.build_dir@
        &&& self.config@ == other.config@
        &&& self.profile == other.profile
    }

    /// A run that has not yet looked at the build directory.
    pub fn new(project_dir: &str, build_dir: &str, config: Config, profile: Profile) -> (r:
        Orchestrator)
        ensures
            r.project_dir@ == project_dir@,
            r.build_dir@ == build_dir@,
            r.config@ == config@,
            r.profile == profile,
            r.stage == Stage::Start,
    {
        Orchestrator {
            project_dir: project_dir.to_owned(),
            build_dir: build_dir.to_owned(),
            config,
            profile,
            stage: Stage::Start,
        }
    }

    fn configure_action(&self) -> (r: Action)
        ensures
            self.performs(r, Step::Configure),
    {
        Action::Configure {
            dir: self.project_dir.clone(),
            args: configure_args(self.profile, self.build_dir.as_str(), &self.config),
        }
    }

    fn build_action(&self) -> (r: Action)
        ensures
            self.performs(r, Step::Build),
    {
        Action::Build { dir: self.build_dir.clone(), args: build_args(self.config.install) }
    }

    /// Takes whether the build directory already holds the generated
    /// manifest: if so the configure step is skipped and the build runs,
    /// else the configure step runs first.
    pub fn start(&mut self, configured: bool) -> (r: Action)
        requires
            old(self).stage == Stage::Start,
        ensures
            final(self).same_run(old(self)),
            (final(self).stage, r.step()) == after_inspection(configured),
            final(self).performs(r, r.step()),
    {
        if configured {
            self.stage = Stage::Building;
            self.build_action()
        } else {
            self.stage = Stage::Configuring;
            self.configure_action()
        }
    }

    /// Takes whether the running command succeeded: a failure aborts the
    /// run; a configure success leads to the build; a build success ends it.
    pub fn command_exited(&mut self, success: bool) -> (r: Action)
        requires
            is_running(old(self).stage),
        ensures
            final(self).same_run(old(self)),
            (final(self).stage, r.step()) == after_exit(old(self).stage, success),
            final(self).performs(r, r.step()),
    {
        if !success {
            self.stage = Stage::Aborted;
            Action::Abort
        } else if self.stage == Stage::Configuring {
            self.stage = Stage::Building;
            self.build_action()
        } else {
            self.stage = Stage::Done;
            Action::Finish
        }
    }
}

/// A run whose build directory already holds the generated manifest starts
/// with the build, and never configures, whatever the configuration and
/// however the commands exit.
pub proof fn lemma_configured_run_never_configures(exits: Seq<bool>)
    ensures
        run_steps(true, exits)[0] == Step::Build,
        forall|i: int|
            0 <= i < run_steps(true, exits).len() ==> #[trigger] run_steps(true, exits)[i]
                != Step::Configure,
{
    reveal_with_fuel(steps_from, 2);
    let steps = run_steps(true, exits);
    if exits.len() > 0 {
        let (next, step) = after_exit(Stage::Building, exits[0]);
        assert(!is_running(next));
        assert(steps_from(next, exits.drop_first()) =~= Seq::empty());
        assert(steps =~= seq![Step::Build, step]);
    } else {
        assert(steps =~= seq![Step::Build]);
    }
}

/// A run that configures and sees the configure command fail aborts right
/// then: the build command is never run.
pub proof fn lemma_failed_configure_aborts(rest: Seq<bool>)
    ensures
        run_steps(false, seq![false] + rest) == seq![Step::Configure, Step::Abort],
{
    reveal_with_fuel(steps_from, 2);
    let exits = seq![false] + rest;
    assert(exits[0] == false);
    assert(steps_from(Stage::Aborted, exits.drop_first()) =~= Seq::empty());
    assert(run_steps(false, exits) =~= seq![Step::Configure, Step::Abort]);
}

/// A run on a fresh build directory configures, then builds once the
/// configure command succeeds, then ends as the build command exits.
pub proof fn lemma_fresh_run_configures_then_builds(configured_ok: bool, built_ok: bool)
    ensures
        configured_ok ==> run_steps(false, seq![configured_ok, built_ok]) == seq![
            Step::Configure,
            Step::Build,
            if built_ok { Step::Finish } else { Step::Abort },
        ],
{
    reveal_with_fuel(steps_from, 3);
    let exits = seq![configured_ok, built_ok];
    if configured_ok {
        assert(exits.drop_first() =~= seq![built_ok]);
        assert(exits.drop_first().drop_first() =~= Seq::<bool>::empty());
        let (done, last) = after_exit(Stage::Building, built_ok);
        assert(steps_from(done, Seq::<bool>::empty()) =~= Seq::empty());
        assert(steps_from(Stage::Building, seq![built_ok]) =~= seq![last]);
        assert(run_steps(false, exits) =~= seq![Step::Configure, Step::Build, last]);
    }
}

} // verus!
