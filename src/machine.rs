use crate::argv::{
    build_args, build_argv, copy_args, copy_argv, create_args, create_argv, remove_args,
    remove_argv, start_args, start_argv, texts,
};
use crate::config::{view_of_option, Cli, CliCommand};
use crate::error::{BuildError, Step};
use crate::tag::{is_hyphenated_uuid, random_uuid_text};
use vstd::prelude::*;

verus! {

/// The engine invocations of a subcommand, in order. Run mode never removes
/// the container on its own: only an interrupt does.
pub open spec fn steps_of(command: CliCommand) -> Seq<Step> {
    match command {
        CliCommand::Build => seq![Step::Build, Step::Create, Step::Copy, Step::Remove],
        CliCommand::Run => seq![Step::Build, Step::Create, Step::Start],
    }
}

/// The argument vector of a step for a configuration, recipe path, tag and CI setting.
pub open spec fn args_of(cli: Cli, recipe: Seq<char>, tag: Seq<char>, ci: bool, step: Step) -> Seq<Seq<char>> {
    match step {
        Step::Build => build_args(cli.command, recipe, tag, ci),
        Step::Create => create_args(
            cli.container_name@,
            view_of_option(cli.env_file),
            view_of_option(cli.volume),
            tag,
        ),
        Step::Copy => copy_args(cli.output_path@),
        Step::Remove => remove_args(cli.container_name@),
        Step::Start => start_args(cli.container_name@),
    }
}

/// What the engine reports back for the step that was last asked for.
#[derive(Clone, Copy, Debug, PartialEq, Eq, Structural)]
pub enum Event {
    /// The engine ran and exited with this status.
    Exited { code: i32 },
    /// The engine executable could not be spawned.
    SpawnFailed,
    /// The interrupt handler asked for by `Attach` could not be registered.
    InterruptUnavailable,
}

/// What the driver is to do next.
#[derive(Debug)]
pub enum Action {
    /// Run the engine with this argument vector and report how it ended.
    Invoke { step: Step, argv: Vec<String> },
    /// Register an interrupt handler that removes the container with `cleanup`,
    /// then run the engine attached with `argv` and report how it ended.
    Attach { argv: Vec<String>, cleanup: Vec<String> },
    /// Stop with this result.
    Finish { result: Result<(), BuildError> },
}

/// How far a run has come: the number of steps that exited zero, and the
/// error that stopped it, if any.
pub struct Progress {
    pub completed: nat,
    pub failure: Option<BuildError>,
}

/// The error that an event reports for the step it answers, if any.
pub open spec fn failure_of(step: Step, event: Event) -> Option<BuildError> {
    match event {
        Event::Exited { code } => if code == 0 {
            None
        } else {
            Some(BuildError::SubprocessExit { step, code })
        },
        Event::SpawnFailed => Some(BuildError::SubprocessSpawn { step }),
        Event::InterruptUnavailable => Some(BuildError::Signal),
    }
}

/// A run is over once a step failed or every step exited zero.
pub open spec fn is_finished(plan: Seq<Step>, p: Progress) -> bool {
    p.failure is Some || p.completed >= plan.len()
}

/// The progress after an event answers the current step.
pub open spec fn advance(plan: Seq<Step>, p: Progress, event: Event) -> Progress {
    match failure_of(plan[p.completed as int], event) {
        None => Progress { completed: p.completed + 1, failure: None },
        Some(e) => Progress { completed: p.completed, failure: Some(e) },
    }
}

pub open spec fn start() -> Progress {
    Progress { completed: 0, failure: None }
}

/// The steps asked for when the engine answers each in turn with the exit
/// statuses of `codes`, until the run is over or the statuses run out.
pub open spec fn issued(plan: Seq<Step>, p: Progress, codes: Seq<i32>) -> Seq<Step>
    decreases codes.len(),
{
    if is_finished(plan, p) || codes.len() == 0 {
        Seq::empty()
    } else {
        seq![plan[p.completed as int]] + issued(
            plan,
            advance(plan, p, Event::Exited { code: codes[0] }),
            codes.drop_first(),
        )
    }
}

/// The progress reached in the same run.
pub open spec fn reached(plan: Seq<Step>, p: Progress, codes: Seq<i32>) -> Progress
    decreases codes.len(),
{
    if is_finished(plan, p) || codes.len() == 0 {
        p
    } else {
        reached(plan, advance(plan, p, Event::Exited { code: codes[0] }), codes.drop_first())
    }
}

pub open spec fn outcome_of(p: Progress) -> Result<(), BuildError> {
    match p.failure {
        Some(e) => Err(e),
        None => Ok(()),
    }
}

/// Drives one build or run: owns the configuration, the path of the rendered
/// recipe and the image tag, and decides each engine invocation in turn.
pub struct MuslBuilder {
    args: Cli,
    recipe_path: String,
    tag: String,
    ci: bool,
    completed: usize,
    failure: Option<BuildError>,
}

impl MuslBuilder {
    pub closed spec fn config(&self) -> Cli {
        self.args
    }

    pub closed spec fn recipe(&self) -> Seq<char> {
        self.recipe_path@
    }

    pub closed spec fn tag_text(&self) -> Seq<char> {
        self.tag@
    }

    pub closed spec fn under_ci(&self) -> bool {
        self.ci
    }

    pub closed spec fn progress(&self) -> Progress {
        Progress { completed: self.completed as nat, failure: self.failure }
    }

    pub closed spec fn wf(&self) -> bool {
        &&& self.args.wf()
        &&& self.completed <= steps_of(self.args.command).len()
    }

    pub open spec fn plan(&self) -> Seq<Step> {
        steps_of(self.config().command)
    }

    pub open spec fn finished(&self) -> bool {
        is_finished(self.plan(), self.progress())
    }

    pub open spec fn current(&self) -> Step {
        self.plan()[self.progress().completed as int]
    }

    pub open spec fn args_for(&self, step: Step) -> Seq<Seq<char>> {
        args_of(self.config(), self.recipe(), self.tag_text(), self.under_ci(), step)
    }

    /// A builder for a configuration, with the path of its rendered recipe, the
    /// image tag, and whether it runs under CI.
    pub fn with_tag(args: Cli, recipe_path: String, tag: String, ci: bool) -> (r: Self)
        requires
            args.wf(),
        ensures
            r.wf(),
            r.config() == args,
            r.recipe() == recipe_path@,
            r.tag_text() == tag@,
            r.under_ci() == ci,
            r.progress() == start(),
    {
        MuslBuilder { args, recipe_path, tag, ci, completed: 0, failure: None }
    }

    /// A builder with a fresh random tag.
    pub fn new(args: Cli, recipe_path: String, ci: bool) -> (r: Self)
        requires
            args.wf(),
        ensures
            r.wf(),
            r.config() == args,
            r.recipe() == recipe_path@,
            is_hyphenated_uuid(r.tag_text()),
            r.under_ci() == ci,
            r.progress() == start(),
    {
        let tag = random_uuid_text();
        Self::with_tag(args, recipe_path, tag, ci)
    }

    /// The image tag of this run.
    pub fn tag(&self) -> (r: &str)
        ensures
            r@ == self.tag_text(),
    {
        self.tag.as_str()
    }

    /// The configuration of this run.
    pub fn args(&self) -> (r: &Cli)
        ensures
            *r == self.config(),
    {
        &self.args
    }

    /// Whether the run is over.
    pub fn is_done(&self) -> (r: bool)
        requires
            self.wf(),
        ensures
            r == self.finished(),
    {
        self.failure.is_some() || self.completed >= self.plan_len()
    }

    fn plan_len(&self) -> (r: usize)
        ensures
            r == self.plan().len(),
    {
        match self.args.command {
            CliCommand::Build => 4,
            CliCommand::Run => 3,
        }
    }

    fn current_step(&self) -> (r: Step)
        requires
            self.wf(),
            !self.finished(),
        ensures
            r == self.current(),
    {
        match self.args.command {
            CliCommand::Build => if self.completed == 0 {
                Step::Build
            } else if self.completed == 1 {
                Step::Create
            } else if self.completed == 2 {
                Step::Copy
            } else {
                Step::Remove
            },
            CliCommand::Run => if self.completed == 0 {
                Step::Build
            } else if self.completed == 1 {
                Step::Create
            } else {
                Step::Start
            },
        }
    }

    /// What to do next: run the current step, or stop with the result. The
    /// attached `start` of run mode comes with the `rm` that an interrupt runs.
    pub fn next_action(&self) -> (r: Action)
        requires
            self.wf(),
        ensures
            self.finished() <==> r is Finish,
            r matches Action::Finish { result } ==> result == outcome_of(self.progress()),
            r matches Action::Invoke { step, argv } ==> step == self.current() && step != Step::Start
                && texts(argv@) == self.args_for(step),
            r matches Action::Attach { argv, cleanup } ==> self.current() == Step::Start
                && texts(argv@) == self.args_for(Step::Start)
                && texts(cleanup@) == remove_args(self.config().container_name@),
            !self.finished() ==> (r is Attach <==> self.current() == Step::Start),
    {
        if self.is_done() {
            let result = match self.failure {
                Some(e) => Err(e),
                None => Ok(()),
            };
            return Action::Finish { result };
        }
        let step = self.current_step();
        let name = self.args.container_name.as_str();
        match step {
            Step::Build => Action::Invoke {
                step,
                argv: build_argv(self.args.command, self.recipe_path.as_str(), self.tag.as_str(), self.ci),
            },
            Step::Create => Action::Invoke { step, argv: create_argv(&self.args, self.tag.as_str()) },
            Step::Copy => Action::Invoke { step, argv: copy_argv(self.args.output_path.as_str()) },
            Step::Remove => Action::Invoke { step, argv: remove_argv(name) },
            Step::Start => Action::Attach { argv: start_argv(name), cleanup: remove_argv(name) },
        }
    }

    /// Takes in how the current step ended: a zero exit moves on to the next
    /// step, anything else stops the run with the matching error.
    pub fn on_event(&mut self, event: Event)
        requires
            old(self).wf(),
            !old(self).finished(),
        ensures
            final(self).wf(),
            final(self).config() == old(self).config(),
            final(self).recipe() == old(self).recipe(),
            final(self).tag_text() == old(self).tag_text(),
            final(self).under_ci() == old(self).under_ci(),
            final(self).progress() == advance(old(self).plan(), old(self).progress(), event),
    {
        let step = self.current_step();
        match event {
            Event::Exited { code } => {
                if code == 0 {
                    self.completed = self.completed + 1;
                } else {
                    self.failure = Some(BuildError::SubprocessExit { step, code });
                }
            },
            Event::SpawnFailed => {
                self.failure = Some(BuildError::SubprocessSpawn { step });
            },
            Event::InterruptUnavailable => {
                self.failure = Some(BuildError::Signal);
            },
        }
    }
}

} // verus!
