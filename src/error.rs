use vstd::prelude::*;

verus! {

/// One invocation of the container engine, named by its subcommand.
#[derive(Clone, Copy, Debug, PartialEq, Eq, Structural)]
pub enum Step {
    Build,
    Create,
    Copy,
    Remove,
    Start,
}

/// The subcommand that the engine is given for a step.
pub open spec fn step_word(step: Step) -> Seq<char> {
    match step {
        Step::Build => "build"@,
        Step::Create => "create"@,
        Step::Copy => "cp"@,
        Step::Remove => "rm"@,
        Step::Start => "start"@,
    }
}

impl Step {
    /// The subcommand word of this step, as the engine and error messages spell it.
    pub fn word(&self) -> (r: String)
        ensures
            r@ == step_word(*self),
    {
        match self {
            Step::Build => "build".to_string(),
            Step::Create => "create".to_string(),
            Step::Copy => "cp".to_string(),
            Step::Remove => "rm".to_string(),
            Step::Start => "start".to_string(),
        }
    }
}

/// Why a run of the builder stopped. Every error is fatal.
#[derive(Clone, Copy, Debug, PartialEq, Eq, Structural)]
pub enum BuildError {
    /// A required argument (the binary name) is missing or empty.
    Config,
    /// The recipe template could not be parsed or rendered.
    Template,
    /// The recipe file could not be created or written.
    Io,
    /// The engine executable could not be spawned for this step.
    SubprocessSpawn { step: Step },
    /// The engine exited with a non-zero status at this step.
    SubprocessExit { step: Step, code: i32 },
    /// The interrupt handler could not be registered.
    Signal,
}

} // verus!
