use crate::error::BuildError;
use vstd::prelude::*;

verus! {

/// The two subcommands of the program.
#[derive(Clone, Copy, Debug, PartialEq, Eq, Structural)]
pub enum CliCommand {
    /// Build the artifact and copy it out of the container.
    Build,
    /// Build the runner image and attach to a container that serves it.
    Run,
}

/// The parsed configuration. It does not change once built.
#[derive(Clone, Debug)]
pub struct Cli {
    pub command: CliCommand,
    /// Project subdirectory handed to the recipe as `path`.
    pub path: String,
    /// Binary handed to the recipe as `bin`.
    pub bin: String,
    /// Host directory that receives the artifact archive.
    pub output_path: String,
    /// Name of the created container.
    pub container_name: String,
    /// Environment file forwarded to `create`.
    pub env_file: Option<String>,
    /// Volume mapping forwarded to `create`.
    pub volume: Option<String>,
}

pub open spec fn default_path() -> Seq<char> {
    "."@
}

pub open spec fn default_output_path() -> Seq<char> {
    "."@
}

pub open spec fn default_container_name() -> Seq<char> {
    "lambda"@
}

/// The value of an optional argument, or its default when it was not given.
pub open spec fn or_default(given: Option<String>, default: Seq<char>) -> Seq<char> {
    match given {
        Some(s) => s@,
        None => default,
    }
}

pub open spec fn view_of_option(o: Option<String>) -> Option<Seq<char>> {
    match o {
        Some(s) => Some(s@),
        None => None,
    }
}

/// Whether the CI cache flags are on: only when the `CI` variable holds
/// exactly `true`. Any other value, or none, leaves them off.
pub fn ci_enabled(value: &Option<String>) -> (r: bool)
    ensures
        r == (value matches Some(v) && v@ == "true"@),
{
    match value {
        Some(v) => *v == "true".to_string(),
        None => false,
    }
}

/// A unit of work that runs to completion and reports how it ended.
pub trait Execute {
    fn execute(self) -> Result<(), BuildError>;
}

impl Cli {
    /// A configuration is well formed when it names a binary.
    pub open spec fn wf(&self) -> bool {
        self.bin@.len() > 0
    }

    /// Builds the configuration from the arguments as given, filling in the
    /// defaults: `.` for both paths and `lambda` for the container name. A
    /// missing or empty binary name is a configuration error.
    pub fn new(
        command: CliCommand,
        path: Option<String>,
        bin: Option<String>,
        output_path: Option<String>,
        container_name: Option<String>,
        env_file: Option<String>,
        volume: Option<String>,
    ) -> (r: Result<Cli, BuildError>)
        ensures
            match bin {
                Some(b) if b@.len() > 0 => r matches Ok(c) && c.wf() && c.command == command
                    && c.path@ == or_default(path, default_path())
                    && c.bin@ == b@
                    && c.output_path@ == or_default(output_path, default_output_path())
                    && c.container_name@ == or_default(container_name, default_container_name())
                    && view_of_option(c.env_file) == view_of_option(env_file)
                    && view_of_option(c.volume) == view_of_option(volume),
                _ => r == Err::<Cli, BuildError>(BuildError::Config),
            },
    {
        let bin = match bin {
            Some(b) => b,
            None => return Err(BuildError::Config),
        };
        if bin.unicode_len() == 0 {
            return Err(BuildError::Config);
        }
        let path = match path {
            Some(p) => p,
            None => ".".to_string(),
        };
        let output_path = match output_path {
            Some(p) => p,
            None => ".".to_string(),
        };
        let container_name = match container_name {
            Some(n) => n,
            None => "lambda".to_string(),
        };
        Ok(Cli { command, path, bin, output_path, container_name, env_file, volume })
    }
}

} // verus!
