//! Builds a statically linked binary for a musl-based function runtime inside a
//! container engine, by driving the engine through a fixed sequence of
//! subcommands.
//!
//! The library holds the decisions: the configuration and its defaults, the
//! rendering of the build recipe, the argument vector of each engine
//! invocation, and the state machine that orders the invocations and stops at
//! the first failure. The program around it spawns the engine, owns the
//! temporary recipe file and listens for interrupts.
pub mod argv;
pub mod config;
pub mod error;
pub mod laws;
pub mod machine;
pub mod recipe;
pub mod tag;

pub use argv::{build_argv, copy_argv, create_argv, remove_argv, start_argv};
pub use config::{ci_enabled, Cli, CliCommand, Execute};
pub use error::{BuildError, Step};
pub use machine::{Action, Event, MuslBuilder};
pub use recipe::{render_recipe, RECIPE_TEMPLATE};
