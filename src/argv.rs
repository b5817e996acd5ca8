use crate::config::{view_of_option, Cli, CliCommand};
use vstd::prelude::*;

verus! {

/// The texts of an argument vector.
pub open spec fn texts(v: Seq<String>) -> Seq<Seq<char>> {
    v.map_values(|s: String| s@)
}

/// The recipe stage that a subcommand builds.
pub open spec fn target_of(command: CliCommand) -> Seq<char> {
    match command {
        CliCommand::Build => "builder"@,
        CliCommand::Run => "runner"@,
    }
}

/// The flags that let a CI runner use the engine's GitHub Actions cache.
pub open spec fn cache_flags() -> Seq<Seq<char>> {
    seq!["--cache-to"@, "type=gha,mode=max"@, "--cache-from"@, "type=gha"@]
}

/// `build . -f <recipe> --target <target> -t <tag>`, followed by the cache
/// flags when running under CI.
pub open spec fn build_args(command: CliCommand, recipe: Seq<char>, tag: Seq<char>, ci: bool) -> Seq<Seq<char>> {
    let base = seq!["build"@, "."@, "-f"@, recipe, "--target"@, target_of(command), "-t"@, tag];
    if ci {
        base + cache_flags()
    } else {
        base
    }
}

/// `<flag> <value>` when the value is set, nothing otherwise.
pub open spec fn optional_flag(flag: Seq<char>, value: Option<Seq<char>>) -> Seq<Seq<char>> {
    match value {
        Some(v) => seq![flag, v],
        None => Seq::empty(),
    }
}

/// `create --name <name> -p 9000:8080 [--env-file <f>] [--volume <v>] <tag>`.
pub open spec fn create_args(
    name: Seq<char>,
    env_file: Option<Seq<char>>,
    volume: Option<Seq<char>>,
    tag: Seq<char>,
) -> Seq<Seq<char>> {
    seq!["create"@, "--name"@, name, "-p"@, "9000:8080"@] + optional_flag("--env-file"@, env_file)
        + optional_flag("--volume"@, volume) + seq![tag]
}

/// Where the artifact archive lies in the builder container. The container is
/// always named `lambda` here, whatever name was configured: the recipe's
/// convention fixes it.
pub open spec fn artifact_source() -> Seq<char> {
    "lambda:/opt/app/bootstrap.zip"@
}

/// `cp lambda:/opt/app/bootstrap.zip <output>`.
pub open spec fn copy_args(output: Seq<char>) -> Seq<Seq<char>> {
    seq!["cp"@, artifact_source(), output]
}

/// `rm <name>`.
pub open spec fn remove_args(name: Seq<char>) -> Seq<Seq<char>> {
    seq!["rm"@, name]
}

/// `start <name> -a`: start the container attached to the terminal.
pub open spec fn start_args(name: Seq<char>) -> Seq<Seq<char>> {
    seq!["start"@, name, "-a"@]
}

fn push_text(v: &mut Vec<String>, s: &str)
    ensures
        texts(final(v)@) == texts(old(v)@).push(s@),
{
    v.push(s.to_string());
    proof {
        assert(texts(final(v)@) =~= texts(old(v)@).push(s@));
    }
}

/// The argument vector of the `build` step.
pub fn build_argv(command: CliCommand, recipe: &str, tag: &str, ci: bool) -> (r: Vec<String>)
    ensures
        texts(r@) == build_args(command, recipe@, tag@, ci),
{
    let mut v: Vec<String> = Vec::new();
    push_text(&mut v, "build");
    push_text(&mut v, ".");
    push_text(&mut v, "-f");
    push_text(&mut v, recipe);
    push_text(&mut v, "--target");
    match command {
        CliCommand::Build => push_text(&mut v, "builder"),
        CliCommand::Run => push_text(&mut v, "runner"),
    }
    push_text(&mut v, "-t");
    push_text(&mut v, tag);
    if ci {
        push_text(&mut v, "--cache-to");
        push_text(&mut v, "type=gha,mode=max");
        push_text(&mut v, "--cache-from");
        push_text(&mut v, "type=gha");
    }
    proof {
        assert(texts(v@) =~= build_args(command, recipe@, tag@, ci));
    }
    v
}

/// The argument vector of the `create` step.
pub fn create_argv(cli: &Cli, tag: &str) -> (r: Vec<String>)
    ensures
        texts(r@) == create_args(
            cli.container_name@,
            view_of_option(cli.env_file),
            view_of_option(cli.volume),
            tag@,
        ),
{
    let mut v: Vec<String> = Vec::new();
    push_text(&mut v, "create");
    push_text(&mut v, "--name");
    push_text(&mut v, cli.container_name.as_str());
    push_text(&mut v, "-p");
    push_text(&mut v, "9000:8080");
    match &cli.env_file {
        Some(f) => {
            push_text(&mut v, "--env-file");
            push_text(&mut v, f.as_str());
        },
        None => {},
    }
    match &cli.volume {
        Some(m) => {
            push_text(&mut v, "--volume");
            push_text(&mut v, m.as_str());
        },
        None => {},
    }
    push_text(&mut v, tag);
    proof {
        assert(texts(v@) =~= create_args(
            cli.container_name@,
            view_of_option(cli.env_file),
            view_of_option(cli.volume),
            tag@,
        ));
    }
    v
}

/// The argument vector of the `cp` step.
pub fn copy_argv(output: &str) -> (r: Vec<String>)
    ensures
        texts(r@) == copy_args(output@),
{
    let mut v: Vec<String> = Vec::new();
    push_text(&mut v, "cp");
    push_text(&mut v, "lambda:/opt/app/bootstrap.zip");
    push_text(&mut v, output);
    proof {
        assert(texts(v@) =~= copy_args(output@));
    }
    v
}

/// The argument vector of the `rm` step.
pub fn remove_argv(name: &str) -> (r: Vec<String>)
    ensures
        texts(r@) == remove_args(name@),
{
    let mut v: Vec<String> = Vec::new();
    push_text(&mut v, "rm");
    push_text(&mut v, name);
    proof {
        assert(texts(v@) =~= remove_args(name@));
    }
    v
}

/// The argument vector of the `start` step.
pub fn start_argv(name: &str) -> (r: Vec<String>)
    ensures
        texts(r@) == start_args(name@),
{
    let mut v: Vec<String> = Vec::new();
    push_text(&mut v, "start");
    push_text(&mut v, name);
    push_text(&mut v, "-a");
    proof {
        assert(texts(v@) =~= start_args(name@));
    }
    v
}

} // verus!
