use musl_builder::{
    ci_enabled, render_recipe, Action, BuildError, Cli, CliCommand, Event,
    MuslBuilder, Step, RECIPE_TEMPLATE,
};

const RECIPE: &str = "./.tmpA1b2C3";

fn config(
    command: CliCommand,
    container_name: Option<&str>,
    env_file: Option<&str>,
    volume: Option<&str>,
) -> Cli {
    Cli::new(
        command,
        None,
        Some("handler".to_string()),
        None,
        container_name.map(|s| s.to_string()),
        env_file.map(|s| s.to_string()),
        volume.map(|s| s.to_string()),
    )
    .unwrap()
}

/// Drives the builder against an engine that answers the k-th invocation
/// with `codes[k]` (zero once the codes run out), recording each argv.
fn drive(builder: &mut MuslBuilder, codes: &[i32]) -> (Vec<Vec<String>>, Result<(), BuildError>) {
    let mut seen: Vec<Vec<String>> = Vec::new();
    loop {
        let argv = match builder.next_action() {
            Action::Invoke { argv, .. } => argv,
            Action::Attach { argv, .. } => argv,
            Action::Finish { result } => return (seen, result),
        };
        let code = codes.get(seen.len()).copied().unwrap_or(0);
        seen.push(argv);
        builder.on_event(Event::Exited { code });
    }
}

fn words(v: &[&str]) -> Vec<String> {
    v.iter().map(|s| s.to_string()).collect()
}

#[test]
fn build_handler_emits_four_steps() {
    let mut b = MuslBuilder::new(config(CliCommand::Build, None, None, None), RECIPE.to_string(), false);
    let tag = b.tag().to_string();
    let (seen, result) = drive(&mut b, &[]);
    assert_eq!(result, Ok(()));
    assert_eq!(
        seen,
        vec![
            words(&["build", ".", "-f", RECIPE, "--target", "builder", "-t", &tag]),
            words(&["create", "--name", "lambda", "-p", "9000:8080", &tag]),
            words(&["cp", "lambda:/opt/app/bootstrap.zip", "."]),
            words(&["rm", "lambda"]),
        ]
    );
}

#[test]
fn build_under_ci_with_named_container() {
    let ci = ci_enabled(&Some("true".to_string()));
    assert!(ci);
    let mut b = MuslBuilder::new(config(CliCommand::Build, Some("demo"), None, None), RECIPE.to_string(), ci);
    let tag = b.tag().to_string();
    let (seen, result) = drive(&mut b, &[]);
    assert_eq!(result, Ok(()));
    assert_eq!(seen.len(), 4);
    assert_eq!(
        seen[0],
        words(&[
            "build", ".", "-f", RECIPE, "--target", "builder", "-t", &tag, "--cache-to",
            "type=gha,mode=max", "--cache-from", "type=gha",
        ])
    );
    assert_eq!(seen[1], words(&["create", "--name", "demo", "-p", "9000:8080", &tag]));
    assert_eq!(seen[2], words(&["cp", "lambda:/opt/app/bootstrap.zip", "."]));
    assert_eq!(seen[3], words(&["rm", "demo"]));
}

#[test]
fn run_with_env_file_and_volume() {
    let mut b = MuslBuilder::new(
        config(CliCommand::Run, None, Some(".env"), Some("/tmp:/data")),
        RECIPE.to_string(),
        false,
    );
    let tag = b.tag().to_string();
    let (seen, result) = drive(&mut b, &[]);
    assert_eq!(result, Ok(()));
    assert_eq!(
        seen,
        vec![
            words(&["build", ".", "-f", RECIPE, "--target", "runner", "-t", &tag]),
            words(&[
                "create", "--name", "lambda", "-p", "9000:8080", "--env-file", ".env", "--volume",
                "/tmp:/data", &tag,
            ]),
            words(&["start", "lambda", "-a"]),
        ]
    );
}

#[test]
fn run_attaches_with_interrupt_cleanup() {
    let mut b = MuslBuilder::new(config(CliCommand::Run, Some("demo"), None, None), RECIPE.to_string(), false);
    b.on_event(Event::Exited { code: 0 });
    b.on_event(Event::Exited { code: 0 });
    match b.next_action() {
        Action::Attach { argv, cleanup } => {
            assert_eq!(argv, words(&["start", "demo", "-a"]));
            assert_eq!(cleanup, words(&["rm", "demo"]));
        }
        other => panic!("expected an attached start, got {:?}", other),
    }
    b.on_event(Event::InterruptUnavailable);
    assert!(b.is_done());
    assert!(matches!(b.next_action(), Action::Finish { result: Err(BuildError::Signal) }));
}

#[test]
fn create_failure_stops_the_run() {
    let mut b = MuslBuilder::new(config(CliCommand::Build, None, None, None), RECIPE.to_string(), false);
    let (seen, result) = drive(&mut b, &[0, 1]);
    assert_eq!(result, Err(BuildError::SubprocessExit { step: Step::Create, code: 1 }));
    assert_eq!(seen.len(), 2);
    assert_eq!(seen[1][0], "create");
}

#[test]
fn missing_bin_is_a_config_error() {
    let r = Cli::new(CliCommand::Build, None, None, None, None, None, None);
    assert!(matches!(r, Err(BuildError::Config)));
    let r = Cli::new(CliCommand::Run, None, Some(String::new()), None, None, None, None);
    assert!(matches!(r, Err(BuildError::Config)));
}

#[test]
fn defaults_are_filled_in() {
    let c = config(CliCommand::Build, None, None, None);
    assert_eq!(c.path, ".");
    assert_eq!(c.bin, "handler");
    assert_eq!(c.output_path, ".");
    assert_eq!(c.container_name, "lambda");
    assert_eq!(c.env_file, None);
    assert_eq!(c.volume, None);
    let c = Cli::new(
        CliCommand::Build,
        Some("src".to_string()),
        Some("handler".to_string()),
        Some("out".to_string()),
        Some("demo".to_string()),
        None,
        None,
    )
    .unwrap();
    assert_eq!(c.path, "src");
    assert_eq!(c.output_path, "out");
    assert_eq!(c.container_name, "demo");
}

#[test]
fn build_order_with_failure_at_each_step() {
    let plan = [Step::Build, Step::Create, Step::Copy, Step::Remove];
    for k in 0..4 {
        let mut codes = vec![0; k];
        codes.push(7);
        let mut b = MuslBuilder::new(config(CliCommand::Build, None, None, None), RECIPE.to_string(), false);
        let (seen, result) = drive(&mut b, &codes);
        assert_eq!(seen.len(), k + 1);
        assert_eq!(result, Err(BuildError::SubprocessExit { step: plan[k], code: 7 }));
    }
}

#[test]
fn run_order_never_removes() {
    let mut b = MuslBuilder::new(config(CliCommand::Run, None, None, None), RECIPE.to_string(), false);
    let (seen, _) = drive(&mut b, &[]);
    let firsts: Vec<&str> = seen.iter().map(|v| v[0].as_str()).collect();
    assert_eq!(firsts, vec!["build", "create", "start"]);
}

#[test]
fn start_failure_is_reported_with_its_step() {
    let mut b = MuslBuilder::new(config(CliCommand::Run, None, None, None), RECIPE.to_string(), false);
    let (seen, result) = drive(&mut b, &[0, 0, 130]);
    assert_eq!(seen.len(), 3);
    assert_eq!(result, Err(BuildError::SubprocessExit { step: Step::Start, code: 130 }));
}

#[test]
fn spawn_failure_names_the_step() {
    let mut b = MuslBuilder::new(config(CliCommand::Build, None, None, None), RECIPE.to_string(), false);
    b.on_event(Event::SpawnFailed);
    assert!(matches!(
        b.next_action(),
        Action::Finish { result: Err(BuildError::SubprocessSpawn { step: Step::Build }) }
    ));
}

#[test]
fn ci_flags_appear_once_or_not_at_all() {
    for (value, on) in [(Some("true"), true), (Some("1"), false), (Some("TRUE"), false), (None, false)] {
        let ci = ci_enabled(&value.map(|s| s.to_string()));
        assert_eq!(ci, on);
        let argv = musl_builder::build_argv(CliCommand::Build, RECIPE, "t", ci);
        let count = |a: &str, b: &str| argv.windows(2).filter(|w| w[0] == a && w[1] == b).count();
        let expected = if on { 1 } else { 0 };
        assert_eq!(count("--cache-to", "type=gha,mode=max"), expected);
        assert_eq!(count("--cache-from", "type=gha"), expected);
    }
}

#[test]
fn target_follows_the_subcommand() {
    let b = musl_builder::build_argv(CliCommand::Build, RECIPE, "t", false);
    let r = musl_builder::build_argv(CliCommand::Run, RECIPE, "t", false);
    assert_eq!(&b[4..6], &["--target".to_string(), "builder".to_string()]);
    assert_eq!(&r[4..6], &["--target".to_string(), "runner".to_string()]);
}

#[test]
fn optional_flags_only_when_set() {
    let none = musl_builder::create_argv(&config(CliCommand::Build, None, None, None), "tag");
    assert!(!none.iter().any(|a| a == "--env-file" || a == "--volume"));
    assert_eq!(none.last().unwrap(), "tag");
    let env = musl_builder::create_argv(&config(CliCommand::Build, None, Some("e"), None), "tag");
    assert_eq!(env, words(&["create", "--name", "lambda", "-p", "9000:8080", "--env-file", "e", "tag"]));
    let vol = musl_builder::create_argv(&config(CliCommand::Build, None, None, Some("a:b")), "tag");
    assert_eq!(vol, words(&["create", "--name", "lambda", "-p", "9000:8080", "--volume", "a:b", "tag"]));
}

#[test]
fn tags_are_fresh_uuids() {
    let a = MuslBuilder::new(config(CliCommand::Build, None, None, None), RECIPE.to_string(), false);
    let b = MuslBuilder::new(config(CliCommand::Build, None, None, None), RECIPE.to_string(), false);
    assert_ne!(a.tag(), b.tag());
    for t in [a.tag(), b.tag()] {
        assert_eq!(t.len(), 36);
        for (i, c) in t.chars().enumerate() {
            if [8, 13, 18, 23].contains(&i) {
                assert_eq!(c, '-');
            } else {
                assert!(c.is_ascii_digit() || ('a'..='f').contains(&c));
            }
        }
    }
}

#[test]
fn with_tag_keeps_the_given_tag() {
    let mut b = MuslBuilder::with_tag(
        config(CliCommand::Build, None, None, None),
        RECIPE.to_string(),
        "fixed".to_string(),
        false,
    );
    assert_eq!(b.tag(), "fixed");
    let (seen, _) = drive(&mut b, &[]);
    assert_eq!(seen[0][7], "fixed");
    assert_eq!(seen[1][5], "fixed");
}

#[test]
fn recipe_holds_path_and_bin() {
    let c = Cli::new(CliCommand::Build, Some("src".to_string()), Some("handler".to_string()), None, None, None, None)
        .unwrap();
    let text = render_recipe(&c).unwrap();
    assert!(text.contains("src"));
    assert!(text.contains("handler"));
    assert!(text.ends_with('\n'));
    assert!(!text.contains("{{"));
    assert!(text.contains("AS builder"));
    assert!(text.contains("AS runner"));
    assert_ne!(text, format!("{}\n", RECIPE_TEMPLATE));
}

#[test]
fn recipe_substitutes_each_slot() {
    let c = Cli::new(CliCommand::Run, Some("src".to_string()), Some("handler".to_string()), None, None, None, None)
        .unwrap();
    let text = render_recipe(&c).unwrap();
    let expected = format!("{}\n", RECIPE_TEMPLATE.replace("{{ path }}", "src").replace("{{ bin }}", "handler"));
    assert_eq!(text, expected);
    assert!(text.contains("--manifest-path src/Cargo.toml --bin handler "));
}

#[test]
fn step_words() {
    let all = [Step::Build, Step::Create, Step::Copy, Step::Remove, Step::Start];
    let w: Vec<String> = all.iter().map(|s| s.word()).collect();
    assert_eq!(w, words(&["build", "create", "cp", "rm", "start"]));
}
