use crate::argv::{build_args, cache_flags, create_args, target_of};
use crate::config::{Cli, CliCommand};
use crate::error::{step_word, BuildError, Step};
use crate::machine::{advance, args_of, is_finished, issued, outcome_of, reached, start, steps_of, Event, Progress};
use vstd::prelude::*;

verus! {

/// How often `a` is directly followed by `b` in `s`, from index `i` on.
pub open spec fn pair_count_from(s: Seq<Seq<char>>, a: Seq<char>, b: Seq<char>, i: int) -> nat
    decreases s.len() - i,
{
    if i < 0 || i + 1 >= s.len() {
        0
    } else {
        (if s[i] == a && s[i + 1] == b { 1nat } else { 0nat }) + pair_count_from(s, a, b, i + 1)
    }
}

proof fn lemma_no_pair_between(s: Seq<Seq<char>>, a: Seq<char>, b: Seq<char>, i: int, j: int)
    requires
        0 <= i <= j < s.len(),
        forall|k: int| i <= k < j ==> !(#[trigger] s[k] == a && s[k + 1] == b),
    ensures
        pair_count_from(s, a, b, i) == pair_count_from(s, a, b, j),
    decreases j - i,
{
    if i < j {
        lemma_no_pair_between(s, a, b, i + 1, j);
    }
}

/// How often the flag `a` is given the value `b` in an argument vector.
pub open spec fn pair_count(s: Seq<Seq<char>>, a: Seq<char>, b: Seq<char>) -> nat {
    pair_count_from(s, a, b, 0)
}

proof fn lemma_all_zero(plan: Seq<Step>, p: Progress, codes: Seq<i32>)
    requires
        p.failure is None,
        p.completed <= plan.len(),
        codes.len() >= plan.len() - p.completed,
        forall|j: int| 0 <= j < codes.len() ==> codes[j] == 0,
    ensures
        issued(plan, p, codes) == plan.subrange(p.completed as int, plan.len() as int),
        reached(plan, p, codes) == (Progress { completed: plan.len(), failure: None }),
    decreases plan.len() - p.completed,
{
    if p.completed == plan.len() {
        assert(plan.subrange(p.completed as int, plan.len() as int) =~= Seq::empty());
    } else {
        let q = advance(plan, p, Event::Exited { code: codes[0] });
        lemma_all_zero(plan, q, codes.drop_first());
        assert(plan.subrange(p.completed as int, plan.len() as int) =~= seq![plan[p.completed as int]]
            + plan.subrange(q.completed as int, plan.len() as int));
    }
}

proof fn lemma_stop_at(plan: Seq<Step>, p: Progress, codes: Seq<i32>, k: int)
    requires
        p.failure is None,
        0 <= k < codes.len(),
        p.completed + k < plan.len(),
        forall|j: int| 0 <= j < k ==> codes[j] == 0,
        codes[k] != 0,
    ensures
        issued(plan, p, codes) == plan.subrange(p.completed as int, p.completed + k + 1),
        reached(plan, p, codes).failure == Some(
            BuildError::SubprocessExit { step: plan[p.completed + k], code: codes[k] },
        ),
    decreases k,
{
    let q = advance(plan, p, Event::Exited { code: codes[0] });
    if k == 0 {
        let r = reached(plan, q, codes.drop_first());
        assert(is_finished(plan, q));
        assert(issued(plan, q, codes.drop_first()) =~= Seq::empty());
        assert(plan.subrange(p.completed as int, p.completed + 1int) =~= seq![plan[p.completed as int]]);
    } else {
        let rest = codes.drop_first();
        assert forall|j: int| 0 <= j < k - 1 implies rest[j] == 0 by {
            assert(rest[j] == codes[j + 1]);
        }
        lemma_stop_at(plan, q, rest, k - 1);
        assert(plan.subrange(p.completed as int, p.completed + k + 1) =~= seq![plan[p.completed as int]]
            + plan.subrange(q.completed as int, q.completed + (k - 1) + 1));
    }
}

/// In build mode, when every step exits zero, the engine is asked for
/// `build`, `create`, `cp` and `rm`, in that order and nothing more, and the
/// run succeeds.
pub proof fn law_build_order(codes: Seq<i32>)
    requires
        codes.len() >= 4,
        forall|j: int| 0 <= j < codes.len() ==> codes[j] == 0,
    ensures
        issued(steps_of(CliCommand::Build), start(), codes) == seq![
            Step::Build,
            Step::Create,
            Step::Copy,
            Step::Remove,
        ],
        outcome_of(reached(steps_of(CliCommand::Build), start(), codes)) == Ok::<(), BuildError>(()),
{
    let plan = steps_of(CliCommand::Build);
    lemma_all_zero(plan, start(), codes);
    assert(plan.subrange(0, 4) =~= plan);
}

/// In run mode, when every step exits zero, the engine is asked for `build`,
/// `create` and `start`, in that order; no `rm` is issued.
pub proof fn law_run_order(codes: Seq<i32>)
    requires
        codes.len() >= 3,
        forall|j: int| 0 <= j < codes.len() ==> codes[j] == 0,
    ensures
        issued(steps_of(CliCommand::Run), start(), codes) == seq![Step::Build, Step::Create, Step::Start],
        !issued(steps_of(CliCommand::Run), start(), codes).contains(Step::Remove),
        outcome_of(reached(steps_of(CliCommand::Run), start(), codes)) == Ok::<(), BuildError>(()),
{
    let plan = steps_of(CliCommand::Run);
    lemma_all_zero(plan, start(), codes);
    assert(plan.subrange(0, 3) =~= plan);
    assert(plan[0] != Step::Remove && plan[1] != Step::Remove && plan[2] != Step::Remove);
}

/// Each argument vector starts with the subcommand of its step.
pub proof fn law_subcommand_first(cli: Cli, recipe: Seq<char>, tag: Seq<char>, ci: bool, step: Step)
    ensures
        args_of(cli, recipe, tag, ci, step).len() > 0,
        args_of(cli, recipe, tag, ci, step)[0] == step_word(step),
{
}

/// When step `k` exits non-zero after the earlier ones exited zero, no later
/// step is asked for, and the run fails with that step and that status.
pub proof fn law_failure_short_circuit(command: CliCommand, codes: Seq<i32>, k: int)
    requires
        0 <= k < codes.len(),
        k < steps_of(command).len(),
        forall|j: int| 0 <= j < k ==> codes[j] == 0,
        codes[k] != 0,
    ensures
        issued(steps_of(command), start(), codes) == steps_of(command).take(k + 1),
        outcome_of(reached(steps_of(command), start(), codes)) == Err::<(), BuildError>(
            BuildError::SubprocessExit { step: steps_of(command)[k], code: codes[k] },
        ),
{
    lemma_stop_at(steps_of(command), start(), codes, k);
    assert(steps_of(command).subrange(0, k + 1) =~= steps_of(command).take(k + 1));
}

/// The `--target` of the build step is `builder` in build mode and `runner` in run mode.
pub proof fn law_target_selection(command: CliCommand, recipe: Seq<char>, tag: Seq<char>, ci: bool)
    ensures
        build_args(command, recipe, tag, ci)[4] == "--target"@,
        build_args(command, recipe, tag, ci)[5] == target_of(command),
        target_of(CliCommand::Build) == "builder"@,
        target_of(CliCommand::Run) == "runner"@,
{
}

/// Under CI the build step carries `--cache-to type=gha,mode=max` and
/// `--cache-from type=gha` exactly once each; otherwise neither.
pub proof fn law_ci_flags(command: CliCommand, recipe: Seq<char>, tag: Seq<char>, ci: bool)
    ensures
        pair_count(build_args(command, recipe, tag, ci), "--cache-to"@, "type=gha,mode=max"@) == if ci { 1nat } else { 0nat },
        pair_count(build_args(command, recipe, tag, ci), "--cache-from"@, "type=gha"@) == if ci { 1nat } else { 0nat },
{
    reveal_strlit("--cache-to");
    reveal_strlit("type=gha,mode=max");
    reveal_strlit("--cache-from");
    reveal_strlit("type=gha");
    reveal_strlit("--target");
    reveal_strlit("-t");
    reveal_strlit("-f");
    reveal_strlit("build");
    reveal_strlit(".");
    reveal_strlit("builder");
    reveal_strlit("runner");
    let s = build_args(command, recipe, tag, ci);
    let a1 = "--cache-to"@;
    let b1 = "type=gha,mode=max"@;
    let a2 = "--cache-from"@;
    let b2 = "type=gha"@;
    assert(a1 != b1 && a1 != a2 && a1 != b2 && b1 != a2 && b1 != b2 && a2 != b2) by {
        assert(a1.len() != b1.len() && a1.len() != a2.len() && a1.len() != b2.len());
        assert(b1.len() != a2.len() && b1.len() != b2.len() && a2.len() != b2.len());
    }
    assert("--target"@ != b1 && "--target"@ != b2 && "--target"@ != a1 && "--target"@ != a2 && "-t"@ != a1 && "-t"@ != a2) by {
        assert("--target"@.len() != b1.len() && "--target"@[0] != b2[0]);
        assert("--target"@.len() != a1.len() && "--target"@.len() != a2.len());
        assert("-t"@.len() != a1.len() && "-t"@.len() != a2.len());
    }
    assert("-f"@ != a1 && "-f"@ != a2 && "."@ != a1 && "."@ != a2 && "build"@ != a1 && "build"@ != a2) by {
        assert("-f"@.len() != a1.len() && "."@.len() != a1.len() && "build"@.len() != a1.len());
        assert("-f"@.len() != a2.len() && "."@.len() != a2.len() && "build"@.len() != a2.len());
    }
    assert(target_of(command) != a1 && target_of(command) != a2) by {
        assert(target_of(command).len() != a1.len() && target_of(command).len() != a2.len());
    }
    if ci {
        assert(s.len() == 12);
        assert(s[8] == a1 && s[9] == b1 && s[10] == a2 && s[11] == b2);
        assert(pair_count_from(s, a1, b1, 11) == 0 && pair_count_from(s, a2, b2, 11) == 0);
        assert(pair_count_from(s, a1, b1, 10) == 0 && pair_count_from(s, a2, b2, 10) == 1);
        assert(pair_count_from(s, a1, b1, 9) == 0 && pair_count_from(s, a2, b2, 9) == 1);
        assert(pair_count_from(s, a1, b1, 8) == 1 && pair_count_from(s, a2, b2, 8) == 1);
    } else {
        assert(s.len() == 8);
    }
    assert forall|k: int| 0 <= k < 7 implies !(#[trigger] s[k] == a1 && s[k + 1] == b1) && !(s[k] == a2 && s[k + 1] == b2) by {}
    if !ci {
        assert(pair_count_from(s, a1, b1, 7) == 0 && pair_count_from(s, a2, b2, 7) == 0);
        lemma_no_pair_between(s, a1, b1, 0, 7);
        lemma_no_pair_between(s, a2, b2, 0, 7);
    } else {
        lemma_no_pair_between(s, a1, b1, 0, 8);
        lemma_no_pair_between(s, a2, b2, 0, 8);
    }
}

/// The environment file and the volume appear in the create step exactly when
/// they are set, as `--env-file <file>` then `--volume <mapping>`, and the
/// image tag is always the last argument. Where a flag is unset its word
/// occurs nowhere, as long as neither the container name, the tag nor the
/// other value is that word.
pub proof fn law_optional_flags(
    name: Seq<char>,
    env_file: Option<Seq<char>>,
    volume: Option<Seq<char>>,
    tag: Seq<char>,
)
    ensures
        create_args(name, env_file, volume, tag).last() == tag,
        env_file matches Some(f) ==> create_args(name, env_file, volume, tag)[5] == "--env-file"@
            && create_args(name, env_file, volume, tag)[6] == f,
        volume matches Some(v) ==> ({
            let i = if env_file is Some { 7int } else { 5int };
            create_args(name, env_file, volume, tag)[i] == "--volume"@
                && create_args(name, env_file, volume, tag)[i + 1] == v
        }),
        env_file is None && name != "--env-file"@ && tag != "--env-file"@
            && !(volume matches Some(v) && v == "--env-file"@)
            ==> !create_args(name, env_file, volume, tag).contains("--env-file"@),
        volume is None && name != "--volume"@ && tag != "--volume"@
            && !(env_file matches Some(f) && f == "--volume"@)
            ==> !create_args(name, env_file, volume, tag).contains("--volume"@),
{
    reveal_strlit("--env-file");
    reveal_strlit("--volume");
    reveal_strlit("create");
    reveal_strlit("--name");
    reveal_strlit("-p");
    reveal_strlit("9000:8080");
    let e = "--env-file"@;
    let v = "--volume"@;
    assert(e != v && "create"@ != e && "create"@ != v && "--name"@ != e && "--name"@ != v) by {
        assert(e.len() != v.len() && "create"@.len() != e.len() && "create"@.len() != v.len());
        assert("--name"@.len() != e.len() && "--name"@.len() != v.len());
    }
    assert("-p"@ != e && "-p"@ != v && "9000:8080"@ != e && "9000:8080"@ != v) by {
        assert("-p"@.len() != e.len() && "-p"@.len() != v.len());
        assert("9000:8080"@.len() != e.len() && "9000:8080"@.len() != v.len());
    }
    let s = create_args(name, env_file, volume, tag);
    if env_file is None && name != e && tag != e && !(volume matches Some(x) && x == e) {
        assert forall|i: int| 0 <= i < s.len() implies s[i] != e by {}
    }
    if volume is None && name != v && tag != v && !(env_file matches Some(x) && x == v) {
        assert forall|i: int| 0 <= i < s.len() implies s[i] != v by {}
    }
}

/// `--target` occurs once in the build step, as long as neither the recipe
/// path nor the tag is that word.
pub proof fn law_target_once(command: CliCommand, recipe: Seq<char>, tag: Seq<char>, ci: bool)
    requires
        recipe != "--target"@,
        tag != "--target"@,
    ensures
        forall|i: int|
            0 <= i < build_args(command, recipe, tag, ci).len() && #[trigger] build_args(command, recipe, tag, ci)[i]
                == "--target"@ ==> i == 4,
{
    reveal_strlit("--target");
    reveal_strlit("build");
    reveal_strlit(".");
    reveal_strlit("-f");
    reveal_strlit("-t");
    reveal_strlit("builder");
    reveal_strlit("runner");
    reveal_strlit("--cache-to");
    reveal_strlit("type=gha,mode=max");
    reveal_strlit("--cache-from");
    reveal_strlit("type=gha");
    let w = "--target"@;
    assert("build"@ != w && "."@ != w && "-f"@ != w && "-t"@ != w && target_of(command) != w) by {
        assert("build"@.len() != w.len() && "."@.len() != w.len() && "-f"@.len() != w.len());
        assert("-t"@.len() != w.len() && target_of(command).len() != w.len());
    }
    assert(cache_flags()[0] != w && cache_flags()[1] != w && cache_flags()[2] != w && cache_flags()[3] != w) by {
        assert(cache_flags()[0].len() != w.len() && cache_flags()[1].len() != w.len());
        assert(cache_flags()[2].len() != w.len() && cache_flags()[3][0] != w[0]);
    }
}

/// Without CI none of the four cache words occurs in the build step, as long
/// as neither the recipe path nor the tag is one of them.
pub proof fn law_no_cache_words(command: CliCommand, recipe: Seq<char>, tag: Seq<char>)
    requires
        !cache_flags().contains(recipe),
        !cache_flags().contains(tag),
    ensures
        forall|w: Seq<char>| cache_flags().contains(w) ==> !build_args(command, recipe, tag, false).contains(w),
{
    reveal_strlit("--target");
    reveal_strlit("build");
    reveal_strlit(".");
    reveal_strlit("-f");
    reveal_strlit("-t");
    reveal_strlit("builder");
    reveal_strlit("runner");
    reveal_strlit("--cache-to");
    reveal_strlit("type=gha,mode=max");
    reveal_strlit("--cache-from");
    reveal_strlit("type=gha");
    let s = build_args(command, recipe, tag, false);
    let c = cache_flags();
    assert forall|w: Seq<char>| c.contains(w) implies !s.contains(w) by {
        let j = choose|j: int| 0 <= j < c.len() && c[j] == w;
        assert(c[j] == w);
        assert(w.len() >= 8);
        assert("build"@.len() < 8 && "."@.len() < 8 && "-f"@.len() < 8 && "-t"@.len() < 8);
        assert(target_of(command).len() < 8);
        assert("--target"@ != w) by {
            if w.len() == 8 {
                assert(w == "type=gha"@);
                assert(w[0] != "--target"@[0]);
            }
        }
        if s.contains(w) {
            let i = choose|i: int| 0 <= i < s.len() && s[i] == w;
            assert(s[i] == w);
        }
    }
}

} // verus!
