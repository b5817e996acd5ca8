use crate::config::Cli;
use crate::error::BuildError;
use vstd::prelude::*;

verus! {

/// The multi-stage build recipe. Its two slots are `path`, the project
/// subdirectory, and `bin`, the binary to build. The `builder` stage leaves the
/// packaged binary at `/opt/app/bootstrap.zip`; the `runner` stage serves it
/// behind the function-invocation endpoint on port 8080.
pub const RECIPE_TEMPLATE: &'static str = "FROM rust:alpine AS builder
RUN apk add --no-cache musl-dev zip
WORKDIR /usr/src/app
COPY . .
RUN cargo build --release --manifest-path {{ path }}/Cargo.toml --bin {{ bin }} --target-dir /usr/src/target
RUN mkdir -p /opt/app && cp /usr/src/target/release/{{ bin }} /opt/app/bootstrap && cd /opt/app && zip bootstrap.zip bootstrap

FROM public.ecr.aws/lambda/provided:al2 AS runner
COPY --from=builder /opt/app/bootstrap /var/runtime/bootstrap
CMD [ \"{{ bin }}\" ]";

#[verifier::external_type_specification]
#[verifier::external_body]
pub struct ExTeraError(tera::Error);

/// What `tera::Tera::one_off` makes of a template, without auto-escaping,
/// against a context that maps each key to its text: `None` when it fails.
pub uninterp spec fn tera_one_off(template: Seq<char>, vars: Seq<(Seq<char>, Seq<char>)>) -> Option<Seq<char>>;

pub open spec fn texts_of_pairs(vars: Seq<(String, String)>) -> Seq<(Seq<char>, Seq<char>)> {
    vars.map_values(|kv: (String, String)| (kv.0@, kv.1@))
}

/// Relies on tera::Tera::one_off, with auto-escaping off, after
/// tera::Context::insert of each pair: it renders the template against that
/// context and fails when a slot names a value that the context lacks. Only
/// the built-in recipe is handed over: its tags print text values and nothing
/// else, so no function, float arithmetic or other template is reached.
#[verifier::external_body]
fn one_off(template: &str, vars: &Vec<(String, String)>) -> (r: Result<String, tera::Error>)
    requires
        template@ == RECIPE_TEMPLATE@,
    ensures
        match r {
            Ok(s) => tera_one_off(template@, texts_of_pairs(vars@)) == Some(s@),
            Err(_) => tera_one_off(template@, texts_of_pairs(vars@)) is None,
        },
{
    let mut context = tera::Context::new();
    for (key, value) in vars.iter() {
        context.insert(key.as_str(), value);
    }
    tera::Tera::one_off(template, &context, false)
}

/// The slots of the recipe, in the order they are handed to the template.
pub open spec fn recipe_vars(path: Seq<char>, bin: Seq<char>) -> Seq<(Seq<char>, Seq<char>)> {
    seq![("path"@, path), ("bin"@, bin)]
}

/// What the recipe file holds: the rendered recipe and a final newline. A
/// recipe that does not render is a template error.
pub open spec fn recipe_text(path: Seq<char>, bin: Seq<char>) -> Result<Seq<char>, BuildError> {
    match tera_one_off(RECIPE_TEMPLATE@, recipe_vars(path, bin)) {
        Some(t) => Ok(t + "\n"@),
        None => Err(BuildError::Template),
    }
}

pub open spec fn text_result(r: Result<String, BuildError>) -> Result<Seq<char>, BuildError> {
    match r {
        Ok(s) => Ok(s@),
        Err(e) => Err(e),
    }
}

/// Renders the built-in recipe for a configuration, with the project
/// subdirectory as `path` and the binary name as `bin`, and ends it with a
/// newline: the text that the recipe file is to hold.
pub fn render_recipe(args: &Cli) -> (r: Result<String, BuildError>)
    ensures
        text_result(r) == recipe_text(args.path@, args.bin@),
{
    let mut vars: Vec<(String, String)> = Vec::new();
    vars.push(("path".to_string(), args.path.clone()));
    vars.push(("bin".to_string(), args.bin.clone()));
    proof {
        assert(texts_of_pairs(vars@) =~= recipe_vars(args.path@, args.bin@));
    }
    match one_off(RECIPE_TEMPLATE, &vars) {
        Ok(mut s) => {
            s.append("\n");
            Ok(s)
        },
        Err(_) => Err(BuildError::Template),
    }
}

} // verus!
