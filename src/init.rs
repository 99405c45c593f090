use vstd::prelude::*;

use crate::composite::{default_composite_recipe, lemma_default_members_recipe, Composite};
use crate::error::{ErrorModel, MvpError};
use crate::plan::{steps_model, strings_model, Step, StepModel};
use crate::strategy::AddStrategy;
use crate::templates::ExecutionContext;

verus! {

/// `s` without the quote characters at its start.
pub open spec fn skip_leading_quotes(s: Seq<char>) -> Seq<char>
    decreases s.len(),
{
    if s.len() > 0 && s[0] == '"' {
        skip_leading_quotes(s.drop_first())
    } else {
        s
    }
}

/// `s` without the quote characters at its end.
pub open spec fn skip_trailing_quotes(s: Seq<char>) -> Seq<char>
    decreases s.len(),
{
    if s.len() > 0 && s.last() == '"' {
        skip_trailing_quotes(s.drop_last())
    } else {
        s
    }
}

/// `s` without the quote characters that surround it.
pub open spec fn unquoted(s: Seq<char>) -> Seq<char> {
    skip_trailing_quotes(skip_leading_quotes(s))
}

/// The value that, given second, turns version control off.
pub open spec fn vcs_off_token() -> Seq<char> {
    "n"@
}

/// Version control is turned off exactly when a second value is given and,
/// unquoted, it is the off token.
pub open spec fn vcs_disabled(values: Seq<Seq<char>>) -> bool {
    values.len() > 1 && unquoted(values[1]) == vcs_off_token()
}

/// The arguments of the project-creation command for project `name`.
pub open spec fn creation_args(name: Seq<char>, disable_vcs: bool) -> Seq<Seq<char>> {
    if disable_vcs {
        seq!["new"@, name, "--vcs"@, "none"@]
    } else {
        seq!["new"@, name]
    }
}

/// The step that creates project `name` and enters it.
pub open spec fn creation_step(name: Seq<char>, disable_vcs: bool) -> StepModel {
    StepModel::CreateProject("cargo"@, creation_args(name, disable_vcs), name)
}

/// The positional values, where none were supplied read as an empty list.
pub open spec fn values_of(positional: Option<Seq<Seq<char>>>) -> Seq<Seq<char>> {
    match positional {
        None => Seq::empty(),
        Some(values) => values,
    }
}

/// What init does with the positional values: the first names the project,
/// and without it init fails; it creates the project, and then, unless
/// version control is off, lays down the default scaffold.
pub open spec fn init_recipe(positional: Option<Seq<Seq<char>>>) -> Result<
    Seq<StepModel>,
    ErrorModel,
> {
    let values = values_of(positional);
    if values.len() == 0 {
        Err(ErrorModel::Custom("Project name is required"@))
    } else {
        let name = unquoted(values[0]);
        let off = vcs_disabled(values);
        if off {
            Ok(seq![creation_step(name, off)])
        } else {
            Ok(seq![creation_step(name, off)] + default_composite_recipe())
        }
    }
}

/// Removes the quote characters that surround `s`.
pub fn trim_quotes(s: &str) -> (r: String)
    ensures
        r@ == unquoted(s@),
{
    let n = s.unicode_len();
    let mut i: usize = 0;
    assert(s@.subrange(0, n as int) =~= s@);
    while i < n && s.get_char(i) == '"'
        invariant
            i <= n,
            n == s@.len(),
            skip_leading_quotes(s@) == skip_leading_quotes(s@.subrange(i as int, n as int)),
        decreases n - i,
    {
        assert(s@.subrange(i as int, n as int).drop_first() =~= s@.subrange(i + 1, n as int));
        i = i + 1;
    }
    proof {
        let rest = s@.subrange(i as int, n as int);
        if i < n {
            assert(rest[0] == s@[i as int]);
        }
    }
    let mut j: usize = n;
    while j > i && s.get_char(j - 1) == '"'
        invariant
            i <= j <= n,
            n == s@.len(),
            skip_leading_quotes(s@) == s@.subrange(i as int, n as int),
            unquoted(s@) == skip_trailing_quotes(s@.subrange(i as int, j as int)),
        decreases j - i,
    {
        assert(s@.subrange(i as int, j as int).drop_last() =~= s@.subrange(i as int, j - 1));
        j = j - 1;
    }
    proof {
        let core = s@.subrange(i as int, j as int);
        if i < j {
            assert(core.last() == s@[j - 1]);
        }
    }
    s.substring_char(i, j).to_owned()
}

/// The arguments that create project `name`, with version control turned
/// off when `disable_vcs` holds.
pub fn creation_command_args(name: &str, disable_vcs: bool) -> (r: Vec<String>)
    ensures
        strings_model(r@) == creation_args(name@, disable_vcs),
{
    let mut args = vec!["new".to_owned(), name.to_owned()];
    if disable_vcs {
        args.push("--vcs".to_owned());
        args.push("none".to_owned());
    }
    assert(strings_model(args@) =~= creation_args(name@, disable_vcs));
    args
}

/// Reads the project name and the version-control switch from the
/// positional values.
pub fn init_request(positional: Option<&Vec<String>>) -> (r: Result<(String, bool), MvpError>)
    ensures
        ({
            let values = match positional {
                None => Seq::<Seq<char>>::empty(),
                Some(v) => strings_model(v@),
            };
            if values.len() == 0 {
                r is Err && r->Err_0@ == ErrorModel::Custom("Project name is required"@)
            } else {
                r is Ok && r->Ok_0.0@ == unquoted(values[0]) && r->Ok_0.1 == vcs_disabled(values)
            }
        }),
{
    match positional {
        None => Err(MvpError::custom("Project name is required")),
        Some(values) => {
            if values.len() == 0 {
                return Err(MvpError::custom("Project name is required"));
            }
            let name = trim_quotes(values[0].as_str());
            let mut off = false;
            if values.len() > 1 {
                let second = trim_quotes(values[1].as_str());
                off = second == "n".to_owned();
            }
            Ok((name, off))
        },
    }
}

/// Creates a project named by the first positional value, enters it, and
/// unless version control is off, lays down the default scaffold in it.
#[derive(PartialEq, Eq, Structural, Clone, Copy)]
pub struct InitStrategy;

impl AddStrategy for InitStrategy {
    open spec fn spec_name(&self) -> Seq<char> {
        "init"@
    }

    open spec fn recipe(&self, positional: Option<Seq<Seq<char>>>) -> Result<
        Seq<StepModel>,
        ErrorModel,
    > {
        init_recipe(positional)
    }

    fn name(&self) -> (r: &'static str) {
        "init"
    }

    fn steps(&self, ctx: &ExecutionContext) -> (r: Result<Vec<Step>, MvpError>) {
        let (name, off) = match init_request(ctx.positional_values()) {
            Ok(req) => req,
            Err(e) => return Err(e),
        };
        let create = Step::CreateProject {
            program: "cargo".to_owned(),
            args: creation_command_args(name.as_str(), off),
            dir: name,
        };
        let mut steps = vec![create];
        if !off {
            let composite = Composite::default();
            proof {
                lemma_default_members_recipe(ctx.positional());
            }
            match composite.steps(ctx) {
                Ok(mut more) => {
                    steps.append(&mut more);
                },
                Err(e) => return Err(e),
            }
        }
        assert(steps_model(steps@) =~= init_recipe(ctx.positional())->Ok_0);
        Ok(steps)
    }
}

} // verus!
