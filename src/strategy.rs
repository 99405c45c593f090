use vstd::prelude::*;

use crate::error::{ErrorModel, MvpError};
use crate::plan::{ran, run_steps, steps_model, Plan, Step, StepModel, WriteMode};
use crate::templates::{ExecutionContext, TemplateStore, VarValue};

verus! {

/// What handling yields for a strategy whose recipe, on the context at hand,
/// is `recipe`: a rejected recipe fails at once with its error and no effect;
/// an accepted one is run: its steps against what `store` renders with
/// `vars`.
pub open spec fn handled(
    recipe: Result<Seq<StepModel>, ErrorModel>,
    plan: Plan,
    store: TemplateStore,
    vars: Map<Seq<char>, VarValue>,
) -> bool {
    match recipe {
        Ok(steps) => ran(plan, steps, store, vars),
        Err(e) => plan.effects@.len() == 0 && plan.outcome is Err && plan.outcome->Err_0@ == e,
    }
}

/// The model of a step list produced by a strategy.
pub open spec fn steps_result_model(r: Result<Vec<Step>, MvpError>) -> Result<
    Seq<StepModel>,
    ErrorModel,
> {
    match r {
        Ok(v) => Ok(steps_model(v@)),
        Err(e) => Err(e@),
    }
}

/// A named file-generation behaviour.
pub trait AddStrategy {
    /// The name under which the strategy is registered.
    spec fn spec_name(&self) -> Seq<char>;

    /// The steps the strategy takes, given the positional values of the
    /// context, or the validation failure it reports.
    spec fn recipe(&self, positional: Option<Seq<Seq<char>>>) -> Result<
        Seq<StepModel>,
        ErrorModel,
    >;

    fn name(&self) -> (r: &'static str)
        ensures
            r@ == self.spec_name(),
    ;

    fn steps(&self, ctx: &ExecutionContext) -> (r: Result<Vec<Step>, MvpError>)
        ensures
            steps_result_model(r) == self.recipe(ctx.positional()),
    ;

    /// Renders the strategy's templates and lists the changes to make.
    fn handle(&self, store: &TemplateStore, ctx: &ExecutionContext) -> (r: Plan)
        requires
            store.wf(),
            ctx.wf(),
        ensures
            handled(self.recipe(ctx.positional()), r, *store, ctx.vars()),
    {
        match self.steps(ctx) {
            Ok(steps) => run_steps(store, ctx, &steps),
            Err(e) => Plan { effects: Vec::new(), outcome: Err(e) },
        }
    }
}

/// A step that renders `template` into `target`.
pub open spec fn emit_step(template: Seq<char>, target: Seq<char>, mode: WriteMode) -> StepModel {
    StepModel::Emit(template, target, mode)
}

fn emit_step_of(template: &str, target: &str, mode: WriteMode) -> (r: Step)
    ensures
        r@ == emit_step(template@, target@, mode),
{
    Step::Emit { template: template.to_owned(), target: target.to_owned(), mode }
}

/// Writes `README.md` from the template of that name.
#[derive(PartialEq, Eq, Structural, Clone, Copy)]
pub struct MdStrategy;

/// Writes both licence files and appends the licence notice to `README.md`.
#[derive(PartialEq, Eq, Structural, Clone, Copy)]
pub struct LicStrategy;

/// Writes the editor settings and tasks under `.vscode`.
#[derive(PartialEq, Eq, Structural, Clone, Copy)]
pub struct VscodeStrategy;

/// Writes the formatter configuration `rustfmt.toml`.
#[derive(PartialEq, Eq, Structural, Clone, Copy)]
pub struct FmtStrategy;

/// Writes `.gitignore`.
#[derive(PartialEq, Eq, Structural, Clone, Copy)]
pub struct GitIgnoreStrategy;

/// The readme is rendered over `README.md`.
pub open spec fn md_recipe() -> Seq<StepModel> {
    seq![emit_step("README.md"@, "README.md"@, WriteMode::Overwrite)]
}

/// Both licence texts replace their files; the notice is added to the readme.
pub open spec fn lic_recipe() -> Seq<StepModel> {
    seq![
        emit_step("LICENSE-APACHE"@, "LICENSE-APACHE"@, WriteMode::Overwrite),
        emit_step("LICENSE-MIT"@, "LICENSE-MIT"@, WriteMode::Overwrite),
        emit_step("LICENSE.md"@, "README.md"@, WriteMode::Append),
    ]
}

/// The `.vscode` directory is made first, then its two files are written.
pub open spec fn vscode_recipe() -> Seq<StepModel> {
    seq![
        StepModel::MakeDir(".vscode"@),
        emit_step("vscode/settings.json"@, ".vscode/settings.json"@, WriteMode::Overwrite),
        emit_step("vscode/tasks.json"@, ".vscode/tasks.json"@, WriteMode::Overwrite),
    ]
}

/// The formatter configuration is rendered over `rustfmt.toml`.
pub open spec fn fmt_recipe() -> Seq<StepModel> {
    seq![emit_step("rustfmt.toml"@, "rustfmt.toml"@, WriteMode::Overwrite)]
}

/// The ignore file is rendered over `.gitignore`.
pub open spec fn gitignore_recipe() -> Seq<StepModel> {
    seq![emit_step(".gitignore"@, ".gitignore"@, WriteMode::Overwrite)]
}

impl AddStrategy for MdStrategy {
    open spec fn spec_name(&self) -> Seq<char> {
        "md"@
    }

    open spec fn recipe(&self, positional: Option<Seq<Seq<char>>>) -> Result<
        Seq<StepModel>,
        ErrorModel,
    > {
        Ok(md_recipe())
    }

    fn name(&self) -> (r: &'static str) {
        "md"
    }

    fn steps(&self, ctx: &ExecutionContext) -> (r: Result<Vec<Step>, MvpError>) {
        let v = vec![emit_step_of("README.md", "README.md", WriteMode::Overwrite)];
        assert(steps_model(v@) =~= md_recipe());
        Ok(v)
    }
}

impl AddStrategy for LicStrategy {
    open spec fn spec_name(&self) -> Seq<char> {
        "lic"@
    }

    open spec fn recipe(&self, positional: Option<Seq<Seq<char>>>) -> Result<
        Seq<StepModel>,
        ErrorModel,
    > {
        Ok(lic_recipe())
    }

    fn name(&self) -> (r: &'static str) {
        "lic"
    }

    fn steps(&self, ctx: &ExecutionContext) -> (r: Result<Vec<Step>, MvpError>) {
        let v = vec![
            emit_step_of("LICENSE-APACHE", "LICENSE-APACHE", WriteMode::Overwrite),
            emit_step_of("LICENSE-MIT", "LICENSE-MIT", WriteMode::Overwrite),
            emit_step_of("LICENSE.md", "README.md", WriteMode::Append),
        ];
        assert(steps_model(v@) =~= lic_recipe());
        Ok(v)
    }
}

impl AddStrategy for VscodeStrategy {
    open spec fn spec_name(&self) -> Seq<char> {
        "vscode"@
    }

    open spec fn recipe(&self, positional: Option<Seq<Seq<char>>>) -> Result<
        Seq<StepModel>,
        ErrorModel,
    > {
        Ok(vscode_recipe())
    }

    fn name(&self) -> (r: &'static str) {
        "vscode"
    }

    fn steps(&self, ctx: &ExecutionContext) -> (r: Result<Vec<Step>, MvpError>) {
        let v = vec![
            Step::MakeDir { path: ".vscode".to_owned() },
            emit_step_of("vscode/settings.json", ".vscode/settings.json", WriteMode::Overwrite),
            emit_step_of("vscode/tasks.json", ".vscode/tasks.json", WriteMode::Overwrite),
        ];
        assert(steps_model(v@) =~= vscode_recipe());
        Ok(v)
    }
}

impl AddStrategy for FmtStrategy {
    open spec fn spec_name(&self) -> Seq<char> {
        "fmt"@
    }

    open spec fn recipe(&self, positional: Option<Seq<Seq<char>>>) -> Result<
        Seq<StepModel>,
        ErrorModel,
    > {
        Ok(fmt_recipe())
    }

    fn name(&self) -> (r: &'static str) {
        "fmt"
    }

    fn steps(&self, ctx: &ExecutionContext) -> (r: Result<Vec<Step>, MvpError>) {
        let v = vec![emit_step_of("rustfmt.toml", "rustfmt.toml", WriteMode::Overwrite)];
        assert(steps_model(v@) =~= fmt_recipe());
        Ok(v)
    }
}

impl AddStrategy for GitIgnoreStrategy {
    open spec fn spec_name(&self) -> Seq<char> {
        "gi"@
    }

    open spec fn recipe(&self, positional: Option<Seq<Seq<char>>>) -> Result<
        Seq<StepModel>,
        ErrorModel,
    > {
        Ok(gitignore_recipe())
    }

    fn name(&self) -> (r: &'static str) {
        "gi"
    }

    fn steps(&self, ctx: &ExecutionContext) -> (r: Result<Vec<Step>, MvpError>) {
        let v = vec![emit_step_of(".gitignore", ".gitignore", WriteMode::Overwrite)];
        assert(steps_model(v@) =~= gitignore_recipe());
        Ok(v)
    }
}

/// One of the strategies that write files from templates.
#[derive(PartialEq, Eq, Structural, Clone, Copy)]
pub enum FileStrategy {
    Md(MdStrategy),
    Lic(LicStrategy),
    Vscode(VscodeStrategy),
    Fmt(FmtStrategy),
    GitIgnore(GitIgnoreStrategy),
}

impl AddStrategy for FileStrategy {
    open spec fn spec_name(&self) -> Seq<char> {
        match self {
            FileStrategy::Md(s) => s.spec_name(),
            FileStrategy::Lic(s) => s.spec_name(),
            FileStrategy::Vscode(s) => s.spec_name(),
            FileStrategy::Fmt(s) => s.spec_name(),
            FileStrategy::GitIgnore(s) => s.spec_name(),
        }
    }

    open spec fn recipe(&self, positional: Option<Seq<Seq<char>>>) -> Result<
        Seq<StepModel>,
        ErrorModel,
    > {
        match self {
            FileStrategy::Md(s) => s.recipe(positional),
            FileStrategy::Lic(s) => s.recipe(positional),
            FileStrategy::Vscode(s) => s.recipe(positional),
            FileStrategy::Fmt(s) => s.recipe(positional),
            FileStrategy::GitIgnore(s) => s.recipe(positional),
        }
    }

    fn name(&self) -> (r: &'static str) {
        match self {
            FileStrategy::Md(s) => s.name(),
            FileStrategy::Lic(s) => s.name(),
            FileStrategy::Vscode(s) => s.name(),
            FileStrategy::Fmt(s) => s.name(),
            FileStrategy::GitIgnore(s) => s.name(),
        }
    }

    fn steps(&self, ctx: &ExecutionContext) -> (r: Result<Vec<Step>, MvpError>) {
        match self {
            FileStrategy::Md(s) => s.steps(ctx),
            FileStrategy::Lic(s) => s.steps(ctx),
            FileStrategy::Vscode(s) => s.steps(ctx),
            FileStrategy::Fmt(s) => s.steps(ctx),
            FileStrategy::GitIgnore(s) => s.steps(ctx),
        }
    }
}

} // verus!
