use vstd::prelude::*;

use crate::error::{outcome_model, ErrorModel, MvpError};
use crate::templates::{ExecutionContext, TemplateStore, VarValue};

verus! {

/// How rendered text reaches its target file.
#[derive(PartialEq, Eq, Structural, Clone, Copy)]
pub enum WriteMode {
    /// The file is replaced by the text.
    Overwrite,
    /// The text is added at the end of the file, which is created if absent.
    Append,
}

/// One unit of work that a strategy asks for, in the order given.
pub enum Step {
    /// Make sure the directory `path` exists.
    MakeDir { path: String },
    /// Render `template` and store the text at `target`.
    Emit { template: String, target: String, mode: WriteMode },
    /// Run `program` with `args` to create a project, then enter `dir`.
    CreateProject { program: String, args: Vec<String>, dir: String },
}

/// The model of a step.
pub enum StepModel {
    MakeDir(Seq<char>),
    Emit(Seq<char>, Seq<char>, WriteMode),
    CreateProject(Seq<char>, Seq<Seq<char>>, Seq<char>),
}

/// The texts of a list of strings.
pub open spec fn strings_model(v: Seq<String>) -> Seq<Seq<char>> {
    v.map_values(|s: String| s@)
}

impl View for Step {
    type V = StepModel;

    open spec fn view(&self) -> StepModel {
        match self {
            Step::MakeDir { path } => StepModel::MakeDir(path@),
            Step::Emit { template, target, mode } => StepModel::Emit(template@, target@, *mode),
            Step::CreateProject { program, args, dir } => StepModel::CreateProject(
                program@,
                strings_model(args@),
                dir@,
            ),
        }
    }
}

/// The models of a list of steps.
pub open spec fn steps_model(v: Seq<Step>) -> Seq<StepModel> {
    v.map_values(|s: Step| s@)
}

/// One change to the filesystem or the process, to be carried out in order
/// by the caller of a strategy.
pub enum Effect {
    /// Create the directory `path` and its parents, where absent.
    MakeDir { path: String },
    /// Replace the file `path` by `content`.
    Write { path: String, content: String },
    /// Add `content` at the end of the file `path`, creating it if absent.
    Append { path: String, content: String },
    /// Run `program` with `args`; when it succeeds, enter `dir`.
    CreateProject { program: String, args: Vec<String>, dir: String },
}

/// The model of an effect.
pub enum Action {
    MakeDir(Seq<char>),
    Write(Seq<char>, Seq<char>),
    Append(Seq<char>, Seq<char>),
    CreateProject(Seq<char>, Seq<Seq<char>>, Seq<char>),
}

impl View for Effect {
    type V = Action;

    open spec fn view(&self) -> Action {
        match self {
            Effect::MakeDir { path } => Action::MakeDir(path@),
            Effect::Write { path, content } => Action::Write(path@, content@),
            Effect::Append { path, content } => Action::Append(path@, content@),
            Effect::CreateProject { program, args, dir } => Action::CreateProject(
                program@,
                strings_model(args@),
                dir@,
            ),
        }
    }
}

/// The models of a list of effects.
pub open spec fn effects_model(v: Seq<Effect>) -> Seq<Action> {
    v.map_values(|e: Effect| e@)
}

/// What running a strategy produced: the effects to carry out, in order, and
/// then the failure that stopped it, if any.
pub struct Plan {
    pub effects: Vec<Effect>,
    pub outcome: Result<(), MvpError>,
}

/// The model of a plan.
pub struct PlanModel {
    pub effects: Seq<Action>,
    pub outcome: Result<(), ErrorModel>,
}

impl View for Plan {
    type V = PlanModel;

    open spec fn view(&self) -> PlanModel {
        PlanModel { effects: effects_model(self.effects@), outcome: outcome_model(self.outcome) }
    }
}

/// The effect that a rendered step yields: `content` written to the target
/// in the step's mode.
pub open spec fn emitted(target: Seq<char>, mode: WriteMode, content: Seq<char>) -> Action {
    match mode {
        WriteMode::Overwrite => Action::Write(target, content),
        WriteMode::Append => Action::Append(target, content),
    }
}

/// `a` is an effect that step `s` may yield when the store holds `names`:
/// a rendering step yields only for a template that is held, and only into
/// its own target and mode; the other steps yield themselves.
pub open spec fn yields(s: StepModel, a: Action, names: Set<Seq<char>>) -> bool {
    match s {
        StepModel::MakeDir(p) => a == Action::MakeDir(p),
        StepModel::Emit(t, p, m) => names.contains(t) && exists|c: Seq<char>|
            a == #[trigger] emitted(p, m, c),
        StepModel::CreateProject(prog, args, dir) => a == Action::CreateProject(prog, args, dir),
    }
}

impl PlanModel {
    /// This plan is a run of `steps` against a store that holds `names`:
    /// each effect comes from the step at its own position; the run succeeds
    /// exactly when every step yielded, and otherwise stops at a rendering
    /// step with a rendering error.
    pub open spec fn follows(self, steps: Seq<StepModel>, names: Set<Seq<char>>) -> bool {
        &&& self.effects.len() <= steps.len()
        &&& forall|i: int|
            0 <= i < self.effects.len() ==> yields(steps[i], #[trigger] self.effects[i], names)
        &&& (self.outcome is Ok <==> self.effects.len() == steps.len())
        &&& self.outcome is Err ==> {
            &&& steps[self.effects.len() as int] is Emit
            &&& self.outcome->Err_0 == ErrorModel::Template
        }
    }
}

fn clone_strings(v: &Vec<String>) -> (r: Vec<String>)
    ensures
        r@ == v@,
{
    let mut r: Vec<String> = Vec::new();
    let mut i: usize = 0;
    while i < v.len()
        invariant
            i <= v@.len(),
            r@ == v@.subrange(0, i as int),
        decreases v@.len() - i,
    {
        r.push(v[i].clone());
        i = i + 1;
    }
    proof {
        assert(v@.subrange(0, v@.len() as int) =~= v@);
    }
    r
}

/// The effect of a rendering step whose template rendered to `rendered`:
/// its text written to the target in the step's mode, or the render's own
/// error, unchanged.
pub fn emit(target: &String, mode: WriteMode, rendered: Result<String, MvpError>) -> (r: Result<
    Effect,
    MvpError,
>)
    ensures
        match rendered {
            Ok(c) => r is Ok && r->Ok_0@ == emitted(target@, mode, c@),
            Err(e) => r == Err::<Effect, MvpError>(e),
        },
{
    match rendered {
        Ok(content) => match mode {
            WriteMode::Overwrite => Ok(Effect::Write { path: target.clone(), content }),
            WriteMode::Append => Ok(Effect::Append { path: target.clone(), content }),
        },
        Err(e) => Err(e),
    }
}

/// Step `s` stops the run: it renders, and its render failed.
pub open spec fn fails_at(s: StepModel, rendered: Result<String, MvpError>) -> bool {
    s is Emit && rendered is Err
}

/// The effect of step `s` that did not stop the run, given what its
/// template rendered to.
pub open spec fn step_action(s: StepModel, rendered: Result<String, MvpError>) -> Action {
    match s {
        StepModel::MakeDir(p) => Action::MakeDir(p),
        StepModel::Emit(t, p, m) => emitted(p, m, rendered->Ok_0@),
        StepModel::CreateProject(prog, args, dir) => Action::CreateProject(prog, args, dir),
    }
}

/// The effects of running `steps`, where `renders[i]` is what the template
/// of step `i` rendered to: one effect per step, up to the first step whose
/// render failed.
pub open spec fn assembled_effects(
    steps: Seq<StepModel>,
    renders: Seq<Result<String, MvpError>>,
) -> Seq<Action>
    decreases steps.len(),
{
    if steps.len() == 0 || fails_at(steps[0], renders[0]) {
        Seq::empty()
    } else {
        seq![step_action(steps[0], renders[0])] + assembled_effects(
            steps.drop_first(),
            renders.drop_first(),
        )
    }
}

/// The outcome of running `steps` with `renders`: the error of the first
/// failed render, unchanged, or success.
pub open spec fn assembled_outcome(
    steps: Seq<StepModel>,
    renders: Seq<Result<String, MvpError>>,
) -> Result<(), MvpError>
    decreases steps.len(),
{
    if steps.len() == 0 {
        Ok(())
    } else if fails_at(steps[0], renders[0]) {
        Err(renders[0]->Err_0)
    } else {
        assembled_outcome(steps.drop_first(), renders.drop_first())
    }
}

/// Builds the plan of `steps` from what each step's template rendered to:
/// `renders[i]` belongs to step `i`, and is not read for a step that does
/// not render.
pub fn assemble_plan(steps: &Vec<Step>, renders: Vec<Result<String, MvpError>>) -> (r: Plan)
    requires
        renders@.len() == steps@.len(),
    ensures
        effects_model(r.effects@) == assembled_effects(steps_model(steps@), renders@),
        r.outcome == assembled_outcome(steps_model(steps@), renders@),
{
    let ghost all = steps_model(steps@);
    let ghost orig = renders@;
    let ghost n = steps@.len() as int;
    let mut pending = renders;
    let mut effects: Vec<Effect> = Vec::new();
    let mut i: usize = 0;
    assert(all.subrange(0, n) =~= all);
    assert(orig.subrange(0, n) =~= orig);
    assert(effects_model(effects@) =~= Seq::<Action>::empty());
    while i < steps.len()
        invariant
            i <= n,
            n == steps@.len(),
            all == steps_model(steps@),
            orig.len() == n,
            orig == renders@,
            pending@ == orig.subrange(i as int, n),
            assembled_effects(all, orig) == effects_model(effects@) + assembled_effects(
                all.subrange(i as int, n),
                orig.subrange(i as int, n),
            ),
            assembled_outcome(all, orig) == assembled_outcome(
                all.subrange(i as int, n),
                orig.subrange(i as int, n),
            ),
        decreases n - i,
    {
        let ghost rest = all.subrange(i as int, n);
        let ghost rrest = orig.subrange(i as int, n);
        assert(rest[0] == steps@[i as int]@);
        assert(rest.drop_first() =~= all.subrange(i + 1, n));
        assert(rrest.drop_first() =~= orig.subrange(i + 1, n));
        let ghost before = effects@;
        let rendered = pending.remove(0);
        assert(rrest[0] == rendered);
        match &steps[i] {
            Step::MakeDir { path } => {
                effects.push(Effect::MakeDir { path: path.clone() });
            },
            Step::Emit { template, target, mode } => {
                match emit(target, *mode, rendered) {
                    Ok(e) => {
                        effects.push(e);
                    },
                    Err(e) => {
                        assert(rest.len() > 0);
                        assert(fails_at(rest[0], rrest[0]));
                        assert(rrest[0] == Err::<String, MvpError>(e));
                        assert(assembled_outcome(rest, rrest) == Err::<(), MvpError>(e));
                        assert(assembled_effects(rest, rrest) =~= Seq::<Action>::empty());
                        assert(effects_model(effects@) + Seq::<Action>::empty() =~= effects_model(
                            effects@,
                        ));
                        return Plan { effects, outcome: Err(e) };
                    },
                }
            },
            Step::CreateProject { program, args, dir } => {
                effects.push(
                    Effect::CreateProject {
                        program: program.clone(),
                        args: clone_strings(args),
                        dir: dir.clone(),
                    },
                );
            },
        }
        assert(effects_model(effects@) =~= effects_model(before).push(
            step_action(rest[0], rrest[0]),
        ));
        assert(effects_model(effects@) + assembled_effects(
            all.subrange(i + 1, n),
            orig.subrange(i + 1, n),
        ) =~= effects_model(before) + assembled_effects(rest, rrest));
        i = i + 1;
    }
    assert(all.subrange(i as int, n).len() == 0);
    assert(effects_model(effects@) + Seq::<Action>::empty() =~= effects_model(effects@));
    Plan { effects, outcome: Ok(()) }
}

/// `renders` is what `store` gives for `steps` against `vars`: one result
/// per step; for a rendering step, the text that rendering its template
/// yields, or a rendering error exactly where rendering fails.
pub open spec fn renders_fit(
    steps: Seq<StepModel>,
    renders: Seq<Result<String, MvpError>>,
    store: TemplateStore,
    vars: Map<Seq<char>, VarValue>,
) -> bool {
    &&& renders.len() == steps.len()
    &&& forall|i: int|
        0 <= i < steps.len() && steps[i] is Emit ==> {
            &&& ((#[trigger] renders[i]) is Ok <==> store.render_result(
                steps[i]->Emit_0,
                vars,
            ) is Some)
            &&& renders[i] is Ok ==> renders[i]->Ok_0@ == store.render_result(
                steps[i]->Emit_0,
                vars,
            )->0
            &&& renders[i] is Err ==> renders[i]->Err_0 is Tera
        }
}

/// `plan` is the plan of `steps` for what `store` renders against `vars`:
/// each rendering step writes exactly its rendered text, the run stops at the
/// first template that fails to render, with a rendering error, and succeeds
/// when none fails.
pub open spec fn ran(
    plan: Plan,
    steps: Seq<StepModel>,
    store: TemplateStore,
    vars: Map<Seq<char>, VarValue>,
) -> bool {
    exists|renders: Seq<Result<String, MvpError>>|
        #[trigger] renders_fit(steps, renders, store, vars) && effects_model(plan.effects@)
            == assembled_effects(steps, renders) && plan.outcome == assembled_outcome(
            steps,
            renders,
        )
}

/// Runs `steps` in order: renders the template of each rendering step
/// against `ctx`, then builds the plan from the results.
pub fn run_steps(store: &TemplateStore, ctx: &ExecutionContext, steps: &Vec<Step>) -> (r: Plan)
    requires
        store.wf(),
        ctx.wf(),
    ensures
        ran(r, steps_model(steps@), *store, ctx.vars()),
{
    let ghost all = steps_model(steps@);
    let mut renders: Vec<Result<String, MvpError>> = Vec::new();
    let mut i: usize = 0;
    while i < steps.len()
        invariant
            i <= steps@.len(),
            all == steps_model(steps@),
            store.wf(),
            ctx.wf(),
            renders@.len() == i,
            forall|j: int|
                0 <= j < i && all[j] is Emit ==> {
                    &&& ((#[trigger] renders@[j]) is Ok <==> store.render_result(
                        all[j]->Emit_0,
                        ctx.vars(),
                    ) is Some)
                    &&& renders@[j] is Ok ==> renders@[j]->Ok_0@ == store.render_result(
                        all[j]->Emit_0,
                        ctx.vars(),
                    )->0
                    &&& renders@[j] is Err ==> renders@[j]->Err_0 is Tera
                },
        decreases steps@.len() - i,
    {
        match &steps[i] {
            Step::Emit { template, .. } => {
                renders.push(store.render(template.as_str(), ctx));
            },
            _ => {
                renders.push(Ok(String::new()));
            },
        }
        i = i + 1;
    }
    let ghost given = renders@;
    assert(renders_fit(all, given, *store, ctx.vars()));
    assemble_plan(steps, renders)
}

/// A run with what a store renders follows the steps, against the names
/// the store holds.
pub proof fn lemma_assembled_follows(
    steps: Seq<StepModel>,
    renders: Seq<Result<String, MvpError>>,
    store: TemplateStore,
    vars: Map<Seq<char>, VarValue>,
)
    requires
        renders_fit(steps, renders, store, vars),
    ensures
        (PlanModel {
            effects: assembled_effects(steps, renders),
            outcome: outcome_model(assembled_outcome(steps, renders)),
        }).follows(steps, store.names()),
    decreases steps.len(),
{
    let names = store.names();
    if steps.len() > 0 {
        if steps[0] is Emit {
            assert(renders[0] == renders[0]);
        }
        if !fails_at(steps[0], renders[0]) {
            let s2 = steps.drop_first();
            let r2 = renders.drop_first();
            assert forall|i: int| 0 <= i < s2.len() && s2[i] is Emit implies {
                &&& ((#[trigger] r2[i]) is Ok <==> store.render_result(s2[i]->Emit_0, vars) is Some)
                &&& r2[i] is Ok ==> r2[i]->Ok_0@ == store.render_result(s2[i]->Emit_0, vars)->0
                &&& r2[i] is Err ==> r2[i]->Err_0 is Tera
            } by {
                assert(s2[i] == steps[i + 1] && r2[i] == renders[i + 1]);
            }
            lemma_assembled_follows(s2, r2, store, vars);
            let rest = assembled_effects(s2, r2);
            let effects = assembled_effects(steps, renders);
            let a0 = step_action(steps[0], renders[0]);
            assert(effects == seq![a0] + rest);
            match steps[0] {
                StepModel::Emit(t, p, m) => {
                    assert(a0 == emitted(p, m, renders[0]->Ok_0@));
                },
                _ => {},
            }
            assert(yields(steps[0], a0, names));
            assert forall|i: int| 0 <= i < effects.len() implies yields(
                steps[i],
                #[trigger] effects[i],
                names,
            ) by {
                if i > 0 {
                    assert(effects[i] == rest[i - 1]);
                    assert(steps[i] == s2[i - 1]);
                }
            }
            if assembled_outcome(steps, renders) is Err {
                assert(steps[effects.len() as int] == s2[rest.len() as int]);
            }
        }
    }
}

/// A plan run with what a store renders follows the steps, against the
/// names the store holds.
pub proof fn lemma_ran_follows(
    plan: Plan,
    steps: Seq<StepModel>,
    store: TemplateStore,
    vars: Map<Seq<char>, VarValue>,
)
    requires
        ran(plan, steps, store, vars),
    ensures
        plan@.follows(steps, store.names()),
{
    let renders = choose|renders: Seq<Result<String, MvpError>>|
        #[trigger] renders_fit(steps, renders, store, vars) && effects_model(plan.effects@)
            == assembled_effects(steps, renders) && plan.outcome == assembled_outcome(
            steps,
            renders,
        );
    lemma_assembled_follows(steps, renders, store, vars);
}

} // verus!
