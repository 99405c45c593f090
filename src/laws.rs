use vstd::prelude::*;

use crate::composite::default_composite_recipe;
use crate::error::{ErrorModel, MvpError};
use crate::init::{creation_args, creation_step, init_recipe, unquoted, values_of, vcs_disabled};
use crate::plan::{
    assembled_effects, assembled_outcome, effects_model, emitted, fails_at, lemma_ran_follows, ran,
    renders_fit, step_action, yields, Action, Plan, PlanModel, StepModel,
};
use crate::templates::{TemplateStore, VarValue};
use crate::registry::{lemma_lookup_in, AddStrategyFactory};
use crate::strategy::{fmt_recipe, handled, lic_recipe, md_recipe, vscode_recipe, AddStrategy};

verus! {

/// The files under the working directory, by path, after carrying out
/// `actions` from `files`. Directory creation leaves the files as they are;
/// project creation is not modelled here, as it moves to another directory.
pub open spec fn apply_actions(files: Map<Seq<char>, Seq<char>>, actions: Seq<Action>) -> Map<
    Seq<char>,
    Seq<char>,
>
    decreases actions.len(),
{
    if actions.len() == 0 {
        files
    } else {
        let before = apply_actions(files, actions.drop_last());
        match actions.last() {
            Action::Write(p, c) => before.insert(p, c),
            Action::Append(p, c) => before.insert(p, file_text(before, p) + c),
            _ => before,
        }
    }
}

/// The text of file `p`; a missing file reads as empty.
pub open spec fn file_text(files: Map<Seq<char>, Seq<char>>, p: Seq<char>) -> Seq<char> {
    if files.contains_key(p) {
        files[p]
    } else {
        Seq::empty()
    }
}

/// Looking up any registered name in a well-formed registry yields a handler
/// whose own name is that name.
pub proof fn lemma_lookup_returns_named_handler(reg: AddStrategyFactory, k: Seq<char>)
    requires
        reg.wf(),
        reg.names().contains(k),
    ensures
        reg.lookup(k) is Some,
        reg.lookup(k)->0.spec_name() == k,
{
    lemma_lookup_in(reg.entries(), k);
    let i = choose|i: int| 0 <= i < reg.entries().len() && #[trigger] reg.entries()[i].spec_name() == k;
}

/// A run stops no later than the first rendering step whose template the
/// store lacks: nothing of that step or of any later one is carried out, and
/// the run fails with a rendering error.
pub proof fn lemma_run_stops_at_missing_template(
    plan: PlanModel,
    steps: Seq<StepModel>,
    names: Set<Seq<char>>,
    k: int,
)
    requires
        plan.follows(steps, names),
        0 <= k < steps.len(),
        steps[k] is Emit,
        !names.contains(steps[k]->Emit_0),
    ensures
        plan.effects.len() <= k,
        plan.outcome == Err::<(), ErrorModel>(ErrorModel::Template),
{
    if plan.effects.len() > k {
        assert(yields(steps[k], plan.effects[k], names));
    }
}

/// `a` writes or appends to the file `p`.
pub open spec fn writes_to(a: Action, p: Seq<char>) -> bool {
    match a {
        Action::Write(q, _) => q == p,
        Action::Append(q, _) => q == p,
        _ => false,
    }
}

/// Carrying out `actions` never removes a file, and leaves every file that
/// one of them writes or appends to in place.
pub proof fn lemma_apply_keeps_written(
    files: Map<Seq<char>, Seq<char>>,
    actions: Seq<Action>,
    j: int,
    p: Seq<char>,
)
    requires
        0 <= j < actions.len(),
        writes_to(actions[j], p),
    ensures
        apply_actions(files, actions).contains_key(p),
    decreases actions.len(),
{
    if j < actions.len() - 1 {
        let rest = actions.drop_last();
        assert(rest[j] == actions[j]);
        lemma_apply_keeps_written(files, rest, j, p);
    }
}

/// A run stops at the first step whose render failed: every earlier step
/// yields its effect, no later step yields anything, and the failure is
/// passed on unchanged.
pub proof fn lemma_first_failure_propagates(
    steps: Seq<StepModel>,
    renders: Seq<Result<String, MvpError>>,
    k: int,
)
    requires
        renders.len() == steps.len(),
        0 <= k < steps.len(),
        fails_at(steps[k], renders[k]),
        forall|j: int| 0 <= j < k ==> !fails_at(#[trigger] steps[j], renders[j]),
    ensures
        assembled_effects(steps, renders).len() == k,
        forall|j: int|
            0 <= j < k ==> #[trigger] assembled_effects(steps, renders)[j] == step_action(
                steps[j],
                renders[j],
            ),
        assembled_outcome(steps, renders) == Err::<(), MvpError>(renders[k]->Err_0),
    decreases k,
{
    if k > 0 {
        let s2 = steps.drop_first();
        let r2 = renders.drop_first();
        assert(!fails_at(steps[0], renders[0]));
        assert forall|j: int| 0 <= j < k - 1 implies !fails_at(#[trigger] s2[j], r2[j]) by {
            assert(s2[j] == steps[j + 1] && r2[j] == renders[j + 1]);
            assert(!fails_at(steps[j + 1], renders[j + 1]));
        }
        assert(s2[k - 1] == steps[k] && r2[k - 1] == renders[k]);
        lemma_first_failure_propagates(s2, r2, k - 1);
        let e = assembled_effects(steps, renders);
        assert forall|j: int| 0 <= j < k implies #[trigger] e[j] == step_action(
            steps[j],
            renders[j],
        ) by {
            if j > 0 {
                assert(e[j] == assembled_effects(s2, r2)[j - 1]);
                assert(s2[j - 1] == steps[j] && r2[j - 1] == renders[j]);
            }
        }
    }
}

/// When no render fails, the run succeeds and every step yields its effect,
/// with the rendered text for a rendering step.
pub proof fn lemma_all_rendered_succeeds(
    steps: Seq<StepModel>,
    renders: Seq<Result<String, MvpError>>,
)
    requires
        renders.len() == steps.len(),
        forall|j: int| 0 <= j < steps.len() ==> !fails_at(#[trigger] steps[j], renders[j]),
    ensures
        assembled_effects(steps, renders).len() == steps.len(),
        forall|j: int|
            0 <= j < steps.len() ==> #[trigger] assembled_effects(steps, renders)[j]
                == step_action(steps[j], renders[j]),
        assembled_outcome(steps, renders) == Ok::<(), MvpError>(()),
    decreases steps.len(),
{
    if steps.len() > 0 {
        let s2 = steps.drop_first();
        let r2 = renders.drop_first();
        assert(!fails_at(steps[0], renders[0]));
        assert forall|j: int| 0 <= j < s2.len() implies !fails_at(#[trigger] s2[j], r2[j]) by {
            assert(s2[j] == steps[j + 1] && r2[j] == renders[j + 1]);
            assert(!fails_at(steps[j + 1], renders[j + 1]));
        }
        lemma_all_rendered_succeeds(s2, r2);
        let e = assembled_effects(steps, renders);
        assert forall|j: int| 0 <= j < steps.len() implies #[trigger] e[j] == step_action(
            steps[j],
            renders[j],
        ) by {
            if j > 0 {
                assert(e[j] == assembled_effects(s2, r2)[j - 1]);
                assert(s2[j - 1] == steps[j] && r2[j - 1] == renders[j]);
            }
        }
    }
}

/// The default composite runs the editor settings first, then the formatter
/// configuration, then the readme, then the ignore file; when the store
/// lacks the formatter template, the run fails with a rendering error and
/// only the editor-settings effects can have been produced.
pub proof fn lemma_composite_halts_before_readme(
    plan: Plan,
    store: TemplateStore,
    vars: Map<Seq<char>, VarValue>,
)
    requires
        ran(plan, default_composite_recipe(), store, vars),
        !store.names().contains("rustfmt.toml"@),
    ensures
        plan.effects@.len() <= vscode_recipe().len(),
        plan.outcome is Err,
        plan.outcome->Err_0 is Tera,
{
    let steps = default_composite_recipe();
    let k = vscode_recipe().len() as int;
    assert(steps[k] == fmt_recipe()[0]);
    lemma_ran_follows(plan, steps, store, vars);
    lemma_run_stops_at_missing_template(plan@, steps, store.names(), k);
}

/// Step `s` fails when run against `store` and `vars`: its template does
/// not render.
pub open spec fn fails_in(store: TemplateStore, vars: Map<Seq<char>, VarValue>, s: StepModel) -> bool {
    s is Emit && store.render_result(s->Emit_0, vars) is None
}

/// The effect of step `s` run against `store` and `vars`, where it does not
/// fail: for a rendering step, its rendered text written to its target.
pub open spec fn expected_action(
    store: TemplateStore,
    vars: Map<Seq<char>, VarValue>,
    s: StepModel,
) -> Action {
    match s {
        StepModel::MakeDir(p) => Action::MakeDir(p),
        StepModel::Emit(t, p, m) => emitted(p, m, store.render_result(t, vars)->0),
        StepModel::CreateProject(prog, args, dir) => Action::CreateProject(prog, args, dir),
    }
}

/// What a run yields, for any render results: one effect per step up to the
/// first failed render, where it stops with that render's error, or success
/// when none failed.
pub proof fn lemma_assembled_prefix(steps: Seq<StepModel>, renders: Seq<Result<String, MvpError>>)
    requires
        renders.len() == steps.len(),
    ensures
        assembled_effects(steps, renders).len() <= steps.len(),
        forall|j: int|
            0 <= j < assembled_effects(steps, renders).len() ==> !fails_at(
                steps[j],
                renders[j],
            ) && #[trigger] assembled_effects(steps, renders)[j] == step_action(
                steps[j],
                renders[j],
            ),
        assembled_effects(steps, renders).len() < steps.len() ==> fails_at(
            steps[assembled_effects(steps, renders).len() as int],
            renders[assembled_effects(steps, renders).len() as int],
        ) && assembled_outcome(steps, renders) == Err::<(), MvpError>(
            renders[assembled_effects(steps, renders).len() as int]->Err_0,
        ),
        assembled_effects(steps, renders).len() == steps.len() ==> assembled_outcome(
            steps,
            renders,
        ) is Ok,
    decreases steps.len(),
{
    if steps.len() > 0 && !fails_at(steps[0], renders[0]) {
        let s2 = steps.drop_first();
        let r2 = renders.drop_first();
        lemma_assembled_prefix(s2, r2);
        let e = assembled_effects(steps, renders);
        let e2 = assembled_effects(s2, r2);
        assert(e == seq![step_action(steps[0], renders[0])] + e2);
        assert forall|j: int| 0 <= j < e.len() implies !fails_at(steps[j], renders[j]) && #[trigger] e[j]
            == step_action(steps[j], renders[j]) by {
            if j > 0 {
                assert(e[j] == e2[j - 1]);
                assert(s2[j - 1] == steps[j] && r2[j - 1] == renders[j]);
            }
        }
        if e.len() < steps.len() {
            assert(s2[e2.len() as int] == steps[e.len() as int]);
            assert(r2[e2.len() as int] == renders[e.len() as int]);
        }
    }
}

/// A run of `steps` against `store` and `vars` is exact: every effect is
/// the step's own, with the rendered text; when no template fails to render
/// the run succeeds with one effect per step; and it stops exactly at the
/// first step whose template fails, with a rendering error, keeping the
/// effects before it.
pub proof fn lemma_ran_exact(
    plan: Plan,
    steps: Seq<StepModel>,
    store: TemplateStore,
    vars: Map<Seq<char>, VarValue>,
)
    requires
        ran(plan, steps, store, vars),
    ensures
        plan.effects@.len() <= steps.len(),
        forall|j: int|
            0 <= j < plan.effects@.len() ==> #[trigger] effects_model(plan.effects@)[j]
                == expected_action(store, vars, steps[j]),
        (forall|j: int| 0 <= j < steps.len() ==> !fails_in(store, vars, #[trigger] steps[j]))
            ==> plan.outcome is Ok && plan.effects@.len() == steps.len(),
        forall|k: int|
            0 <= k < steps.len() && #[trigger] fails_in(store, vars, steps[k]) && (forall|j: int|
                0 <= j < k ==> !fails_in(store, vars, #[trigger] steps[j])) ==> plan.effects@.len()
                == k && plan.outcome is Err && plan.outcome->Err_0 is Tera,
{
    let renders = choose|renders: Seq<Result<String, MvpError>>|
        #[trigger] renders_fit(steps, renders, store, vars) && effects_model(plan.effects@)
            == assembled_effects(steps, renders) && plan.outcome == assembled_outcome(
            steps,
            renders,
        );
    lemma_assembled_prefix(steps, renders);
    assert forall|j: int| 0 <= j < steps.len() implies fails_at(steps[j], renders[j]) == fails_in(
        store,
        vars,
        #[trigger] steps[j],
    ) && (!fails_at(steps[j], renders[j]) ==> step_action(steps[j], renders[j])
        == expected_action(store, vars, steps[j])) by {
        if steps[j] is Emit {
            assert(renders[j] == renders[j]);
        }
    }
    let n = assembled_effects(steps, renders).len();
    assert(effects_model(plan.effects@).len() == plan.effects@.len());
    assert forall|j: int| 0 <= j < plan.effects@.len() implies #[trigger] effects_model(
        plan.effects@,
    )[j] == expected_action(store, vars, steps[j]) by {
        assert(effects_model(plan.effects@)[j] == assembled_effects(steps, renders)[j]);
    }
    if n < steps.len() {
        assert(fails_in(store, vars, steps[n as int]));
        assert(renders[n as int] == renders[n as int]);
    }
    assert forall|k: int|
        0 <= k < steps.len() && #[trigger] fails_in(store, vars, steps[k]) && (forall|j: int|
            0 <= j < k ==> !fails_in(store, vars, #[trigger] steps[j])) implies plan.effects@.len()
        == k && plan.outcome is Err && plan.outcome->Err_0 is Tera by {
        if n < k {
            let m = n as int;
            assert(fails_at(steps[m], renders[m]));
            assert(steps[m] is Emit && renders[m] is Err);
            assert(store.render_result(steps[m]->Emit_0, vars) is None);
            assert(fails_in(store, vars, steps[m]));
        }
        if n > k {
            assert(assembled_effects(steps, renders)[k] == step_action(steps[k], renders[k]));
            assert(!fails_at(steps[k], renders[k]));
            assert(renders[k] is Err);
        }
        assert(renders[k] == renders[k]);
    }
}

proof fn lemma_md_twice_rendered(
    files: Map<Seq<char>, Seq<char>>,
    first: Seq<Result<String, MvpError>>,
    second: Seq<Result<String, MvpError>>,
)
    requires
        first.len() == 1 && first[0] is Ok,
        second.len() == 1 && second[0] is Ok,
    ensures
        assembled_outcome(md_recipe(), first) is Ok,
        assembled_outcome(md_recipe(), second) is Ok,
        apply_actions(
            apply_actions(files, assembled_effects(md_recipe(), first)),
            assembled_effects(md_recipe(), second),
        ) == files.insert("README.md"@, second[0]->Ok_0@),
{
    lemma_md_once(files, first);
    lemma_md_once(files.insert("README.md"@, first[0]->Ok_0@), second);
    assert(files.insert("README.md"@, first[0]->Ok_0@).insert("README.md"@, second[0]->Ok_0@)
        =~= files.insert("README.md"@, second[0]->Ok_0@));
}

proof fn lemma_md_once(files: Map<Seq<char>, Seq<char>>, renders: Seq<Result<String, MvpError>>)
    requires
        renders.len() == 1 && renders[0] is Ok,
    ensures
        assembled_outcome(md_recipe(), renders) is Ok,
        apply_actions(files, assembled_effects(md_recipe(), renders)) == files.insert(
            "README.md"@,
            renders[0]->Ok_0@,
        ),
{
    let steps = md_recipe();
    lemma_all_rendered_succeeds(steps, renders);
    let e = assembled_effects(steps, renders);
    assert(e[0] == step_action(steps[0], renders[0]));
    assert(e.drop_last() =~= Seq::<Action>::empty());
    assert(apply_actions(files, e.drop_last()) == files);
}

proof fn lemma_lic_twice_rendered(
    files: Map<Seq<char>, Seq<char>>,
    first: Seq<Result<String, MvpError>>,
    second: Seq<Result<String, MvpError>>,
)
    requires
        first.len() == 3 && first[0] is Ok && first[1] is Ok && first[2] is Ok,
        second.len() == 3 && second[0] is Ok && second[1] is Ok && second[2] is Ok,
    ensures
        assembled_outcome(lic_recipe(), first) is Ok,
        assembled_outcome(lic_recipe(), second) is Ok,
        ({
            let after = apply_actions(
                apply_actions(files, assembled_effects(lic_recipe(), first)),
                assembled_effects(lic_recipe(), second),
            );
            &&& after["README.md"@] == file_text(files, "README.md"@) + first[2]->Ok_0@
                + second[2]->Ok_0@
            &&& after["LICENSE-APACHE"@] == second[0]->Ok_0@
            &&& after["LICENSE-MIT"@] == second[1]->Ok_0@
        }),
{
    lemma_lic_once(files, first);
    let mid = apply_actions(files, assembled_effects(lic_recipe(), first));
    lemma_lic_once(mid, second);
    lemma_license_names_distinct();
}

proof fn lemma_license_names_distinct()
    ensures
        "LICENSE-APACHE"@ != "LICENSE-MIT"@,
        "LICENSE-APACHE"@ != "README.md"@,
        "LICENSE-MIT"@ != "README.md"@,
{
    reveal_strlit("LICENSE-APACHE");
    reveal_strlit("LICENSE-MIT");
    reveal_strlit("README.md");
    assert("LICENSE-APACHE"@.len() == 14);
    assert("LICENSE-MIT"@.len() == 11);
    assert("README.md"@.len() == 9);
}

proof fn lemma_lic_once(files: Map<Seq<char>, Seq<char>>, renders: Seq<Result<String, MvpError>>)
    requires
        renders.len() == 3 && renders[0] is Ok && renders[1] is Ok && renders[2] is Ok,
    ensures
        assembled_outcome(lic_recipe(), renders) is Ok,
        ({
            let after = apply_actions(files, assembled_effects(lic_recipe(), renders));
            &&& after.contains_key("README.md"@)
            &&& after["README.md"@] == file_text(files, "README.md"@) + renders[2]->Ok_0@
            &&& after["LICENSE-APACHE"@] == renders[0]->Ok_0@
            &&& after["LICENSE-MIT"@] == renders[1]->Ok_0@
        }),
{
    let steps = lic_recipe();
    assert forall|j: int| 0 <= j < steps.len() implies !fails_at(#[trigger] steps[j], renders[j]) by {}
    lemma_all_rendered_succeeds(steps, renders);
    lemma_license_names_distinct();
    let e = assembled_effects(steps, renders);
    assert(e[0] == Action::Write("LICENSE-APACHE"@, renders[0]->Ok_0@));
    assert(e[1] == Action::Write("LICENSE-MIT"@, renders[1]->Ok_0@));
    assert(e[2] == Action::Append("README.md"@, renders[2]->Ok_0@));
    assert(e.drop_last().drop_last().drop_last() =~= Seq::<Action>::empty());
    assert(apply_actions(files, e.drop_last().drop_last().drop_last()) == files);
    let f1 = apply_actions(files, e.drop_last().drop_last());
    assert(f1 == files.insert("LICENSE-APACHE"@, renders[0]->Ok_0@));
    let f2 = apply_actions(files, e.drop_last());
    assert(f2 == f1.insert("LICENSE-MIT"@, renders[1]->Ok_0@));
    assert(file_text(f2, "README.md"@) == file_text(files, "README.md"@));
}

/// The render results that built a plan run against `store` and `vars`.
proof fn renders_of(
    plan: Plan,
    steps: Seq<StepModel>,
    store: TemplateStore,
    vars: Map<Seq<char>, VarValue>,
) -> (renders: Seq<Result<String, MvpError>>)
    requires
        ran(plan, steps, store, vars),
    ensures
        renders_fit(steps, renders, store, vars),
        effects_model(plan.effects@) == assembled_effects(steps, renders),
        plan.outcome == assembled_outcome(steps, renders),
{
    choose|renders: Seq<Result<String, MvpError>>|
        #[trigger] renders_fit(steps, renders, store, vars) && effects_model(plan.effects@)
            == assembled_effects(steps, renders) && plan.outcome == assembled_outcome(
            steps,
            renders,
        )
}

/// Running `md` twice, where `README.md` renders both times, succeeds both
/// times and leaves `README.md` holding exactly the second rendered text,
/// with every other file as it was: the readme is overwritten.
pub proof fn lemma_md_twice_overwrites(
    files: Map<Seq<char>, Seq<char>>,
    first: Plan,
    second: Plan,
    store1: TemplateStore,
    vars1: Map<Seq<char>, VarValue>,
    store2: TemplateStore,
    vars2: Map<Seq<char>, VarValue>,
)
    requires
        ran(first, md_recipe(), store1, vars1),
        ran(second, md_recipe(), store2, vars2),
        store1.render_result("README.md"@, vars1) is Some,
        store2.render_result("README.md"@, vars2) is Some,
    ensures
        first.outcome is Ok,
        second.outcome is Ok,
        apply_actions(apply_actions(files, effects_model(first.effects@)), effects_model(
            second.effects@,
        )) == files.insert("README.md"@, store2.render_result("README.md"@, vars2)->0),
{
    let steps = md_recipe();
    let r1 = renders_of(first, steps, store1, vars1);
    let r2 = renders_of(second, steps, store2, vars2);
    assert(r1[0] == r1[0] && r2[0] == r2[0]);
    lemma_md_twice_rendered(files, r1, r2);
}

/// Running `lic` twice, where its three templates render both times,
/// succeeds both times and leaves `README.md` holding what it held before,
/// then the first rendered notice, then the second: the notice is appended,
/// never overwritten; the licence files hold the second rendered texts.
pub proof fn lemma_lic_twice_appends(
    files: Map<Seq<char>, Seq<char>>,
    first: Plan,
    second: Plan,
    store1: TemplateStore,
    vars1: Map<Seq<char>, VarValue>,
    store2: TemplateStore,
    vars2: Map<Seq<char>, VarValue>,
)
    requires
        ran(first, lic_recipe(), store1, vars1),
        ran(second, lic_recipe(), store2, vars2),
        store1.render_result("LICENSE-APACHE"@, vars1) is Some,
        store1.render_result("LICENSE-MIT"@, vars1) is Some,
        store1.render_result("LICENSE.md"@, vars1) is Some,
        store2.render_result("LICENSE-APACHE"@, vars2) is Some,
        store2.render_result("LICENSE-MIT"@, vars2) is Some,
        store2.render_result("LICENSE.md"@, vars2) is Some,
    ensures
        first.outcome is Ok,
        second.outcome is Ok,
        ({
            let after = apply_actions(
                apply_actions(files, effects_model(first.effects@)),
                effects_model(second.effects@),
            );
            &&& after["README.md"@] == file_text(files, "README.md"@) + store1.render_result(
                "LICENSE.md"@,
                vars1,
            )->0 + store2.render_result("LICENSE.md"@, vars2)->0
            &&& after["LICENSE-APACHE"@] == store2.render_result("LICENSE-APACHE"@, vars2)->0
            &&& after["LICENSE-MIT"@] == store2.render_result("LICENSE-MIT"@, vars2)->0
        }),
{
    let steps = lic_recipe();
    let r1 = renders_of(first, steps, store1, vars1);
    let r2 = renders_of(second, steps, store2, vars2);
    assert(r1[0] == r1[0] && r1[1] == r1[1] && r1[2] == r1[2]);
    assert(r2[0] == r2[0] && r2[1] == r2[1] && r2[2] == r2[2]);
    lemma_lic_twice_rendered(files, r1, r2);
}

/// Init with a project name and version control left on, where every
/// template renders: it creates the project named by the unquoted first
/// value and succeeds with the editor settings, editor tasks, formatter
/// configuration, readme and ignore file written in the new project, each
/// holding its rendered text.
pub proof fn lemma_init_scaffolds(
    plan: Plan,
    values: Seq<Seq<char>>,
    store: TemplateStore,
    vars: Map<Seq<char>, VarValue>,
    files: Map<Seq<char>, Seq<char>>,
)
    requires
        values.len() >= 1,
        !vcs_disabled(values),
        handled(init_recipe(Some(values)), plan, store, vars),
        forall|j: int|
            0 <= j < init_recipe(Some(values))->Ok_0.len() ==> !fails_in(
                store,
                vars,
                #[trigger] init_recipe(Some(values))->Ok_0[j],
            ),
    ensures
        ({
            let effects = effects_model(plan.effects@);
            let after = apply_actions(files, effects);
            &&& plan.outcome is Ok
            &&& effects.len() == 7
            &&& effects[0] == Action::CreateProject(
                "cargo"@,
                creation_args(unquoted(values[0]), false),
                unquoted(values[0]),
            )
            &&& effects[2] == Action::Write(
                ".vscode/settings.json"@,
                store.render_result("vscode/settings.json"@, vars)->0,
            )
            &&& effects[3] == Action::Write(
                ".vscode/tasks.json"@,
                store.render_result("vscode/tasks.json"@, vars)->0,
            )
            &&& effects[4] == Action::Write(
                "rustfmt.toml"@,
                store.render_result("rustfmt.toml"@, vars)->0,
            )
            &&& effects[5] == Action::Write(
                "README.md"@,
                store.render_result("README.md"@, vars)->0,
            )
            &&& effects[6] == Action::Write(
                ".gitignore"@,
                store.render_result(".gitignore"@, vars)->0,
            )
            &&& after.contains_key(".vscode/settings.json"@)
            &&& after.contains_key(".vscode/tasks.json"@)
            &&& after.contains_key("rustfmt.toml"@)
            &&& after.contains_key("README.md"@)
            &&& after.contains_key(".gitignore"@)
        }),
{
    let steps = init_recipe(Some(values))->Ok_0;
    lemma_ran_exact(plan, steps, store, vars);
    let effects = effects_model(plan.effects@);
    assert(steps.len() == 7);
    assert(effects[0] == expected_action(store, vars, steps[0]));
    assert(effects[2] == expected_action(store, vars, steps[2]));
    assert(effects[3] == expected_action(store, vars, steps[3]));
    assert(effects[4] == expected_action(store, vars, steps[4]));
    assert(effects[5] == expected_action(store, vars, steps[5]));
    assert(effects[6] == expected_action(store, vars, steps[6]));
    lemma_apply_keeps_written(files, effects, 2, ".vscode/settings.json"@);
    lemma_apply_keeps_written(files, effects, 3, ".vscode/tasks.json"@);
    lemma_apply_keeps_written(files, effects, 4, "rustfmt.toml"@);
    lemma_apply_keeps_written(files, effects, 5, "README.md"@);
    lemma_apply_keeps_written(files, effects, 6, ".gitignore"@);
}

/// Init with a project name and the off token second: it only creates the
/// bare project, with version control turned off, succeeds, and writes no
/// file.
pub proof fn lemma_init_without_vcs(
    plan: Plan,
    values: Seq<Seq<char>>,
    store: TemplateStore,
    vars: Map<Seq<char>, VarValue>,
    files: Map<Seq<char>, Seq<char>>,
)
    requires
        values.len() >= 2,
        unquoted(values[1]) == "n"@,
        handled(init_recipe(Some(values)), plan, store, vars),
    ensures
        plan.outcome is Ok,
        effects_model(plan.effects@) == seq![
            Action::CreateProject(
                "cargo"@,
                seq!["new"@, unquoted(values[0]), "--vcs"@, "none"@],
                unquoted(values[0]),
            ),
        ],
        apply_actions(files, effects_model(plan.effects@)) == files,
{
    assert(vcs_disabled(values));
    assert(values_of(Some(values)) == values);
    assert(init_recipe(Some(values)) == Ok::<Seq<StepModel>, ErrorModel>(
        seq![creation_step(unquoted(values[0]), true)],
    ));
    let steps = init_recipe(Some(values))->Ok_0;
    assert(steps.len() == 1);
    lemma_ran_exact(plan, steps, store, vars);
    assert forall|j: int| 0 <= j < steps.len() implies !fails_in(store, vars, #[trigger] steps[j]) by {}
    let e = effects_model(plan.effects@);
    assert(e[0] == expected_action(store, vars, steps[0]));
    assert(e =~= seq![expected_action(store, vars, steps[0])]);
    assert(e.drop_last() =~= Seq::<Action>::empty());
    assert(apply_actions(files, e.drop_last()) == files);
}

/// Init without any positional value fails with the validation error and
/// yields no effect: no file is written and no command is run.
pub proof fn lemma_init_requires_name(
    plan: Plan,
    positional: Option<Seq<Seq<char>>>,
    store: TemplateStore,
    vars: Map<Seq<char>, VarValue>,
)
    requires
        handled(init_recipe(positional), plan, store, vars),
        values_of(positional).len() == 0,
    ensures
        plan.effects@.len() == 0,
        plan.outcome is Err,
        plan.outcome->Err_0@ == ErrorModel::Custom("Project name is required"@),
{
}

} // verus!
