use vstd::prelude::*;

use crate::error::{ErrorModel, MvpError};
use crate::plan::{run_steps, steps_model, Plan, Step, StepModel};
use crate::strategy::{
    fmt_recipe, gitignore_recipe, handled, md_recipe, steps_result_model, vscode_recipe,
    AddStrategy, FileStrategy, FmtStrategy, GitIgnoreStrategy, MdStrategy, VscodeStrategy,
};
use crate::templates::{ExecutionContext, TemplateStore};

verus! {

/// The steps of `members` taken one after another, or the failure of the
/// first member that rejects the context.
pub open spec fn members_recipe(members: Seq<FileStrategy>, positional: Option<Seq<Seq<char>>>) -> Result<
    Seq<StepModel>,
    ErrorModel,
>
    decreases members.len(),
{
    if members.len() == 0 {
        Ok(Seq::empty())
    } else {
        match members_recipe(members.drop_last(), positional) {
            Err(e) => Err(e),
            Ok(s) => match members.last().recipe(positional) {
                Err(e) => Err(e),
                Ok(t) => Ok(s + t),
            },
        }
    }
}

/// The members of the default composite: editor settings, formatter
/// configuration, readme, ignore file.
pub open spec fn default_members() -> Seq<FileStrategy> {
    seq![
        FileStrategy::Vscode(VscodeStrategy),
        FileStrategy::Fmt(FmtStrategy),
        FileStrategy::Md(MdStrategy),
        FileStrategy::GitIgnore(GitIgnoreStrategy),
    ]
}

/// The steps of the default composite.
pub open spec fn default_composite_recipe() -> Seq<StepModel> {
    vscode_recipe() + fmt_recipe() + md_recipe() + gitignore_recipe()
}

/// The default members, taken in order, give the default composite's steps.
pub proof fn lemma_default_members_recipe(positional: Option<Seq<Seq<char>>>)
    ensures
        members_recipe(default_members(), positional) == Ok::<Seq<StepModel>, ErrorModel>(
            default_composite_recipe(),
        ),
{
    let m = default_members();
    assert(m.drop_last().drop_last().drop_last().drop_last() =~= Seq::<FileStrategy>::empty());
    assert(Seq::<StepModel>::empty() + vscode_recipe() =~= vscode_recipe());
    reveal_with_fuel(members_recipe, 5);
}

/// A strategy made of other strategies, run in a fixed order.
pub struct Composite {
    strategies: Vec<FileStrategy>,
}

impl Default for Composite {
    fn default() -> (r: Composite)
        ensures
            r.members() == default_members(),
    {
        let strategies = vec![
            FileStrategy::Vscode(VscodeStrategy),
            FileStrategy::Fmt(FmtStrategy),
            FileStrategy::Md(MdStrategy),
            FileStrategy::GitIgnore(GitIgnoreStrategy),
        ];
        assert(strategies@ =~= default_members());
        Composite { strategies }
    }
}

impl Composite {
    /// The members, in the order they run.
    pub closed spec fn members(&self) -> Seq<FileStrategy> {
        self.strategies@
    }

    /// The steps of all members, in member order.
    pub open spec fn recipe(&self, positional: Option<Seq<Seq<char>>>) -> Result<
        Seq<StepModel>,
        ErrorModel,
    > {
        members_recipe(self.members(), positional)
    }

    /// A composite running `strategies` in the order given.
    pub fn new(strategies: Vec<FileStrategy>) -> (r: Composite)
        ensures
            r.members() == strategies@,
    {
        Composite { strategies }
    }

    /// The names of the members, in the order they run.
    pub fn member_names(&self) -> (r: Vec<&'static str>)
        ensures
            r@.len() == self.members().len(),
            forall|i: int| 0 <= i < r@.len() ==> #[trigger] r@[i]@ == self.members()[i].spec_name(),
    {
        let mut r: Vec<&'static str> = Vec::new();
        let mut i: usize = 0;
        while i < self.strategies.len()
            invariant
                i <= self.strategies@.len(),
                r@.len() == i,
                forall|j: int| 0 <= j < i ==> #[trigger] r@[j]@ == self.strategies@[j].spec_name(),
            decreases self.strategies@.len() - i,
        {
            r.push(self.strategies[i].name());
            i = i + 1;
        }
        r
    }

    /// The steps of every member, one member after another, or the failure of
    /// the first member that rejects the context.
    pub fn steps(&self, ctx: &ExecutionContext) -> (r: Result<Vec<Step>, MvpError>)
        ensures
            steps_result_model(r) == self.recipe(ctx.positional()),
    {
        let ghost pos = ctx.positional();
        let mut all: Vec<Step> = Vec::new();
        let mut i: usize = 0;
        assert(self.strategies@.subrange(0, 0) =~= Seq::<FileStrategy>::empty());
        assert(steps_model(all@) =~= Seq::<StepModel>::empty());
        while i < self.strategies.len()
            invariant
                i <= self.strategies@.len(),
                pos == ctx.positional(),
                members_recipe(self.strategies@.subrange(0, i as int), pos) == Ok::<
                    Seq<StepModel>,
                    ErrorModel,
                >(steps_model(all@)),
            decreases self.strategies@.len() - i,
        {
            let ghost prefix = self.strategies@.subrange(0, i as int);
            let ghost next = self.strategies@.subrange(0, i + 1);
            assert(next.drop_last() =~= prefix);
            assert(next.last() == self.strategies@[i as int]);
            match self.strategies[i].steps(ctx) {
                Err(e) => {
                    proof {
                        lemma_members_recipe_stops(self.strategies@, i as int, pos);
                    }
                    return Err(e);
                },
                Ok(mut more) => {
                    let ghost before = all@;
                    let ghost added = more@;
                    all.append(&mut more);
                    assert(steps_model(all@) =~= steps_model(before) + steps_model(added));
                },
            }
            i = i + 1;
        }
        assert(self.strategies@.subrange(0, self.strategies@.len() as int) =~= self.strategies@);
        Ok(all)
    }

    /// Runs every member in order against `store` and `ctx`, and stops at the
    /// first failure.
    pub fn handle(&self, store: &TemplateStore, ctx: &ExecutionContext) -> (r: Plan)
        requires
            store.wf(),
            ctx.wf(),
        ensures
            handled(self.recipe(ctx.positional()), r, *store, ctx.vars()),
    {
        match self.steps(ctx) {
            Ok(steps) => run_steps(store, ctx, &steps),
            Err(e) => Plan { effects: Vec::new(), outcome: Err(e) },
        }
    }
}

/// Once a member rejects the context, so does the whole list.
proof fn lemma_members_recipe_stops(
    members: Seq<FileStrategy>,
    i: int,
    positional: Option<Seq<Seq<char>>>,
)
    requires
        0 <= i < members.len(),
        members_recipe(members.subrange(0, i), positional) is Ok,
        members[i].recipe(positional) is Err,
    ensures
        members_recipe(members, positional) == Err::<Seq<StepModel>, ErrorModel>(
            members[i].recipe(positional)->Err_0,
        ),
    decreases members.len(),
{
    if members.len() == i + 1 {
        assert(members.drop_last() =~= members.subrange(0, i));
    } else {
        let shorter = members.drop_last();
        assert(shorter.subrange(0, i) =~= members.subrange(0, i));
        lemma_members_recipe_stops(shorter, i, positional);
    }
}

} // verus!
