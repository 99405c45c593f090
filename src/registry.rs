use vstd::prelude::*;

use crate::error::{ErrorModel, MvpError};
use crate::init::InitStrategy;
use crate::plan::{Step, StepModel};
use crate::strategy::{
    AddStrategy, FileStrategy, FmtStrategy, GitIgnoreStrategy, LicStrategy, MdStrategy,
    VscodeStrategy,
};
use crate::templates::ExecutionContext;

verus! {

/// A strategy that the registry can hand out.
#[derive(PartialEq, Eq, Structural, Clone, Copy)]
pub enum Handler {
    Init(InitStrategy),
    File(FileStrategy),
}

impl AddStrategy for Handler {
    open spec fn spec_name(&self) -> Seq<char> {
        match self {
            Handler::Init(s) => s.spec_name(),
            Handler::File(s) => s.spec_name(),
        }
    }

    open spec fn recipe(&self, positional: Option<Seq<Seq<char>>>) -> Result<
        Seq<StepModel>,
        ErrorModel,
    > {
        match self {
            Handler::Init(s) => s.recipe(positional),
            Handler::File(s) => s.recipe(positional),
        }
    }

    fn name(&self) -> (r: &'static str) {
        match self {
            Handler::Init(s) => s.name(),
            Handler::File(s) => s.name(),
        }
    }

    fn steps(&self, ctx: &ExecutionContext) -> (r: Result<Vec<Step>, MvpError>) {
        match self {
            Handler::Init(s) => s.steps(ctx),
            Handler::File(s) => s.steps(ctx),
        }
    }
}

/// No two handlers of `hs` share a name.
pub open spec fn unique_names(hs: Seq<Handler>) -> bool {
    forall|i: int, j: int|
        0 <= i < j < hs.len() ==> #[trigger] hs[i].spec_name() != #[trigger] hs[j].spec_name()
}

/// The names of the handlers of `hs`.
pub open spec fn names_of(hs: Seq<Handler>) -> Set<Seq<char>> {
    Set::new(|k: Seq<char>| exists|i: int| 0 <= i < hs.len() && #[trigger] hs[i].spec_name() == k)
}

/// The handler of `hs` registered under `k`, if any.
pub open spec fn lookup_in(hs: Seq<Handler>, k: Seq<char>) -> Option<Handler>
    decreases hs.len(),
{
    if hs.len() == 0 {
        None
    } else if hs.last().spec_name() == k {
        Some(hs.last())
    } else {
        lookup_in(hs.drop_last(), k)
    }
}

/// With unique names, the lookup of `k` finds the handler of that name, and
/// finds nothing where no handler has it.
pub proof fn lemma_lookup_in(hs: Seq<Handler>, k: Seq<char>)
    requires
        unique_names(hs),
    ensures
        forall|i: int| 0 <= i < hs.len() && #[trigger] hs[i].spec_name() == k ==> lookup_in(hs, k)
            == Some(hs[i]),
        lookup_in(hs, k) is None <==> !names_of(hs).contains(k),
    decreases hs.len(),
{
    if hs.len() > 0 {
        let rest = hs.drop_last();
        assert(unique_names(rest)) by {
            assert forall|i: int, j: int| 0 <= i < j < rest.len() implies #[trigger] rest[i].spec_name()
                != #[trigger] rest[j].spec_name() by {
                assert(rest[i] == hs[i] && rest[j] == hs[j]);
            }
        }
        lemma_lookup_in(rest, k);
        if hs.last().spec_name() != k {
            if names_of(hs).contains(k) {
                let i = choose|i: int| 0 <= i < hs.len() && #[trigger] hs[i].spec_name() == k;
                assert(rest[i] == hs[i]);
            }
            if names_of(rest).contains(k) {
                let i = choose|i: int| 0 <= i < rest.len() && #[trigger] rest[i].spec_name() == k;
                assert(rest[i] == hs[i]);
            }
        } else {
            assert(hs[hs.len() - 1].spec_name() == k);
        }
        assert forall|i: int| 0 <= i < hs.len() && #[trigger] hs[i].spec_name() == k implies lookup_in(
            hs,
            k,
        ) == Some(hs[i]) by {
            if i < hs.len() - 1 {
                assert(rest[i] == hs[i]);
            }
        }
    }
}


/// Replacing the handler of `v`'s name by `v` keeps names unique and
/// changes only the lookup of that name.
proof fn lemma_replace(hs: Seq<Handler>, i: int, v: Handler)
    requires
        unique_names(hs),
        0 <= i < hs.len(),
        hs[i].spec_name() == v.spec_name(),
    ensures
        unique_names(hs.update(i, v)),
        names_of(hs.update(i, v)) == names_of(hs).insert(v.spec_name()),
        forall|k: Seq<char>| #[trigger]
            lookup_in(hs.update(i, v), k) == if k == v.spec_name() {
                Some(v)
            } else {
                lookup_in(hs, k)
            },
{
    let new = hs.update(i, v);
    assert forall|a: int, b: int| 0 <= a < b < new.len() implies #[trigger] new[a].spec_name()
        != #[trigger] new[b].spec_name() by {
        assert(hs[a].spec_name() != hs[b].spec_name());
    }
    assert forall|k: Seq<char>| names_of(new).contains(k) <==> names_of(hs).insert(
        v.spec_name(),
    ).contains(k) by {
        if names_of(new).contains(k) {
            let a = choose|a: int| 0 <= a < new.len() && #[trigger] new[a].spec_name() == k;
            assert(hs[a].spec_name() == k);
        }
        if names_of(hs).contains(k) {
            let a = choose|a: int| 0 <= a < hs.len() && #[trigger] hs[a].spec_name() == k;
            assert(new[a].spec_name() == k);
        }
        if k == v.spec_name() {
            assert(new[i].spec_name() == k);
        }
    }
    assert(names_of(new) =~= names_of(hs).insert(v.spec_name()));
    assert forall|k: Seq<char>| #[trigger]
        lookup_in(new, k) == if k == v.spec_name() {
            Some(v)
        } else {
            lookup_in(hs, k)
        } by {
        lemma_lookup_in(new, k);
        lemma_lookup_in(hs, k);
        if k == v.spec_name() {
            assert(new[i].spec_name() == k);
        } else if names_of(hs).contains(k) {
            let a = choose|a: int| 0 <= a < hs.len() && #[trigger] hs[a].spec_name() == k;
            assert(new[a] == hs[a]);
        } else {
            assert(!names_of(new).contains(k));
        }
    }
}

/// Adding a handler under a new name keeps names unique and changes only the
/// lookup of that name.
proof fn lemma_push(hs: Seq<Handler>, v: Handler)
    requires
        unique_names(hs),
        forall|j: int| 0 <= j < hs.len() ==> #[trigger] hs[j].spec_name() != v.spec_name(),
    ensures
        unique_names(hs.push(v)),
        names_of(hs.push(v)) == names_of(hs).insert(v.spec_name()),
        forall|k: Seq<char>| #[trigger]
            lookup_in(hs.push(v), k) == if k == v.spec_name() {
                Some(v)
            } else {
                lookup_in(hs, k)
            },
{
    let new = hs.push(v);
    let n = hs.len() as int;
    assert forall|a: int, b: int| 0 <= a < b < new.len() implies #[trigger] new[a].spec_name()
        != #[trigger] new[b].spec_name() by {
        assert(new[a] == hs[a]);
        if b < n {
            assert(new[b] == hs[b]);
        }
    }
    assert forall|k: Seq<char>| names_of(new).contains(k) <==> names_of(hs).insert(
        v.spec_name(),
    ).contains(k) by {
        if names_of(new).contains(k) {
            let a = choose|a: int| 0 <= a < new.len() && #[trigger] new[a].spec_name() == k;
            if a < n {
                assert(hs[a] == new[a]);
            }
        }
        if names_of(hs).contains(k) {
            let a = choose|a: int| 0 <= a < hs.len() && #[trigger] hs[a].spec_name() == k;
            assert(new[a] == hs[a]);
        }
        if k == v.spec_name() {
            assert(new[n].spec_name() == k);
        }
    }
    assert(names_of(new) =~= names_of(hs).insert(v.spec_name()));
    assert(new.drop_last() =~= hs);
}

fn same_name(a: &str, b: &str) -> (r: bool)
    ensures
        r == (a@ == b@),
{
    a.to_owned() == b.to_owned()
}

/// The table of strategies, keyed by their names.
pub struct AddStrategyFactory {
    handlers: Vec<Handler>,
}

impl AddStrategyFactory {
    /// The handlers held.
    pub closed spec fn entries(&self) -> Seq<Handler> {
        self.handlers@
    }

    /// No two handlers share a name.
    pub open spec fn wf(&self) -> bool {
        unique_names(self.entries())
    }

    /// The names under which handlers are registered.
    pub open spec fn names(&self) -> Set<Seq<char>> {
        names_of(self.entries())
    }

    /// The handler registered under `k`, if any.
    pub open spec fn lookup(&self, k: Seq<char>) -> Option<Handler> {
        lookup_in(self.entries(), k)
    }

    /// An empty table.
    pub fn new() -> (r: AddStrategyFactory)
        ensures
            r.wf(),
            r.entries() == Seq::<Handler>::empty(),
            r.names() == Set::<Seq<char>>::empty(),
    {
        let r = AddStrategyFactory { handlers: Vec::new() };
        assert(r.names() =~= Set::<Seq<char>>::empty());
        r
    }

    /// Registers `v` under its name, in place of any handler of that name.
    fn register(&mut self, v: Handler)
        requires
            old(self).wf(),
        ensures
            final(self).wf(),
            final(self).names() == old(self).names().insert(v.spec_name()),
            forall|k: Seq<char>| #[trigger]
                final(self).lookup(k) == if k == v.spec_name() {
                    Some(v)
                } else {
                    old(self).lookup(k)
                },
    {
        let ghost old_hs = self.handlers@;
        let key = v.name();
        let mut i: usize = 0;
        while i < self.handlers.len()
            invariant
                i <= self.handlers@.len(),
                self.handlers@ == old_hs,
                old_hs == old(self).handlers@,
                unique_names(old_hs),
                key@ == v.spec_name(),
                forall|j: int| 0 <= j < i ==> #[trigger] old_hs[j].spec_name() != v.spec_name(),
            decreases self.handlers@.len() - i,
        {
            if same_name(self.handlers[i].name(), key) {
                proof {
                    lemma_replace(old_hs, i as int, v);
                }
                self.handlers.set(i, v);
                return;
            }
            assert(old_hs[i as int].spec_name() != v.spec_name());
            i = i + 1;
        }
        proof {
            lemma_push(old_hs, v);
        }
        self.handlers.push(v);
    }

    /// The handler registered under `k`, if any.
    pub fn get(&self, k: &str) -> (r: Option<&Handler>)
        requires
            self.wf(),
        ensures
            match r {
                Some(h) => self.lookup(k@) == Some(*h),
                None => self.lookup(k@) is None,
            },
    {
        let mut i: usize = 0;
        while i < self.handlers.len()
            invariant
                i <= self.handlers@.len(),
                unique_names(self.handlers@),
                forall|j: int| 0 <= j < i ==> #[trigger] self.handlers@[j].spec_name() != k@,
            decreases self.handlers@.len() - i,
        {
            if same_name(self.handlers[i].name(), k) {
                proof {
                    lemma_lookup_in(self.handlers@, k@);
                }
                return Some(&self.handlers[i]);
            }
            assert(self.handlers@[i as int].spec_name() != k@);
            i = i + 1;
        }
        proof {
            lemma_lookup_in(self.handlers@, k@);
            assert(!self.names().contains(k@)) by {
                if self.names().contains(k@) {
                    let a = choose|a: int|
                        0 <= a < self.handlers@.len() && #[trigger] self.handlers@[a].spec_name()
                            == k@;
                }
            }
        }
        None
    }

    /// The table of every known strategy: init, md, lic, vscode, fmt and gi.
    pub fn get_add_strategy_factory() -> (r: AddStrategyFactory)
        ensures
            r.wf(),
            r.names() == registered_names(),
            r.lookup("init"@) == Some(Handler::Init(InitStrategy)),
            r.lookup("md"@) == Some(Handler::File(FileStrategy::Md(MdStrategy))),
            r.lookup("lic"@) == Some(Handler::File(FileStrategy::Lic(LicStrategy))),
            r.lookup("vscode"@) == Some(Handler::File(FileStrategy::Vscode(VscodeStrategy))),
            r.lookup("fmt"@) == Some(Handler::File(FileStrategy::Fmt(FmtStrategy))),
            r.lookup("gi"@) == Some(Handler::File(FileStrategy::GitIgnore(GitIgnoreStrategy))),
    {
        let mut factory = AddStrategyFactory::new();
        proof {
            lemma_registered_names_distinct();
        }
        factory.register(Handler::Init(InitStrategy));
        factory.register(Handler::File(FileStrategy::Md(MdStrategy)));
        factory.register(Handler::File(FileStrategy::Lic(LicStrategy)));
        factory.register(Handler::File(FileStrategy::Vscode(VscodeStrategy)));
        factory.register(Handler::File(FileStrategy::Fmt(FmtStrategy)));
        factory.register(Handler::File(FileStrategy::GitIgnore(GitIgnoreStrategy)));
        assert(factory.names() =~= registered_names());
        factory
    }
}

/// The six names of the full table differ from one another.
proof fn lemma_registered_names_distinct()
    ensures
        "init"@ != "md"@,
        "init"@ != "lic"@,
        "init"@ != "vscode"@,
        "init"@ != "fmt"@,
        "init"@ != "gi"@,
        "md"@ != "lic"@,
        "md"@ != "vscode"@,
        "md"@ != "fmt"@,
        "md"@ != "gi"@,
        "lic"@ != "vscode"@,
        "lic"@ != "fmt"@,
        "lic"@ != "gi"@,
        "vscode"@ != "fmt"@,
        "vscode"@ != "gi"@,
        "fmt"@ != "gi"@,
{
    reveal_strlit("init");
    reveal_strlit("md");
    reveal_strlit("lic");
    reveal_strlit("vscode");
    reveal_strlit("fmt");
    reveal_strlit("gi");
    assert("init"@.len() == 4);
    assert("md"@.len() == 2 && "md"@[0] == 'm');
    assert("lic"@.len() == 3 && "lic"@[0] == 'l');
    assert("vscode"@.len() == 6);
    assert("fmt"@.len() == 3 && "fmt"@[0] == 'f');
    assert("gi"@.len() == 2 && "gi"@[0] == 'g');
}

/// The names of the strategies that the full table holds.
pub open spec fn registered_names() -> Set<Seq<char>> {
    set!["init"@, "md"@, "lic"@, "vscode"@, "fmt"@, "gi"@]
}

} // verus!
