use vstd::prelude::*;

use crate::error::{ErrorModel, MvpError};

verus! {

#[verifier::external_type_specification]
#[verifier::external_body]
pub struct ExTera(tera::Tera);

#[verifier::external_type_specification]
#[verifier::external_body]
pub struct ExTeraContext(tera::Context);

/// What parsing `body` as the template `name` yields, as an identifier: equal
/// arguments give equal templates.
pub uninterp spec fn template_form(name: Seq<char>, body: Seq<char>) -> int;

/// The templates a `tera::Tera` engine holds: for each name, the parsed
/// template.
pub uninterp spec fn engine_templates(t: tera::Tera) -> Map<Seq<char>, int>;

/// Everything of a `tera::Tera` engine besides its templates that rendering
/// reads (escaped suffixes, escape function, filters, testers, functions), as
/// an identifier.
pub uninterp spec fn engine_config(t: tera::Tera) -> int;

/// What rendering the parsed template `form`, held under `name`, yields
/// against the variables `vars` in an engine configured as `config`, for a
/// template of the plain subset: the text, or `None` where rendering fails
/// (a variable that `vars` lacks).
pub uninterp spec fn rendered(
    name: Seq<char>,
    form: int,
    config: int,
    vars: Map<Seq<char>, VarValue>,
) -> Option<Seq<char>>;

/// Every template that `templates` holds was parsed from a body of the plain
/// subset.
pub open spec fn all_plain(templates: Map<Seq<char>, int>) -> bool {
    forall|n: Seq<char>| #[trigger]
        templates.contains_key(n) ==> exists|b: Seq<char>|
            plain_template(b) && templates[n] == #[trigger] template_form(n, b)
}

/// Relies on `Tera::default`: a fresh engine starts with an empty template map.
#[verifier::external_body]
fn engine_new() -> (r: tera::Tera)
    ensures
        engine_templates(r).dom() == Set::<Seq<char>>::empty(),
{
    tera::Tera::default()
}

/// Relies on `Tera::autoescape_on`: it replaces the list of escaped suffixes
/// and leaves the templates alone.
#[verifier::external_body]
fn engine_autoescape_on(t: &mut tera::Tera, suffixes: Vec<&'static str>)
    ensures
        engine_templates(*final(t)) == engine_templates(*old(t)),
{
    t.autoescape_on(suffixes)
}

/// Relies on `Tera::add_raw_template`: it parses `body` with
/// `Template::new(name, None, body)` and, on success, holds the result under
/// `name`. A parse failure changes nothing; a failure while linking templates
/// comes after the insertion, so the template may then be held already.
/// The engine's configuration is left alone.
#[verifier::external_body]
fn engine_add(t: &mut tera::Tera, name: &str, body: &str) -> (r: Result<(), tera::Error>)
    requires
        plain_template(body@),
    ensures
        engine_config(*final(t)) == engine_config(*old(t)),
        r is Ok ==> engine_templates(*final(t)) == engine_templates(*old(t)).insert(
            name@,
            template_form(name@, body@),
        ),
        r is Err ==> engine_templates(*final(t)) == engine_templates(*old(t)) || engine_templates(
            *final(t),
        ) == engine_templates(*old(t)).insert(name@, template_form(name@, body@)),
{
    t.add_raw_template(name, body)
}

/// Relies on `Tera::render`: it looks the template up by name and fails when
/// none is held under that name; otherwise it renders the parsed template
/// against the context, reading the engine's configuration and nothing else
/// for a template of the plain subset, which has no include, macro, literal,
/// operator, filter or function.
#[verifier::external_body]
fn engine_render(t: &tera::Tera, name: &str, ctx: &tera::Context) -> (r: Result<
    String,
    tera::Error,
>)
    requires
        all_plain(engine_templates(*t)),
        context_plain(*ctx),
    ensures
        !engine_templates(*t).contains_key(name@) ==> r is Err,
        engine_templates(*t).contains_key(name@) ==> (r is Ok <==> rendered(
            name@,
            engine_templates(*t)[name@],
            engine_config(*t),
            context_vars(*ctx),
        ) is Some),
        r is Ok ==> r->Ok_0@ == rendered(
            name@,
            engine_templates(*t)[name@],
            engine_config(*t),
            context_vars(*ctx),
        )->0,
{
    t.render(name, ctx)
}

/// Relies on `Tera::get_template_names`: it walks the keys of the template
/// map, each once, in no fixed order.
#[verifier::external_body]
fn engine_names(t: &tera::Tera) -> (r: Vec<String>)
    ensures
        r@.map_values(|s: String| s@).to_set() == engine_templates(*t).dom(),
        r@.map_values(|s: String| s@).no_duplicates(),
{
    t.get_template_names().map(|s| s.to_string()).collect()
}

/// A value that a template variable holds.
pub enum VarValue {
    Text(Seq<char>),
    Number(int),
}

/// The variables that a `tera::Context` holds, by name, where each holds a
/// string or an integer.
pub uninterp spec fn context_vars(c: tera::Context) -> Map<Seq<char>, VarValue>;

/// Every value that a `tera::Context` holds is a string or an integer, so
/// that `context_vars` describes it whole.
pub uninterp spec fn context_plain(c: tera::Context) -> bool;

/// Relies on `tera::Context::new`: its map starts empty.
#[verifier::external_body]
fn vars_new() -> (r: tera::Context)
    ensures
        context_vars(r).dom() == Set::<Seq<char>>::empty(),
        context_plain(r),
{
    tera::Context::new()
}

/// Relies on `tera::Context::insert`, with a string value: the map then
/// holds the text under `key`, in place of any earlier value.
#[verifier::external_body]
fn vars_insert_text(vars: &mut tera::Context, key: &str, value: &str)
    ensures
        context_vars(*final(vars)) == context_vars(*old(vars)).insert(key@, VarValue::Text(value@)),
        context_plain(*old(vars)) ==> context_plain(*final(vars)),
{
    vars.insert(key, value)
}

/// Relies on `tera::Context::insert`, with an integer value: the map then
/// holds the number under `key`, in place of any earlier value.
#[verifier::external_body]
fn vars_insert_number(vars: &mut tera::Context, key: &str, value: i32)
    ensures
        context_vars(*final(vars)) == context_vars(*old(vars)).insert(
            key@,
            VarValue::Number(value as int),
        ),
        context_plain(*old(vars)) ==> context_plain(*final(vars)),
{
    vars.insert(key, &value)
}

/// Where a scan of a template body stands.
#[derive(PartialEq, Eq, Structural, Clone, Copy)]
pub enum ScanState {
    /// In plain text.
    Text,
    /// Just after a `{` of plain text.
    Brace,
    /// After `{{`, before the variable name.
    ExprStart,
    /// In the variable name.
    Ident,
    /// After the variable name, before the closing braces.
    AfterIdent,
    /// After the first closing brace.
    Close,
    /// In a comment.
    Comment,
    /// In a comment, just after a `#`.
    CommentHash,
}

/// A character that may start a variable name.
pub open spec fn is_ident_start(c: char) -> bool {
    ('a' <= c && c <= 'z') || ('A' <= c && c <= 'Z') || c == '_'
}

/// A character that may continue a variable name.
pub open spec fn is_ident_char(c: char) -> bool {
    is_ident_start(c) || ('0' <= c && c <= '9')
}

/// The state after reading `c` in state `st`, or `None` where the body
/// leaves the plain subset.
pub open spec fn scan_step(st: ScanState, c: char) -> Option<ScanState> {
    match st {
        ScanState::Text => if c == '{' {
            Some(ScanState::Brace)
        } else {
            Some(ScanState::Text)
        },
        ScanState::Brace => if c == '%' {
            None
        } else if c == '#' {
            Some(ScanState::Comment)
        } else if c == '{' {
            Some(ScanState::ExprStart)
        } else {
            Some(ScanState::Text)
        },
        ScanState::ExprStart => if c == ' ' {
            Some(ScanState::ExprStart)
        } else if is_ident_start(c) {
            Some(ScanState::Ident)
        } else {
            None
        },
        ScanState::Ident => if is_ident_char(c) || c == '.' {
            Some(ScanState::Ident)
        } else if c == ' ' {
            Some(ScanState::AfterIdent)
        } else if c == '}' {
            Some(ScanState::Close)
        } else {
            None
        },
        ScanState::AfterIdent => if c == ' ' {
            Some(ScanState::AfterIdent)
        } else if c == '}' {
            Some(ScanState::Close)
        } else {
            None
        },
        ScanState::Close => if c == '}' {
            Some(ScanState::Text)
        } else {
            None
        },
        ScanState::Comment => if c == '#' {
            Some(ScanState::CommentHash)
        } else {
            Some(ScanState::Comment)
        },
        ScanState::CommentHash => if c == '}' {
            Some(ScanState::Text)
        } else if c == '#' {
            Some(ScanState::CommentHash)
        } else {
            Some(ScanState::Comment)
        },
    }
}

/// Reading `s` from state `st` stays in the subset and ends in text.
pub open spec fn scan(st: ScanState, s: Seq<char>) -> bool
    decreases s.len(),
{
    if s.len() == 0 {
        st == ScanState::Text || st == ScanState::Brace
    } else {
        match scan_step(st, s[0]) {
            None => false,
            Some(next) => scan(next, s.drop_first()),
        }
    }
}

/// The plain subset of the template language: text, comments, and
/// `{{ name }}` substitutions of a variable or a dotted path into one.
/// Excluded, because tera's renderer can panic or does not stop on them, or
/// because their output is not a function of the template and the context:
/// literals (a float literal too large for `f64` panics when rendered),
/// operators (arithmetic results are unwrapped as finite numbers), filters
/// and functions (the builtins `now`, `get_random` and `get_env` read the
/// clock, chance and the environment), and tags (`include` and macros
/// recurse without bound, and the other tags take expressions with literals
/// and operators).
pub open spec fn plain_template(body: Seq<char>) -> bool {
    scan(ScanState::Text, body)
}

fn scan_next(st: ScanState, c: char) -> (r: Option<ScanState>)
    ensures
        r == scan_step(st, c),
{
    let start = ('a' <= c && c <= 'z') || ('A' <= c && c <= 'Z') || c == '_';
    let ident = start || ('0' <= c && c <= '9');
    match st {
        ScanState::Text => if c == '{' {
            Some(ScanState::Brace)
        } else {
            Some(ScanState::Text)
        },
        ScanState::Brace => if c == '%' {
            None
        } else if c == '#' {
            Some(ScanState::Comment)
        } else if c == '{' {
            Some(ScanState::ExprStart)
        } else {
            Some(ScanState::Text)
        },
        ScanState::ExprStart => if c == ' ' {
            Some(ScanState::ExprStart)
        } else if start {
            Some(ScanState::Ident)
        } else {
            None
        },
        ScanState::Ident => if ident || c == '.' {
            Some(ScanState::Ident)
        } else if c == ' ' {
            Some(ScanState::AfterIdent)
        } else if c == '}' {
            Some(ScanState::Close)
        } else {
            None
        },
        ScanState::AfterIdent => if c == ' ' {
            Some(ScanState::AfterIdent)
        } else if c == '}' {
            Some(ScanState::Close)
        } else {
            None
        },
        ScanState::Close => if c == '}' {
            Some(ScanState::Text)
        } else {
            None
        },
        ScanState::Comment => if c == '#' {
            Some(ScanState::CommentHash)
        } else {
            Some(ScanState::Comment)
        },
        ScanState::CommentHash => if c == '}' {
            Some(ScanState::Text)
        } else if c == '#' {
            Some(ScanState::CommentHash)
        } else {
            Some(ScanState::Comment)
        },
    }
}

/// Whether `body` lies in the plain subset of the template language.
pub fn is_plain_template(body: &str) -> (r: bool)
    ensures
        r == plain_template(body@),
{
    let n = body.unicode_len();
    let mut st = ScanState::Text;
    let mut i: usize = 0;
    assert(body@.subrange(0, n as int) =~= body@);
    while i < n
        invariant
            i <= n,
            n == body@.len(),
            plain_template(body@) == scan(st, body@.subrange(i as int, n as int)),
        decreases n - i,
    {
        let c = body.get_char(i);
        let ghost rest = body@.subrange(i as int, n as int);
        assert(rest[0] == c);
        assert(rest.drop_first() =~= body@.subrange(i + 1, n as int));
        match scan_next(st, c) {
            None => {
                return false;
            },
            Some(next) => {
                st = next;
            },
        }
        i = i + 1;
    }
    st == ScanState::Text || st == ScanState::Brace
}

/// `after` is `before`, or `before` with `body` held under `name`.
pub open spec fn unchanged_or_added(
    before: Map<Seq<char>, Seq<char>>,
    after: Map<Seq<char>, Seq<char>>,
    name: Seq<char>,
    body: Seq<char>,
) -> bool {
    after == before || after == before.insert(name, body)
}

/// The message for a template outside the plain subset.
pub open spec fn unsupported_message(name: Seq<char>) -> Seq<char> {
    "Unsupported syntax in template '"@ + name + "'"@
}

/// How adding a template can be refused: a body outside the plain subset by
/// the store itself, a plain one by the engine's parser.
pub open spec fn refusal(name: Seq<char>, body: Seq<char>, e: ErrorModel) -> bool {
    if plain_template(body) {
        e == ErrorModel::Template
    } else {
        e == ErrorModel::Custom(unsupported_message(name))
    }
}

/// The read-only collection of named templates that strategies render.
pub struct TemplateStore {
    engine: tera::Tera,
    sources: Ghost<Map<Seq<char>, Seq<char>>>,
}

impl TemplateStore {
    /// The source text of each template held, by name.
    pub closed spec fn sources(&self) -> Map<Seq<char>, Seq<char>> {
        self.sources@
    }

    /// The configuration of the engine that renders.
    pub closed spec fn config(&self) -> int {
        engine_config(self.engine)
    }

    /// The names of the templates held.
    pub open spec fn names(&self) -> Set<Seq<char>> {
        self.sources().dom()
    }

    /// The engine holds exactly the templates parsed from the recorded
    /// sources, and every source lies in the plain subset.
    pub closed spec fn wf(&self) -> bool {
        &&& self.sources@.dom() == engine_templates(self.engine).dom()
        &&& forall|n: Seq<char>| #[trigger]
            self.sources@.contains_key(n) ==> plain_template(self.sources@[n])
                && engine_templates(self.engine)[n] == template_form(n, self.sources@[n])
    }

    /// What rendering the template `name` against `vars` yields: its text, or
    /// `None` where no template has that name or rendering fails.
    pub open spec fn render_result(&self, name: Seq<char>, vars: Map<Seq<char>, VarValue>) -> Option<
        Seq<char>,
    > {
        if self.names().contains(name) {
            rendered(name, template_form(name, self.sources()[name]), self.config(), vars)
        } else {
            None
        }
    }

    /// An empty store that escapes HTML and SQL output.
    pub fn new() -> (r: TemplateStore)
        ensures
            r.wf(),
            r.names() == Set::<Seq<char>>::empty(),
    {
        let mut engine = engine_new();
        engine_autoescape_on(&mut engine, vec![".html", ".sql"]);
        let r = TemplateStore { engine, sources: Ghost(Map::empty()) };
        assert(r.sources@.dom() =~= engine_templates(r.engine).dom());
        r
    }

    /// Adds the template `body` under `name`. A body outside the plain subset
    /// is refused before the engine sees it.
    pub fn add_template(&mut self, name: &str, body: &str) -> (r: Result<(), MvpError>)
        requires
            old(self).wf(),
        ensures
            final(self).wf(),
            final(self).config() == old(self).config(),
            old(self).names().subset_of(final(self).names()),
            !plain_template(body@) ==> final(self).sources() == old(self).sources(),
            r is Ok ==> plain_template(body@) && final(self).sources() == old(
                self,
            ).sources().insert(name@, body@),
            r is Err ==> refusal(name@, body@, r->Err_0@),
            r is Err ==> unchanged_or_added(
                old(self).sources(),
                final(self).sources(),
                name@,
                body@,
            ),
    {
        if !is_plain_template(body) {
            let mut m = String::from_str("Unsupported syntax in template '");
            m.append(name);
            m.append("'");
            return Err(MvpError::Custom(m));
        }
        let ghost before = engine_templates(self.engine);
        let ghost kept = self.sources@;
        let ghost inserted = self.sources@.insert(name@, body@);
        let r = engine_add(&mut self.engine, name, body);
        if r.is_ok() {
            self.sources = Ghost(inserted);
        } else {
            let ghost pick = if engine_templates(self.engine) == before {
                kept
            } else {
                inserted
            };
            self.sources = Ghost(pick);
        }
        proof {
            assert(self.sources@.dom() =~= engine_templates(self.engine).dom());
        }
        match r {
            Ok(()) => Ok(()),
            Err(e) => Err(MvpError::Tera(e)),
        }
    }

    /// Adds every `(name, body)` pair of `table`, in order, and stops at the
    /// first that is refused, with that refusal's own error; the entries
    /// before it stay held.
    pub fn add_table(&mut self, table: &Vec<(String, String)>) -> (r: Result<(), MvpError>)
        requires
            old(self).wf(),
        ensures
            final(self).wf(),
            final(self).config() == old(self).config(),
            r is Ok ==> final(self).names() == old(self).names().union(table_names(table@)),
            r is Ok ==> forall|i: int|
                0 <= i < table@.len() ==> plain_template(#[trigger] table@[i].1@),
            r is Err ==> exists|i: int|
                0 <= i < table@.len() && refusal(
                    table@[i].0@,
                    (#[trigger] table@[i]).1@,
                    r->Err_0@,
                ) && forall|j: int|
                    0 <= j < i ==> final(self).names().contains(#[trigger] table@[j].0@),
    {
        let mut i: usize = 0;
        while i < table.len()
            invariant
                i <= table@.len(),
                self.wf(),
                self.config() == old(self).config(),
                self.names() == old(self).names().union(table_names(table@.subrange(0, i as int))),
                forall|j: int| 0 <= j < i ==> plain_template(#[trigger] table@[j].1@),
                forall|j: int| 0 <= j < i ==> self.names().contains(#[trigger] table@[j].0@),
            decreases table@.len() - i,
        {
            let (name, body) = &table[i];
            let ghost names_before = self.names();
            let added = self.add_template(name.as_str(), body.as_str());
            if added.is_err() {
                proof {
                    assert forall|j: int| 0 <= j < i implies self.names().contains(
                        #[trigger] table@[j].0@,
                    ) by {
                        assert(names_before.contains(table@[j].0@));
                    }
                    assert(refusal(table@[i as int].0@, table@[i as int].1@, added->Err_0@));
                }
                return added;
            }
            proof {
                let prefix = table@.subrange(0, i as int);
                let next = table@.subrange(0, i + 1);
                assert(next.drop_last() =~= prefix);
                assert(self.names() =~= old(self).names().union(table_names(next)));
                assert forall|j: int| 0 <= j < i + 1 implies self.names().contains(
                    #[trigger] table@[j].0@,
                ) by {
                    if j < i {
                        assert(names_before.contains(table@[j].0@));
                    }
                }
            }
            i = i + 1;
        }
        proof {
            assert(table@.subrange(0, table@.len() as int) =~= table@);
        }
        Ok(())
    }

    /// The names of the templates held, each once, in no fixed order.
    pub fn template_names(&self) -> (r: Vec<String>)
        requires
            self.wf(),
        ensures
            r@.map_values(|s: String| s@).to_set() == self.names(),
            r@.map_values(|s: String| s@).no_duplicates(),
    {
        engine_names(&self.engine)
    }

    /// Renders the template held under `name` against `ctx`.
    pub fn render(&self, name: &str, ctx: &ExecutionContext) -> (r: Result<String, MvpError>)
        requires
            self.wf(),
            ctx.wf(),
        ensures
            r is Ok <==> self.render_result(name@, ctx.vars()) is Some,
            r is Ok ==> r->Ok_0@ == self.render_result(name@, ctx.vars())->0,
            r is Err ==> r->Err_0 is Tera,
    {
        proof {
            assert forall|n: Seq<char>| #[trigger]
                engine_templates(self.engine).contains_key(n) implies exists|b: Seq<char>|
                plain_template(b) && engine_templates(self.engine)[n] == #[trigger] template_form(
                    n,
                    b,
                ) by {
                assert(self.sources@.contains_key(n));
                let b = self.sources@[n];
                assert(plain_template(b) && engine_templates(self.engine)[n] == template_form(n, b));
            }
        }
        match engine_render(&self.engine, name, &ctx.vars) {
            Ok(text) => Ok(text),
            Err(e) => Err(MvpError::Tera(e)),
        }
    }
}

/// The names of a table of `(name, body)` pairs.
pub open spec fn table_names(t: Seq<(String, String)>) -> Set<Seq<char>>
    decreases t.len(),
{
    if t.len() == 0 {
        Set::empty()
    } else {
        table_names(t.drop_last()).insert(t.last().0@)
    }
}

/// The variables that templates are rendered against, and the positional
/// values that the init strategy reads.
pub struct ExecutionContext {
    vars: tera::Context,
    positional: Option<Vec<String>>,
}

impl ExecutionContext {
    /// Every variable holds a string or an integer.
    pub closed spec fn wf(&self) -> bool {
        context_plain(self.vars)
    }

    /// The template variables held, by name.
    pub closed spec fn vars(&self) -> Map<Seq<char>, VarValue> {
        context_vars(self.vars)
    }

    /// The positional values held, if any were supplied.
    pub closed spec fn positional(&self) -> Option<Seq<Seq<char>>> {
        match self.positional {
            Some(v) => Some(v@.map_values(|s: String| s@)),
            None => None,
        }
    }

    /// A context with no variables and no positional values.
    pub fn new() -> (r: ExecutionContext)
        ensures
            r.wf(),
            r.positional() is None,
            r.vars().dom() == Set::<Seq<char>>::empty(),
    {
        ExecutionContext { vars: vars_new(), positional: None }
    }

    /// Sets the variable `key` to the text `value`.
    pub fn insert_text(&mut self, key: &str, value: &str)
        ensures
            old(self).wf() ==> final(self).wf(),
            final(self).positional() == old(self).positional(),
            final(self).vars() == old(self).vars().insert(key@, VarValue::Text(value@)),
    {
        vars_insert_text(&mut self.vars, key, value);
    }

    /// Sets the variable `key` to the integer `value`.
    pub fn insert_number(&mut self, key: &str, value: i32)
        ensures
            old(self).wf() ==> final(self).wf(),
            final(self).positional() == old(self).positional(),
            final(self).vars() == old(self).vars().insert(key@, VarValue::Number(value as int)),
    {
        vars_insert_number(&mut self.vars, key, value);
    }

    /// Supplies the positional values of this invocation.
    pub fn set_positional(&mut self, values: Option<Vec<String>>)
        ensures
            old(self).wf() ==> final(self).wf(),
            final(self).vars() == old(self).vars(),
            final(self).positional() == match values {
                Some(v) => Some(v@.map_values(|s: String| s@)),
                None => None::<Seq<Seq<char>>>,
            },
    {
        self.positional = values;
    }

    /// The positional values of this invocation.
    pub fn positional_values(&self) -> (r: Option<&Vec<String>>)
        ensures
            match r {
                Some(v) => self.positional() == Some(v@.map_values(|s: String| s@)),
                None => self.positional() is None,
            },
    {
        match &self.positional {
            Some(v) => Some(v),
            None => None,
        }
    }
}

/// Fills in the variables that every template may use: the current year,
/// `year`, and the author.
pub fn fill_context_with_year_and_author(context: &mut ExecutionContext, year: i32)
    ensures
        old(context).wf() ==> final(context).wf(),
        final(context).positional() == old(context).positional(),
        final(context).vars() == old(context).vars().insert(
            "year"@,
            VarValue::Number(year as int),
        ).insert("author"@, VarValue::Text("Levio-Z"@)),
{
    context.insert_number("year", year);
    context.insert_text("author", "Levio-Z");
}

} // verus!
