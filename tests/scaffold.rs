use std::collections::HashMap;

use mvp::init::{creation_command_args, init_request, trim_quotes};
use mvp::plan::assemble_plan;
use mvp::templates::is_plain_template;
use mvp::fill_context_with_year_and_author;
use mvp::{
    AddStrategy, AddStrategyFactory, Composite, Effect, ExecutionContext, FileStrategy,
    GitIgnoreStrategy, Handler, InitStrategy, LicStrategy, MdStrategy, MvpError, Plan, Step,
    TemplateStore, VscodeStrategy, WriteMode,
};

fn table(skip: &str) -> Vec<(String, String)> {
    let all = [
        ("README.md", "# readme by {{ author }}\n"),
        ("LICENSE-APACHE", "apache {{ year }}\n"),
        ("LICENSE-MIT", "mit {{ year }}\n"),
        ("LICENSE.md", "\nlicensed by {{ author }}\n"),
        ("vscode/settings.json", "{\"settings\": true}"),
        ("vscode/tasks.json", "{\"tasks\": true}"),
        ("rustfmt.toml", "edition = \"2021\"\n"),
        (".gitignore", "/target\n"),
    ];
    all.iter()
        .filter(|(n, _)| *n != skip)
        .map(|(n, b)| (n.to_string(), b.to_string()))
        .collect()
}

fn store_without(skip: &str) -> TemplateStore {
    let mut store = TemplateStore::new();
    store.add_table(&table(skip)).expect("templates parse");
    store
}

fn full_store() -> TemplateStore {
    store_without("")
}

fn context(values: Option<Vec<&str>>) -> ExecutionContext {
    let mut ctx = ExecutionContext::new();
    ctx.insert_text("author", "Ada");
    ctx.insert_number("year", 2024);
    ctx.set_positional(values.map(|v| v.iter().map(|s| s.to_string()).collect()));
    ctx
}

fn paths(plan: &Plan) -> Vec<String> {
    plan.effects
        .iter()
        .map(|e| match e {
            Effect::MakeDir { path } => format!("mkdir {path}"),
            Effect::Write { path, .. } => format!("write {path}"),
            Effect::Append { path, .. } => format!("append {path}"),
            Effect::CreateProject { program, args, dir } => {
                format!("run {program} {} then cd {dir}", args.join(" "))
            }
        })
        .collect()
}

fn apply(files: &mut HashMap<String, String>, plan: &Plan) {
    for e in &plan.effects {
        match e {
            Effect::Write { path, content } => {
                files.insert(path.clone(), content.clone());
            }
            Effect::Append { path, content } => {
                files.entry(path.clone()).or_default().push_str(content);
            }
            _ => {}
        }
    }
}

#[test]
fn every_registered_name_resolves_to_its_handler() {
    let registry = AddStrategyFactory::get_add_strategy_factory();
    for name in ["init", "md", "lic", "vscode", "fmt", "gi"] {
        let handler = registry.get(name).expect("registered");
        assert_eq!(handler.name(), name);
    }
    assert!(registry.get("nope").is_none());
    assert!(registry.get("").is_none());
    assert!(AddStrategyFactory::new().get("md").is_none());
}

#[test]
fn registry_hands_out_the_right_strategies() {
    let registry = AddStrategyFactory::get_add_strategy_factory();
    assert!(registry.get("init") == Some(&Handler::Init(InitStrategy)));
    assert!(registry.get("gi") == Some(&Handler::File(FileStrategy::GitIgnore(GitIgnoreStrategy))));
    assert!(registry.get("vscode") == Some(&Handler::File(FileStrategy::Vscode(VscodeStrategy))));
}

#[test]
fn composite_runs_members_in_fixed_order() {
    let composite = Composite::default();
    assert_eq!(composite.member_names(), vec!["vscode", "fmt", "md", "gi"]);
    let plan = composite.handle(&full_store(), &context(None));
    assert!(plan.outcome.is_ok());
    assert_eq!(
        paths(&plan),
        vec![
            "mkdir .vscode",
            "write .vscode/settings.json",
            "write .vscode/tasks.json",
            "write rustfmt.toml",
            "write README.md",
            "write .gitignore",
        ]
    );
}

#[test]
fn composite_stops_when_formatter_fails() {
    let composite = Composite::default();
    let plan = composite.handle(&store_without("rustfmt.toml"), &context(None));
    assert!(matches!(plan.outcome, Err(MvpError::Tera(_))));
    assert_eq!(
        paths(&plan),
        vec!["mkdir .vscode", "write .vscode/settings.json", "write .vscode/tasks.json"]
    );
}

#[test]
fn custom_composite_keeps_given_order() {
    let composite = Composite::new(vec![
        FileStrategy::GitIgnore(GitIgnoreStrategy),
        FileStrategy::Md(MdStrategy),
    ]);
    assert_eq!(composite.member_names(), vec!["gi", "md"]);
    let plan = composite.handle(&full_store(), &context(None));
    assert_eq!(paths(&plan), vec!["write .gitignore", "write README.md"]);
}

#[test]
fn init_with_name_only_creates_project_and_scaffold() {
    let plan = InitStrategy.handle(&full_store(), &context(Some(vec!["demo-app"])));
    assert!(plan.outcome.is_ok());
    assert_eq!(
        paths(&plan),
        vec![
            "run cargo new demo-app then cd demo-app",
            "mkdir .vscode",
            "write .vscode/settings.json",
            "write .vscode/tasks.json",
            "write rustfmt.toml",
            "write README.md",
            "write .gitignore",
        ]
    );
    let mut files = HashMap::new();
    apply(&mut files, &plan);
    assert_eq!(files["README.md"], "# readme by Ada\n");
    assert_eq!(files[".gitignore"], "/target\n");
}

#[test]
fn init_with_n_creates_bare_project() {
    let plan = InitStrategy.handle(&full_store(), &context(Some(vec!["demo-app", "n"])));
    assert!(plan.outcome.is_ok());
    assert_eq!(paths(&plan), vec!["run cargo new demo-app --vcs none then cd demo-app"]);
}

#[test]
fn init_with_other_second_value_keeps_vcs() {
    for second in ["N", "no", "y", ""] {
        let plan = InitStrategy.handle(&full_store(), &context(Some(vec!["demo-app", second])));
        assert!(plan.outcome.is_ok());
        assert_eq!(plan.effects.len(), 7);
        assert_eq!(paths(&plan)[0], "run cargo new demo-app then cd demo-app");
    }
}

#[test]
fn init_strips_quotes() {
    let plan = InitStrategy.handle(&full_store(), &context(Some(vec!["\"demo-app\"", "\"n\""])));
    assert_eq!(paths(&plan), vec!["run cargo new demo-app --vcs none then cd demo-app"]);
}

#[test]
fn init_without_values_fails_before_any_effect() {
    let plan = InitStrategy.handle(&full_store(), &context(Some(vec![])));
    assert!(plan.effects.is_empty());
    match plan.outcome {
        Err(MvpError::Custom(m)) => assert_eq!(m, "Project name is required"),
        _ => panic!("expected a validation error"),
    }
}

#[test]
fn init_without_value_list_fails_before_any_effect() {
    let plan = InitStrategy.handle(&full_store(), &context(None));
    assert!(plan.effects.is_empty());
    match plan.outcome {
        Err(MvpError::Custom(m)) => assert_eq!(m, "Project name is required"),
        _ => panic!("expected a validation error"),
    }
}

#[test]
fn init_scaffold_failure_keeps_earlier_effects() {
    let plan = InitStrategy.handle(&store_without("README.md"), &context(Some(vec!["demo-app"])));
    assert!(matches!(plan.outcome, Err(MvpError::Tera(_))));
    assert_eq!(plan.effects.len(), 5);
}

#[test]
fn rendering_unknown_template_fails() {
    let store = full_store();
    let r = store.render("no-such-template", &context(None));
    assert!(matches!(r, Err(MvpError::Tera(_))));
    let plan = MdStrategy.handle(&TemplateStore::new(), &context(None));
    assert!(plan.effects.is_empty());
    assert!(matches!(plan.outcome, Err(MvpError::Tera(_))));
}

#[test]
fn rendering_uses_context_variables() {
    let store = full_store();
    let r = store.render("README.md", &context(None)).expect("renders");
    assert_eq!(r, "# readme by Ada\n");
    let r = store.render("LICENSE-MIT", &context(None)).expect("renders");
    assert_eq!(r, "mit 2024\n");
}

#[test]
fn rendering_without_needed_variable_fails() {
    let store = full_store();
    let r = store.render("README.md", &ExecutionContext::new());
    assert!(matches!(r, Err(MvpError::Tera(_))));
}

#[test]
fn md_twice_overwrites_readme() {
    let store = full_store();
    let mut files = HashMap::new();
    files.insert("README.md".to_string(), "old".to_string());
    let first = MdStrategy.handle(&store, &context(None));
    apply(&mut files, &first);
    let mut ctx = context(None);
    ctx.insert_text("author", "Grace");
    let second = MdStrategy.handle(&store, &ctx);
    apply(&mut files, &second);
    assert_eq!(files["README.md"], "# readme by Grace\n");
    assert_eq!(files.len(), 1);
}

#[test]
fn lic_twice_appends_notice_twice() {
    let store = full_store();
    let mut files = HashMap::new();
    files.insert("README.md".to_string(), "# readme\n".to_string());
    for _ in 0..2 {
        let plan = LicStrategy.handle(&store, &context(None));
        assert!(plan.outcome.is_ok());
        assert_eq!(
            paths(&plan),
            vec!["write LICENSE-APACHE", "write LICENSE-MIT", "append README.md"]
        );
        apply(&mut files, &plan);
    }
    assert_eq!(
        files["README.md"],
        "# readme\n\nlicensed by Ada\n\nlicensed by Ada\n"
    );
    assert_eq!(files["LICENSE-MIT"], "mit 2024\n");
}

#[test]
fn strategy_steps_match_their_files() {
    let ctx = context(None);
    let steps = VscodeStrategy.steps(&ctx).expect("steps");
    assert!(matches!(&steps[0], Step::MakeDir { path } if path == ".vscode"));
    let steps = LicStrategy.steps(&ctx).expect("steps");
    assert!(matches!(
        &steps[2],
        Step::Emit { template, target, mode: WriteMode::Append }
            if template == "LICENSE.md" && target == "README.md"
    ));
}

#[test]
fn store_lists_and_rejects_templates() {
    let store = full_store();
    let mut names = store.template_names();
    names.sort();
    assert_eq!(names.len(), 8);
    assert!(names.contains(&"vscode/tasks.json".to_string()));
    let mut store = TemplateStore::new();
    match store.add_template("bad", "{{ unclosed") {
        Err(MvpError::Custom(m)) => assert_eq!(m, "Unsupported syntax in template 'bad'"),
        _ => panic!("expected the template to be refused"),
    }
    assert!(store.add_template("good", "fine").is_ok());
    assert_eq!(store.template_names(), vec!["good".to_string()]);
}

#[test]
fn add_table_stops_at_malformed_template() {
    let mut store = TemplateStore::new();
    let t = vec![
        ("a".to_string(), "{% if %}".to_string()),
        ("b".to_string(), "fine".to_string()),
    ];
    assert!(matches!(store.add_table(&t), Err(MvpError::Custom(_))));
    assert!(store.template_names().is_empty());
}

#[test]
fn quotes_are_trimmed_from_both_ends() {
    assert_eq!(trim_quotes("\"demo\""), "demo");
    assert_eq!(trim_quotes("\"\"demo\""), "demo");
    assert_eq!(trim_quotes("de\"mo"), "de\"mo");
    assert_eq!(trim_quotes("\"\"\""), "");
    assert_eq!(trim_quotes(""), "");
    assert_eq!(trim_quotes("plain"), "plain");
}

#[test]
fn creation_arguments() {
    assert_eq!(creation_command_args("x", false), vec!["new", "x"]);
    assert_eq!(creation_command_args("x", true), vec!["new", "x", "--vcs", "none"]);
}

#[test]
fn init_request_reads_name_and_switch() {
    let v = vec!["app".to_string(), "n".to_string()];
    let (name, off) = init_request(Some(&v)).expect("valid");
    assert_eq!(name, "app");
    assert!(off);
    let v = vec!["app".to_string()];
    assert_eq!(init_request(Some(&v)).expect("valid"), ("app".to_string(), false));
}

#[test]
fn error_messages() {
    assert_eq!(MvpError::custom("boom").message(), "Custom Error: boom");
    let e = MvpError::project_creation_failed("demo");
    assert_eq!(e.message(), "Custom Error: Failed to create project 'demo'");
    assert!(e.tera_cause().is_none());
    assert!(e.io_cause().is_none());
    let io = MvpError::Io(std::io::Error::new(std::io::ErrorKind::Other, "disk"));
    assert_eq!(io.message(), "IO Error: disk");
    assert!(io.io_cause().is_some());
    let r = TemplateStore::new().render("x", &ExecutionContext::new());
    let e = r.expect_err("missing");
    assert!(e.message().starts_with("Tera Error: "));
    assert!(e.tera_cause().is_some());
}

#[test]
fn context_keeps_positional_values() {
    let mut ctx = ExecutionContext::new();
    assert!(ctx.positional_values().is_none());
    ctx.set_positional(Some(vec!["a".to_string()]));
    ctx.insert_text("init_values", "ignored");
    assert_eq!(ctx.positional_values(), Some(&vec!["a".to_string()]));
}

#[test]
fn plain_subset_is_recognised() {
    assert!(is_plain_template(""));
    assert!(is_plain_template("plain text { with } braces }}"));
    assert!(is_plain_template("{{ author }} and {{year}}"));
    assert!(is_plain_template("{\"a\": {\"b\": 1}}"));
    assert!(is_plain_template("ends with {"));
    assert!(!is_plain_template("{% if x %}y{% endif %}"));
    assert!(is_plain_template("{# note #} and {# a } # b ## #}"));
    assert!(!is_plain_template("{# open"));
    assert!(!is_plain_template("{{ 1000.0 }}"));
    assert!(!is_plain_template("{{ name | upper }}"));
    assert!(is_plain_template("{{ a.b }}"));
    assert!(!is_plain_template("{{ 1.5 }}"));
    assert!(!is_plain_template("{{ a + b }}"));
    assert!(!is_plain_template("{{ now() }}"));
    assert!(!is_plain_template("{{ open"));
    assert!(!is_plain_template("{{}}"));
}

#[test]
fn unsupported_template_is_refused_before_the_engine() {
    let mut store = TemplateStore::new();
    assert!(matches!(
        store.add_template("inc", "{% include \"inc\" %}"),
        Err(MvpError::Custom(_))
    ));
    assert!(store.template_names().is_empty());
}

#[test]
fn assembled_plan_carries_rendered_text() {
    let steps = vec![
        Step::MakeDir { path: "d".to_string() },
        Step::Emit {
            template: "t".to_string(),
            target: "d/f".to_string(),
            mode: WriteMode::Overwrite,
        },
        Step::Emit {
            template: "u".to_string(),
            target: "g".to_string(),
            mode: WriteMode::Append,
        },
    ];
    let plan = assemble_plan(
        &steps,
        vec![Ok(String::new()), Ok("one".to_string()), Ok("two".to_string())],
    );
    assert!(plan.outcome.is_ok());
    assert_eq!(paths(&plan), vec!["mkdir d", "write d/f", "append g"]);
    let mut files = HashMap::new();
    apply(&mut files, &plan);
    assert_eq!(files["d/f"], "one");
    assert_eq!(files["g"], "two");
}

#[test]
fn assembled_plan_passes_first_failure_on() {
    let steps = vec![
        Step::Emit {
            template: "t".to_string(),
            target: "a".to_string(),
            mode: WriteMode::Overwrite,
        },
        Step::Emit {
            template: "u".to_string(),
            target: "b".to_string(),
            mode: WriteMode::Overwrite,
        },
        Step::MakeDir { path: "c".to_string() },
    ];
    let plan = assemble_plan(
        &steps,
        vec![
            Ok("one".to_string()),
            Err(MvpError::custom("first")),
            Ok(String::new()),
        ],
    );
    assert_eq!(paths(&plan), vec!["write a"]);
    match plan.outcome {
        Err(MvpError::Custom(m)) => assert_eq!(m, "first"),
        _ => panic!("expected the render's own error"),
    }
}

#[test]
fn filled_context_renders_author_and_year() {
    let mut store = TemplateStore::new();
    store.add_template("who", "{{ author }} {{ year }}").expect("plain");
    let mut ctx = ExecutionContext::new();
    fill_context_with_year_and_author(&mut ctx, 2031);
    let text = store.render("who", &ctx).expect("renders");
    assert_eq!(text, "Levio-Z 2031");
}

#[test]
fn comments_are_dropped_when_rendering() {
    let mut store = TemplateStore::new();
    store.add_template("c", "a{# hidden #}b {{ author }}").expect("plain");
    let r = store.render("c", &context(None)).expect("renders");
    assert_eq!(r, "ab Ada");
}
