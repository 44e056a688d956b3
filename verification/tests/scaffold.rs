use web_scaffold::dispatch::{
    describe, invocation_args, invocation_program, next, program_name, start, Action,
    DispatchState, Event, Invocation, Program, Stage, ToolError, Verb,
};
use web_scaffold::memfs::{MemFs, Node};
use web_scaffold::plan::{integrate, PlanStep};
use web_scaffold::templates::{placeholder_key, template_destination, template_payload, TemplateName};
use web_scaffold::text::{chars_eq, chars_of, substitute};

fn chars(s: &str) -> Vec<char> {
    chars_of(s)
}

fn text_of(v: &[char]) -> String {
    v.iter().collect()
}

fn count_occurrences(hay: &str, needle: &str) -> usize {
    hay.matches(needle).count()
}

fn step_path_text(step: &PlanStep) -> String {
    match step {
        PlanStep::Dir(p) => text_of(p),
        PlanStep::File(p, _) => text_of(p),
    }
}

fn file_text(fs: &MemFs, path: &str) -> Option<String> {
    let p = chars(path);
    match fs.get(&p) {
        Some(Node::File(c)) => Some(text_of(c)),
        _ => None,
    }
}

fn is_dir(fs: &MemFs, path: &str) -> bool {
    let p = chars(path);
    matches!(fs.get(&p), Some(Node::Dir))
}

#[test]
fn substitute_replaces_single_occurrence() {
    let s = chars("<title>$PROJECT_NAME</title>");
    let key = placeholder_key();
    let value = chars("proj");
    let r = substitute(&s, &key, &value);
    assert_eq!(text_of(&r), "<title>proj</title>");
}

#[test]
fn substitute_replaces_every_occurrence() {
    let s = chars("$PROJECT_NAME and $PROJECT_NAME");
    let key = placeholder_key();
    let value = chars("x");
    let r = substitute(&s, &key, &value);
    assert_eq!(text_of(&r), "x and x");
}

#[test]
fn substitute_leaves_unrecognized_placeholders() {
    let s = chars("keep $OTHER_NAME verbatim");
    let key = placeholder_key();
    let value = chars("proj");
    let r = substitute(&s, &key, &value);
    assert_eq!(text_of(&r), "keep $OTHER_NAME verbatim");
}

#[test]
fn substitute_with_empty_key_changes_nothing() {
    let s = chars("anything");
    let key = chars("");
    let value = chars("value");
    let r = substitute(&s, &key, &value);
    assert_eq!(text_of(&r), "anything");
}

#[test]
fn substitute_with_empty_value_deletes_key() {
    let s = chars("a$Xb");
    let key = chars("$X");
    let value = chars("");
    let r = substitute(&s, &key, &value);
    assert_eq!(text_of(&r), "ab");
}

#[test]
fn chars_eq_compares_text() {
    assert!(chars_eq(&chars("abc"), &chars("abc")));
    assert!(!chars_eq(&chars("abc"), &chars("abd")));
    assert!(!chars_eq(&chars("abc"), &chars("ab")));
}

#[test]
fn host_page_template_holds_placeholder_once() {
    let page = text_of(&template_payload(TemplateName::WebHostPage));
    assert_eq!(count_occurrences(&page, "$PROJECT_NAME"), 1);
}

#[test]
fn literal_templates_hold_no_placeholder() {
    for name in [
        TemplateName::BuildDriver,
        TemplateName::ToolchainConfig,
        TemplateName::EntrySource,
    ] {
        let payload = text_of(&template_payload(name));
        assert_eq!(count_occurrences(&payload, "$PROJECT_NAME"), 0);
    }
}

#[test]
fn template_destinations_are_canonical() {
    assert_eq!(text_of(&template_destination(TemplateName::BuildDriver)), "Makefile");
    assert_eq!(text_of(&template_destination(TemplateName::WebHostPage)), "html/index.html");
    assert_eq!(
        text_of(&template_destination(TemplateName::ToolchainConfig)),
        ".cargo/config.toml"
    );
    assert_eq!(text_of(&template_destination(TemplateName::EntrySource)), "src/main.rs");
}

#[test]
fn plan_lists_the_six_steps_in_order() {
    let plan = integrate(&chars("proj"));
    assert_eq!(plan.len(), 6);
    let paths: Vec<String> = plan.iter().map(step_path_text).collect();
    assert_eq!(
        paths,
        vec!["Assets", "Makefile", "html", "html/index.html", ".cargo", ".cargo/config.toml"]
    );
    assert!(matches!(plan[0], PlanStep::Dir(_)));
    assert!(matches!(plan[1], PlanStep::File(_, _)));
    assert!(matches!(plan[2], PlanStep::Dir(_)));
    assert!(matches!(plan[3], PlanStep::File(_, _)));
    assert!(matches!(plan[4], PlanStep::Dir(_)));
    assert!(matches!(plan[5], PlanStep::File(_, _)));
}

#[test]
fn plan_resolves_project_name_in_host_page() {
    let plan = integrate(&chars("proj"));
    if let PlanStep::File(_, contents) = &plan[3] {
        let page = text_of(contents);
        assert!(page.contains("<title>proj</title>"));
        assert_eq!(count_occurrences(&page, "$PROJECT_NAME"), 0);
        let expected = substitute(
            &template_payload(TemplateName::WebHostPage),
            &placeholder_key(),
            &chars("proj"),
        );
        assert_eq!(page, text_of(&expected));
    } else {
        panic!("fourth step is not a file step");
    }
}

#[test]
fn integrate_in_fresh_dir_creates_everything() {
    let mut fs = MemFs::new();
    let plan = integrate(&chars("proj"));
    let writes = fs.materialize(&plan);
    assert_eq!(writes, 6);
    assert!(is_dir(&fs, "Assets"));
    assert!(is_dir(&fs, "html"));
    assert!(is_dir(&fs, ".cargo"));
    assert_eq!(
        file_text(&fs, "Makefile").unwrap(),
        text_of(&template_payload(TemplateName::BuildDriver))
    );
    assert_eq!(
        file_text(&fs, ".cargo/config.toml").unwrap(),
        text_of(&template_payload(TemplateName::ToolchainConfig))
    );
    let page = file_text(&fs, "html/index.html").unwrap();
    assert!(page.contains("<title>proj</title>"));
    assert_eq!(count_occurrences(&page, "$PROJECT_NAME"), 0);
}

#[test]
fn integrate_keeps_user_authored_makefile() {
    let mut fs = MemFs::new();
    fs.put(chars("Makefile"), Node::File(chars("custom\n")));
    let plan = integrate(&chars("proj"));
    let writes = fs.materialize(&plan);
    assert_eq!(writes, 5);
    assert_eq!(file_text(&fs, "Makefile").unwrap(), "custom\n");
}

#[test]
fn integrate_creates_only_the_missing_paths() {
    let mut fs = MemFs::new();
    fs.put(chars("html"), Node::Dir);
    fs.put(chars("Makefile"), Node::File(chars("mine\n")));
    let plan = integrate(&chars("proj"));
    let writes = fs.materialize(&plan);
    assert_eq!(writes, 4);
    assert_eq!(file_text(&fs, "Makefile").unwrap(), "mine\n");
    assert!(fs.has(&chars("html/index.html")));
    assert!(fs.has(&chars(".cargo/config.toml")));
    assert!(is_dir(&fs, "Assets"));
}

#[test]
fn integrate_twice_second_run_writes_nothing() {
    let mut fs = MemFs::new();
    let plan = integrate(&chars("proj"));
    let first = fs.materialize(&plan);
    assert_eq!(first, 6);
    let before = file_text(&fs, "html/index.html").unwrap();
    let second = fs.materialize(&plan);
    assert_eq!(second, 0);
    assert_eq!(file_text(&fs, "html/index.html").unwrap(), before);
    assert_eq!(
        file_text(&fs, "Makefile").unwrap(),
        text_of(&template_payload(TemplateName::BuildDriver))
    );
}

#[test]
fn memfs_lookup_of_absent_path_is_none() {
    let fs = MemFs::new();
    assert!(fs.get(&chars("Makefile")).is_none());
    assert!(!fs.has(&chars("Makefile")));
}

#[test]
fn new_with_empty_name_is_usage_error() {
    let (state, action) = start(&Verb::New(chars("")));
    assert_eq!(state, DispatchState::Failed(ToolError::Usage));
    assert_eq!(action, Action::Fail(ToolError::Usage));
}

#[test]
fn new_happy_path_sequences_all_steps() {
    let (s0, a0) = start(&Verb::New(chars("myapp")));
    assert_eq!(a0, Action::Launch(Invocation::CreateProject));
    let (s1, a1) = next(s0, Event::Launched(true));
    assert_eq!(a1, Action::EnterProject);
    let (s2, a2) = next(s1, Event::IoOk);
    assert_eq!(a2, Action::Launch(Invocation::AddRaylib));
    let (s3, a3) = next(s2, Event::Launched(true));
    assert_eq!(a3, Action::OverwriteEntry);
    let (s4, a4) = next(s3, Event::IoOk);
    assert_eq!(a4, Action::Materialize);
    let (s5, a5) = next(s4, Event::IoOk);
    assert_eq!(a5, Action::Finish);
    assert_eq!(s5, DispatchState::Succeeded);
}

#[test]
fn new_add_failure_aborts_without_writes() {
    let (s0, _) = start(&Verb::New(chars("myapp")));
    let (s1, a1) = next(s0, Event::Launched(true));
    let (s2, a2) = next(s1, Event::IoOk);
    let (s3, a3) = next(s2, Event::Launched(false));
    assert_eq!(a3, Action::Fail(ToolError::Subprocess(Stage::AddDependency)));
    assert_eq!(s3, DispatchState::Failed(ToolError::Subprocess(Stage::AddDependency)));
    for a in [a1, a2, a3] {
        assert_ne!(a, Action::OverwriteEntry);
        assert_ne!(a, Action::Materialize);
    }
}

#[test]
fn new_skeleton_failure_aborts_at_once() {
    let (s0, _) = start(&Verb::New(chars("myapp")));
    let (s1, a1) = next(s0, Event::LaunchFailed);
    assert_eq!(a1, Action::Fail(ToolError::Launch(Stage::CreateProject)));
    assert_eq!(s1, DispatchState::Failed(ToolError::Launch(Stage::CreateProject)));
}

#[test]
fn integrate_verb_materializes_and_finishes() {
    let (s0, a0) = start(&Verb::Integrate);
    assert_eq!(a0, Action::Materialize);
    let (s1, a1) = next(s0, Event::IoOk);
    assert_eq!(a1, Action::Finish);
    assert_eq!(s1, DispatchState::Succeeded);
}

#[test]
fn integrate_io_failure_is_fatal() {
    let (s0, _) = start(&Verb::Integrate);
    let (_, a1) = next(s0, Event::IoFailed);
    assert_eq!(a1, Action::Fail(ToolError::Io(Stage::WriteScaffolding)));
}

#[test]
fn run_happy_path_builds_then_serves() {
    let (s0, a0) = start(&Verb::Run);
    assert_eq!(a0, Action::Launch(Invocation::Build));
    let (s1, a1) = next(s0, Event::Launched(true));
    assert_eq!(a1, Action::EnterHtml);
    let (s2, a2) = next(s1, Event::IoOk);
    assert_eq!(a2, Action::Launch(Invocation::ServePrimary));
    let (s3, a3) = next(s2, Event::Launched(true));
    assert_eq!(a3, Action::Finish);
    assert_eq!(s3, DispatchState::Succeeded);
}

#[test]
fn run_falls_back_when_primary_is_absent() {
    let (s0, _) = start(&Verb::Run);
    let (s1, _) = next(s0, Event::Launched(true));
    let (s2, _) = next(s1, Event::IoOk);
    let (s3, a3) = next(s2, Event::LaunchFailed);
    assert_eq!(a3, Action::Launch(Invocation::ServeFallback));
    assert_eq!(s3, DispatchState::RunServingFallback);
    let (s4, a4) = next(s3, Event::Launched(true));
    assert_eq!(a4, Action::Finish);
    assert_eq!(s4, DispatchState::Succeeded);
}

#[test]
fn run_does_not_fall_back_on_nonzero_primary() {
    let (s0, _) = start(&Verb::Run);
    let (s1, _) = next(s0, Event::Launched(true));
    let (s2, _) = next(s1, Event::IoOk);
    let (s3, a3) = next(s2, Event::Launched(false));
    assert_eq!(a3, Action::Fail(ToolError::Subprocess(Stage::ServePrimary)));
    assert_eq!(s3, DispatchState::Failed(ToolError::Subprocess(Stage::ServePrimary)));
}

#[test]
fn run_fallback_failure_is_fatal() {
    let (s0, _) = start(&Verb::Run);
    let (s1, _) = next(s0, Event::Launched(true));
    let (s2, _) = next(s1, Event::IoOk);
    let (s3, _) = next(s2, Event::LaunchFailed);
    let (_, a4) = next(s3, Event::LaunchFailed);
    assert_eq!(a4, Action::Fail(ToolError::Launch(Stage::ServeFallback)));
}

#[test]
fn run_build_failure_stops_before_serving() {
    let (s0, _) = start(&Verb::Run);
    let (s1, a1) = next(s0, Event::Launched(false));
    assert_eq!(a1, Action::Fail(ToolError::Subprocess(Stage::Build)));
    assert_eq!(s1, DispatchState::Failed(ToolError::Subprocess(Stage::Build)));
    let (s2, a2) = next(s0, Event::LaunchFailed);
    assert_eq!(a2, Action::Fail(ToolError::Launch(Stage::Build)));
    assert_eq!(s2, DispatchState::Failed(ToolError::Launch(Stage::Build)));
}

#[test]
fn invocations_name_the_expected_programs() {
    assert_eq!(program_name(invocation_program(Invocation::CreateProject)), "cargo");
    assert_eq!(program_name(invocation_program(Invocation::AddRaylib)), "cargo");
    assert_eq!(program_name(invocation_program(Invocation::Build)), "make");
    assert_eq!(program_name(invocation_program(Invocation::ServePrimary)), "python3");
    assert_eq!(program_name(invocation_program(Invocation::ServeFallback)), "python");
    assert_eq!(program_name(Program::InterpreterPrimary), "python3");
}

#[test]
fn invocations_carry_the_expected_arguments() {
    let name = chars("myapp");
    let texts = |inv| {
        invocation_args(inv, &name)
            .iter()
            .map(|a: &Vec<char>| text_of(a))
            .collect::<Vec<String>>()
    };
    assert_eq!(texts(Invocation::CreateProject), vec!["new", "myapp"]);
    assert_eq!(texts(Invocation::AddRaylib), vec!["add", "raylib"]);
    assert!(texts(Invocation::Build).is_empty());
    assert_eq!(texts(Invocation::ServePrimary), vec!["-m", "http.server", "8000"]);
    assert_eq!(texts(Invocation::ServeFallback), vec!["-m", "http.server", "8000"]);
}

#[test]
fn errors_name_the_failed_operation() {
    assert_eq!(describe(ToolError::Usage), "Project name must not be empty.");
    assert_eq!(describe(ToolError::Env), "Failed to fetch project name.");
    assert_eq!(
        describe(ToolError::Subprocess(Stage::CreateProject)),
        "Failed to create new project."
    );
    assert_eq!(
        describe(ToolError::Launch(Stage::AddDependency)),
        "Failed to add raylib as a dependency."
    );
    assert_eq!(describe(ToolError::Io(Stage::EnterHtml)), "Failed to jump to project's html.");
    assert_eq!(describe(ToolError::Subprocess(Stage::Build)), "Failed to build project.");
    assert_eq!(describe(ToolError::Launch(Stage::ServeFallback)), "Failed to run project.");
}

#[test]
fn apply_one_gates_on_presence_alone() {
    let mut fs = MemFs::new();
    fs.put(chars("Makefile"), Node::File(chars("custom\n")));
    let file_step = PlanStep::File(chars("Makefile"), chars("generated\n"));
    assert!(!fs.apply_one(&file_step));
    assert_eq!(file_text(&fs, "Makefile").unwrap(), "custom\n");
    let dir_step = PlanStep::Dir(chars("Assets"));
    assert!(fs.apply_one(&dir_step));
    assert!(is_dir(&fs, "Assets"));
    assert!(!fs.apply_one(&dir_step));
}
