use quickstart::plan::{
    backend_framework_of, backend_plan, frontend_framework_of, frontend_plan, plan,
    BackendFramework, FrontendFramework, Notice, Plan, ScaffoldRequest, Step, Tool,
    FASTAPI_SERVER, REQUIREMENTS,
};
use quickstart::run::{after_step, start, Progress};
use quickstart::text::text_eq;

fn strings(parts: &[&str]) -> Vec<String> {
    parts.iter().map(|s| s.to_string()).collect()
}

fn dir(parts: &[&str]) -> Step {
    Step::CreateDir { path: strings(parts) }
}

fn write(parts: &[&str], contents: &str) -> Step {
    Step::WriteFile { path: strings(parts), contents: contents.to_string() }
}

fn run(parts: &[&str], tool: Tool, args: &[&str]) -> Step {
    Step::Run { dir: strings(parts), tool, args: strings(args) }
}

fn request(name: &str, kind: &str, backend: &str, frontend: &str, extras: bool) -> ScaffoldRequest {
    ScaffoldRequest {
        project_name: name.to_string(),
        project_type: kind.to_string(),
        backend_framework: backend.to_string(),
        frontend_framework: frontend.to_string(),
        include_extras: extras,
    }
}

/// Performs a plan with a fake executor that reports the given outcomes, and
/// returns the indices of the steps performed and the final progress.
fn drive(p: &Plan, outcomes: &[bool]) -> (Vec<usize>, Progress) {
    let n = p.steps.len();
    let mut performed = Vec::new();
    let mut progress = start(n);
    while let Progress::Next(i) = progress {
        performed.push(i);
        progress = after_step(n, i, outcomes[i]);
    }
    (performed, progress)
}

#[test]
fn python_backend_without_extras() {
    let p = plan(&request("demo", "backend", "python", "react", false));
    assert_eq!(
        p.steps,
        vec![
            dir(&["demo"]),
            dir(&["demo", "backend"]),
            run(&["demo", "backend"], Tool::Python, &["-m", "venv", "venv"]),
            write(&["demo", "backend", "main.py"], ""),
        ]
    );
    assert_eq!(p.notice, None);
    let writes = p.steps.iter().filter(|s| matches!(s, Step::WriteFile { .. })).count();
    assert_eq!(writes, 1);
}

#[test]
fn python_backend_with_extras() {
    let p = plan(&request("demo", "backend", "python", "react", true));
    assert_eq!(
        p.steps,
        vec![
            dir(&["demo"]),
            dir(&["demo", "backend"]),
            run(&["demo", "backend"], Tool::Python, &["-m", "venv", "venv"]),
            write(&["demo", "backend", "main.py"], ""),
            write(&["demo", "backend", "server.py"], FASTAPI_SERVER),
            write(&["demo", "backend", "requirements.txt"], "fastapi"),
            run(&["demo", "backend"], Tool::Pip, &["install", "-r", "requirements.txt"]),
        ]
    );
    assert_eq!(p.notice, None);
    let installs = p.steps.iter().filter(|s| matches!(s, Step::Run { tool: Tool::Pip, .. })).count();
    assert_eq!(installs, 1);
    assert_eq!(REQUIREMENTS, "fastapi");
    assert!(FASTAPI_SERVER.contains("app = FastAPI()"));
    assert!(FASTAPI_SERVER.contains("port=8000"));
}

#[test]
fn node_backend() {
    let p = plan(&request("api", "backend", "node", "react", true));
    assert_eq!(
        p.steps,
        vec![
            dir(&["api"]),
            run(&["api"], Tool::Npm, &["init", "-y"]),
            run(&["api"], Tool::Npm, &["install", "express", "jsonwebtoken"]),
        ]
    );
    assert_eq!(p.notice, None);
    assert!(!p.steps.iter().any(|s| matches!(s, Step::WriteFile { .. })));
}

#[test]
fn backend_framework_is_folded() {
    let p = plan(&request("demo", "backend", "PyThOn", "react", false));
    assert_eq!(p.steps.len(), 4);
    assert_eq!(p.steps[2], run(&["demo", "backend"], Tool::Python, &["-m", "venv", "venv"]));
    let q = plan(&request("api", "backend", "NODE", "react", false));
    assert_eq!(q.steps[1], run(&["api"], Tool::Npm, &["init", "-y"]));
}

#[test]
fn unknown_backend_framework() {
    let p = plan(&request("demo", "backend", "ruby", "react", true));
    assert_eq!(p.steps, vec![dir(&["demo"])]);
    assert_eq!(p.notice, Some(Notice::NoFramework));
}

#[test]
fn react_frontend() {
    let p = plan(&request("site", "frontend", "python", "react", false));
    assert_eq!(
        p.steps,
        vec![
            run(&[], Tool::Npx, &["create-vite@latest", "site"]),
            run(&["site"], Tool::Npm, &["install"]),
        ]
    );
    assert_eq!(p.notice, None);
}

#[test]
fn next_frontend() {
    let p = plan(&request("site", "frontend", "python", "Next", false));
    assert_eq!(
        p.steps,
        vec![
            run(&[], Tool::Npx, &["create-next-app@latest", "site", "--typescript", "--eslint"]),
            run(&["site"], Tool::Npm, &["install"]),
        ]
    );
    assert_eq!(p.notice, None);
}

#[test]
fn unknown_frontend_framework() {
    let p = plan(&request("site", "frontend", "python", "vue", false));
    assert!(p.steps.is_empty());
    assert_eq!(p.notice, Some(Notice::NoFramework));
}

#[test]
fn unknown_project_type() {
    let p = plan(&request("x", "mobile", "python", "react", true));
    assert!(p.steps.is_empty());
    assert_eq!(p.notice, Some(Notice::UnknownProjectType("mobile".to_string())));
    assert_eq!(start(p.steps.len()), Progress::Done);
}

#[test]
fn project_type_is_matched_exactly() {
    let p = plan(&request("x", "Backend", "python", "react", false));
    assert!(p.steps.is_empty());
    assert_eq!(p.notice, Some(Notice::UnknownProjectType("Backend".to_string())));
}

#[test]
fn same_request_same_plan() {
    let a = plan(&request("demo", "backend", "python", "react", true));
    let b = plan(&request("demo", "backend", "python", "react", true));
    assert_eq!(a, b);
}

#[test]
fn framework_names() {
    assert_eq!(backend_framework_of("python"), BackendFramework::Python);
    assert_eq!(backend_framework_of("node"), BackendFramework::Node);
    assert_eq!(backend_framework_of("Python"), BackendFramework::Other);
    assert_eq!(backend_framework_of(""), BackendFramework::Other);
    assert_eq!(frontend_framework_of("react"), FrontendFramework::React);
    assert_eq!(frontend_framework_of("next"), FrontendFramework::Next);
    assert_eq!(frontend_framework_of("nextjs"), FrontendFramework::Other);
}

#[test]
fn plans_by_framework() {
    assert_eq!(backend_plan("a", BackendFramework::Other, false).steps, vec![dir(&["a"])]);
    assert_eq!(backend_plan("a", BackendFramework::Python, true).steps.len(), 7);
    assert_eq!(frontend_plan("b", FrontendFramework::Other).notice, Some(Notice::NoFramework));
    assert_eq!(frontend_plan("b", FrontendFramework::React).steps.len(), 2);
}

#[test]
fn text_equality() {
    assert!(text_eq("abc", "abc"));
    assert!(text_eq("", ""));
    assert!(!text_eq("abc", "abd"));
    assert!(!text_eq("abc", "ab"));
    assert!(!text_eq("é", "e"));
}

#[test]
fn run_goes_in_order() {
    let p = plan(&request("demo", "backend", "python", "react", true));
    let (performed, end) = drive(&p, &[true; 7]);
    assert_eq!(performed, vec![0, 1, 2, 3, 4, 5, 6]);
    assert_eq!(end, Progress::Done);
}

#[test]
fn failure_ends_the_run() {
    let p = plan(&request("site", "frontend", "python", "react", false));
    let (performed, end) = drive(&p, &[false, true]);
    assert_eq!(performed, vec![0]);
    assert_eq!(end, Progress::Failed(0));
    let q = plan(&request("demo", "backend", "python", "react", true));
    let (performed, end) = drive(&q, &[true, true, true, false, false, true, true]);
    assert_eq!(performed, vec![0, 1, 2, 3]);
    assert_eq!(end, Progress::Failed(3));
}

#[test]
fn step_transitions() {
    assert_eq!(start(0), Progress::Done);
    assert_eq!(start(3), Progress::Next(0));
    assert_eq!(after_step(3, 0, true), Progress::Next(1));
    assert_eq!(after_step(3, 2, true), Progress::Done);
    assert_eq!(after_step(3, 1, false), Progress::Failed(1));
}
