//! The scaffold plan: the ordered directory, file and tool steps that a
//! request calls for, and a mathematical model of each of them.
use vstd::prelude::*;
use crate::run::{start_of, Progress};
use crate::text::{lower_of, lowercase, text_eq};

verus! {

/// Source of the minimal web server written when extras are requested.
pub const FASTAPI_SERVER: &'static str = "from fastapi import FastAPI

app = FastAPI()

@app.get(\"/\")
async def default():
    return {\"response\":\"on\"}

if __name__ == \"__main__\":
    import uvicorn
    uvicorn.run(app, host=\"0.0.0.0\", port=8000)
";

/// Contents of the dependency manifest written when extras are requested.
pub const REQUIREMENTS: &'static str = "fastapi";

/// A logical external tool; the host resolves it to a command it can run.
#[derive(Clone, Copy, Debug, PartialEq, Eq, Structural)]
pub enum Tool {
    /// The Python interpreter, used to create a virtual environment.
    Python,
    /// The package installer inside the virtual environment of the step's directory.
    Pip,
    /// The Node package manager.
    Npm,
    /// The Node package runner, used for project generators.
    Npx,
}

/// One operation of a scaffold. Paths are lists of components relative to
/// the directory the scaffold runs in.
#[derive(Debug, PartialEq, Eq)]
pub enum Step {
    /// Create a directory, with its parents.
    CreateDir { path: Vec<String> },
    /// Write a text file with fixed contents.
    WriteFile { path: Vec<String>, contents: String },
    /// Run a tool with arguments in a working directory, and wait for it.
    Run { dir: Vec<String>, tool: Tool, args: Vec<String> },
}

/// A non-fatal remark that ends a scaffold early.
#[derive(Debug, PartialEq, Eq)]
pub enum Notice {
    /// The framework named is not one this tool knows.
    NoFramework,
    /// The project type named is not one this tool knows.
    UnknownProjectType(String),
}

/// Everything a scaffold does: its steps in order, then a notice if any.
#[derive(Debug, PartialEq, Eq)]
pub struct Plan {
    pub steps: Vec<Step>,
    pub notice: Option<Notice>,
}

/// What a caller asks for.
#[derive(Debug, PartialEq, Eq)]
pub struct ScaffoldRequest {
    pub project_name: String,
    pub project_type: String,
    pub backend_framework: String,
    pub frontend_framework: String,
    pub include_extras: bool,
}

/// The backend frameworks that are told apart.
#[derive(Clone, Copy, Debug, PartialEq, Eq, Structural)]
pub enum BackendFramework {
    Python,
    Node,
    Other,
}

/// The frontend frameworks that are told apart.
#[derive(Clone, Copy, Debug, PartialEq, Eq, Structural)]
pub enum FrontendFramework {
    React,
    Next,
    Other,
}

/// The model of a step: paths and arguments as sequences of texts.
pub enum StepModel {
    CreateDir(Seq<Seq<char>>),
    WriteFile(Seq<Seq<char>>, Seq<char>),
    Run(Seq<Seq<char>>, Tool, Seq<Seq<char>>),
}

/// The model of a notice.
pub enum NoticeModel {
    NoFramework,
    UnknownProjectType(Seq<char>),
}

/// The model of a plan.
pub struct PlanModel {
    pub steps: Seq<StepModel>,
    pub notice: Option<NoticeModel>,
}

/// The characters of each text in a list.
pub open spec fn texts(v: Seq<String>) -> Seq<Seq<char>> {
    v.map_values(|s: String| s@)
}

impl View for Step {
    type V = StepModel;

    open spec fn view(&self) -> StepModel {
        match self {
            Step::CreateDir { path } => StepModel::CreateDir(texts(path@)),
            Step::WriteFile { path, contents } => StepModel::WriteFile(texts(path@), contents@),
            Step::Run { dir, tool, args } => StepModel::Run(texts(dir@), *tool, texts(args@)),
        }
    }
}

impl View for Notice {
    type V = NoticeModel;

    open spec fn view(&self) -> NoticeModel {
        match self {
            Notice::NoFramework => NoticeModel::NoFramework,
            Notice::UnknownProjectType(t) => NoticeModel::UnknownProjectType(t@),
        }
    }
}

impl View for Plan {
    type V = PlanModel;

    open spec fn view(&self) -> PlanModel {
        PlanModel {
            steps: self.steps@.map_values(|s: Step| s@),
            notice: match self.notice {
                Some(n) => Some(n@),
                None => None,
            },
        }
    }
}

/// The backend framework a case-folded name stands for.
pub open spec fn backend_of(lowered: Seq<char>) -> BackendFramework {
    if lowered == "python"@ {
        BackendFramework::Python
    } else if lowered == "node"@ {
        BackendFramework::Node
    } else {
        BackendFramework::Other
    }
}

/// The frontend framework a case-folded name stands for.
pub open spec fn frontend_of(lowered: Seq<char>) -> FrontendFramework {
    if lowered == "react"@ {
        FrontendFramework::React
    } else if lowered == "next"@ {
        FrontendFramework::Next
    } else {
        FrontendFramework::Other
    }
}

/// The steps of the Python backend of project `name`, with the server,
/// manifest and install when `extras` holds.
pub open spec fn python_steps(name: Seq<char>, extras: bool) -> Seq<StepModel> {
    let dir = seq![name, "backend"@];
    seq![
        StepModel::CreateDir(dir),
        StepModel::Run(dir, Tool::Python, seq!["-m"@, "venv"@, "venv"@]),
        StepModel::WriteFile(seq![name, "backend"@, "main.py"@], ""@),
    ] + if extras {
        seq![
            StepModel::WriteFile(seq![name, "backend"@, "server.py"@], FASTAPI_SERVER@),
            StepModel::WriteFile(seq![name, "backend"@, "requirements.txt"@], REQUIREMENTS@),
            StepModel::Run(dir, Tool::Pip, seq!["install"@, "-r"@, "requirements.txt"@]),
        ]
    } else {
        Seq::empty()
    }
}

/// The plan of a backend project called `name`.
pub open spec fn backend_model(name: Seq<char>, fw: BackendFramework, extras: bool) -> PlanModel {
    let root = seq![name];
    match fw {
        BackendFramework::Python => PlanModel {
            steps: seq![StepModel::CreateDir(root)] + python_steps(name, extras),
            notice: None,
        },
        BackendFramework::Node => PlanModel {
            steps: seq![
                StepModel::CreateDir(root),
                StepModel::Run(root, Tool::Npm, seq!["init"@, "-y"@]),
                StepModel::Run(root, Tool::Npm, seq!["install"@, "express"@, "jsonwebtoken"@]),
            ],
            notice: None,
        },
        BackendFramework::Other => PlanModel {
            steps: seq![StepModel::CreateDir(root)],
            notice: Some(NoticeModel::NoFramework),
        },
    }
}

/// The plan of a frontend project called `name`.
pub open spec fn frontend_model(name: Seq<char>, fw: FrontendFramework) -> PlanModel {
    let install = StepModel::Run(seq![name], Tool::Npm, seq!["install"@]);
    match fw {
        FrontendFramework::React => PlanModel {
            steps: seq![
                StepModel::Run(Seq::empty(), Tool::Npx, seq!["create-vite@latest"@, name]),
                install,
            ],
            notice: None,
        },
        FrontendFramework::Next => PlanModel {
            steps: seq![
                StepModel::Run(
                    Seq::empty(),
                    Tool::Npx,
                    seq!["create-next-app@latest"@, name, "--typescript"@, "--eslint"@],
                ),
                install,
            ],
            notice: None,
        },
        FrontendFramework::Other => PlanModel { steps: Seq::empty(), notice: Some(NoticeModel::NoFramework) },
    }
}

/// The plan of a request. The project type is matched exactly, the framework
/// names after case folding.
pub open spec fn plan_of(req: ScaffoldRequest) -> PlanModel {
    if req.project_type@ == "backend"@ {
        backend_model(
            req.project_name@,
            backend_of(lower_of(req.backend_framework@)),
            req.include_extras,
        )
    } else if req.project_type@ == "frontend"@ {
        frontend_model(req.project_name@, frontend_of(lower_of(req.frontend_framework@)))
    } else {
        PlanModel {
            steps: Seq::empty(),
            notice: Some(NoticeModel::UnknownProjectType(req.project_type@)),
        }
    }
}

/// An owned list of no text.
fn list0() -> (r: Vec<String>)
    ensures
        texts(r@) == Seq::<Seq<char>>::empty(),
{
    let r: Vec<String> = Vec::new();
    assert(texts(r@) =~= Seq::<Seq<char>>::empty());
    r
}

/// An owned list of one text.
fn list1(a: &str) -> (r: Vec<String>)
    ensures
        texts(r@) == seq![a@],
{
    let r = vec![a.to_owned()];
    assert(texts(r@) =~= seq![a@]);
    r
}

/// An owned list of two texts.
fn list2(a: &str, b: &str) -> (r: Vec<String>)
    ensures
        texts(r@) == seq![a@, b@],
{
    let r = vec![a.to_owned(), b.to_owned()];
    assert(texts(r@) =~= seq![a@, b@]);
    r
}

/// An owned list of three texts.
fn list3(a: &str, b: &str, c: &str) -> (r: Vec<String>)
    ensures
        texts(r@) == seq![a@, b@, c@],
{
    let r = vec![a.to_owned(), b.to_owned(), c.to_owned()];
    assert(texts(r@) =~= seq![a@, b@, c@]);
    r
}

/// An owned list of four texts.
fn list4(a: &str, b: &str, c: &str, d: &str) -> (r: Vec<String>)
    ensures
        texts(r@) == seq![a@, b@, c@, d@],
{
    let r = vec![a.to_owned(), b.to_owned(), c.to_owned(), d.to_owned()];
    assert(texts(r@) =~= seq![a@, b@, c@, d@]);
    r
}

/// A step that creates the directory at `path`.
fn dir_step(path: Vec<String>) -> (r: Step)
    ensures
        r@ == StepModel::CreateDir(texts(path@)),
{
    Step::CreateDir { path }
}

/// A step that writes `contents` to the file at `path`.
fn write_step(path: Vec<String>, contents: &str) -> (r: Step)
    ensures
        r@ == StepModel::WriteFile(texts(path@), contents@),
{
    Step::WriteFile { path, contents: contents.to_owned() }
}

/// A step that runs `tool` with `args` in `dir`.
fn run_step(dir: Vec<String>, tool: Tool, args: Vec<String>) -> (r: Step)
    ensures
        r@ == StepModel::Run(texts(dir@), tool, texts(args@)),
{
    Step::Run { dir, tool, args }
}

/// The backend framework that a case-folded framework name stands for.
pub fn backend_framework_of(lowered: &str) -> (r: BackendFramework)
    ensures
        r == backend_of(lowered@),
{
    if text_eq(lowered, "python") {
        BackendFramework::Python
    } else if text_eq(lowered, "node") {
        BackendFramework::Node
    } else {
        BackendFramework::Other
    }
}

/// The frontend framework that a case-folded framework name stands for.
pub fn frontend_framework_of(lowered: &str) -> (r: FrontendFramework)
    ensures
        r == frontend_of(lowered@),
{
    if text_eq(lowered, "react") {
        FrontendFramework::React
    } else if text_eq(lowered, "next") {
        FrontendFramework::Next
    } else {
        FrontendFramework::Other
    }
}

/// A list of steps whose views agree one by one with `m` has `m` as its view.
proof fn lemma_models(steps: Seq<Step>, m: Seq<StepModel>)
    requires
        steps.len() == m.len(),
        forall|i: int| 0 <= i < m.len() ==> #[trigger] steps[i]@ == m[i],
    ensures
        steps.map_values(|s: Step| s@) == m,
{
    assert(steps.map_values(|s: Step| s@) =~= m);
}

/// The plan of a backend project called `name` in framework `fw`; `extras`
/// adds the web server, its manifest and the install of its dependency.
pub fn backend_plan(name: &str, fw: BackendFramework, extras: bool) -> (r: Plan)
    ensures
        r@ == backend_model(name@, fw, extras),
{
    let ghost m = backend_model(name@, fw, extras).steps;
    let mut steps: Vec<Step> = Vec::new();
    steps.push(dir_step(list1(name)));
    let notice = match fw {
        BackendFramework::Python => {
            steps.push(dir_step(list2(name, "backend")));
            steps.push(run_step(list2(name, "backend"), Tool::Python, list3("-m", "venv", "venv")));
            steps.push(write_step(list3(name, "backend", "main.py"), ""));
            assert(steps@[1]@ == m[1]);
            assert(steps@[2]@ == m[2]);
            assert(steps@[3]@ == m[3]);
            if extras {
                steps.push(write_step(list3(name, "backend", "server.py"), FASTAPI_SERVER));
                steps.push(write_step(list3(name, "backend", "requirements.txt"), REQUIREMENTS));
                steps.push(
                    run_step(
                        list2(name, "backend"),
                        Tool::Pip,
                        list3("install", "-r", "requirements.txt"),
                    ),
                );
                assert(steps@[4]@ == m[4]);
                assert(steps@[5]@ == m[5]);
                assert(steps@[6]@ == m[6]);
            }
            None
        },
        BackendFramework::Node => {
            steps.push(run_step(list1(name), Tool::Npm, list2("init", "-y")));
            steps.push(run_step(list1(name), Tool::Npm, list3("install", "express", "jsonwebtoken")));
            assert(steps@[1]@ == m[1]);
            assert(steps@[2]@ == m[2]);
            None
        },
        BackendFramework::Other => Some(Notice::NoFramework),
    };
    proof {
        lemma_models(steps@, m);
    }
    Plan { steps, notice }
}

/// The plan of a frontend project called `name` in framework `fw`.
pub fn frontend_plan(name: &str, fw: FrontendFramework) -> (r: Plan)
    ensures
        r@ == frontend_model(name@, fw),
{
    let ghost m = frontend_model(name@, fw).steps;
    let mut steps: Vec<Step> = Vec::new();
    let notice = match fw {
        FrontendFramework::React => {
            steps.push(run_step(list0(), Tool::Npx, list2("create-vite@latest", name)));
            steps.push(run_step(list1(name), Tool::Npm, list1("install")));
            assert(steps@[0]@ == m[0]);
            assert(steps@[1]@ == m[1]);
            None
        },
        FrontendFramework::Next => {
            steps.push(
                run_step(
                    list0(),
                    Tool::Npx,
                    list4("create-next-app@latest", name, "--typescript", "--eslint"),
                ),
            );
            steps.push(run_step(list1(name), Tool::Npm, list1("install")));
            assert(steps@[0]@ == m[0]);
            assert(steps@[1]@ == m[1]);
            None
        },
        FrontendFramework::Other => Some(Notice::NoFramework),
    };
    proof {
        lemma_models(steps@, m);
    }
    Plan { steps, notice }
}

/// The plan of a request: a backend or frontend project as its type says,
/// or no step and a notice naming a project type that is not known.
pub fn plan(req: &ScaffoldRequest) -> (r: Plan)
    ensures
        r@ == plan_of(*req),
{
    if text_eq(req.project_type.as_str(), "backend") {
        let lowered = lowercase(req.backend_framework.as_str());
        let fw = backend_framework_of(lowered.as_str());
        backend_plan(req.project_name.as_str(), fw, req.include_extras)
    } else if text_eq(req.project_type.as_str(), "frontend") {
        let lowered = lowercase(req.frontend_framework.as_str());
        let fw = frontend_framework_of(lowered.as_str());
        frontend_plan(req.project_name.as_str(), fw)
    } else {
        let r = Plan {
            steps: Vec::new(),
            notice: Some(Notice::UnknownProjectType(req.project_type.clone())),
        };
        assert(r@.steps =~= Seq::<StepModel>::empty());
        r
    }
}


/// Equal requests give equal plans: the steps and their order depend on the
/// request alone.
pub proof fn lemma_plan_determined(a: ScaffoldRequest, b: ScaffoldRequest)
    requires
        a.project_name@ == b.project_name@,
        a.project_type@ == b.project_type@,
        a.backend_framework@ == b.backend_framework@,
        a.frontend_framework@ == b.frontend_framework@,
        a.include_extras == b.include_extras,
    ensures
        plan_of(a) == plan_of(b),
{
}

/// A plain Python backend: the project directory, its `backend` directory, a
/// virtual environment made there, and one empty entry point; no server
/// source and no manifest.
pub proof fn lemma_python_backend(req: ScaffoldRequest)
    requires
        req.project_type@ == "backend"@,
        lower_of(req.backend_framework@) == "python"@,
        !req.include_extras,
    ensures
        ({
            let name = req.project_name@;
            let dir = seq![name, "backend"@];
            plan_of(req) == PlanModel {
                steps: seq![
                    StepModel::CreateDir(seq![name]),
                    StepModel::CreateDir(dir),
                    StepModel::Run(dir, Tool::Python, seq!["-m"@, "venv"@, "venv"@]),
                    StepModel::WriteFile(seq![name, "backend"@, "main.py"@], ""@),
                ],
                notice: None,
            }
        }),
{
    assert(plan_of(req).steps =~= seq![
        StepModel::CreateDir(seq![req.project_name@]),
        StepModel::CreateDir(seq![req.project_name@, "backend"@]),
        StepModel::Run(seq![req.project_name@, "backend"@], Tool::Python, seq!["-m"@, "venv"@, "venv"@]),
        StepModel::WriteFile(seq![req.project_name@, "backend"@, "main.py"@], ""@),
    ]);
}

/// A Python backend with extras: the plain steps, then a server source, a
/// manifest that names exactly one dependency, and one install from that
/// manifest.
pub proof fn lemma_python_backend_extras(req: ScaffoldRequest)
    requires
        req.project_type@ == "backend"@,
        lower_of(req.backend_framework@) == "python"@,
        req.include_extras,
    ensures
        ({
            let name = req.project_name@;
            let dir = seq![name, "backend"@];
            plan_of(req) == PlanModel {
                steps: seq![
                    StepModel::CreateDir(seq![name]),
                    StepModel::CreateDir(dir),
                    StepModel::Run(dir, Tool::Python, seq!["-m"@, "venv"@, "venv"@]),
                    StepModel::WriteFile(seq![name, "backend"@, "main.py"@], ""@),
                    StepModel::WriteFile(seq![name, "backend"@, "server.py"@], FASTAPI_SERVER@),
                    StepModel::WriteFile(seq![name, "backend"@, "requirements.txt"@], "fastapi"@),
                    StepModel::Run(dir, Tool::Pip, seq!["install"@, "-r"@, "requirements.txt"@]),
                ],
                notice: None,
            }
        }),
{
    let name = req.project_name@;
    let dir = seq![name, "backend"@];
    assert(plan_of(req).steps =~= seq![
        StepModel::CreateDir(seq![name]),
        StepModel::CreateDir(dir),
        StepModel::Run(dir, Tool::Python, seq!["-m"@, "venv"@, "venv"@]),
        StepModel::WriteFile(seq![name, "backend"@, "main.py"@], ""@),
        StepModel::WriteFile(seq![name, "backend"@, "server.py"@], FASTAPI_SERVER@),
        StepModel::WriteFile(seq![name, "backend"@, "requirements.txt"@], "fastapi"@),
        StepModel::Run(dir, Tool::Pip, seq!["install"@, "-r"@, "requirements.txt"@]),
    ]);
}

/// A Node backend: the project directory, then an init and the addition of
/// two packages, both run there; no file is written and no Python tool runs.
pub proof fn lemma_node_backend(req: ScaffoldRequest)
    requires
        req.project_type@ == "backend"@,
        lower_of(req.backend_framework@) == "node"@,
    ensures
        ({
            let root = seq![req.project_name@];
            plan_of(req) == PlanModel {
                steps: seq![
                    StepModel::CreateDir(root),
                    StepModel::Run(root, Tool::Npm, seq!["init"@, "-y"@]),
                    StepModel::Run(root, Tool::Npm, seq!["install"@, "express"@, "jsonwebtoken"@]),
                ],
                notice: None,
            }
        }),
        forall|i: int|
            0 <= i < plan_of(req).steps.len() ==> !(#[trigger] plan_of(req).steps[i] is WriteFile),
{
    reveal_strlit("python");
    reveal_strlit("node");
    assert("node"@.len() != "python"@.len());
    let root = seq![req.project_name@];
    assert(plan_of(req).steps =~= seq![
        StepModel::CreateDir(root),
        StepModel::Run(root, Tool::Npm, seq!["init"@, "-y"@]),
        StepModel::Run(root, Tool::Npm, seq!["install"@, "express"@, "jsonwebtoken"@]),
    ]);
}

/// A React frontend: the generator runs in the working directory with the
/// project name, then exactly one install runs in the generated directory.
pub proof fn lemma_react_frontend(req: ScaffoldRequest)
    requires
        req.project_type@ == "frontend"@,
        lower_of(req.frontend_framework@) == "react"@,
    ensures
        ({
            let name = req.project_name@;
            plan_of(req) == PlanModel {
                steps: seq![
                    StepModel::Run(Seq::empty(), Tool::Npx, seq!["create-vite@latest"@, name]),
                    StepModel::Run(seq![name], Tool::Npm, seq!["install"@]),
                ],
                notice: None,
            }
        }),
{
    reveal_strlit("backend");
    reveal_strlit("frontend");
    assert("frontend"@.len() != "backend"@.len());
    let name = req.project_name@;
    assert(plan_of(req).steps =~= seq![
        StepModel::Run(Seq::empty(), Tool::Npx, seq!["create-vite@latest"@, name]),
        StepModel::Run(seq![name], Tool::Npm, seq!["install"@]),
    ]);
}

/// A project type other than `backend` and `frontend` gives no step, only a
/// notice that names it, and a run of that plan is done at once.
pub proof fn lemma_unknown_project_type(req: ScaffoldRequest)
    requires
        req.project_type@ != "backend"@,
        req.project_type@ != "frontend"@,
    ensures
        plan_of(req) == (PlanModel {
            steps: Seq::empty(),
            notice: Some(NoticeModel::UnknownProjectType(req.project_type@)),
        }),
        start_of(plan_of(req).steps.len() as usize) == Progress::Done,
{
}

} // verus!
