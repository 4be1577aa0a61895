use vstd::prelude::*;

use crate::paths::{join_path, joined};
use crate::project::{details_spec, CreationMode, PathState, ProjectDetails, ProjectError};
use crate::standard::{version_of, CppStandard};
use crate::template::{
    cmakelists_for, contains, lemma_cmakelists_placeholders, lemma_cmakelists_rendered, lemma_render_emits_name, lemma_render_emits_version,
    render, render_template, CLANGD_TEMPLATE, CMAKELISTS_TEMPLATE, GITIGNORE_TEMPLATE,
    MAIN_CPP20_TEMPLATE, MAIN_CPP23_TEMPLATE,
};

verus! {

/// One file system action of materializing a project.
#[derive(Clone, Copy, Debug, PartialEq, Eq, Structural)]
pub enum StepKind {
    /// Create the project's directory and any missing parents.
    CreateProjectDir,
    /// Create a file that must not exist yet and write `contents` into it.
    WriteFile,
    /// Create one directory.
    CreateDir,
    /// Initialise a version-control repository rooted at `path`.
    InitRepository,
}

/// A step of the plan, acting on `path`.
pub struct Step {
    pub kind: StepKind,
    pub path: String,
    pub contents: String,
    /// Whether a failure of this step ends materialization with an error.
    pub required: bool,
}

pub ghost struct StepView {
    pub kind: StepKind,
    pub path: Seq<char>,
    pub contents: Seq<char>,
    pub required: bool,
}

impl View for Step {
    type V = StepView;

    open spec fn view(&self) -> StepView {
        StepView {
            kind: self.kind,
            path: self.path@,
            contents: self.contents@,
            required: self.required,
        }
    }
}

/// Optional parts of materialization.
#[derive(Clone, Copy, Debug, PartialEq, Eq, Structural)]
pub struct PlanOptions {
    /// Write the editor-integration file `.clangd`.
    pub editor_config: bool,
    /// Treat a failed repository initialisation as an error.
    pub require_repository: bool,
}

impl Default for PlanOptions {
    /// Editor integration on, repository initialisation best effort.
    fn default() -> (r: PlanOptions)
        ensures
            r == (PlanOptions { editor_config: true, require_repository: false }),
    {
        PlanOptions { editor_config: true, require_repository: false }
    }
}

/// The starter source for a standard.
pub open spec fn main_source_of(standard: CppStandard) -> Seq<char> {
    match standard {
        CppStandard::Cpp20 => MAIN_CPP20_TEMPLATE@,
        CppStandard::Cpp23 => MAIN_CPP23_TEMPLATE@,
    }
}

pub open spec fn step(kind: StepKind, path: Seq<char>, contents: Seq<char>) -> StepView {
    StepView { kind, path, contents, required: true }
}

/// Every step of materializing the project `name` at `path`, in order.
pub open spec fn planned_steps(
    name: Seq<char>,
    path: Seq<char>,
    standard: CppStandard,
    mode: CreationMode,
    opts: PlanOptions,
) -> Seq<StepView> {
    let src = joined(path, "src"@);
    (if mode == CreationMode::New {
        seq![step(StepKind::CreateProjectDir, path, Seq::empty())]
    } else {
        Seq::empty()
    }) + seq![
        step(
            StepKind::WriteFile,
            joined(path, "CMakeLists.txt"@),
            render(CMAKELISTS_TEMPLATE@, name, version_of(standard)),
        ),
        step(StepKind::WriteFile, joined(path, ".gitignore"@), GITIGNORE_TEMPLATE@),
    ] + (if opts.editor_config {
        seq![step(StepKind::WriteFile, joined(path, ".clangd"@), CLANGD_TEMPLATE@)]
    } else {
        Seq::empty()
    }) + seq![
        step(StepKind::CreateDir, src, Seq::empty()),
        step(StepKind::WriteFile, joined(src, "main.cpp"@), main_source_of(standard)),
        StepView {
            kind: StepKind::InitRepository,
            path,
            contents: Seq::empty(),
            required: opts.require_repository,
        },
    ]
}

pub open spec fn details_steps(details: ProjectDetails, opts: PlanOptions) -> Seq<StepView> {
    planned_steps(details.name@, details.path@, details.standard, details.mode, opts)
}

fn push_step(steps: &mut Vec<Step>, kind: StepKind, path: String, contents: String)
    ensures
        final(steps)@.map_values(|s: Step| s@) == old(steps)@.map_values(|s: Step| s@).push(
            step(kind, path@, contents@),
        ),
{
    let s = Step { kind, path, contents, required: true };
    proof {
        let ghost mapped = old(steps)@.push(s).map_values(|s: Step| s@);
        assert(mapped =~= old(steps)@.map_values(|s: Step| s@).push(step(kind, path@, contents@)));
    }
    steps.push(s);
}

/// The steps that materialize the project `details`, in the order they are taken.
pub fn project_plan(details: &ProjectDetails, opts: &PlanOptions) -> (r: Vec<Step>)
    ensures
        r@.map_values(|s: Step| s@) == details_steps(*details, *opts),
{
    let path = details.path.as_str();
    let mut steps: Vec<Step> = Vec::new();
    if details.mode == CreationMode::New {
        push_step(&mut steps, StepKind::CreateProjectDir, details.path.clone(), String::new());
    }
    let version = details.standard.version();
    let cmake = render_template(CMAKELISTS_TEMPLATE, details.name.as_str(), version.as_str());
    push_step(&mut steps, StepKind::WriteFile, join_path(path, "CMakeLists.txt"), cmake);
    push_step(
        &mut steps,
        StepKind::WriteFile,
        join_path(path, ".gitignore"),
        String::from_str(GITIGNORE_TEMPLATE),
    );
    if opts.editor_config {
        push_step(
            &mut steps,
            StepKind::WriteFile,
            join_path(path, ".clangd"),
            String::from_str(CLANGD_TEMPLATE),
        );
    }
    let src = join_path(path, "src");
    let main_path = join_path(src.as_str(), "main.cpp");
    push_step(&mut steps, StepKind::CreateDir, src, String::new());
    let main_source = match details.standard {
        CppStandard::Cpp20 => MAIN_CPP20_TEMPLATE,
        CppStandard::Cpp23 => MAIN_CPP23_TEMPLATE,
    };
    push_step(&mut steps, StepKind::WriteFile, main_path, String::from_str(main_source));
    let repo = Step {
        kind: StepKind::InitRepository,
        path: details.path.clone(),
        contents: String::new(),
        required: opts.require_repository,
    };
    proof {
        let ghost mapped = steps@.push(repo).map_values(|s: Step| s@);
        assert(mapped =~= steps@.map_values(|s: Step| s@).push(repo@));
    }
    steps.push(repo);
    proof {
        assert(steps@.map_values(|s: Step| s@) =~= details_steps(*details, *opts));
    }
    steps
}

/// Why materialization stopped: the step that failed and the cause reported for it.
pub struct MaterializeError {
    pub kind: StepKind,
    pub path: String,
    pub cause: String,
}

/// Decides whether materialization goes on after `step`; `failure` holds the
/// cause where the step failed. Only a required step's failure stops it.
pub fn step_outcome(step: &Step, failure: Option<String>) -> (r: Result<(), MaterializeError>)
    ensures
        (failure is Some && step.required) ==> (r matches Err(e) && e.kind == step.kind && e.path@
            == step.path@ && e.cause@ == failure->0@),
        !(failure is Some && step.required) ==> r is Ok,
{
    match failure {
        Some(cause) => if step.required {
            Err(MaterializeError { kind: step.kind, path: step.path.clone(), cause })
        } else {
            Ok(())
        },
        None => Ok(()),
    }
}

/// A step that leaves a file or directory behind in the project.
pub open spec fn is_artifact(s: StepView) -> bool {
    s.kind == StepKind::WriteFile || s.kind == StepKind::CreateDir
}

pub open spec fn artifacts(steps: Seq<StepView>) -> Seq<StepView> {
    steps.filter(|s: StepView| is_artifact(s))
}

/// A project creation that the preconditions refuse yields no details, so
/// nothing is planned and no file is touched: a non-empty directory is
/// refused in every creation mode.
pub proof fn lemma_occupied_target_refused(
    r: Result<ProjectDetails, ProjectError>,
    mode: CreationMode,
    path: Seq<char>,
    entries: usize,
    standard: CppStandard,
)
    requires
        entries > 0,
        details_spec(r, mode, path, PathState::Directory { entries }, standard),
    ensures
        r == Err::<ProjectDetails, ProjectError>(ProjectError::PathNotEmpty),
{
}

/// Materialization leaves exactly five artifacts (four without editor
/// integration), each file non-empty, and the build configuration is its
/// template with the project's name and numeric standard in place of the
/// placeholders, so it names both.
pub proof fn lemma_plan_artifacts(
    name: Seq<char>,
    path: Seq<char>,
    standard: CppStandard,
    mode: CreationMode,
    opts: PlanOptions,
)
    ensures
        artifacts(planned_steps(name, path, standard, mode, opts)).len() == if opts.editor_config {
            5nat
        } else {
            4nat
        },
        forall|i: int|
            0 <= i < planned_steps(name, path, standard, mode, opts).len() && #[trigger] planned_steps(
                name,
                path,
                standard,
                mode,
                opts,
            )[i].kind == StepKind::WriteFile ==> planned_steps(
                name,
                path,
                standard,
                mode,
                opts,
            )[i].contents.len() > 0,
        exists|i: int|
            0 <= i < planned_steps(name, path, standard, mode, opts).len() && {
                let s = #[trigger] planned_steps(name, path, standard, mode, opts)[i];
                &&& s.kind == StepKind::WriteFile
                &&& s.path == joined(path, "CMakeLists.txt"@)
                &&& s.contents == cmakelists_for(name, version_of(standard))
                &&& contains(s.contents, name)
                &&& contains(s.contents, version_of(standard))
            },
{
    let steps = planned_steps(name, path, standard, mode, opts);
    let cmake = render(CMAKELISTS_TEMPLATE@, name, version_of(standard));
    lemma_cmakelists_placeholders();
    lemma_render_emits_name(CMAKELISTS_TEMPLATE@, name, version_of(standard), 45);
    lemma_render_emits_version(CMAKELISTS_TEMPLATE@, name, version_of(standard), 101);
    lemma_cmakelists_rendered(name, version_of(standard));
    assert(cmake.len() > 0);
    reveal_strlit("build/\n.cache/\ncompile_commands.json\n");
    reveal_strlit("CompileFlags:\n  CompilationDatabase: build\n");
    reveal_strlit(
        "#include <iostream>\n\nint main() {\n    std::cout << \"Hello, world!\" << std::endl;\n    return 0;\n}\n",
    );
    reveal_strlit(
        "#include <print>\n\nint main() {\n    std::println(\"Hello, world!\");\n    return 0;\n}\n",
    );
    assert(main_source_of(standard).len() > 0);
    let head = if mode == CreationMode::New { 1int } else { 0int };
    assert(steps[head].path == joined(path, "CMakeLists.txt"@));
    reveal_with_fuel(Seq::filter, 8);
    if opts.editor_config {
        assert(artifacts(steps).len() == 5);
    } else {
        assert(artifacts(steps).len() == 4);
    }
}

/// A single path component: non-empty, without a separator.
pub open spec fn is_component(x: Seq<char>) -> bool {
    x.len() > 0 && forall|k: int| 0 <= k < x.len() ==> x[k] != '/'
}

/// An artifact that stands directly in the directory `root`.
pub open spec fn is_entry_of(s: StepView, root: Seq<char>) -> bool {
    is_artifact(s) && exists|x: Seq<char>| is_component(x) && s.path == #[trigger] joined(root, x)
}

/// The directory `root` once every step has been taken, counting the planned
/// artifacts that stand directly in it. What the repository tool adds is not
/// counted, so the file system shows at least this many entries.
pub open spec fn state_after(steps: Seq<StepView>, root: Seq<char>) -> PathState {
    PathState::Directory {
        entries: steps.filter(|s: StepView| is_entry_of(s, root)).len() as usize,
    }
}

/// Creating a new project where one has been materialized is refused: the
/// directory then holds the project's entries, whatever the first run was
/// asked for.
pub proof fn lemma_second_new_refused(
    name: Seq<char>,
    path: Seq<char>,
    standard: CppStandard,
    mode: CreationMode,
    opts: PlanOptions,
    r: Result<ProjectDetails, ProjectError>,
    standard_again: CppStandard,
)
    requires
        details_spec(
            r,
            CreationMode::New,
            path,
            state_after(planned_steps(name, path, standard, mode, opts), path),
            standard_again,
        ),
    ensures
        r == Err::<ProjectDetails, ProjectError>(ProjectError::PathNotEmpty),
{
    let steps = planned_steps(name, path, standard, mode, opts);
    let head = if mode == CreationMode::New { 1int } else { 0int };
    reveal_strlit("CMakeLists.txt");
    assert(is_component("CMakeLists.txt"@));
    assert(is_entry_of(steps[head], path));
    let entries = steps.filter(|s: StepView| is_entry_of(s, path));
    reveal_with_fuel(Seq::filter, 8);
    assert(1 <= entries.len() <= 8);
}

} // verus!
