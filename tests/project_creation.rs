use cmakeproj::plan::{project_plan, step_outcome, PlanOptions, StepKind};
use cmakeproj::project::{
    check_target, init_project, init_target, new_project, new_target, CreationMode, InitArgs,
    NewArgs, PathState, ProjectDetails, ProjectError,
};
use cmakeproj::standard::CppStandard;
use cmakeproj::template::{
    render_template, CLANGD_TEMPLATE, CMAKELISTS_TEMPLATE, GITIGNORE_TEMPLATE,
    MAIN_CPP20_TEMPLATE, MAIN_CPP23_TEMPLATE,
};

fn new_args(path: &str, standard: CppStandard) -> NewArgs {
    NewArgs { standard, project_path: path.to_string() }
}

fn details(name: &str, path: &str, standard: CppStandard, mode: CreationMode) -> ProjectDetails {
    ProjectDetails { name: name.to_string(), path: path.to_string(), standard, mode }
}

#[test]
fn standard_version_and_name() {
    assert_eq!(CppStandard::Cpp20.version(), "20");
    assert_eq!(CppStandard::Cpp23.version(), "23");
    assert_eq!(CppStandard::Cpp20.to_string(), "cpp20");
    assert_eq!(CppStandard::Cpp23.to_string(), "cpp23");
}

#[test]
fn render_replaces_both_placeholders() {
    let r = render_template("a{{PROJECT_NAME}}b{{PROJECT_VERSION}}c", "foo", "23");
    assert_eq!(r, "afoob23c");
}

#[test]
fn render_replaces_every_occurrence() {
    let r = render_template("{{PROJECT_NAME}}{{PROJECT_NAME}}-{{PROJECT_VERSION}}", "x", "20");
    assert_eq!(r, "xx-20");
}

#[test]
fn render_keeps_text_without_placeholders() {
    let t = "add_executable(${PROJECT_NAME} {{PROJECT_} src/main.cpp)";
    assert_eq!(render_template(t, "foo", "20"), t);
    assert_eq!(render_template("", "foo", "20"), "");
}

#[test]
fn render_does_not_rescan_substituted_text() {
    let r = render_template("[{{PROJECT_NAME}}]", "{{PROJECT_VERSION}}", "23");
    assert_eq!(r, "[{{PROJECT_VERSION}}]");
}

#[test]
fn render_handles_non_ascii_names() {
    let r = render_template("project({{PROJECT_NAME}})", "prüfung", "20");
    assert_eq!(r, "project(prüfung)");
}

#[test]
fn rendered_build_file_names_project_and_standard() {
    let r = render_template(CMAKELISTS_TEMPLATE, "foo", "23");
    assert!(r.contains("project(foo "));
    assert!(r.contains("CMAKE_CXX_STANDARD 23)"));
    assert!(!r.contains("{{PROJECT_NAME}}"));
    assert!(!r.contains("{{PROJECT_VERSION}}"));
}

#[test]
fn new_target_joins_with_working_directory() {
    let args = new_args("myproj", CppStandard::Cpp20);
    assert_eq!(new_target(&args, "/work"), "/work/myproj");
    let abs = new_args("/elsewhere/p", CppStandard::Cpp20);
    assert_eq!(new_target(&abs, "/work"), "/elsewhere/p");
}

#[test]
fn init_target_defaults_to_working_directory() {
    let args = InitArgs { standard: CppStandard::Cpp20, project_path: None };
    let (path, mode) = init_target(&args, "/work/here");
    assert_eq!(path, "/work/here");
    assert_eq!(mode, CreationMode::InitSameDir);
    let nested = InitArgs { standard: CppStandard::Cpp20, project_path: Some("sub".to_string()) };
    let (path, mode) = init_target(&nested, "/work");
    assert_eq!(path, "/work/sub");
    assert_eq!(mode, CreationMode::Init);
}

#[test]
fn check_target_new_mode() {
    assert_eq!(check_target(CreationMode::New, &PathState::Missing), Ok(()));
    assert_eq!(check_target(CreationMode::New, &PathState::Directory { entries: 0 }), Ok(()));
    assert_eq!(
        check_target(CreationMode::New, &PathState::Directory { entries: 2 }),
        Err(ProjectError::PathNotEmpty)
    );
}

#[test]
fn check_target_existing_modes() {
    for mode in [CreationMode::Init, CreationMode::InitSameDir] {
        assert_eq!(check_target(mode, &PathState::Missing), Err(ProjectError::PathDoesNotExist));
        assert_eq!(
            check_target(mode, &PathState::NotADirectory),
            Err(ProjectError::PathNotADirectory)
        );
        assert_eq!(
            check_target(mode, &PathState::Directory { entries: 1 }),
            Err(ProjectError::PathNotEmpty)
        );
        assert_eq!(check_target(mode, &PathState::Directory { entries: 0 }), Ok(()));
    }
}

#[test]
fn occupied_target_is_refused_by_new_and_init() {
    let state = PathState::Directory { entries: 3 };
    let r = new_project(&new_args("p", CppStandard::Cpp23), "/work", &state);
    assert!(matches!(r, Err(ProjectError::PathNotEmpty)));
    let args = InitArgs { standard: CppStandard::Cpp23, project_path: Some("p".to_string()) };
    assert!(matches!(init_project(&args, "/work", &state), Err(ProjectError::PathNotEmpty)));
}

#[test]
fn init_in_directory_with_one_file_is_refused() {
    let args = InitArgs { standard: CppStandard::Cpp20, project_path: None };
    let r = init_project(&args, "/work/here", &PathState::Directory { entries: 1 });
    assert!(matches!(r, Err(ProjectError::PathNotEmpty)));
}

#[test]
fn init_errors_for_missing_and_non_directory_paths() {
    let args = InitArgs { standard: CppStandard::Cpp20, project_path: Some("x".to_string()) };
    assert!(matches!(
        init_project(&args, "/work", &PathState::Missing),
        Err(ProjectError::PathDoesNotExist)
    ));
    assert!(matches!(
        init_project(&args, "/work", &PathState::NotADirectory),
        Err(ProjectError::PathNotADirectory)
    ));
}

#[test]
fn root_path_has_no_project_name() {
    let args = InitArgs { standard: CppStandard::Cpp20, project_path: None };
    let r = init_project(&args, "/", &PathState::Directory { entries: 0 });
    assert!(matches!(r, Err(ProjectError::CannotDeriveName)));
}

#[test]
fn new_project_derives_name_from_last_component() {
    let args = new_args("nested/dir/proj", CppStandard::Cpp23);
    let d = new_project(&args, "/work", &PathState::Missing).ok().unwrap();
    assert_eq!(d.name, "proj");
    assert_eq!(d.path, "/work/nested/dir/proj");
    assert_eq!(d.standard, CppStandard::Cpp23);
    assert_eq!(d.mode, CreationMode::New);
}

#[test]
fn new_project_accepts_existing_empty_directory() {
    let args = new_args("proj", CppStandard::Cpp20);
    let d = new_project(&args, "/work", &PathState::Directory { entries: 0 }).ok().unwrap();
    assert_eq!(d.name, "proj");
}

#[test]
fn new_myproj_cpp20_plan() {
    let args = new_args("myproj", CppStandard::Cpp20);
    let d = new_project(&args, "/work", &PathState::Missing).ok().unwrap();
    let steps = project_plan(&d, &PlanOptions::default());
    let kinds: Vec<StepKind> = steps.iter().map(|s| s.kind).collect();
    assert_eq!(
        kinds,
        vec![
            StepKind::CreateProjectDir,
            StepKind::WriteFile,
            StepKind::WriteFile,
            StepKind::WriteFile,
            StepKind::CreateDir,
            StepKind::WriteFile,
            StepKind::InitRepository,
        ]
    );
    assert_eq!(steps[0].path, "/work/myproj");
    assert_eq!(steps[1].path, "/work/myproj/CMakeLists.txt");
    assert!(steps[1].contents.contains("myproj"));
    assert!(steps[1].contents.contains("CMAKE_CXX_STANDARD 20)"));
    assert_eq!(steps[2].path, "/work/myproj/.gitignore");
    assert_eq!(steps[2].contents, GITIGNORE_TEMPLATE);
    assert_eq!(steps[3].path, "/work/myproj/.clangd");
    assert_eq!(steps[3].contents, CLANGD_TEMPLATE);
    assert_eq!(steps[4].path, "/work/myproj/src");
    assert_eq!(steps[5].path, "/work/myproj/src/main.cpp");
    assert_eq!(steps[5].contents, MAIN_CPP20_TEMPLATE);
    assert_eq!(steps[6].path, "/work/myproj");
    assert!(!steps[6].required);
    assert!(steps[..6].iter().all(|s| s.required));
}

#[test]
fn plan_for_foo_cpp23_has_five_non_empty_artifacts() {
    let d = details("foo", "/p/foo", CppStandard::Cpp23, CreationMode::Init);
    let steps = project_plan(&d, &PlanOptions::default());
    let artifacts: Vec<_> = steps
        .iter()
        .filter(|s| s.kind == StepKind::WriteFile || s.kind == StepKind::CreateDir)
        .collect();
    assert_eq!(artifacts.len(), 5);
    for s in steps.iter().filter(|s| s.kind == StepKind::WriteFile) {
        assert!(!s.contents.is_empty());
    }
    let cmake = &steps[0];
    assert_eq!(cmake.path, "/p/foo/CMakeLists.txt");
    assert!(cmake.contents.contains("foo"));
    assert!(cmake.contents.contains("23"));
    assert!(!cmake.contents.contains("{{"));
    assert_eq!(steps[4].contents, MAIN_CPP23_TEMPLATE);
    assert!(steps.iter().all(|s| s.kind != StepKind::CreateProjectDir));
}

#[test]
fn plan_without_editor_config_has_four_artifacts() {
    let d = details("foo", "/p/foo", CppStandard::Cpp20, CreationMode::InitSameDir);
    let opts = PlanOptions { editor_config: false, require_repository: true };
    let steps = project_plan(&d, &opts);
    let n = steps
        .iter()
        .filter(|s| s.kind == StepKind::WriteFile || s.kind == StepKind::CreateDir)
        .count();
    assert_eq!(n, 4);
    assert!(steps.iter().all(|s| !s.path.ends_with(".clangd")));
    assert!(steps.last().unwrap().required);
}

#[test]
fn second_new_at_same_path_is_refused() {
    let args = new_args("twice", CppStandard::Cpp20);
    let d = new_project(&args, "/work", &PathState::Missing).ok().unwrap();
    let steps = project_plan(&d, &PlanOptions::default());
    let prefix = format!("{}/", d.path);
    let entries = steps
        .iter()
        .filter(|s| s.kind == StepKind::WriteFile || s.kind == StepKind::CreateDir)
        .filter(|s| s.path.strip_prefix(&prefix).map_or(false, |rest| !rest.contains('/')))
        .count();
    assert_eq!(entries, 4);
    let again = new_project(&args, "/work", &PathState::Directory { entries });
    assert!(matches!(again, Err(ProjectError::PathNotEmpty)));
}

#[test]
fn step_outcome_stops_only_on_required_failures() {
    let d = details("foo", "/p/foo", CppStandard::Cpp20, CreationMode::Init);
    let steps = project_plan(&d, &PlanOptions::default());
    assert!(step_outcome(&steps[0], None).is_ok());
    let e = step_outcome(&steps[0], Some("disk full".to_string())).err().unwrap();
    assert_eq!(e.kind, StepKind::WriteFile);
    assert_eq!(e.path, "/p/foo/CMakeLists.txt");
    assert_eq!(e.cause, "disk full");
    let repo = steps.last().unwrap();
    assert!(step_outcome(repo, Some("git not found".to_string())).is_ok());
}

#[test]
fn changes_directory_by_mode() {
    assert!(CreationMode::New.changes_directory());
    assert!(CreationMode::Init.changes_directory());
    assert!(!CreationMode::InitSameDir.changes_directory());
}

#[test]
fn new_on_a_regular_file_is_refused() {
    let args = new_args("notes.txt", CppStandard::Cpp20);
    assert_eq!(
        check_target(CreationMode::New, &PathState::NotADirectory),
        Err(ProjectError::PathNotADirectory)
    );
    let r = new_project(&args, "/work", &PathState::NotADirectory);
    assert!(matches!(r, Err(ProjectError::PathNotADirectory)));
}
