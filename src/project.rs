use vstd::prelude::*;

use crate::paths::{file_name_of, final_component, join_path, joined};
use crate::standard::CppStandard;

verus! {

/// How the target directory of a new project was chosen.
#[derive(Clone, Copy, Debug, PartialEq, Eq, Structural)]
pub enum CreationMode {
    /// A new directory, created by the tool.
    New,
    /// An existing empty directory below the working directory.
    Init,
    /// The working directory itself, which must be empty.
    InitSameDir,
}

impl CreationMode {
    /// Whether the user has to change into the project's directory afterwards.
    pub fn changes_directory(&self) -> (r: bool)
        ensures
            r == !(*self is InitSameDir),
    {
        match self {
            CreationMode::InitSameDir => false,
            _ => true,
        }
    }
}

/// What `new` is asked for: a path where the project's directory will stand.
pub struct NewArgs {
    pub standard: CppStandard,
    pub project_path: String,
}

/// What `init` is asked for: an existing empty directory, the working directory by default.
pub struct InitArgs {
    pub standard: CppStandard,
    pub project_path: Option<String>,
}

/// What the file system shows at a candidate project path.
#[derive(Clone, Copy, Debug, PartialEq, Eq, Structural)]
pub enum PathState {
    Missing,
    NotADirectory,
    /// A directory with this many entries (an unlistable one counts as empty).
    Directory { entries: usize },
}

/// Why a project cannot be created at a path.
#[derive(Clone, Copy, Debug, PartialEq, Eq, Structural)]
pub enum ProjectError {
    PathNotEmpty,
    PathDoesNotExist,
    PathNotADirectory,
    CannotDeriveName,
}

/// A validated request to create a project.
pub struct ProjectDetails {
    pub name: String,
    pub path: String,
    pub standard: CppStandard,
    pub mode: CreationMode,
}

/// Whether a project may be created at a path in the given state.
pub open spec fn target_verdict(mode: CreationMode, state: PathState) -> Result<(), ProjectError> {
    match mode {
        CreationMode::New => match state {
            PathState::NotADirectory => Err(ProjectError::PathNotADirectory),
            PathState::Directory { entries } if entries > 0 => Err(ProjectError::PathNotEmpty),
            _ => Ok(()),
        },
        _ => match state {
            PathState::Missing => Err(ProjectError::PathDoesNotExist),
            PathState::NotADirectory => Err(ProjectError::PathNotADirectory),
            PathState::Directory { entries } => if entries > 0 {
                Err(ProjectError::PathNotEmpty)
            } else {
                Ok(())
            },
        },
    }
}

/// Checks that a project may be created at a path in the state `state`: a new
/// project's path must be absent or an empty directory, an existing one must
/// be an empty directory.
pub fn check_target(mode: CreationMode, state: &PathState) -> (r: Result<(), ProjectError>)
    ensures
        r == target_verdict(mode, *state),
{
    match mode {
        CreationMode::New => match state {
            PathState::Missing => Ok(()),
            PathState::NotADirectory => Err(ProjectError::PathNotADirectory),
            PathState::Directory { entries } => if *entries > 0 {
                Err(ProjectError::PathNotEmpty)
            } else {
                Ok(())
            },
        },
        _ => match state {
            PathState::Missing => Err(ProjectError::PathDoesNotExist),
            PathState::NotADirectory => Err(ProjectError::PathNotADirectory),
            PathState::Directory { entries } => if *entries > 0 {
                Err(ProjectError::PathNotEmpty)
            } else {
                Ok(())
            },
        },
    }
}

/// The path and mode that `init` works on.
pub open spec fn init_target_of(project_path: Option<Seq<char>>, cwd: Seq<char>) -> (
    Seq<char>,
    CreationMode,
) {
    match project_path {
        Some(p) => (joined(cwd, p), CreationMode::Init),
        None => (cwd, CreationMode::InitSameDir),
    }
}

pub open spec fn opt_view(o: Option<String>) -> Option<Seq<char>> {
    match o {
        Some(s) => Some(s@),
        None => None,
    }
}

/// The outcome of creating a project at `path` in state `state`.
pub open spec fn details_spec(
    r: Result<ProjectDetails, ProjectError>,
    mode: CreationMode,
    path: Seq<char>,
    state: PathState,
    standard: CppStandard,
) -> bool {
    match target_verdict(mode, state) {
        Err(e) => r == Err::<ProjectDetails, ProjectError>(e),
        Ok(_) => match final_component(path) {
            None => r == Err::<ProjectDetails, ProjectError>(ProjectError::CannotDeriveName),
            Some(name) => r matches Ok(d) && d.name@ == name && d.path@ == path && d.standard
                == standard && d.mode == mode,
        },
    }
}

/// The directory that `new` creates, relative to the working directory `cwd`.
pub fn new_target(args: &NewArgs, cwd: &str) -> (r: String)
    ensures
        r@ == joined(cwd@, args.project_path@),
{
    join_path(cwd, args.project_path.as_str())
}

/// The directory that `init` fills, relative to the working directory `cwd`,
/// and how it was chosen.
pub fn init_target(args: &InitArgs, cwd: &str) -> (r: (String, CreationMode))
    ensures
        (r.0@, r.1) == init_target_of(opt_view(args.project_path), cwd@),
{
    match &args.project_path {
        Some(p) => (join_path(cwd, p.as_str()), CreationMode::Init),
        None => (String::from_str(cwd), CreationMode::InitSameDir),
    }
}

fn details_at(path: String, state: &PathState, standard: CppStandard, mode: CreationMode) -> (r:
    Result<ProjectDetails, ProjectError>)
    ensures
        details_spec(r, mode, path@, *state, standard),
{
    match check_target(mode, state) {
        Err(e) => Err(e),
        Ok(()) => match file_name_of(path.as_str()) {
            None => Err(ProjectError::CannotDeriveName),
            Some(name) => Ok(ProjectDetails { name, path, standard, mode }),
        },
    }
}

/// Validates a request to create a project in a new directory below `cwd`;
/// `state` is what the file system shows at `new_target(args, cwd)`.
pub fn new_project(args: &NewArgs, cwd: &str, state: &PathState) -> (r: Result<
    ProjectDetails,
    ProjectError,
>)
    ensures
        details_spec(
            r,
            CreationMode::New,
            joined(cwd@, args.project_path@),
            *state,
            args.standard,
        ),
{
    let path = new_target(args, cwd);
    details_at(path, state, args.standard, CreationMode::New)
}

/// Validates a request to create a project in an existing empty directory;
/// `state` is what the file system shows at the path of `init_target(args, cwd)`.
pub fn init_project(args: &InitArgs, cwd: &str, state: &PathState) -> (r: Result<
    ProjectDetails,
    ProjectError,
>)
    ensures
        details_spec(
            r,
            init_target_of(opt_view(args.project_path), cwd@).1,
            init_target_of(opt_view(args.project_path), cwd@).0,
            *state,
            args.standard,
        ),
{
    let (path, mode) = init_target(args, cwd);
    details_at(path, state, args.standard, mode)
}

} // verus!
