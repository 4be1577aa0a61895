use vstd::prelude::*;

verus! {

/// Build directory used when none is named.
pub const DEFAULT_BUILD_DIR: &'static str = "build";

/// The file that makes a directory a project root for CMake.
pub const BUILD_FILE: &'static str = "CMakeLists.txt";

/// The file whose presence marks a configured build tree.
pub const MARKER_FILE: &'static str = "CMakeCache.txt";

/// The program that configures and builds.
pub const BUILD_TOOL: &'static str = "cmake";

/// The build backend requested when configuring.
pub const GENERATOR: &'static str = "Ninja";

/// Options of `setup`.
pub struct SetupArgs {
    pub build_dir: Option<String>,
}

/// Options of `build`.
pub struct BuildArgs {
    pub build_dir: Option<String>,
}

/// Options of `run`.
pub struct RunArgs {
    pub build_dir: Option<String>,
}

/// An entry of a directory listing.
pub struct EntryInfo {
    pub name: String,
    pub is_dir: bool,
}

impl View for EntryInfo {
    type V = (Seq<char>, bool);

    open spec fn view(&self) -> (Seq<char>, bool) {
        (self.name@, self.is_dir)
    }
}

/// What a listing shows under a given name.
#[derive(Clone, Copy, Debug, PartialEq, Eq, Structural)]
pub enum Lookup {
    Absent,
    File,
    Directory,
}

/// Why a build command cannot go ahead.
#[derive(Clone, Debug)]
pub enum DriverError {
    /// The project root holds no build file.
    MissingBuildFile,
    /// The build file's name belongs to a directory.
    BuildFileIsDirectory,
    /// The build directory holds no marker file: it was never configured.
    NotConfigured,
    /// The marker file's name belongs to a directory.
    MarkerIsDirectory,
    /// The configuration tool could not be started.
    ConfigureFailed(String),
    /// The build tool could not be started.
    BuildInvocationFailed(String),
    /// The built program could not be started.
    RunInvocationFailed(String),
}

/// A candidate program found in the build directory, with its modification
/// time in nanoseconds since the Unix epoch.
pub struct Executable {
    pub path: String,
    pub modified: i128,
}

/// The first entry of `entries` called `name`, and its kind.
pub open spec fn lookup(entries: Seq<(Seq<char>, bool)>, name: Seq<char>) -> Lookup
    decreases entries.len(),
{
    if entries.len() == 0 {
        Lookup::Absent
    } else if entries[0].0 == name {
        if entries[0].1 {
            Lookup::Directory
        } else {
            Lookup::File
        }
    } else {
        lookup(entries.drop_first(), name)
    }
}

pub open spec fn listing_view(entries: Vec<EntryInfo>) -> Seq<(Seq<char>, bool)> {
    entries@.map_values(|e: EntryInfo| e@)
}

pub open spec fn build_dir_of(build_dir: Option<String>) -> Seq<char> {
    match build_dir {
        Some(d) => d@,
        None => DEFAULT_BUILD_DIR@,
    }
}

/// The named build directory, or the default one.
pub fn build_dir_or_default(build_dir: &Option<String>) -> (r: String)
    ensures
        r@ == build_dir_of(*build_dir),
{
    match build_dir {
        Some(d) => d.clone(),
        None => String::from_str(DEFAULT_BUILD_DIR),
    }
}

/// Looks `name` up in a directory listing.
pub fn find_entry(entries: &Vec<EntryInfo>, name: &str) -> (r: Lookup)
    ensures
        r == lookup(listing_view(*entries), name@),
{
    let n = entries.len();
    let wanted = String::from_str(name);
    let mut i: usize = 0;
    assert(listing_view(*entries).subrange(0, n as int) =~= listing_view(*entries));
    while i < n
        invariant
            i <= n,
            n == entries@.len(),
            wanted@ == name@,
            lookup(listing_view(*entries), name@) == lookup(
                listing_view(*entries).subrange(i as int, n as int),
                name@,
            ),
        decreases n - i,
    {
        let ghost rest = listing_view(*entries).subrange(i as int, n as int);
        assert(rest.drop_first() =~= listing_view(*entries).subrange(i + 1, n as int));
        let e = &entries[i];
        if e.name == wanted {
            return if e.is_dir {
                Lookup::Directory
            } else {
                Lookup::File
            };
        }
        i = i + 1;
    }
    assert(listing_view(*entries).subrange(n as int, n as int).len() == 0);
    Lookup::Absent
}

pub open spec fn configure_args_of(build_dir: Seq<char>) -> Seq<Seq<char>> {
    seq!["-B"@, build_dir, "-G"@, GENERATOR@]
}

pub open spec fn build_args_of(build_dir: Seq<char>) -> Seq<Seq<char>> {
    seq!["--build"@, build_dir]
}

/// What `setup` does in a project root whose listing is `root` (`None` where it
/// could not be listed): the arguments for the configuration tool, or why not.
pub open spec fn setup_spec(root: Option<Seq<(Seq<char>, bool)>>, build_dir: Seq<char>) -> Result<
    Seq<Seq<char>>,
    DriverError,
> {
    match root {
        Some(entries) => match lookup(entries, BUILD_FILE@) {
            Lookup::Absent => Err(DriverError::MissingBuildFile),
            Lookup::Directory => Err(DriverError::BuildFileIsDirectory),
            Lookup::File => Ok(configure_args_of(build_dir)),
        },
        None => Ok(configure_args_of(build_dir)),
    }
}

/// What `build` does with a build directory whose listing is `tree` (`None`
/// where it does not exist): the arguments for the build tool, or why not.
pub open spec fn build_spec(tree: Option<Seq<(Seq<char>, bool)>>, build_dir: Seq<char>) -> Result<
    Seq<Seq<char>>,
    DriverError,
> {
    match tree {
        Some(entries) => match lookup(entries, MARKER_FILE@) {
            Lookup::Absent => Err(DriverError::NotConfigured),
            Lookup::Directory => Err(DriverError::MarkerIsDirectory),
            Lookup::File => Ok(build_args_of(build_dir)),
        },
        None => Ok(build_args_of(build_dir)),
    }
}

pub open spec fn opt_listing_view(listing: Option<Vec<EntryInfo>>) -> Option<
    Seq<(Seq<char>, bool)>,
> {
    match listing {
        Some(entries) => Some(listing_view(entries)),
        None => None,
    }
}

pub open spec fn args_view(r: Result<Vec<String>, DriverError>) -> Result<
    Seq<Seq<char>>,
    DriverError,
> {
    match r {
        Ok(v) => Ok(v@.map_values(|s: String| s@)),
        Err(e) => Err(e),
    }
}

fn strings_of(a: &str, b: &str) -> (r: Vec<String>)
    ensures
        r@.map_values(|s: String| s@) == seq![a@, b@],
{
    let mut v: Vec<String> = Vec::new();
    v.push(String::from_str(a));
    v.push(String::from_str(b));
    assert(v@.map_values(|s: String| s@) =~= seq![a@, b@]);
    v
}

/// Decides whether `setup` may configure: the project root must hold the build
/// file (unless it cannot be listed). On success, the configuration tool's
/// arguments for `build_dir`.
pub fn setup_invocation(root: &Option<Vec<EntryInfo>>, build_dir: &str) -> (r: Result<
    Vec<String>,
    DriverError,
>)
    ensures
        args_view(r) == setup_spec(opt_listing_view(*root), build_dir@),
{
    if let Some(entries) = root {
        match find_entry(entries, BUILD_FILE) {
            Lookup::Absent => return Err(DriverError::MissingBuildFile),
            Lookup::Directory => return Err(DriverError::BuildFileIsDirectory),
            Lookup::File => {},
        }
    }
    let mut v: Vec<String> = Vec::new();
    v.push(String::from_str("-B"));
    v.push(String::from_str(build_dir));
    v.push(String::from_str("-G"));
    v.push(String::from_str(GENERATOR));
    assert(v@.map_values(|s: String| s@) =~= configure_args_of(build_dir@));
    Ok(v)
}

/// Decides whether `build` may invoke the build tool: an existing build
/// directory must hold the marker file as a file. On success, the build tool's
/// arguments for `build_dir`; otherwise the tool is not to be invoked.
pub fn build_invocation(tree: &Option<Vec<EntryInfo>>, build_dir: &str) -> (r: Result<
    Vec<String>,
    DriverError,
>)
    ensures
        args_view(r) == build_spec(opt_listing_view(*tree), build_dir@),
{
    if let Some(entries) = tree {
        match find_entry(entries, MARKER_FILE) {
            Lookup::Absent => return Err(DriverError::NotConfigured),
            Lookup::Directory => return Err(DriverError::MarkerIsDirectory),
            Lookup::File => {},
        }
    }
    Ok(strings_of("--build", build_dir))
}

/// Picks the most recently modified candidate; among equally recent ones the
/// first listed. `None` exactly when there is no candidate.
pub fn latest_executable(candidates: &Vec<Executable>) -> (r: Option<usize>)
    ensures
        r is None <==> candidates@.len() == 0,
        r matches Some(i) ==> {
            &&& i < candidates@.len()
            &&& forall|j: int|
                0 <= j < candidates@.len() ==> #[trigger] candidates@[j].modified
                    <= candidates@[i as int].modified
            &&& forall|j: int|
                0 <= j < i ==> #[trigger] candidates@[j].modified < candidates@[i as int].modified
        },
{
    let n = candidates.len();
    if n == 0 {
        return None;
    }
    let mut best: usize = 0;
    let mut k: usize = 1;
    while k < n
        invariant
            1 <= k <= n,
            n == candidates@.len(),
            best < k,
            forall|j: int| 0 <= j < k ==> #[trigger] candidates@[j].modified
                <= candidates@[best as int].modified,
            forall|j: int| 0 <= j < best ==> #[trigger] candidates@[j].modified
                < candidates@[best as int].modified,
        decreases n - k,
    {
        if candidates[k].modified > candidates[best].modified {
            best = k;
        }
        k = k + 1;
    }
    Some(best)
}

/// Decides which program `run` starts: none after a failed build, none where
/// the build directory holds no candidate, else the latest one.
pub fn run_target(build_succeeded: bool, candidates: &Vec<Executable>) -> (r: Option<usize>)
    ensures
        !build_succeeded ==> r is None,
        build_succeeded ==> (r is None <==> candidates@.len() == 0),
        r matches Some(i) ==> {
            &&& i < candidates@.len()
            &&& forall|j: int|
                0 <= j < candidates@.len() ==> #[trigger] candidates@[j].modified
                    <= candidates@[i as int].modified
            &&& forall|j: int|
                0 <= j < i ==> #[trigger] candidates@[j].modified < candidates@[i as int].modified
        },
{
    if build_succeeded {
        latest_executable(candidates)
    } else {
        None
    }
}

proof fn lemma_lookup_absent(entries: Seq<(Seq<char>, bool)>, name: Seq<char>)
    requires
        forall|i: int| 0 <= i < entries.len() ==> (#[trigger] entries[i]).0 != name,
    ensures
        lookup(entries, name) == Lookup::Absent,
    decreases entries.len(),
{
    if entries.len() > 0 {
        assert(entries[0].0 != name);
        assert forall|i: int| 0 <= i < entries.drop_first().len() implies (
        #[trigger] entries.drop_first()[i]).0 != name by {
            assert(entries.drop_first()[i] == entries[i + 1]);
        }
        lemma_lookup_absent(entries.drop_first(), name);
    }
}

/// A build directory that exists but holds no marker file is refused as not
/// configured, and no build tool arguments are produced for it.
pub proof fn lemma_unconfigured_build_refused(
    entries: Seq<(Seq<char>, bool)>,
    build_dir: Seq<char>,
)
    requires
        forall|i: int| 0 <= i < entries.len() ==> (#[trigger] entries[i]).0 != MARKER_FILE@,
    ensures
        build_spec(Some(entries), build_dir) == Err::<Seq<Seq<char>>, DriverError>(
            DriverError::NotConfigured,
        ),
{
    lemma_lookup_absent(entries, MARKER_FILE@);
}

} // verus!
