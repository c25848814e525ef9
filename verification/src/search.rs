use vstd::prelude::*;

use crate::text::{contains_chars, lemma_contains_at, push_char};

verus! {

/// The path that `Path::join` makes of `base` and `part`.
pub uninterp spec fn path_joined(base: Seq<char>, part: Seq<char>) -> Seq<char>;

/// std `Path::join` on UTF-8 paths, the result converted back to a string.
/// Its result is named `path_joined`; how the parts are joined (the
/// separator, absolute parts, drive prefixes) differs between targets and
/// is left to the name.
#[verifier::external_body]
pub(crate) fn path_join(base: &str, part: &str) -> (joined: String)
    ensures
        joined@ == path_joined(base@, part@),
{
    std::path::Path::new(base).join(part).to_string_lossy().into_owned()
}

/// What a character of a repository id becomes in its cache folder name.
pub open spec fn folder_piece(c: char) -> Seq<char> {
    if c == '/' {
        "--"@
    } else {
        seq![c]
    }
}

/// A repository id with every `/` replaced by `--`.
pub open spec fn replace_slashes(s: Seq<char>) -> Seq<char>
    decreases s.len(),
{
    if s.len() == 0 {
        Seq::empty()
    } else {
        replace_slashes(s.drop_last()) + folder_piece(s.last())
    }
}

/// The HuggingFace cache folder of a repository: `models--` and the
/// repository id with `/` replaced by `--`.
pub open spec fn model_folder(repo: Seq<char>) -> Seq<char> {
    "models--"@ + replace_slashes(repo)
}

/// Builds the HuggingFace cache folder name of a repository.
pub fn model_folder_name(repo: &str) -> (folder: String)
    ensures
        folder@ == model_folder(repo@),
{
    broadcast use vstd::string::axiom_spec_iter;

    let mut folder = String::from_str("models--");
    let ghost prefix = "models--"@;
    for c in it: repo.chars()
        invariant
            it.seq() == repo@,
            folder@ == prefix + replace_slashes(it.seq().take(it.index() as int)),
    {
        let ghost before = it.seq().take(it.index() as int);
        if c == '/' {
            push_char(&mut folder, '-');
            push_char(&mut folder, '-');
        } else {
            push_char(&mut folder, c);
        }
        proof {
            let after = it.seq().take(it.index() + 1);
            assert(after.drop_last() =~= before);
            assert(after.last() == c);
            reveal_strlit("--");
            assert(folder@ =~= prefix + replace_slashes(after));
        }
    }
    proof {
        assert(repo@.take(repo@.len() as int) =~= repo@);
    }
    folder
}

/// The `snapshots` directory of a repository below a HuggingFace cache root:
/// `<root>/hub/<folder>/snapshots`.
pub open spec fn snapshots_path(root: Seq<char>, repo: Seq<char>) -> Seq<char> {
    path_joined(path_joined(path_joined(root, "hub"@), model_folder(repo)), "snapshots"@)
}

/// Builds the `snapshots` directory of a repository below a cache root.
pub fn snapshots_dir(root: &str, repo: &str) -> (dir: String)
    ensures
        dir@ == snapshots_path(root@, repo@),
{
    let hub = path_join(root, "hub");
    let folder = model_folder_name(repo);
    let repo_dir = path_join(hub.as_str(), folder.as_str());
    path_join(repo_dir.as_str(), "snapshots")
}

/// The default cache root below a home directory.
pub open spec fn default_cache_root(home: Seq<char>) -> Seq<char> {
    home + "/.cache/huggingface"@
}

/// Why a model file could not be found.
#[derive(Debug)]
pub enum SearchError {
    /// The override variable names a file that does not exist.
    OverrideMissing { var: String, path: String },
    /// Reading the snapshots directory failed.
    Io { message: String },
    /// Neither the override variable nor the cache holds the file.
    NotFound { repo: String, filename: String, env_override: String },
}

/// The plain-value view of a `SearchError`.
pub enum SearchErrorView {
    OverrideMissing { var: Seq<char>, path: Seq<char> },
    Io { message: Seq<char> },
    NotFound { repo: Seq<char>, filename: Seq<char>, env_override: Seq<char> },
}

impl View for SearchError {
    type V = SearchErrorView;

    open spec fn view(&self) -> SearchErrorView {
        match self {
            SearchError::OverrideMissing { var, path } => SearchErrorView::OverrideMissing {
                var: var@,
                path: path@,
            },
            SearchError::Io { message } => SearchErrorView::Io { message: message@ },
            SearchError::NotFound { repo, filename, env_override } => SearchErrorView::NotFound {
                repo: repo@,
                filename: filename@,
                env_override: env_override@,
            },
        }
    }
}

/// The text of a search error.
pub open spec fn error_text(e: SearchErrorView) -> Seq<char> {
    match e {
        SearchErrorView::OverrideMissing { var, path } => "$"@ + var + "="@ + path
            + " — file not found"@,
        SearchErrorView::Io { message } => message,
        SearchErrorView::NotFound { repo, filename, env_override } => "Model not found: "@
            + repo + "/"@ + filename + "\nDownload with:\n  huggingface-cli download "@ + repo
            + " "@ + filename + "\nOr set env var: "@ + env_override + "=/path/to/"@
            + filename,
    }
}

impl SearchError {
    /// The error text shown to the user, with download instructions when the
    /// model is missing.
    pub fn message(&self) -> (text: String)
        ensures
            text@ == error_text(self@),
    {
        match self {
            SearchError::OverrideMissing { var, path } => {
                let mut t = String::from_str("$");
                t.append(var.as_str());
                t.append("=");
                t.append(path.as_str());
                t.append(" — file not found");
                t
            },
            SearchError::Io { message } => message.clone(),
            SearchError::NotFound { repo, filename, env_override } => {
                let mut t = String::from_str("Model not found: ");
                t.append(repo.as_str());
                t.append("/");
                t.append(filename.as_str());
                t.append("\nDownload with:\n  huggingface-cli download ");
                t.append(repo.as_str());
                t.append(" ");
                t.append(filename.as_str());
                t.append("\nOr set env var: ");
                t.append(env_override.as_str());
                t.append("=/path/to/");
                t.append(filename.as_str());
                t
            },
        }
    }
}

/// What the search asks its caller to do next, or how it ended.
#[derive(Debug)]
pub enum SearchRequest {
    /// Read an environment variable (unset or non-Unicode both count as absent).
    ReadEnv { name: String },
    /// Tell whether a path exists.
    CheckExists { path: String },
    /// List the entries of a directory, as full paths.
    ListDir { path: String },
    /// The model file was found here.
    Found { path: String },
    /// The search failed.
    Failed { error: SearchError },
}

/// The plain-value view of a `SearchRequest`.
pub enum SearchRequestView {
    ReadEnv { name: Seq<char> },
    CheckExists { path: Seq<char> },
    ListDir { path: Seq<char> },
    Found { path: Seq<char> },
    Failed { error: SearchErrorView },
}

impl View for SearchRequest {
    type V = SearchRequestView;

    open spec fn view(&self) -> SearchRequestView {
        match self {
            SearchRequest::ReadEnv { name } => SearchRequestView::ReadEnv { name: name@ },
            SearchRequest::CheckExists { path } => SearchRequestView::CheckExists { path: path@ },
            SearchRequest::ListDir { path } => SearchRequestView::ListDir { path: path@ },
            SearchRequest::Found { path } => SearchRequestView::Found { path: path@ },
            SearchRequest::Failed { error } => SearchRequestView::Failed { error: error@ },
        }
    }
}

/// What the caller observed in answer to the last request.
#[derive(Debug)]
pub enum SearchEvent {
    /// The value of the environment variable, if it is set.
    EnvValue(Option<String>),
    /// Whether the path exists.
    Exists(bool),
    /// The directory's entries (each a full path, or the error met reading
    /// it), or the error met opening the directory.
    Entries(Result<Vec<Result<String, String>>, String>),
}

/// The plain-value view of a directory listing.
pub open spec fn entries_view(entries: Seq<Result<String, String>>) -> Seq<
    Result<Seq<char>, Seq<char>>,
> {
    entries.map_values(
        |e: Result<String, String>|
            match e {
                Ok(p) => Ok(p@),
                Err(m) => Err(m@),
            },
    )
}

/// The plain-value view of a `SearchEvent`.
pub enum SearchEventView {
    EnvValue(Option<Seq<char>>),
    Exists(bool),
    Entries(Result<Seq<Result<Seq<char>, Seq<char>>>, Seq<char>>),
}

impl View for SearchEvent {
    type V = SearchEventView;

    open spec fn view(&self) -> SearchEventView {
        match self {
            SearchEvent::EnvValue(v) => SearchEventView::EnvValue(
                match v {
                    Some(s) => Some(s@),
                    None => None,
                },
            ),
            SearchEvent::Exists(b) => SearchEventView::Exists(*b),
            SearchEvent::Entries(r) => SearchEventView::Entries(
                match r {
                    Ok(es) => Ok(entries_view(es@)),
                    Err(m) => Err(m@),
                },
            ),
        }
    }
}

/// Where the model file is looked for: the three cache roots in turn, then
/// the override variable.
#[derive(Clone, Copy, Debug)]
pub enum Source {
    /// The cache below `$HF_HOME`.
    HfHome,
    /// The cache below `$HUGGINGFACE_HUB_CACHE`.
    HubCache,
    /// The cache below `$HOME/.cache/huggingface`.
    Home,
    /// The path in the override variable.
    Override,
}

/// Where the search stands, as plain values.
pub enum SearchPhase {
    /// Waiting for `HF_HOME`.
    HfHome,
    /// Waiting for `HUGGINGFACE_HUB_CACHE`.
    HubCache,
    /// Waiting for `HOME`.
    Home,
    /// Waiting to learn whether a snapshots directory exists; `next` is the
    /// source tried when this cache root does not hold the file.
    SnapshotsExists { dir: Seq<char>, next: Source },
    /// Waiting for the snapshots directory's entries.
    Listing { dir: Seq<char>, next: Source },
    /// Waiting to learn whether the candidate under entry `index` exists.
    Candidate { entries: Seq<Result<Seq<char>, Seq<char>>>, index: int, next: Source },
    /// Waiting for the override variable.
    Override,
    /// Waiting to learn whether the override path exists.
    OverrideExists { path: Seq<char> },
    /// The search has ended.
    Finished,
}

/// Whether an event is the kind of answer the phase waits for.
pub open spec fn accepts(phase: SearchPhase, event: SearchEventView) -> bool {
    match phase {
        SearchPhase::HfHome | SearchPhase::HubCache | SearchPhase::Home | SearchPhase::Override => event is EnvValue,
        SearchPhase::SnapshotsExists { .. } | SearchPhase::Candidate { .. } | SearchPhase::OverrideExists { .. } => event is Exists,
        SearchPhase::Listing { .. } => event is Entries,
        SearchPhase::Finished => false,
    }
}

/// The outcome when no source holds the model.
pub open spec fn not_found(repo: Seq<char>, filename: Seq<char>, var: Seq<char>) -> SearchRequestView {
    SearchRequestView::Failed {
        error: SearchErrorView::NotFound { repo, filename, env_override: var },
    }
}

/// Moving on to a source: the variable that names it is read.
pub open spec fn go_to_source(source: Source, var: Seq<char>) -> (SearchPhase, SearchRequestView) {
    match source {
        Source::HfHome => (SearchPhase::HfHome, SearchRequestView::ReadEnv { name: "HF_HOME"@ }),
        Source::HubCache => (
            SearchPhase::HubCache,
            SearchRequestView::ReadEnv { name: "HUGGINGFACE_HUB_CACHE"@ },
        ),
        Source::Home => (SearchPhase::Home, SearchRequestView::ReadEnv { name: "HOME"@ }),
        Source::Override => (SearchPhase::Override, SearchRequestView::ReadEnv { name: var }),
    }
}

/// Moving on to the snapshots directory below a cache root.
pub open spec fn go_to_snapshots(root: Seq<char>, repo: Seq<char>, next: Source) -> (
    SearchPhase,
    SearchRequestView,
) {
    let dir = snapshots_path(root, repo);
    (SearchPhase::SnapshotsExists { dir, next }, SearchRequestView::CheckExists { path: dir })
}

/// Moving on to the snapshot entry at `index`: its candidate file is checked,
/// an unreadable entry fails the search, and past the last entry the next
/// source is tried.
pub open spec fn go_to_entry(
    entries: Seq<Result<Seq<char>, Seq<char>>>,
    index: int,
    filename: Seq<char>,
    var: Seq<char>,
    next: Source,
) -> (SearchPhase, SearchRequestView) {
    if index >= entries.len() {
        go_to_source(next, var)
    } else {
        match entries[index] {
            Ok(p) => (
                SearchPhase::Candidate { entries, index, next },
                SearchRequestView::CheckExists { path: path_joined(p, filename) },
            ),
            Err(m) => (
                SearchPhase::Finished,
                SearchRequestView::Failed { error: SearchErrorView::Io { message: m } },
            ),
        }
    }
}

/// One step of the search: the phase that follows `phase` on `event`, and
/// the request (or outcome) that goes with it. The cache roots `HF_HOME`,
/// `HUGGINGFACE_HUB_CACHE` (each when set) and `$HOME/.cache/huggingface`
/// are tried in turn, every snapshot of a root in the order listed; the
/// override variable comes last.
pub open spec fn search_step(
    repo: Seq<char>,
    filename: Seq<char>,
    var: Seq<char>,
    phase: SearchPhase,
    event: SearchEventView,
) -> (SearchPhase, SearchRequestView) {
    match phase {
        SearchPhase::HfHome => match event {
            SearchEventView::EnvValue(Some(h)) => go_to_snapshots(h, repo, Source::HubCache),
            _ => go_to_source(Source::HubCache, var),
        },
        SearchPhase::HubCache => match event {
            SearchEventView::EnvValue(Some(h)) => go_to_snapshots(h, repo, Source::Home),
            _ => go_to_source(Source::Home, var),
        },
        SearchPhase::Home => match event {
            SearchEventView::EnvValue(Some(h)) => go_to_snapshots(
                default_cache_root(h),
                repo,
                Source::Override,
            ),
            _ => go_to_snapshots(default_cache_root(Seq::empty()), repo, Source::Override),
        },
        SearchPhase::SnapshotsExists { dir, next } => match event {
            SearchEventView::Exists(true) => (
                SearchPhase::Listing { dir, next },
                SearchRequestView::ListDir { path: dir },
            ),
            _ => go_to_source(next, var),
        },
        SearchPhase::Listing { dir, next } => match event {
            SearchEventView::Entries(Ok(entries)) => go_to_entry(entries, 0, filename, var, next),
            SearchEventView::Entries(Err(m)) => (
                SearchPhase::Finished,
                SearchRequestView::Failed { error: SearchErrorView::Io { message: m } },
            ),
            _ => (SearchPhase::Finished, not_found(repo, filename, var)),
        },
        SearchPhase::Candidate { entries, index, next } => match event {
            SearchEventView::Exists(true) => (
                SearchPhase::Finished,
                SearchRequestView::Found { path: path_joined(entries[index]->Ok_0, filename) },
            ),
            _ => go_to_entry(entries, index + 1, filename, var, next),
        },
        SearchPhase::Override => match event {
            SearchEventView::EnvValue(Some(p)) => (
                SearchPhase::OverrideExists { path: p },
                SearchRequestView::CheckExists { path: p },
            ),
            _ => (SearchPhase::Finished, not_found(repo, filename, var)),
        },
        SearchPhase::OverrideExists { path } => match event {
            SearchEventView::Exists(true) => (SearchPhase::Finished, SearchRequestView::Found { path }),
            _ => (
                SearchPhase::Finished,
                SearchRequestView::Failed { error: SearchErrorView::OverrideMissing { var, path } },
            ),
        },
        SearchPhase::Finished => (SearchPhase::Finished, not_found(repo, filename, var)),
    }
}

enum Stage {
    HfHome,
    HubCache,
    Home,
    SnapshotsExists { dir: String, next: Source },
    Listing { dir: String, next: Source },
    Candidate { entries: Vec<Result<String, String>>, index: usize, next: Source },
    Override,
    OverrideExists { path: String },
    Finished,
}

/// The search for a GGUF model file, driven by its caller: the caller
/// performs each request (reading the environment, probing the file system)
/// and hands back what it observed.
pub struct ModelSearch {
    repo: String,
    filename: String,
    env_override: String,
    stage: Stage,
}

impl ModelSearch {
    pub closed spec fn repo(&self) -> Seq<char> {
        self.repo@
    }

    pub closed spec fn filename(&self) -> Seq<char> {
        self.filename@
    }

    pub closed spec fn env_override(&self) -> Seq<char> {
        self.env_override@
    }

    /// The current phase, as plain values.
    pub closed spec fn phase(&self) -> SearchPhase {
        match self.stage {
            Stage::HfHome => SearchPhase::HfHome,
            Stage::HubCache => SearchPhase::HubCache,
            Stage::Home => SearchPhase::Home,
            Stage::SnapshotsExists { dir, next } => SearchPhase::SnapshotsExists { dir: dir@, next },
            Stage::Listing { dir, next } => SearchPhase::Listing { dir: dir@, next },
            Stage::Candidate { entries, index, next } => SearchPhase::Candidate {
                entries: entries_view(entries@),
                index: index as int,
                next,
            },
            Stage::Override => SearchPhase::Override,
            Stage::OverrideExists { path } => SearchPhase::OverrideExists { path: path@ },
            Stage::Finished => SearchPhase::Finished,
        }
    }

    pub closed spec fn wf(&self) -> bool {
        match self.stage {
            Stage::Candidate { entries, index, .. } => index < entries@.len()
                && entries@[index as int] is Ok,
            _ => true,
        }
    }

    /// Starts a search for `filename` of repository `repo`, with
    /// `env_override` naming the variable that may point at the file
    /// directly; the first request reads `HF_HOME`.
    pub fn start(repo: &str, filename: &str, env_override: &str) -> (r: (
        ModelSearch,
        SearchRequest,
    ))
        ensures
            r.0.wf(),
            r.0.repo() == repo@,
            r.0.filename() == filename@,
            r.0.env_override() == env_override@,
            (r.0.phase(), r.1@) == go_to_source(Source::HfHome, env_override@),
    {
        let search = ModelSearch {
            repo: String::from_str(repo),
            filename: String::from_str(filename),
            env_override: String::from_str(env_override),
            stage: Stage::HfHome,
        };
        (search, SearchRequest::ReadEnv { name: String::from_str("HF_HOME") })
    }

    fn not_found_request(&self) -> (r: SearchRequest)
        ensures
            r@ == not_found(self.repo(), self.filename(), self.env_override()),
    {
        SearchRequest::Failed {
            error: SearchError::NotFound {
                repo: self.repo.clone(),
                filename: self.filename.clone(),
                env_override: self.env_override.clone(),
            },
        }
    }

    fn source_request(&mut self, source: Source) -> (r: SearchRequest)
        ensures
            final(self).wf(),
            final(self).repo() == old(self).repo(),
            final(self).filename() == old(self).filename(),
            final(self).env_override() == old(self).env_override(),
            (final(self).phase(), r@) == go_to_source(source, old(self).env_override()),
    {
        match source {
            Source::HfHome => {
                self.stage = Stage::HfHome;
                SearchRequest::ReadEnv { name: String::from_str("HF_HOME") }
            },
            Source::HubCache => {
                self.stage = Stage::HubCache;
                SearchRequest::ReadEnv { name: String::from_str("HUGGINGFACE_HUB_CACHE") }
            },
            Source::Home => {
                self.stage = Stage::Home;
                SearchRequest::ReadEnv { name: String::from_str("HOME") }
            },
            Source::Override => {
                self.stage = Stage::Override;
                SearchRequest::ReadEnv { name: self.env_override.clone() }
            },
        }
    }

    fn snapshots_request(&mut self, root: &str, next: Source) -> (r: SearchRequest)
        ensures
            final(self).wf(),
            final(self).repo() == old(self).repo(),
            final(self).filename() == old(self).filename(),
            final(self).env_override() == old(self).env_override(),
            (final(self).phase(), r@) == go_to_snapshots(root@, old(self).repo(), next),
    {
        let dir = snapshots_dir(root, self.repo.as_str());
        let request = SearchRequest::CheckExists { path: dir.clone() };
        self.stage = Stage::SnapshotsExists { dir, next };
        request
    }

    fn entry_request(&mut self, entries: Vec<Result<String, String>>, index: usize, next: Source) -> (r:
        SearchRequest)
        requires
            index <= entries@.len(),
        ensures
            final(self).wf(),
            final(self).repo() == old(self).repo(),
            final(self).filename() == old(self).filename(),
            final(self).env_override() == old(self).env_override(),
            (final(self).phase(), r@) == go_to_entry(
                entries_view(entries@),
                index as int,
                old(self).filename(),
                old(self).env_override(),
                next,
            ),
    {
        if index >= entries.len() {
            return self.source_request(next);
        }
        let request = match &entries[index] {
            Ok(p) => SearchRequest::CheckExists { path: path_join(p.as_str(), self.filename.as_str()) },
            Err(m) => SearchRequest::Failed { error: SearchError::Io { message: m.clone() } },
        };
        match &entries[index] {
            Ok(_) => {
                self.stage = Stage::Candidate { entries, index, next };
            },
            Err(_) => {
                self.stage = Stage::Finished;
            },
        }
        request
    }

    /// Takes what the caller observed for the last request and says what to
    /// do next, or how the search ended; see `search_step`.
    pub fn step(&mut self, event: SearchEvent) -> (r: SearchRequest)
        requires
            old(self).wf(),
            accepts(old(self).phase(), event@),
        ensures
            final(self).wf(),
            final(self).repo() == old(self).repo(),
            final(self).filename() == old(self).filename(),
            final(self).env_override() == old(self).env_override(),
            (final(self).phase(), r@) == search_step(
                old(self).repo(),
                old(self).filename(),
                old(self).env_override(),
                old(self).phase(),
                event@,
            ),
    {
        let mut stage = Stage::Finished;
        std::mem::swap(&mut stage, &mut self.stage);
        match stage {
            Stage::HfHome => match event {
                SearchEvent::EnvValue(Some(h)) => self.snapshots_request(h.as_str(), Source::HubCache),
                _ => self.source_request(Source::HubCache),
            },
            Stage::HubCache => match event {
                SearchEvent::EnvValue(Some(h)) => self.snapshots_request(h.as_str(), Source::Home),
                _ => self.source_request(Source::Home),
            },
            Stage::Home => {
                let mut root = match event {
                    SearchEvent::EnvValue(Some(h)) => h,
                    _ => String::new(),
                };
                root.append("/.cache/huggingface");
                self.snapshots_request(root.as_str(), Source::Override)
            },
            Stage::SnapshotsExists { dir, next } => match event {
                SearchEvent::Exists(true) => {
                    let request = SearchRequest::ListDir { path: dir.clone() };
                    self.stage = Stage::Listing { dir, next };
                    request
                },
                _ => self.source_request(next),
            },
            Stage::Listing { dir, next } => match event {
                SearchEvent::Entries(Ok(entries)) => self.entry_request(entries, 0, next),
                SearchEvent::Entries(Err(m)) => SearchRequest::Failed {
                    error: SearchError::Io { message: m },
                },
                _ => self.not_found_request(),
            },
            Stage::Candidate { entries, index, next } => match event {
                SearchEvent::Exists(true) => {
                    let path = match &entries[index] {
                        Ok(p) => path_join(p.as_str(), self.filename.as_str()),
                        Err(m) => m.clone(),
                    };
                    SearchRequest::Found { path }
                },
                _ => {
                    let n = entries.len();
                    assert(index < n);
                    self.entry_request(entries, index + 1, next)
                },
            },
            Stage::Override => match event {
                SearchEvent::EnvValue(Some(p)) => {
                    let request = SearchRequest::CheckExists { path: p.clone() };
                    self.stage = Stage::OverrideExists { path: p };
                    request
                },
                _ => self.not_found_request(),
            },
            Stage::OverrideExists { path } => match event {
                SearchEvent::Exists(true) => SearchRequest::Found { path },
                _ => SearchRequest::Failed {
                    error: SearchError::OverrideMissing { var: self.env_override.clone(), path },
                },
            },
            Stage::Finished => self.not_found_request(),
        }
    }
}

/// A fixed environment in which a search can be answered: environment
/// variables, the paths that exist, and what listing a directory gives
/// (a directory with no listing recorded lists as empty).
pub struct SearchWorld {
    pub vars: Map<Seq<char>, Seq<char>>,
    pub existing: Set<Seq<char>>,
    pub listings: Map<Seq<char>, Result<Seq<Result<Seq<char>, Seq<char>>>, Seq<char>>>,
}

/// The value of a variable in a world, if it is set.
pub open spec fn world_var(world: SearchWorld, name: Seq<char>) -> Option<Seq<char>> {
    if world.vars.contains_key(name) {
        Some(world.vars[name])
    } else {
        None
    }
}

/// The listing of a directory in a world.
pub open spec fn world_listing(world: SearchWorld, dir: Seq<char>) -> Result<
    Seq<Result<Seq<char>, Seq<char>>>,
    Seq<char>,
> {
    if world.listings.contains_key(dir) {
        world.listings[dir]
    } else {
        Ok(Seq::empty())
    }
}

/// How a world answers a request.
pub open spec fn world_answer(world: SearchWorld, request: SearchRequestView) -> SearchEventView {
    match request {
        SearchRequestView::ReadEnv { name } => SearchEventView::EnvValue(world_var(world, name)),
        SearchRequestView::CheckExists { path } => SearchEventView::Exists(
            world.existing.contains(path),
        ),
        SearchRequestView::ListDir { path } => SearchEventView::Entries(world_listing(world, path)),
        _ => SearchEventView::EnvValue(None),
    }
}

/// Whether a request ends the search.
pub open spec fn is_outcome(request: SearchRequestView) -> bool {
    request is Found || request is Failed
}

/// Drives the search from `phase` and its pending `request` for at most
/// `fuel` steps, answering every request from `world`.
pub open spec fn run_search(
    repo: Seq<char>,
    filename: Seq<char>,
    var: Seq<char>,
    world: SearchWorld,
    phase: SearchPhase,
    request: SearchRequestView,
    fuel: nat,
) -> SearchRequestView
    decreases fuel,
{
    if is_outcome(request) || fuel == 0 {
        request
    } else {
        let next = search_step(repo, filename, var, phase, world_answer(world, request));
        run_search(repo, filename, var, world, next.0, next.1, (fuel - 1) as nat)
    }
}

/// The first snapshot entry, from `index` on, that holds the file; an
/// unreadable entry met first is an I/O error; `None` when no entry from
/// `index` on holds it.
pub open spec fn first_snapshot_hit(
    entries: Seq<Result<Seq<char>, Seq<char>>>,
    index: int,
    filename: Seq<char>,
    existing: Set<Seq<char>>,
) -> Option<SearchRequestView>
    decreases entries.len() - index,
{
    if index < 0 || index >= entries.len() {
        None
    } else {
        match entries[index] {
            Ok(p) => if existing.contains(path_joined(p, filename)) {
                Some(SearchRequestView::Found { path: path_joined(p, filename) })
            } else {
                first_snapshot_hit(entries, index + 1, filename, existing)
            },
            Err(m) => Some(SearchRequestView::Failed { error: SearchErrorView::Io { message: m } }),
        }
    }
}

/// What searching one cache root gives: the file in the first snapshot that
/// holds it, or an I/O error; `None` when this root does not hold the file.
pub open spec fn search_root(
    root: Seq<char>,
    repo: Seq<char>,
    filename: Seq<char>,
    world: SearchWorld,
) -> Option<SearchRequestView> {
    let dir = snapshots_path(root, repo);
    if !world.existing.contains(dir) {
        None
    } else {
        match world_listing(world, dir) {
            Ok(entries) => first_snapshot_hit(entries, 0, filename, world.existing),
            Err(m) => Some(SearchRequestView::Failed { error: SearchErrorView::Io { message: m } }),
        }
    }
}

/// What the override variable gives: its path when that exists, an error when
/// it does not, and not-found when the variable is unset.
pub open spec fn override_outcome(
    repo: Seq<char>,
    filename: Seq<char>,
    var: Seq<char>,
    world: SearchWorld,
) -> SearchRequestView {
    match world_var(world, var) {
        Some(p) => if world.existing.contains(p) {
            SearchRequestView::Found { path: p }
        } else {
            SearchRequestView::Failed { error: SearchErrorView::OverrideMissing { var, path: p } }
        },
        None => not_found(repo, filename, var),
    }
}

/// The order in which sources are tried.
pub open spec fn source_rank(source: Source) -> nat {
    match source {
        Source::HfHome => 3,
        Source::HubCache => 2,
        Source::Home => 1,
        Source::Override => 0,
    }
}

/// Where a model file is found in a world, trying the sources from `source`
/// on: `HF_HOME`, then `HUGGINGFACE_HUB_CACHE` (each only when set), then
/// `$HOME/.cache/huggingface`, then the override variable.
pub open spec fn resolve_from(
    source: Source,
    repo: Seq<char>,
    filename: Seq<char>,
    var: Seq<char>,
    world: SearchWorld,
) -> SearchRequestView
    decreases source_rank(source),
{
    match source {
        Source::HfHome => {
            let rest = resolve_from(Source::HubCache, repo, filename, var, world);
            match world_var(world, "HF_HOME"@) {
                Some(h) => match search_root(h, repo, filename, world) {
                    Some(o) => o,
                    None => rest,
                },
                None => rest,
            }
        },
        Source::HubCache => {
            let rest = resolve_from(Source::Home, repo, filename, var, world);
            match world_var(world, "HUGGINGFACE_HUB_CACHE"@) {
                Some(h) => match search_root(h, repo, filename, world) {
                    Some(o) => o,
                    None => rest,
                },
                None => rest,
            }
        },
        Source::Home => {
            let home = match world_var(world, "HOME"@) {
                Some(h) => h,
                None => Seq::empty(),
            };
            match search_root(default_cache_root(home), repo, filename, world) {
                Some(o) => o,
                None => resolve_from(Source::Override, repo, filename, var, world),
            }
        },
        Source::Override => override_outcome(repo, filename, var, world),
    }
}

/// Where a model file is found in a world, in the documented resolution
/// order: the cache roots `$HF_HOME`, `$HUGGINGFACE_HUB_CACHE` and
/// `~/.cache/huggingface` in turn, then the override variable. So a set
/// override variable is not read at all when some cache root holds the
/// model; it is used only when the caches lack it.
pub open spec fn resolve_model(
    repo: Seq<char>,
    filename: Seq<char>,
    var: Seq<char>,
    world: SearchWorld,
) -> SearchRequestView {
    resolve_from(Source::HfHome, repo, filename, var, world)
}

/// Steps the search spends on one cache root.
pub open spec fn root_steps(root: Seq<char>, repo: Seq<char>, world: SearchWorld) -> nat {
    let dir = snapshots_path(root, repo);
    if !world.existing.contains(dir) {
        1
    } else {
        match world_listing(world, dir) {
            Ok(entries) => 2 + entries.len(),
            Err(_) => 2,
        }
    }
}

/// Steps enough to finish the search from `source` on.
pub open spec fn steps_from(source: Source, repo: Seq<char>, world: SearchWorld) -> nat
    decreases source_rank(source),
{
    match source {
        Source::HfHome => 1 + match world_var(world, "HF_HOME"@) {
            Some(h) => root_steps(h, repo, world),
            None => 0,
        } + steps_from(Source::HubCache, repo, world),
        Source::HubCache => 1 + match world_var(world, "HUGGINGFACE_HUB_CACHE"@) {
            Some(h) => root_steps(h, repo, world),
            None => 0,
        } + steps_from(Source::Home, repo, world),
        Source::Home => 1 + root_steps(
            default_cache_root(
                match world_var(world, "HOME"@) {
                    Some(h) => h,
                    None => Seq::empty(),
                },
            ),
            repo,
            world,
        ) + steps_from(Source::Override, repo, world),
        Source::Override => 2,
    }
}

proof fn lemma_run_entries(
    repo: Seq<char>,
    filename: Seq<char>,
    var: Seq<char>,
    world: SearchWorld,
    entries: Seq<Result<Seq<char>, Seq<char>>>,
    index: int,
    next: Source,
    fuel: nat,
)
    requires
        0 <= index <= entries.len(),
        fuel >= entries.len() - index,
    ensures
        run_search(
            repo,
            filename,
            var,
            world,
            go_to_entry(entries, index, filename, var, next).0,
            go_to_entry(entries, index, filename, var, next).1,
            fuel,
        ) == match first_snapshot_hit(entries, index, filename, world.existing) {
            Some(o) => o,
            None => run_search(
                repo,
                filename,
                var,
                world,
                go_to_source(next, var).0,
                go_to_source(next, var).1,
                (fuel - (entries.len() - index)) as nat,
            ),
        },
    decreases entries.len() - index,
{
    if index < entries.len() {
        match entries[index] {
            Ok(p) => {
                let path = path_joined(p, filename);
                let first = go_to_entry(entries, index, filename, var, next);
                assert(first == (
                    SearchPhase::Candidate { entries, index, next },
                    SearchRequestView::CheckExists { path },
                ));
                let answer = world_answer(world, SearchRequestView::CheckExists { path });
                assert(answer == SearchEventView::Exists(world.existing.contains(path)));
                let nxt = search_step(
                    repo,
                    filename,
                    var,
                    SearchPhase::Candidate { entries, index, next },
                    answer,
                );
                assert(run_search(repo, filename, var, world, first.0, first.1, fuel)
                    == run_search(repo, filename, var, world, nxt.0, nxt.1, (fuel - 1) as nat));
                if world.existing.contains(path) {
                    assert(nxt.1 == SearchRequestView::Found { path });
                } else {
                    assert(nxt == go_to_entry(entries, index + 1, filename, var, next));
                    lemma_run_entries(
                        repo,
                        filename,
                        var,
                        world,
                        entries,
                        index + 1,
                        next,
                        (fuel - 1) as nat,
                    );
                }
            },
            Err(m) => {},
        }
    }
}

proof fn lemma_run_root(
    repo: Seq<char>,
    filename: Seq<char>,
    var: Seq<char>,
    world: SearchWorld,
    root: Seq<char>,
    next: Source,
    fuel: nat,
)
    requires
        fuel >= root_steps(root, repo, world),
    ensures
        run_search(
            repo,
            filename,
            var,
            world,
            go_to_snapshots(root, repo, next).0,
            go_to_snapshots(root, repo, next).1,
            fuel,
        ) == match search_root(root, repo, filename, world) {
            Some(o) => o,
            None => run_search(
                repo,
                filename,
                var,
                world,
                go_to_source(next, var).0,
                go_to_source(next, var).1,
                (fuel - root_steps(root, repo, world)) as nat,
            ),
        },
{
    let dir = snapshots_path(root, repo);
    let s = go_to_snapshots(root, repo, next);
    let answer = world_answer(world, s.1);
    assert(answer == SearchEventView::Exists(world.existing.contains(dir)));
    let s2 = search_step(repo, filename, var, s.0, answer);
    assert(run_search(repo, filename, var, world, s.0, s.1, fuel)
        == run_search(repo, filename, var, world, s2.0, s2.1, (fuel - 1) as nat));
    if world.existing.contains(dir) {
        assert(s2 == (SearchPhase::Listing { dir, next }, SearchRequestView::ListDir { path: dir }));
        let answer2 = world_answer(world, s2.1);
        assert(answer2 == SearchEventView::Entries(world_listing(world, dir)));
        let s3 = search_step(repo, filename, var, s2.0, answer2);
        assert(run_search(repo, filename, var, world, s2.0, s2.1, (fuel - 1) as nat)
            == run_search(repo, filename, var, world, s3.0, s3.1, (fuel - 2) as nat));
        match world_listing(world, dir) {
            Ok(entries) => {
                assert(s3 == go_to_entry(entries, 0, filename, var, next));
                lemma_run_entries(repo, filename, var, world, entries, 0, next, (fuel - 2) as nat);
            },
            Err(m) => {
                assert(is_outcome(s3.1));
            },
        }
    } else {
        assert(s2 == go_to_source(next, var));
    }
}

proof fn lemma_run_from(
    repo: Seq<char>,
    filename: Seq<char>,
    var: Seq<char>,
    world: SearchWorld,
    source: Source,
    fuel: nat,
)
    requires
        fuel >= steps_from(source, repo, world),
    ensures
        run_search(
            repo,
            filename,
            var,
            world,
            go_to_source(source, var).0,
            go_to_source(source, var).1,
            fuel,
        ) == resolve_from(source, repo, filename, var, world),
    decreases source_rank(source),
{
    let s = go_to_source(source, var);
    let answer = world_answer(world, s.1);
    let s2 = search_step(repo, filename, var, s.0, answer);
    assert(run_search(repo, filename, var, world, s.0, s.1, fuel)
        == run_search(repo, filename, var, world, s2.0, s2.1, (fuel - 1) as nat));
    match source {
        Source::HfHome => {
            assert(answer == SearchEventView::EnvValue(world_var(world, "HF_HOME"@)));
            lemma_run_from(repo, filename, var, world, Source::HubCache, (fuel - 1) as nat);
            match world_var(world, "HF_HOME"@) {
                Some(h) => {
                    assert(s2 == go_to_snapshots(h, repo, Source::HubCache));
                    lemma_run_root(repo, filename, var, world, h, Source::HubCache, (fuel - 1) as nat);
                    lemma_run_from(
                        repo,
                        filename,
                        var,
                        world,
                        Source::HubCache,
                        (fuel - 1 - root_steps(h, repo, world)) as nat,
                    );
                },
                None => {},
            }
        },
        Source::HubCache => {
            assert(answer == SearchEventView::EnvValue(
                world_var(world, "HUGGINGFACE_HUB_CACHE"@),
            ));
            lemma_run_from(repo, filename, var, world, Source::Home, (fuel - 1) as nat);
            match world_var(world, "HUGGINGFACE_HUB_CACHE"@) {
                Some(h) => {
                    assert(s2 == go_to_snapshots(h, repo, Source::Home));
                    lemma_run_root(repo, filename, var, world, h, Source::Home, (fuel - 1) as nat);
                    lemma_run_from(
                        repo,
                        filename,
                        var,
                        world,
                        Source::Home,
                        (fuel - 1 - root_steps(h, repo, world)) as nat,
                    );
                },
                None => {},
            }
        },
        Source::Home => {
            assert(answer == SearchEventView::EnvValue(world_var(world, "HOME"@)));
            let home = match world_var(world, "HOME"@) {
                Some(h) => h,
                None => Seq::empty(),
            };
            let root = default_cache_root(home);
            assert(s2 == go_to_snapshots(root, repo, Source::Override));
            lemma_run_root(repo, filename, var, world, root, Source::Override, (fuel - 1) as nat);
            lemma_run_from(
                repo,
                filename,
                var,
                world,
                Source::Override,
                (fuel - 1 - root_steps(root, repo, world)) as nat,
            );
        },
        Source::Override => {
            assert(answer == SearchEventView::EnvValue(world_var(world, var)));
            match world_var(world, var) {
                Some(p) => {
                    assert(s2 == (
                        SearchPhase::OverrideExists { path: p },
                        SearchRequestView::CheckExists { path: p },
                    ));
                    let answer2 = world_answer(world, s2.1);
                    assert(answer2 == SearchEventView::Exists(world.existing.contains(p)));
                    let s3 = search_step(repo, filename, var, s2.0, answer2);
                    assert(run_search(repo, filename, var, world, s2.0, s2.1, (fuel - 1) as nat)
                        == run_search(repo, filename, var, world, s3.0, s3.1, (fuel - 2) as nat));
                    assert(is_outcome(s3.1));
                },
                None => {},
            }
        },
    }
}

/// The search, answered from any fixed world, ends exactly where the
/// documented resolution order says: `resolve_model`.
pub proof fn lemma_search_resolves(
    repo: Seq<char>,
    filename: Seq<char>,
    var: Seq<char>,
    world: SearchWorld,
)
    ensures
        exists|fuel: nat|
            run_search(
                repo,
                filename,
                var,
                world,
                SearchPhase::HfHome,
                SearchRequestView::ReadEnv { name: "HF_HOME"@ },
                fuel,
            ) == resolve_model(repo, filename, var, world),
{
    let fuel = steps_from(Source::HfHome, repo, world);
    lemma_run_from(repo, filename, var, world, Source::HfHome, fuel);
    assert(go_to_source(Source::HfHome, var) == (
        SearchPhase::HfHome,
        SearchRequestView::ReadEnv { name: "HF_HOME"@ },
    ));
}

/// Every failure other than an I/O error tells the user that the file was
/// not found, and a model missing from the cache comes with the command
/// that downloads it.
pub proof fn lemma_failure_text(e: SearchErrorView)
    ensures
        !(e is Io) ==> contains_chars(error_text(e), "not found"@),
        e is NotFound ==> contains_chars(error_text(e), "huggingface-cli download"@),
{
    reveal_strlit("not found");
    reveal_strlit("huggingface-cli download");
    reveal_strlit(" — file not found");
    reveal_strlit("Model not found: ");
    reveal_strlit("\nDownload with:\n  huggingface-cli download ");
    match e {
        SearchErrorView::OverrideMissing { var, path } => {
            let t = error_text(e);
            let head = "$"@ + var + "="@ + path;
            assert(t == head + " — file not found"@);
            let k: int = head.len() as int + 8;
            assert(t.subrange(k, k + 9) =~= "not found"@);
            lemma_contains_at(t, "not found"@, k);
        },
        SearchErrorView::NotFound { repo, filename, env_override } => {
            let t = error_text(e);
            assert(t.subrange(6, 15) =~= "not found"@);
            lemma_contains_at(t, "not found"@, 6);
            let head = "Model not found: "@ + repo + "/"@ + filename;
            let k: int = head.len() as int + 18;
            assert(t.subrange(k, k + 24) =~= "huggingface-cli download"@);
            lemma_contains_at(t, "huggingface-cli download"@, k);
        },
        SearchErrorView::Io { .. } => {},
    }
}

} // verus!
