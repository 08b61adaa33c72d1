use crate::protocol::{
    opt_view, text_result_view, Action, ActionModel, ErrorModel, Event, EventModel,
    InstallStatus, Request, RequestModel, ResolveError, StatusModel,
};
use vstd::prelude::*;

verus! {

/// Executable name looked up on the host's search path.
pub const TOOL_NAME: &'static str = "cds-lsp";

/// Registry package that ships the server.
pub const PACKAGE_NAME: &'static str = "@sap/cds-lsp";

/// Where the package's own binary sits below a directory holding `node_modules`.
pub const PACKAGE_BIN_SUFFIX: &'static str = "/node_modules/@sap/cds-lsp/bin/cds-lsp";

/// Where the installer's shim for the binary sits below the install directory.
pub const SHIM_SUFFIX: &'static str = "/node_modules/.bin/cds-lsp";

/// The binary of a copy of the package installed in a project.
pub open spec fn package_bin_path(dir: Seq<char>) -> Seq<char> {
    dir + PACKAGE_BIN_SUFFIX@
}

/// The installer's shim for the binary after an install into `dir`.
pub open spec fn shim_path(dir: Seq<char>) -> Seq<char> {
    dir + SHIM_SUFFIX@
}

/// Where the resolver stands within one resolution: which answer it awaits.
#[derive(Clone, Copy, PartialEq, Eq, Structural, Debug)]
pub enum Phase {
    /// No resolution is under way.
    Idle,
    /// Awaiting whether the memoized path is still a file.
    CachedCheck,
    /// Awaiting the search-path lookup.
    Which,
    /// Awaiting whether the project-local binary is a file.
    LocalCheck,
    /// Awaiting the latest published version.
    Latest,
    /// Awaiting the installed version.
    Installed,
    /// Awaiting whether the binary of the matching installed version is a file.
    InstalledCheck,
    /// Awaiting the outcome of the install.
    Install,
    /// Awaiting whether the shim exists after the install.
    ShimCheck,
}

/// Which answers a phase awaits.
pub open spec fn accepts(phase: Phase, e: EventModel) -> bool {
    match phase {
        Phase::Idle => false,
        Phase::CachedCheck | Phase::LocalCheck | Phase::InstalledCheck | Phase::ShimCheck => e is IsFile,
        Phase::Which => e is Found,
        Phase::Latest => e is Latest,
        Phase::Installed => e is Installed,
        Phase::Install => e is InstallDone,
    }
}

/// What a resolver holds, as plain values.
pub ghost struct ResolverModel {
    /// The memoized path, kept across resolutions.
    pub cached: Option<Seq<char>>,
    pub phase: Phase,
    /// The project root of the resolution under way.
    pub root: Seq<char>,
    /// The working directory of the resolution under way, or why it is unknown.
    pub cwd: Result<Seq<char>, Seq<char>>,
    /// The latest version, once the registry has named it.
    pub latest: Seq<char>,
}

/// What each phase needs of the rest of the state.
pub open spec fn well_formed(m: ResolverModel) -> bool {
    &&& m.phase == Phase::CachedCheck ==> m.cached is Some
    &&& (m.phase == Phase::InstalledCheck || m.phase == Phase::ShimCheck) ==> m.cwd is Ok
}

/// An action: an optional status report, then a request.
pub open spec fn act(report: Option<StatusModel>, request: RequestModel) -> ActionModel {
    ActionModel { report, request }
}

/// End the resolution with `outcome`, memoizing a path found.
pub open spec fn finish(
    m: ResolverModel,
    report: Option<StatusModel>,
    outcome: Result<Seq<char>, ErrorModel>,
) -> (ResolverModel, ActionModel) {
    let cached = match outcome {
        Ok(p) => Some(p),
        Err(_) => m.cached,
    };
    (ResolverModel { cached, phase: Phase::Idle, ..m }, act(report, RequestModel::Finish(outcome)))
}

/// Move to `phase`, reporting `report` and asking `request`.
pub open spec fn goto(m: ResolverModel, phase: Phase, report: Option<StatusModel>, request: RequestModel) -> (
    ResolverModel,
    ActionModel,
) {
    (ResolverModel { phase, ..m }, act(report, request))
}

/// The first action of a resolution.
pub open spec fn begin_spec(
    cached: Option<Seq<char>>,
    root: Seq<char>,
    cwd: Result<Seq<char>, Seq<char>>,
) -> (ResolverModel, ActionModel) {
    let m = ResolverModel { cached, phase: Phase::Idle, root, cwd, latest: Seq::empty() };
    match cached {
        Some(p) => goto(m, Phase::CachedCheck, None, RequestModel::IsFile(p)),
        None => goto(m, Phase::Which, None, RequestModel::Which(TOOL_NAME@)),
    }
}

/// Go to the binary of the matching installed version, below the working directory.
pub open spec fn check_installed(m: ResolverModel) -> (ResolverModel, ActionModel) {
    match m.cwd {
        Ok(d) => goto(
            m,
            Phase::InstalledCheck,
            Some(StatusModel::Cleared),
            RequestModel::IsFile(package_bin_path(d)),
        ),
        Err(e) => finish(
            m,
            Some(StatusModel::Cleared),
            Err(ErrorModel::WorkingDirectoryUnavailable(e)),
        ),
    }
}

/// Install the latest version.
pub open spec fn start_install(m: ResolverModel) -> (ResolverModel, ActionModel) {
    goto(
        m,
        Phase::Install,
        Some(StatusModel::Downloading),
        RequestModel::Install(PACKAGE_NAME@, m.latest),
    )
}

/// The resolver's move on an answer that its phase awaits.
pub open spec fn step_spec(m: ResolverModel, e: EventModel) -> (ResolverModel, ActionModel) {
    match (m.phase, e) {
        (Phase::CachedCheck, EventModel::IsFile(true)) => finish(m, None, Ok(m.cached->Some_0)),
        (Phase::CachedCheck, EventModel::IsFile(false)) => goto(
            m,
            Phase::Which,
            None,
            RequestModel::Which(TOOL_NAME@),
        ),
        (Phase::Which, EventModel::Found(Some(p))) => finish(m, None, Ok(p)),
        (Phase::Which, EventModel::Found(None)) => goto(
            m,
            Phase::LocalCheck,
            None,
            RequestModel::IsFile(package_bin_path(m.root)),
        ),
        (Phase::LocalCheck, EventModel::IsFile(true)) => finish(
            m,
            None,
            Ok(package_bin_path(m.root)),
        ),
        (Phase::LocalCheck, EventModel::IsFile(false)) => goto(
            m,
            Phase::Latest,
            Some(StatusModel::CheckingForUpdate),
            RequestModel::LatestVersion(PACKAGE_NAME@),
        ),
        (Phase::Latest, EventModel::Latest(Err(r))) => finish(
            m,
            None,
            Err(ErrorModel::RegistryQueryFailed(r)),
        ),
        (Phase::Latest, EventModel::Latest(Ok(v))) => goto(
            ResolverModel { latest: v, ..m },
            Phase::Installed,
            None,
            RequestModel::InstalledVersion(PACKAGE_NAME@),
        ),
        (Phase::Installed, EventModel::Installed(Err(r))) => finish(
            m,
            None,
            Err(ErrorModel::RegistryQueryFailed(r)),
        ),
        (Phase::Installed, EventModel::Installed(Ok(Some(v)))) => if v == m.latest {
            check_installed(m)
        } else {
            start_install(m)
        },
        (Phase::Installed, EventModel::Installed(Ok(None))) => start_install(m),
        (Phase::InstalledCheck, EventModel::IsFile(true)) => finish(
            m,
            None,
            Ok(package_bin_path(m.cwd->Ok_0)),
        ),
        (Phase::InstalledCheck, EventModel::IsFile(false)) => start_install(m),
        (Phase::Install, EventModel::InstallDone(Err(r))) => finish(
            m,
            Some(StatusModel::Failed(r)),
            Err(ErrorModel::InstallFailed(r)),
        ),
        (Phase::Install, EventModel::InstallDone(Ok(()))) => match m.cwd {
            Ok(d) => goto(
                m,
                Phase::ShimCheck,
                Some(StatusModel::Cleared),
                RequestModel::IsFile(shim_path(d)),
            ),
            Err(r) => finish(
                m,
                Some(StatusModel::Cleared),
                Err(ErrorModel::WorkingDirectoryUnavailable(r)),
            ),
        },
        (Phase::ShimCheck, EventModel::IsFile(true)) => finish(m, None, Ok(shim_path(m.cwd->Ok_0))),
        (Phase::ShimCheck, EventModel::IsFile(false)) => finish(
            m,
            None,
            Err(ErrorModel::BinaryMissingAfterInstall(shim_path(m.cwd->Ok_0))),
        ),
        // An answer that the phase does not await: `step` never takes one.
        _ => (m, act(None, RequestModel::Finish(Err(ErrorModel::RegistryQueryFailed(Seq::empty()))))),
    }
}

/// Finds the language-server binary, cheapest source first, and memoizes it
/// for later resolutions on the same value.
pub struct Resolver {
    cached: Option<String>,
    phase: Phase,
    root: String,
    cwd: Result<String, String>,
    latest: String,
}

impl View for Resolver {
    type V = ResolverModel;

    closed spec fn view(&self) -> ResolverModel {
        ResolverModel {
            cached: opt_view(self.cached),
            phase: self.phase,
            root: self.root@,
            cwd: text_result_view(self.cwd),
            latest: self.latest@,
        }
    }
}


/// `s` followed by `suffix`.
fn joined(s: &String, suffix: &'static str) -> (r: String)
    ensures
        r@ == s@ + suffix@,
{
    let mut r = s.clone();
    r.append(suffix);
    r
}

impl Resolver {
    #[verifier::type_invariant]
    spec fn inv(&self) -> bool {
        well_formed(self@)
    }

    /// A resolver with nothing memoized.
    pub fn new() -> (r: Resolver)
        ensures
            r@.cached is None,
            r@.phase == Phase::Idle,
    {
        Resolver {
            cached: None,
            phase: Phase::Idle,
            root: String::new(),
            cwd: Ok(String::new()),
            latest: String::new(),
        }
    }

    /// The path memoized by the last successful resolution, if any.
    pub fn cached_path(&self) -> (r: Option<String>)
        ensures
            opt_view(r) == self@.cached,
    {
        self.cached.clone()
    }

    /// The answer that the resolution under way awaits.
    pub fn phase(&self) -> (r: Phase)
        ensures
            r == self@.phase,
    {
        self.phase
    }

    /// Whether `e` answers what the resolution under way awaits.
    pub fn accepts(&self, e: &Event) -> (r: bool)
        ensures
            r == accepts(self@.phase, e@),
    {
        match (self.phase, e) {
            (Phase::CachedCheck, Event::IsFile(_)) => true,
            (Phase::LocalCheck, Event::IsFile(_)) => true,
            (Phase::InstalledCheck, Event::IsFile(_)) => true,
            (Phase::ShimCheck, Event::IsFile(_)) => true,
            (Phase::Which, Event::Found(_)) => true,
            (Phase::Latest, Event::Latest(_)) => true,
            (Phase::Installed, Event::Installed(_)) => true,
            (Phase::Install, Event::InstallDone(_)) => true,
            _ => false,
        }
    }

    /// Starts a resolution in project `root`, with the host's working
    /// directory `cwd` (or why it could not be read), and returns its first
    /// action. The memoized path is kept; a resolution left unfinished is
    /// dropped.
    pub fn begin(&mut self, root: String, cwd: Result<String, String>) -> (a: Action)
        ensures
            (final(self)@, a@) == begin_spec(old(self)@.cached, root@, text_result_view(cwd)),
    {
        self.phase = Phase::Idle;
        self.root = root;
        self.cwd = cwd;
        self.latest = String::new();
        match &self.cached {
            Some(p) => {
                self.phase = Phase::CachedCheck;
                Action { report: None, request: Request::IsFile(p.clone()) }
            },
            None => {
                self.phase = Phase::Which;
                Action { report: None, request: Request::Which(String::from_str(TOOL_NAME)) }
            },
        }
    }

    fn finish(&mut self, report: Option<InstallStatus>, outcome: Result<String, ResolveError>) -> (a: Action)
        ensures
            (final(self)@, a@) == finish(
                old(self)@,
                match report { Some(s) => Some(s@), None => None },
                match outcome { Ok(p) => Ok(p@), Err(e) => Err(e@) },
            ),
    {
        proof {
            use_type_invariant(&*self);
        }
        if let Ok(p) = &outcome {
            self.cached = Some(p.clone());
        }
        self.phase = Phase::Idle;
        Action { report, request: Request::Finish(outcome) }
    }

    fn goto(&mut self, phase: Phase, report: Option<InstallStatus>, request: Request) -> (a: Action)
        requires
            well_formed(ResolverModel { phase, ..old(self)@ }),
        ensures
            (final(self)@, a@) == goto(
                old(self)@,
                phase,
                match report { Some(s) => Some(s@), None => None },
                request@,
            ),
    {
        self.phase = phase;
        Action { report, request }
    }

    fn start_install(&mut self) -> (a: Action)
        ensures
            (final(self)@, a@) == start_install(old(self)@),
    {
        let request = Request::Install(String::from_str(PACKAGE_NAME), self.latest.clone());
        self.goto(Phase::Install, Some(InstallStatus::Downloading), request)
    }

    fn check_installed(&mut self) -> (a: Action)
        ensures
            (final(self)@, a@) == check_installed(old(self)@),
    {
        match &self.cwd {
            Ok(d) => {
                let path = joined(d, PACKAGE_BIN_SUFFIX);
                self.goto(Phase::InstalledCheck, Some(InstallStatus::Cleared), Request::IsFile(path))
            },
            Err(r) => {
                let e = ResolveError::WorkingDirectoryUnavailable(r.clone());
                self.finish(Some(InstallStatus::Cleared), Err(e))
            },
        }
    }

    /// Takes the host's answer to the last action and returns the next one.
    pub fn step(&mut self, e: Event) -> (a: Action)
        requires
            accepts(old(self)@.phase, e@),
        ensures
            (final(self)@, a@) == step_spec(old(self)@, e@),
    {
        proof {
            use_type_invariant(&*self);
        }
        match (self.phase, e) {
            (Phase::CachedCheck, Event::IsFile(true)) => {
                let path = match &self.cached {
                    Some(p) => p.clone(),
                    None => String::new(),
                };
                self.finish(None, Ok(path))
            },
            (Phase::CachedCheck, Event::IsFile(false)) => {
                self.goto(Phase::Which, None, Request::Which(String::from_str(TOOL_NAME)))
            },
            (Phase::Which, Event::Found(Some(p))) => self.finish(None, Ok(p)),
            (Phase::Which, Event::Found(None)) => {
                let path = joined(&self.root, PACKAGE_BIN_SUFFIX);
                self.goto(Phase::LocalCheck, None, Request::IsFile(path))
            },
            (Phase::LocalCheck, Event::IsFile(true)) => {
                let path = joined(&self.root, PACKAGE_BIN_SUFFIX);
                self.finish(None, Ok(path))
            },
            (Phase::LocalCheck, Event::IsFile(false)) => {
                let request = Request::LatestVersion(String::from_str(PACKAGE_NAME));
                self.goto(Phase::Latest, Some(InstallStatus::CheckingForUpdate), request)
            },
            (Phase::Latest, Event::Latest(Err(r))) => {
                self.finish(None, Err(ResolveError::RegistryQueryFailed(r)))
            },
            (Phase::Latest, Event::Latest(Ok(v))) => {
                self.latest = v;
                let request = Request::InstalledVersion(String::from_str(PACKAGE_NAME));
                self.goto(Phase::Installed, None, request)
            },
            (Phase::Installed, Event::Installed(Err(r))) => {
                self.finish(None, Err(ResolveError::RegistryQueryFailed(r)))
            },
            (Phase::Installed, Event::Installed(Ok(Some(v)))) => {
                if v == self.latest {
                    self.check_installed()
                } else {
                    self.start_install()
                }
            },
            (Phase::Installed, Event::Installed(Ok(None))) => self.start_install(),
            (Phase::InstalledCheck, Event::IsFile(true)) => {
                let path = match &self.cwd {
                    Ok(d) => joined(d, PACKAGE_BIN_SUFFIX),
                    Err(_) => String::new(),
                };
                self.finish(None, Ok(path))
            },
            (Phase::InstalledCheck, Event::IsFile(false)) => self.start_install(),
            (Phase::Install, Event::InstallDone(Err(r))) => {
                let status = InstallStatus::Failed(r.clone());
                self.finish(Some(status), Err(ResolveError::InstallFailed(r)))
            },
            (Phase::Install, Event::InstallDone(Ok(()))) => {
                match &self.cwd {
                    Ok(d) => {
                        let path = joined(d, SHIM_SUFFIX);
                        self.goto(Phase::ShimCheck, Some(InstallStatus::Cleared), Request::IsFile(path))
                    },
                    Err(r) => {
                        let e = ResolveError::WorkingDirectoryUnavailable(r.clone());
                        self.finish(Some(InstallStatus::Cleared), Err(e))
                    },
                }
            },
            (Phase::ShimCheck, Event::IsFile(found)) => {
                let path = match &self.cwd {
                    Ok(d) => joined(d, SHIM_SUFFIX),
                    Err(_) => String::new(),
                };
                if found {
                    self.finish(None, Ok(path))
                } else {
                    self.finish(None, Err(ResolveError::BinaryMissingAfterInstall(path)))
                }
            },
            // Ruled out by `accepts`.
            _ => Action { report: None, request: Request::Finish(Err(ResolveError::RegistryQueryFailed(String::new()))) },
        }
    }
}

} // verus!
