use vstd::prelude::*;

verus! {

/// Installation progress pushed to the host's status sink.
#[derive(Clone, Debug, PartialEq, Eq)]
pub enum InstallStatus {
    CheckingForUpdate,
    Downloading,
    Failed(String),
    Cleared,
}

/// An [`InstallStatus`] as plain values.
pub ghost enum StatusModel {
    CheckingForUpdate,
    Downloading,
    Failed(Seq<char>),
    Cleared,
}

impl View for InstallStatus {
    type V = StatusModel;

    open spec fn view(&self) -> StatusModel {
        match self {
            InstallStatus::CheckingForUpdate => StatusModel::CheckingForUpdate,
            InstallStatus::Downloading => StatusModel::Downloading,
            InstallStatus::Failed(m) => StatusModel::Failed(m@),
            InstallStatus::Cleared => StatusModel::Cleared,
        }
    }
}

/// Why a resolution ended without a path.
#[derive(Clone, Debug, PartialEq, Eq)]
pub enum ResolveError {
    /// The registry could not say which version is latest or installed.
    RegistryQueryFailed(String),
    /// The install operation itself failed; carries its message verbatim.
    InstallFailed(String),
    /// The install reported success but no binary stands at this path.
    BinaryMissingAfterInstall(String),
    /// The working directory needed to locate an install could not be read.
    WorkingDirectoryUnavailable(String),
}

/// A [`ResolveError`] as plain values.
pub ghost enum ErrorModel {
    RegistryQueryFailed(Seq<char>),
    InstallFailed(Seq<char>),
    BinaryMissingAfterInstall(Seq<char>),
    WorkingDirectoryUnavailable(Seq<char>),
}

impl View for ResolveError {
    type V = ErrorModel;

    open spec fn view(&self) -> ErrorModel {
        match self {
            ResolveError::RegistryQueryFailed(m) => ErrorModel::RegistryQueryFailed(m@),
            ResolveError::InstallFailed(m) => ErrorModel::InstallFailed(m@),
            ResolveError::BinaryMissingAfterInstall(p) => ErrorModel::BinaryMissingAfterInstall(p@),
            ResolveError::WorkingDirectoryUnavailable(m) => ErrorModel::WorkingDirectoryUnavailable(
                m@,
            ),
        }
    }
}

pub const MISSING_BINARY_PREFIX: &'static str = "cds-lsp package installed but binary not found at: ";

pub const NO_WORKING_DIRECTORY_PREFIX: &'static str = "Failed to get current directory: ";

/// The text shown to the user for an error.
pub open spec fn message_of(e: ErrorModel) -> Seq<char> {
    match e {
        ErrorModel::RegistryQueryFailed(m) => m,
        ErrorModel::InstallFailed(m) => m,
        ErrorModel::BinaryMissingAfterInstall(p) => MISSING_BINARY_PREFIX@ + p,
        ErrorModel::WorkingDirectoryUnavailable(m) => NO_WORKING_DIRECTORY_PREFIX@ + m,
    }
}

impl ResolveError {
    /// The text shown to the user as the reason the server could not start.
    pub fn message(&self) -> (r: String)
        ensures
            r@ == message_of(self@),
    {
        match self {
            ResolveError::RegistryQueryFailed(m) => m.clone(),
            ResolveError::InstallFailed(m) => m.clone(),
            ResolveError::BinaryMissingAfterInstall(p) => {
                let mut r = String::from_str(MISSING_BINARY_PREFIX);
                r.append(p.as_str());
                r
            },
            ResolveError::WorkingDirectoryUnavailable(m) => {
                let mut r = String::from_str(NO_WORKING_DIRECTORY_PREFIX);
                r.append(m.as_str());
                r
            },
        }
    }
}

/// An optional text as plain values.
pub open spec fn opt_view(o: Option<String>) -> Option<Seq<char>> {
    match o {
        Some(s) => Some(s@),
        None => None,
    }
}

/// A text or an error text as plain values.
pub open spec fn text_result_view(r: Result<String, String>) -> Result<Seq<char>, Seq<char>> {
    match r {
        Ok(s) => Ok(s@),
        Err(e) => Err(e@),
    }
}

/// One operation the host performs for the resolver, or the end of a resolution.
#[derive(Debug, PartialEq, Eq)]
pub enum Request {
    /// Is this path currently a regular file?
    IsFile(String),
    /// Look this executable name up on the host's search path.
    Which(String),
    /// Ask the registry for the latest published version of a package.
    LatestVersion(String),
    /// Ask the registry which version of a package is installed, if any.
    InstalledVersion(String),
    /// Install a package at a version.
    Install(String, String),
    /// The resolution is over, with this outcome.
    Finish(Result<String, ResolveError>),
}

/// A [`Request`] as plain values.
pub ghost enum RequestModel {
    IsFile(Seq<char>),
    Which(Seq<char>),
    LatestVersion(Seq<char>),
    InstalledVersion(Seq<char>),
    Install(Seq<char>, Seq<char>),
    Finish(Result<Seq<char>, ErrorModel>),
}

impl View for Request {
    type V = RequestModel;

    open spec fn view(&self) -> RequestModel {
        match self {
            Request::IsFile(p) => RequestModel::IsFile(p@),
            Request::Which(n) => RequestModel::Which(n@),
            Request::LatestVersion(p) => RequestModel::LatestVersion(p@),
            Request::InstalledVersion(p) => RequestModel::InstalledVersion(p@),
            Request::Install(p, v) => RequestModel::Install(p@, v@),
            Request::Finish(Ok(p)) => RequestModel::Finish(Ok(p@)),
            Request::Finish(Err(e)) => RequestModel::Finish(Err(e@)),
        }
    }
}

/// What the host does next: first push `report` to the status sink, if there
/// is one, then carry out `request`.
#[derive(Debug, PartialEq, Eq)]
pub struct Action {
    pub report: Option<InstallStatus>,
    pub request: Request,
}

/// An [`Action`] as plain values.
pub ghost struct ActionModel {
    pub report: Option<StatusModel>,
    pub request: RequestModel,
}

impl View for Action {
    type V = ActionModel;

    open spec fn view(&self) -> ActionModel {
        ActionModel {
            report: match self.report {
                Some(s) => Some(s@),
                None => None,
            },
            request: self.request@,
        }
    }
}

/// The host's answer to a request.
#[derive(Debug, PartialEq, Eq)]
pub enum Event {
    IsFile(bool),
    Found(Option<String>),
    Latest(Result<String, String>),
    Installed(Result<Option<String>, String>),
    InstallDone(Result<(), String>),
}

/// An [`Event`] as plain values.
pub ghost enum EventModel {
    IsFile(bool),
    Found(Option<Seq<char>>),
    Latest(Result<Seq<char>, Seq<char>>),
    Installed(Result<Option<Seq<char>>, Seq<char>>),
    InstallDone(Result<(), Seq<char>>),
}

impl View for Event {
    type V = EventModel;

    open spec fn view(&self) -> EventModel {
        match self {
            Event::IsFile(b) => EventModel::IsFile(*b),
            Event::Found(o) => EventModel::Found(opt_view(*o)),
            Event::Latest(r) => EventModel::Latest(text_result_view(*r)),
            Event::Installed(Ok(o)) => EventModel::Installed(Ok(opt_view(*o))),
            Event::Installed(Err(e)) => EventModel::Installed(Err(e@)),
            Event::InstallDone(Ok(())) => EventModel::InstallDone(Ok(())),
            Event::InstallDone(Err(e)) => EventModel::InstallDone(Err(e@)),
        }
    }
}

} // verus!
