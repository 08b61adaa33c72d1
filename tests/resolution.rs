use cds_lsp_resolver::protocol::{Event, InstallStatus, Request, ResolveError};
use cds_lsp_resolver::resolver::{Phase, Resolver};

const ROOT: &str = "/proj";
const CWD: &str = "/work";
const LOCAL_BIN: &str = "/proj/node_modules/@sap/cds-lsp/bin/cds-lsp";
const INSTALLED_BIN: &str = "/work/node_modules/@sap/cds-lsp/bin/cds-lsp";
const SHIM: &str = "/work/node_modules/.bin/cds-lsp";

/// A host with fixed answers that records what the resolver asked of it.
struct FakeHost {
    files: Vec<String>,
    on_path: Option<String>,
    latest: Result<String, String>,
    installed: Result<Option<String>, String>,
    install: Result<(), String>,
    cwd: Result<String, String>,
    reports: Vec<InstallStatus>,
    requests: Vec<String>,
    installs: Vec<(String, String)>,
}

impl FakeHost {
    fn new() -> FakeHost {
        FakeHost {
            files: Vec::new(),
            on_path: None,
            latest: Ok("2.1.0".to_string()),
            installed: Ok(None),
            install: Ok(()),
            cwd: Ok(CWD.to_string()),
            reports: Vec::new(),
            requests: Vec::new(),
            installs: Vec::new(),
        }
    }

    fn with_file(mut self, path: &str) -> FakeHost {
        self.files.push(path.to_string());
        self
    }

    fn registry_requests(&self) -> usize {
        self.requests
            .iter()
            .filter(|r| r.starts_with("latest") || r.starts_with("installed") || r.starts_with("install "))
            .count()
    }

    fn resolve(&mut self, resolver: &mut Resolver) -> Result<String, ResolveError> {
        self.reports.clear();
        self.requests.clear();
        let mut action = resolver.begin(ROOT.to_string(), self.cwd.clone());
        loop {
            if let Some(status) = action.report {
                self.reports.push(status);
            }
            let event = match action.request {
                Request::Finish(outcome) => {
                    assert_eq!(resolver.phase(), Phase::Idle);
                    return outcome;
                }
                Request::IsFile(p) => {
                    self.requests.push(format!("is_file {}", p));
                    Event::IsFile(self.files.contains(&p))
                }
                Request::Which(name) => {
                    self.requests.push(format!("which {}", name));
                    Event::Found(self.on_path.clone())
                }
                Request::LatestVersion(pkg) => {
                    self.requests.push(format!("latest {}", pkg));
                    Event::Latest(self.latest.clone())
                }
                Request::InstalledVersion(pkg) => {
                    self.requests.push(format!("installed {}", pkg));
                    Event::Installed(self.installed.clone())
                }
                Request::Install(pkg, version) => {
                    self.requests.push(format!("install {} {}", pkg, version));
                    self.installs.push((pkg, version));
                    Event::InstallDone(self.install.clone())
                }
            };
            assert!(resolver.accepts(&event));
            action = resolver.step(event);
        }
    }
}

#[test]
fn fresh_install_uses_shim() {
    let mut host = FakeHost::new().with_file(SHIM);
    let mut resolver = Resolver::new();
    let result = host.resolve(&mut resolver);
    assert_eq!(result, Ok(SHIM.to_string()));
    assert_eq!(
        host.reports,
        vec![InstallStatus::CheckingForUpdate, InstallStatus::Downloading, InstallStatus::Cleared]
    );
    assert_eq!(host.installs, vec![("@sap/cds-lsp".to_string(), "2.1.0".to_string())]);
    assert_eq!(resolver.cached_path(), Some(SHIM.to_string()));
}

#[test]
fn up_to_date_install_is_used() {
    let mut host = FakeHost::new().with_file(INSTALLED_BIN);
    host.installed = Ok(Some("2.1.0".to_string()));
    let mut resolver = Resolver::new();
    let result = host.resolve(&mut resolver);
    assert_eq!(result, Ok(INSTALLED_BIN.to_string()));
    assert!(!host.reports.contains(&InstallStatus::Downloading));
    assert_eq!(host.reports, vec![InstallStatus::CheckingForUpdate, InstallStatus::Cleared]);
    assert!(host.installs.is_empty());
}

#[test]
fn search_path_binary_returned_at_once() {
    let mut host = FakeHost::new();
    host.on_path = Some("/usr/local/bin/cds-lsp".to_string());
    let mut resolver = Resolver::new();
    let result = host.resolve(&mut resolver);
    assert_eq!(result, Ok("/usr/local/bin/cds-lsp".to_string()));
    assert_eq!(host.registry_requests(), 0);
    assert!(host.reports.is_empty());
    assert_eq!(host.requests, vec!["which cds-lsp".to_string()]);
}

#[test]
fn second_resolution_reuses_memoized_path() {
    let mut host = FakeHost::new().with_file(SHIM);
    let mut resolver = Resolver::new();
    let first = host.resolve(&mut resolver);
    assert_eq!(first, Ok(SHIM.to_string()));
    let second = host.resolve(&mut resolver);
    assert_eq!(second, first);
    assert_eq!(host.registry_requests(), 0);
    assert_eq!(host.requests, vec![format!("is_file {}", SHIM)]);
    assert!(host.reports.is_empty());
    assert_eq!(host.installs.len(), 1);
}

#[test]
fn memoized_search_path_binary_is_found_again() {
    let mut host = FakeHost::new();
    host.on_path = Some("/opt/bin/cds-lsp".to_string());
    let mut resolver = Resolver::new();
    assert_eq!(host.resolve(&mut resolver), Ok("/opt/bin/cds-lsp".to_string()));
    assert_eq!(host.resolve(&mut resolver), Ok("/opt/bin/cds-lsp".to_string()));
    assert_eq!(host.registry_requests(), 0);
}

#[test]
fn deleted_memoized_file_reruns_decision_order() {
    let mut host = FakeHost::new().with_file(LOCAL_BIN);
    let mut resolver = Resolver::new();
    assert_eq!(host.resolve(&mut resolver), Ok(LOCAL_BIN.to_string()));
    host.files.clear();
    host.files.push(SHIM.to_string());
    let second = host.resolve(&mut resolver);
    assert_eq!(second, Ok(SHIM.to_string()));
    assert_eq!(host.requests[0], format!("is_file {}", LOCAL_BIN));
    assert_eq!(host.requests[1], "which cds-lsp".to_string());
    assert_eq!(host.installs.len(), 1);
    assert_eq!(resolver.cached_path(), Some(SHIM.to_string()));
}

#[test]
fn search_path_wins_over_project_local() {
    let mut host = FakeHost::new().with_file(LOCAL_BIN);
    host.on_path = Some("/usr/bin/cds-lsp".to_string());
    let mut resolver = Resolver::new();
    assert_eq!(host.resolve(&mut resolver), Ok("/usr/bin/cds-lsp".to_string()));
    assert_eq!(resolver.cached_path(), Some("/usr/bin/cds-lsp".to_string()));
}

#[test]
fn project_local_binary_is_used_before_registry() {
    let mut host = FakeHost::new().with_file(LOCAL_BIN);
    let mut resolver = Resolver::new();
    assert_eq!(host.resolve(&mut resolver), Ok(LOCAL_BIN.to_string()));
    assert_eq!(host.registry_requests(), 0);
    assert!(host.reports.is_empty());
}

#[test]
fn missing_installed_binary_is_reinstalled() {
    let mut host = FakeHost::new().with_file(SHIM);
    host.installed = Ok(Some("2.1.0".to_string()));
    let mut resolver = Resolver::new();
    assert_eq!(host.resolve(&mut resolver), Ok(SHIM.to_string()));
    assert_eq!(host.installs, vec![("@sap/cds-lsp".to_string(), "2.1.0".to_string())]);
    assert_eq!(
        host.reports,
        vec![
            InstallStatus::CheckingForUpdate,
            InstallStatus::Cleared,
            InstallStatus::Downloading,
            InstallStatus::Cleared
        ]
    );
}

#[test]
fn outdated_install_is_replaced() {
    let mut host = FakeHost::new().with_file(SHIM).with_file(INSTALLED_BIN);
    host.installed = Ok(Some("2.0.0".to_string()));
    let mut resolver = Resolver::new();
    assert_eq!(host.resolve(&mut resolver), Ok(SHIM.to_string()));
    assert_eq!(host.installs, vec![("@sap/cds-lsp".to_string(), "2.1.0".to_string())]);
}

#[test]
fn install_failure_is_returned_and_reported_once() {
    let mut host = FakeHost::new().with_file(SHIM);
    host.install = Err("network down".to_string());
    let mut resolver = Resolver::new();
    let result = host.resolve(&mut resolver);
    assert_eq!(result, Err(ResolveError::InstallFailed("network down".to_string())));
    assert_eq!(result.unwrap_err().message(), "network down".to_string());
    let failed: Vec<&InstallStatus> =
        host.reports.iter().filter(|s| matches!(s, InstallStatus::Failed(_))).collect();
    assert_eq!(failed, vec![&InstallStatus::Failed("network down".to_string())]);
    assert_eq!(host.reports.last(), Some(&InstallStatus::Failed("network down".to_string())));
    assert_eq!(resolver.cached_path(), None);
}

#[test]
fn missing_shim_after_install_is_distinct_error() {
    let mut host = FakeHost::new();
    let mut resolver = Resolver::new();
    let result = host.resolve(&mut resolver);
    assert_eq!(result, Err(ResolveError::BinaryMissingAfterInstall(SHIM.to_string())));
    assert_eq!(
        result.unwrap_err().message(),
        "cds-lsp package installed but binary not found at: /work/node_modules/.bin/cds-lsp".to_string()
    );
    assert!(!host.reports.iter().any(|s| matches!(s, InstallStatus::Failed(_))));
}

#[test]
fn latest_version_query_failure_is_terminal() {
    let mut host = FakeHost::new().with_file(SHIM);
    host.latest = Err("registry unreachable".to_string());
    let mut resolver = Resolver::new();
    let result = host.resolve(&mut resolver);
    assert_eq!(result, Err(ResolveError::RegistryQueryFailed("registry unreachable".to_string())));
    assert_eq!(host.reports, vec![InstallStatus::CheckingForUpdate]);
    assert!(host.installs.is_empty());
}

#[test]
fn installed_version_query_failure_is_terminal() {
    let mut host = FakeHost::new().with_file(SHIM);
    host.installed = Err("no npm".to_string());
    let mut resolver = Resolver::new();
    let result = host.resolve(&mut resolver);
    assert_eq!(result, Err(ResolveError::RegistryQueryFailed("no npm".to_string())));
    assert!(host.installs.is_empty());
}

#[test]
fn unreadable_working_directory_is_reported() {
    let mut host = FakeHost::new().with_file(SHIM);
    host.cwd = Err("permission denied".to_string());
    let mut resolver = Resolver::new();
    let result = host.resolve(&mut resolver);
    assert_eq!(result, Err(ResolveError::WorkingDirectoryUnavailable("permission denied".to_string())));
    assert_eq!(
        result.unwrap_err().message(),
        "Failed to get current directory: permission denied".to_string()
    );
    assert_eq!(host.installs.len(), 1);
}

#[test]
fn failed_resolution_keeps_nothing_memoized() {
    let mut host = FakeHost::new();
    host.latest = Err("offline".to_string());
    let mut resolver = Resolver::new();
    assert!(host.resolve(&mut resolver).is_err());
    assert_eq!(resolver.cached_path(), None);
    assert_eq!(resolver.phase(), Phase::Idle);
}

#[test]
fn idle_resolver_accepts_no_answer() {
    let resolver = Resolver::new();
    assert!(!resolver.accepts(&Event::IsFile(true)));
    assert!(!resolver.accepts(&Event::Found(None)));
}

#[test]
fn phase_accepts_only_its_answer() {
    let mut resolver = Resolver::new();
    let action = resolver.begin(ROOT.to_string(), Ok(CWD.to_string()));
    assert_eq!(action.report, None);
    assert_eq!(action.request, Request::Which("cds-lsp".to_string()));
    assert_eq!(resolver.phase(), Phase::Which);
    assert!(resolver.accepts(&Event::Found(None)));
    assert!(!resolver.accepts(&Event::IsFile(true)));
    assert!(!resolver.accepts(&Event::Latest(Ok("1.0.0".to_string()))));
    let next = resolver.step(Event::Found(None));
    assert_eq!(next.request, Request::IsFile(LOCAL_BIN.to_string()));
}
