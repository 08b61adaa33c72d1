//! What a whole resolution does against a host whose answers are fixed.
use crate::protocol::{ActionModel, ErrorModel, EventModel, RequestModel, StatusModel};
use crate::resolver::{
    act, begin_spec, Phase, package_bin_path, shim_path, step_spec, well_formed, ResolverModel, PACKAGE_NAME,
    TOOL_NAME,
};
use vstd::prelude::*;

verus! {

/// A host whose file system, search path and registry do not change while a
/// resolution runs.
pub ghost struct Host {
    /// Paths that are regular files.
    pub files: Set<Seq<char>>,
    /// What the search-path lookup returns.
    pub on_path: Option<Seq<char>>,
    /// The registry's answer to "latest version".
    pub latest: Result<Seq<char>, Seq<char>>,
    /// The registry's answer to "installed version".
    pub installed: Result<Option<Seq<char>>, Seq<char>>,
    /// The outcome of an install.
    pub install: Result<(), Seq<char>>,
}

/// The host's answer to a request.
pub open spec fn answer(h: Host, r: RequestModel) -> EventModel {
    match r {
        RequestModel::IsFile(p) => EventModel::IsFile(h.files.contains(p)),
        RequestModel::Which(_) => EventModel::Found(h.on_path),
        RequestModel::LatestVersion(_) => EventModel::Latest(h.latest),
        RequestModel::InstalledVersion(_) => EventModel::Installed(h.installed),
        _ => EventModel::InstallDone(h.install),
    }
}

/// Carries out `a` and the actions after it, at most `fuel` steps: the final
/// state and every action taken, `a` first.
pub open spec fn drive(m: ResolverModel, a: ActionModel, h: Host, fuel: nat) -> (
    ResolverModel,
    Seq<ActionModel>,
)
    decreases fuel,
{
    if fuel == 0 || a.request is Finish {
        (m, seq![a])
    } else {
        let (m2, a2) = step_spec(m, answer(h, a.request));
        let (m3, rest) = drive(m2, a2, h, (fuel - 1) as nat);
        (m3, seq![a] + rest)
    }
}

/// More steps than any resolution takes.
pub open spec fn max_steps() -> nat {
    9
}

/// One whole resolution, from the memoized path `cached`.
pub open spec fn resolution(
    cached: Option<Seq<char>>,
    root: Seq<char>,
    cwd: Result<Seq<char>, Seq<char>>,
    h: Host,
) -> (ResolverModel, Seq<ActionModel>) {
    let (m, a) = begin_spec(cached, root, cwd);
    drive(m, a, h, max_steps())
}

/// The outcome in a list of actions, if its last one ends the resolution.
pub open spec fn outcome(acts: Seq<ActionModel>) -> Option<Result<Seq<char>, ErrorModel>> {
    if acts.len() > 0 && acts.last().request is Finish {
        Some(acts.last().request->Finish_0)
    } else {
        None
    }
}

/// A request to the registry client.
pub open spec fn is_registry_request(r: RequestModel) -> bool {
    r is LatestVersion || r is InstalledVersion || r is Install
}

/// The status reports pushed during a list of actions, in order.
pub open spec fn reports(acts: Seq<ActionModel>) -> Seq<StatusModel>
    decreases acts.len(),
{
    if acts.len() == 0 {
        Seq::empty()
    } else {
        let head = match acts[0].report {
            Some(s) => seq![s],
            None => Seq::empty(),
        };
        head + reports(acts.drop_first())
    }
}


/// How many answers a phase may still await.
pub open spec fn rank(p: Phase) -> nat {
    match p {
        Phase::Idle => 0,
        Phase::ShimCheck => 1,
        Phase::Install => 2,
        Phase::InstalledCheck => 3,
        Phase::Installed => 4,
        Phase::Latest => 5,
        Phase::LocalCheck => 6,
        Phase::Which => 7,
        Phase::CachedCheck => 8,
    }
}

/// The action `a` asks what phase `p` awaits, or ends the resolution when idle.
pub open spec fn asks_for(p: Phase, a: ActionModel) -> bool {
    match p {
        Phase::Idle => a.request is Finish,
        Phase::CachedCheck | Phase::LocalCheck | Phase::InstalledCheck | Phase::ShimCheck => a.request is IsFile,
        Phase::Which => a.request is Which,
        Phase::Latest => a.request is LatestVersion,
        Phase::Installed => a.request is InstalledVersion,
        Phase::Install => a.request is Install,
    }
}

/// Each step answers the last action and moves to a phase of lower rank.
proof fn lemma_step_descends(m: ResolverModel, a: ActionModel, h: Host)
    requires
        well_formed(m),
        asks_for(m.phase, a),
        m.phase != Phase::Idle,
    ensures
        ({
            let (m2, a2) = step_spec(m, answer(h, a.request));
            well_formed(m2) && asks_for(m2.phase, a2) && rank(m2.phase) < rank(m.phase)
        }),
{
}

/// A run with fuel to spare ends the resolution, and more fuel changes nothing.
proof fn lemma_drive_ends(m: ResolverModel, a: ActionModel, h: Host, fuel: nat)
    requires
        well_formed(m),
        asks_for(m.phase, a),
        fuel >= rank(m.phase),
    ensures
        drive(m, a, h, fuel) == drive(m, a, h, rank(m.phase)),
        drive(m, a, h, fuel).0.phase == Phase::Idle,
        outcome(drive(m, a, h, fuel).1) is Some,
    decreases fuel,
{
    if m.phase != Phase::Idle {
        lemma_step_descends(m, a, h);
        let (m2, a2) = step_spec(m, answer(h, a.request));
        lemma_drive_ends(m2, a2, h, (fuel - 1) as nat);
        lemma_drive_ends(m2, a2, h, (rank(m.phase) - 1) as nat);
        let rest = drive(m2, a2, h, (fuel - 1) as nat).1;
        assert((seq![a] + rest).last() == rest.last());
    }
}

/// Every resolution ends, with an outcome, and leaves the resolver idle.
pub proof fn resolution_ends(
    cached: Option<Seq<char>>,
    root: Seq<char>,
    cwd: Result<Seq<char>, Seq<char>>,
    h: Host,
)
    ensures
        outcome(resolution(cached, root, cwd, h).1) is Some,
        resolution(cached, root, cwd, h).0.phase == Phase::Idle,
{
    let (m, a) = begin_spec(cached, root, cwd);
    lemma_drive_ends(m, a, h, max_steps());
}


/// The status report of one action, as a list.
pub open spec fn report_of(a: ActionModel) -> Seq<StatusModel> {
    match a.report {
        Some(s) => seq![s],
        None => Seq::empty(),
    }
}

/// No action of the list asks the registry anything.
pub open spec fn no_registry_request(acts: Seq<ActionModel>) -> bool {
    forall|i: int| 0 <= i < acts.len() ==> !is_registry_request(#[trigger] acts[i].request)
}

/// No action of the list asks for an install.
pub open spec fn no_install_request(acts: Seq<ActionModel>) -> bool {
    forall|i: int| 0 <= i < acts.len() ==> !(#[trigger] acts[i].request is Install)
}

proof fn lemma_cons(a: ActionModel, rest: Seq<ActionModel>)
    ensures
        reports(seq![a] + rest) == report_of(a) + reports(rest),
        no_registry_request(seq![a] + rest) == (!is_registry_request(a.request)
            && no_registry_request(rest)),
        no_install_request(seq![a] + rest) == (!(a.request is Install) && no_install_request(rest)),
        rest.len() > 0 ==> outcome(seq![a] + rest) == outcome(rest),
        (seq![a] + rest).contains(a),
        forall|x: ActionModel| rest.contains(x) ==> (seq![a] + rest).contains(x),
{
    let all = seq![a] + rest;
    assert(all.drop_first() =~= rest);
    assert(all[0] == a);
    assert forall|i: int| 0 <= i < rest.len() implies all[i + 1] == rest[i] by {}
    if !no_registry_request(all) {
        let i = choose|i: int| 0 <= i < all.len() && is_registry_request(#[trigger] all[i].request);
        if i > 0 {
            assert(rest[i - 1] == all[i]);
        }
    }
    if !no_install_request(all) {
        let i = choose|i: int| 0 <= i < all.len() && (#[trigger] all[i].request is Install);
        if i > 0 {
            assert(rest[i - 1] == all[i]);
        }
    }
    assert forall|x: ActionModel| rest.contains(x) implies all.contains(x) by {
        let i = choose|i: int| 0 <= i < rest.len() && rest[i] == x;
        assert(all[i + 1] == x);
    }
}

proof fn lemma_single(a: ActionModel)
    ensures
        reports(seq![a]) == report_of(a),
        no_registry_request(seq![a]) == !is_registry_request(a.request),
        no_install_request(seq![a]) == !(a.request is Install),
        a.request is Finish ==> outcome(seq![a]) == Some(a.request->Finish_0),
{
    lemma_cons(a, Seq::empty());
    assert(seq![a] + Seq::<ActionModel>::empty() =~= seq![a]);
    assert(reports(Seq::<ActionModel>::empty()) =~= Seq::<StatusModel>::empty());
    assert(report_of(a) + Seq::<StatusModel>::empty() =~= report_of(a));
}

/// One step of a run: the action taken, then the run from the next state.
proof fn lemma_drive_step(m: ResolverModel, a: ActionModel, h: Host, fuel: nat)
    requires
        fuel > 0,
        !(a.request is Finish),
    ensures
        ({
            let (m2, a2) = step_spec(m, answer(h, a.request));
            let (m3, rest) = drive(m2, a2, h, (fuel - 1) as nat);
            &&& drive(m, a, h, fuel) == (m3, seq![a] + rest)
            &&& rest.len() > 0
        }),
{
    let (m2, a2) = step_spec(m, answer(h, a.request));
    assert(drive(m2, a2, h, (fuel - 1) as nat).1.len() > 0) by {
        reveal_with_fuel(drive, 1);
    }
}

/// The installed version is the latest one.
pub open spec fn up_to_date(h: Host) -> bool {
    h.latest is Ok && h.installed == Ok::<Option<Seq<char>>, Seq<char>>(Some(h.latest->Ok_0))
}

/// The registry answers both queries and the installed copy is not usable:
/// the resolution goes on to install the latest version.
pub open spec fn reinstalls(cwd: Result<Seq<char>, Seq<char>>, h: Host) -> bool {
    &&& h.latest is Ok
    &&& h.installed is Ok
    &&& up_to_date(h) ==> (cwd is Ok && !h.files.contains(package_bin_path(cwd->Ok_0)))
}

/// The outcome of installing the latest version.
pub open spec fn install_outcome(cwd: Result<Seq<char>, Seq<char>>, h: Host) -> Result<Seq<char>, ErrorModel> {
    match h.install {
        Err(r) => Err(ErrorModel::InstallFailed(r)),
        Ok(_) => match cwd {
            Err(r) => Err(ErrorModel::WorkingDirectoryUnavailable(r)),
            Ok(d) => if h.files.contains(shim_path(d)) {
                Ok(shim_path(d))
            } else {
                Err(ErrorModel::BinaryMissingAfterInstall(shim_path(d)))
            },
        },
    }
}

/// The outcome once the registry is consulted.
pub open spec fn registry_outcome(cwd: Result<Seq<char>, Seq<char>>, h: Host) -> Result<Seq<char>, ErrorModel> {
    if h.latest is Err {
        Err(ErrorModel::RegistryQueryFailed(h.latest->Err_0))
    } else if h.installed is Err {
        Err(ErrorModel::RegistryQueryFailed(h.installed->Err_0))
    } else if reinstalls(cwd, h) {
        install_outcome(cwd, h)
    } else if cwd is Err {
        Err(ErrorModel::WorkingDirectoryUnavailable(cwd->Err_0))
    } else {
        Ok(package_bin_path(cwd->Ok_0))
    }
}

/// The status reports once the registry is consulted.
pub open spec fn registry_reports(cwd: Result<Seq<char>, Seq<char>>, h: Host) -> Seq<StatusModel> {
    let matched = if h.latest is Ok && h.installed is Ok && up_to_date(h) {
        seq![StatusModel::Cleared]
    } else {
        Seq::empty()
    };
    let install = if reinstalls(cwd, h) {
        match h.install {
            Err(r) => seq![StatusModel::Downloading, StatusModel::Failed(r)],
            Ok(_) => seq![StatusModel::Downloading, StatusModel::Cleared],
        }
    } else {
        Seq::empty()
    };
    seq![StatusModel::CheckingForUpdate] + matched + install
}

/// Neither the memoized path, the search path nor the project settles the
/// resolution.
pub open spec fn consults_registry(cached: Option<Seq<char>>, root: Seq<char>, h: Host) -> bool {
    &&& cache_misses(cached, h)
    &&& h.on_path is None
    &&& !h.files.contains(package_bin_path(root))
}

/// The decision order: memoized path, search path, project-local copy, then
/// the registry.
pub open spec fn decided(
    cached: Option<Seq<char>>,
    root: Seq<char>,
    cwd: Result<Seq<char>, Seq<char>>,
    h: Host,
) -> Result<Seq<char>, ErrorModel> {
    if !cache_misses(cached, h) {
        Ok(cached->Some_0)
    } else if h.on_path is Some {
        Ok(h.on_path->Some_0)
    } else if h.files.contains(package_bin_path(root)) {
        Ok(package_bin_path(root))
    } else {
        registry_outcome(cwd, h)
    }
}

/// The install action of a resolution that reinstalls.
pub open spec fn install_action(h: Host) -> ActionModel {
    ActionModel {
        report: Some(StatusModel::Downloading),
        request: RequestModel::Install(PACKAGE_NAME@, h.latest->Ok_0),
    }
}

/// The memoized path is absent, or no longer a file.
pub open spec fn cache_misses(cached: Option<Seq<char>>, h: Host) -> bool {
    cached is None || !h.files.contains(cached->Some_0)
}

/// What a run from the registry phase on does.
pub open spec fn registry_run_meets(
    m: ResolverModel,
    h: Host,
    end: ResolverModel,
    acts: Seq<ActionModel>,
) -> bool {
    let o = registry_outcome(m.cwd, h);
    &&& outcome(acts) == Some(o)
    &&& end.cached == (match o { Ok(p) => Some(p), Err(_) => m.cached })
    &&& reports(acts) == registry_reports(m.cwd, h)
    &&& reinstalls(m.cwd, h) ==> acts.contains(install_action(h))
    &&& !reinstalls(m.cwd, h) ==> no_install_request(acts)
}

proof fn lemma_install_run(m: ResolverModel, h: Host, fuel: nat)
    requires
        m.phase == Phase::Install,
        fuel >= 2,
    ensures
        ({
            let a = act(Some(StatusModel::Downloading), RequestModel::Install(PACKAGE_NAME@, m.latest));
            let (end, acts) = drive(m, a, h, fuel);
            let o = install_outcome(m.cwd, h);
            &&& outcome(acts) == Some(o)
            &&& end.cached == (match o { Ok(p) => Some(p), Err(_) => m.cached })
            &&& reports(acts) == (match h.install {
                Err(r) => seq![StatusModel::Downloading, StatusModel::Failed(r)],
                Ok(_) => seq![StatusModel::Downloading, StatusModel::Cleared],
            })
            &&& acts.contains(a)
        }),
{
    let a = act(Some(StatusModel::Downloading), RequestModel::Install(PACKAGE_NAME@, m.latest));
    lemma_drive_step(m, a, h, fuel);
    let (m2, a2) = step_spec(m, answer(h, a.request));
    let rest = drive(m2, a2, h, (fuel - 1) as nat).1;
    if a2.request is Finish {
        assert(drive(m2, a2, h, (fuel - 1) as nat) == (m2, seq![a2]));
        lemma_single(a2);
    } else {
        lemma_drive_step(m2, a2, h, (fuel - 1) as nat);
        let (m3, a3) = step_spec(m2, answer(h, a2.request));
        assert(drive(m3, a3, h, (fuel - 2) as nat) == (m3, seq![a3])) by {
            reveal_with_fuel(drive, 1);
        }
        lemma_single(a3);
        lemma_cons(a2, seq![a3]);
    }
    lemma_cons(a, rest);
}

proof fn lemma_registry_run(m: ResolverModel, h: Host, fuel: nat)
    requires
        m.phase == Phase::Latest,
        fuel >= 5,
    ensures
        ({
            let a = act(Some(StatusModel::CheckingForUpdate), RequestModel::LatestVersion(PACKAGE_NAME@));
            let (end, acts) = drive(m, a, h, fuel);
            registry_run_meets(m, h, end, acts) && !no_registry_request(acts)
        }),
{
    let a = act(Some(StatusModel::CheckingForUpdate), RequestModel::LatestVersion(PACKAGE_NAME@));
    lemma_drive_step(m, a, h, fuel);
    let (m2, a2) = step_spec(m, answer(h, a.request));
    let rest2 = drive(m2, a2, h, (fuel - 1) as nat).1;
    if a2.request is Finish {
        assert(drive(m2, a2, h, (fuel - 1) as nat) == (m2, seq![a2]));
        lemma_single(a2);
    } else {
        lemma_drive_step(m2, a2, h, (fuel - 1) as nat);
        let (m3, a3) = step_spec(m2, answer(h, a2.request));
        let rest3 = drive(m3, a3, h, (fuel - 2) as nat).1;
        if a3.request is Finish {
            assert(drive(m3, a3, h, (fuel - 2) as nat) == (m3, seq![a3]));
            lemma_single(a3);
        } else if m3.phase == Phase::Install {
            lemma_install_run(m3, h, (fuel - 2) as nat);
        } else {
            lemma_drive_step(m3, a3, h, (fuel - 2) as nat);
            let (m4, a4) = step_spec(m3, answer(h, a3.request));
            let rest4 = drive(m4, a4, h, (fuel - 3) as nat).1;
            if a4.request is Finish {
                assert(drive(m4, a4, h, (fuel - 3) as nat) == (m4, seq![a4]));
                lemma_single(a4);
            } else {
                lemma_install_run(m4, h, (fuel - 3) as nat);
            }
            lemma_cons(a3, rest4);
        }
        lemma_cons(a2, rest3);
    }
    lemma_cons(a, rest2);
    assert(reports(drive(m, a, h, fuel).1) =~= registry_reports(m.cwd, h));
}


/// What a whole run does, given what it decides.
pub open spec fn run_meets(
    cached: Option<Seq<char>>,
    root: Seq<char>,
    cwd: Result<Seq<char>, Seq<char>>,
    h: Host,
    acts: Seq<ActionModel>,
) -> bool {
    let o = decided(cached, root, cwd, h);
    let registry = consults_registry(cached, root, h);
    &&& outcome(acts) == Some(o)
    &&& no_registry_request(acts) == !registry
    &&& reports(acts) == (if registry { registry_reports(cwd, h) } else { Seq::empty() })
    &&& (registry && reinstalls(cwd, h)) ==> acts.contains(install_action(h))
    &&& !(registry && reinstalls(cwd, h)) ==> no_install_request(acts)
}

proof fn lemma_search_run(m: ResolverModel, h: Host, fuel: nat)
    requires
        m.phase == Phase::Which,
        fuel >= 7,
    ensures
        ({
            let (end, acts) = drive(m, act(None, RequestModel::Which(TOOL_NAME@)), h, fuel);
            run_meets(None, m.root, m.cwd, h, acts)
            && end.cached == (match decided(None, m.root, m.cwd, h) { Ok(p) => Some(p), Err(_) => m.cached })
        }),
{
    let a = act(None, RequestModel::Which(TOOL_NAME@));
    lemma_drive_step(m, a, h, fuel);
    let (m2, a2) = step_spec(m, answer(h, a.request));
    let rest2 = drive(m2, a2, h, (fuel - 1) as nat).1;
    if a2.request is Finish {
        assert(drive(m2, a2, h, (fuel - 1) as nat) == (m2, seq![a2]));
        lemma_single(a2);
    } else {
        lemma_drive_step(m2, a2, h, (fuel - 1) as nat);
        let (m3, a3) = step_spec(m2, answer(h, a2.request));
        let rest3 = drive(m3, a3, h, (fuel - 2) as nat).1;
        if a3.request is Finish {
            assert(drive(m3, a3, h, (fuel - 2) as nat) == (m3, seq![a3]));
            lemma_single(a3);
        } else {
            lemma_registry_run(m3, h, (fuel - 2) as nat);
        }
        lemma_cons(a2, rest3);
    }
    lemma_cons(a, rest2);
    let acts = drive(m, a, h, fuel).1;
    if !consults_registry(None, m.root, h) {
        assert(reports(acts) =~= Seq::<StatusModel>::empty());
    } else {
        assert(reports(acts) =~= registry_reports(m.cwd, h));
    }
}

/// A resolution follows the decision order: a memoized path that is still a
/// file, else the search path, else the project-local copy, else the
/// registry. A path found is memoized; status reports are pushed, and
/// registry requests made, only once the registry is consulted, and the
/// latest version is installed exactly when the installed copy is missing,
/// outdated or not a file.
pub proof fn resolution_follows_decision_order(
    cached: Option<Seq<char>>,
    root: Seq<char>,
    cwd: Result<Seq<char>, Seq<char>>,
    h: Host,
)
    ensures
        ({
            let (end, acts) = resolution(cached, root, cwd, h);
            &&& run_meets(cached, root, cwd, h, acts)
            &&& end.cached == (match decided(cached, root, cwd, h) {
                Ok(p) => Some(p),
                Err(_) => cached,
            })
            &&& no_install_request(acts) == !(consults_registry(cached, root, h) && reinstalls(cwd, h))
        }),
{
    let (m0, a0) = begin_spec(cached, root, cwd);
    if cached is Some {
        lemma_drive_step(m0, a0, h, max_steps());
        let (m1, a1) = step_spec(m0, answer(h, a0.request));
        let rest = drive(m1, a1, h, 8).1;
        if a1.request is Finish {
            assert(drive(m1, a1, h, 8) == (m1, seq![a1]));
            lemma_single(a1);
        } else {
            lemma_search_run(m1, h, 8);
        }
        lemma_cons(a0, rest);
        if !cache_misses(cached, h) {
            assert(report_of(a0) + reports(rest) =~= Seq::<StatusModel>::empty());
        } else {
            assert(report_of(a0) + reports(rest) =~= reports(rest));
        }
    } else {
        lemma_search_run(m0, h, max_steps());
    }
    let acts = resolution(cached, root, cwd, h).1;
    if consults_registry(cached, root, h) && reinstalls(cwd, h) {
        let i = choose|i: int| 0 <= i < acts.len() && acts[i] == install_action(h);
        assert(acts[i].request is Install);
    }
}


/// Memoization: after a resolution that finds a path, a second one on the same
/// host finds the same path without any registry request.
pub proof fn found_path_is_reused(
    cached: Option<Seq<char>>,
    root: Seq<char>,
    cwd: Result<Seq<char>, Seq<char>>,
    h: Host,
)
    ensures
        ({
            let (end, acts) = resolution(cached, root, cwd, h);
            let (end2, acts2) = resolution(end.cached, root, cwd, h);
            (outcome(acts) is Some && outcome(acts)->Some_0 is Ok) ==> {
                &&& outcome(acts2) == outcome(acts)
                &&& end2.cached == end.cached
                &&& no_registry_request(acts2)
            }
        }),
{
    resolution_follows_decision_order(cached, root, cwd, h);
    let (end, acts) = resolution(cached, root, cwd, h);
    resolution_follows_decision_order(end.cached, root, cwd, h);
}

/// Invalidation: when the memoized path is no longer a file, the resolution
/// probes it and then goes through the whole decision order, as with nothing
/// memoized; it ends on that path again only if the search path names it.
pub proof fn stale_path_is_dropped(
    p: Seq<char>,
    root: Seq<char>,
    cwd: Result<Seq<char>, Seq<char>>,
    h: Host,
)
    requires
        !h.files.contains(p),
    ensures
        ({
            let acts = resolution(Some(p), root, cwd, h).1;
            let fresh = resolution(None, root, cwd, h).1;
            &&& acts[0].request == RequestModel::IsFile(p)
            &&& outcome(acts) == outcome(fresh)
            &&& reports(acts) == reports(fresh)
            &&& no_registry_request(acts) == no_registry_request(fresh)
            &&& no_install_request(acts) == no_install_request(fresh)
            &&& outcome(acts) == Some(Ok::<Seq<char>, ErrorModel>(p)) ==> h.on_path == Some(p)
        }),
{
    resolution_follows_decision_order(Some(p), root, cwd, h);
    resolution_follows_decision_order(None, root, cwd, h);
    let (m0, a0) = begin_spec(Some(p), root, cwd);
    lemma_drive_step(m0, a0, h, max_steps());
}

/// Precedence: a binary on the search path wins over a project-local one.
/// When nothing memoized is still a file, it is the outcome and is memoized,
/// with no registry request and no status report.
pub proof fn search_path_wins(
    cached: Option<Seq<char>>,
    root: Seq<char>,
    cwd: Result<Seq<char>, Seq<char>>,
    h: Host,
    p: Seq<char>,
)
    requires
        cache_misses(cached, h),
        h.on_path == Some(p),
        h.files.contains(package_bin_path(root)),
    ensures
        ({
            let (end, acts) = resolution(cached, root, cwd, h);
            &&& outcome(acts) == Some(Ok::<Seq<char>, ErrorModel>(p))
            &&& end.cached == Some(p)
            &&& no_registry_request(acts)
            &&& reports(acts) == Seq::<StatusModel>::empty()
        }),
{
    resolution_follows_decision_order(cached, root, cwd, h);
}

/// Self-healing: when the installed version is the latest but its binary is
/// not a file, the latest version is installed again and the outcome is that
/// of the install.
pub proof fn missing_installed_binary_is_reinstalled(
    cached: Option<Seq<char>>,
    root: Seq<char>,
    d: Seq<char>,
    h: Host,
    v: Seq<char>,
)
    requires
        consults_registry(cached, root, h),
        h.latest == Ok::<Seq<char>, Seq<char>>(v),
        h.installed == Ok::<Option<Seq<char>>, Seq<char>>(Some(v)),
        !h.files.contains(package_bin_path(d)),
    ensures
        ({
            let cwd = Ok::<Seq<char>, Seq<char>>(d);
            let acts = resolution(cached, root, cwd, h).1;
            &&& acts.contains(
                act(Some(StatusModel::Downloading), RequestModel::Install(PACKAGE_NAME@, v)),
            )
            &&& outcome(acts) == Some(install_outcome(cwd, h))
        }),
{
    resolution_follows_decision_order(cached, root, Ok(d), h);
}

/// Failure propagation: when the install is requested and fails, the
/// resolution fails with the install's message, and the one `Failed` status
/// report is the last, with that message.
pub proof fn install_failure_is_reported_once(
    cached: Option<Seq<char>>,
    root: Seq<char>,
    cwd: Result<Seq<char>, Seq<char>>,
    h: Host,
    r: Seq<char>,
)
    requires
        h.install == Err::<(), Seq<char>>(r),
        !no_install_request(resolution(cached, root, cwd, h).1),
    ensures
        ({
            let acts = resolution(cached, root, cwd, h).1;
            let sent = reports(acts);
            &&& outcome(acts) == Some(Err::<Seq<char>, ErrorModel>(ErrorModel::InstallFailed(r)))
            &&& sent.len() > 0
            &&& sent.last() == StatusModel::Failed(r)
            &&& forall|i: int| 0 <= i < sent.len() - 1 ==> !(#[trigger] sent[i] is Failed)
        }),
{
    resolution_follows_decision_order(cached, root, cwd, h);
}

/// Post-install verification: an install that succeeds without leaving the
/// shim is its own error, naming the shim's path, apart from a failed install.
pub proof fn missing_shim_is_distinct_error(
    cached: Option<Seq<char>>,
    root: Seq<char>,
    d: Seq<char>,
    h: Host,
)
    requires
        h.install == Ok::<(), Seq<char>>(()),
        !no_install_request(resolution(cached, root, Ok(d), h).1),
        !h.files.contains(shim_path(d)),
    ensures
        ({
            let acts = resolution(cached, root, Ok(d), h).1;
            &&& outcome(acts) == Some(
                Err::<Seq<char>, ErrorModel>(ErrorModel::BinaryMissingAfterInstall(shim_path(d))),
            )
            &&& !(outcome(acts)->Some_0->Err_0 is InstallFailed)
        }),
{
    resolution_follows_decision_order(cached, root, Ok(d), h);
}

} // verus!
