//! Decisions about the Windows service that runs the core: its name, where
//! its host executable is deployed, how its state is reported, which older
//! service it replaces, and the scheduled task that starts it at logon.
use vstd::prelude::*;
use crate::digest::concat_strs;
use crate::update::outcome_view;
use crate::paths::{join, parent_of, path_join, path_parent};
use crate::quoting::{ps_single_quoted, ps_single_quoted_spec};
use crate::text::{
    append_chars, append_vec, chars_of, decimal, eq_ignore_ascii_case, eq_ignore_case,
    is_whitespace, is_whitespace_char, push_decimal, same_chars, split, split_chars, string_of,
    trim_chars, trimmed, copy_range,
};

verus! {

/// The name of the service that this panel installs.
pub const SERVICE_NAME: &'static str = "singboard.service";

/// The name of the log file in which the service host records why the core stopped.
pub const SERVICE_ERROR_LOG_NAME: &'static str = "singbox_last_error.log";

/// The file name of the deployed service host.
pub const HELPER_EXE_NAME: &'static str = "singboard.service";

/// The file recording which version of the service host is deployed.
pub const HELPER_VERSION_FILE: &'static str = "singboard.service.version";

/// Where the service host is deployed under `data_dir`.
pub fn deployed_helper_path(data_dir: &str) -> (res: String)
    ensures
        res@ == path_join(data_dir@, HELPER_EXE_NAME@),
{
    join(data_dir, HELPER_EXE_NAME)
}

/// Where the version of the deployed service host is recorded under `data_dir`.
pub fn deployed_version_path(data_dir: &str) -> (res: String)
    ensures
        res@ == path_join(data_dir@, HELPER_VERSION_FILE@),
{
    join(data_dir, HELPER_VERSION_FILE)
}

/// Whether the deployed service host must be redeployed: it is missing, or
/// the version recorded beside it (trimmed) is not the embedded one.
pub fn helper_needs_update(helper_is_file: bool, recorded_version: Option<&str>, helper_version: &str)
    -> (res: bool)
    ensures
        res == (!helper_is_file || match recorded_version {
            Some(v) => trimmed(v@) != helper_version@,
            None => true,
        }),
{
    if !helper_is_file {
        return true;
    }
    match recorded_version {
        None => true,
        Some(v) => {
            let chars = chars_of(v);
            let t = trim_chars(&chars);
            !same_chars(&t, helper_version)
        },
    }
}

/// A directory name under which the core writes its logs: `log` or `logs`,
/// in any ASCII case.
pub fn is_log_dir_name(name: &str) -> (res: bool)
    ensures
        res == (eq_ignore_ascii_case(name@, seq!['l', 'o', 'g']) || eq_ignore_ascii_case(
            name@,
            seq!['l', 'o', 'g', 's'],
        )),
{
    let chars = chars_of(name);
    let log = chars_of("log");
    let logs = chars_of("logs");
    proof {
        reveal_strlit("log");
        reveal_strlit("logs");
        assert("log"@ =~= seq!['l', 'o', 'g']);
        assert("logs"@ =~= seq!['l', 'o', 'g', 's']);
    }
    eq_ignore_case(&chars, &log) || eq_ignore_case(&chars, &logs)
}

/// The directories in which the core's error log may be found, most
/// preferred first: the configured working directory when it is not blank,
/// then the directory of the configuration, then that of the core.
pub open spec fn base_dir_candidates_spec(
    singbox_path: Seq<char>,
    config_path: Seq<char>,
    working_dir: Seq<char>,
) -> Seq<Seq<char>> {
    let w = if trimmed(working_dir).len() > 0 {
        seq![trimmed(working_dir)]
    } else {
        Seq::empty()
    };
    let c = match path_parent(trimmed(config_path)) {
        Some(p) => seq![p],
        None => Seq::empty(),
    };
    let s = match path_parent(trimmed(singbox_path)) {
        Some(p) => seq![p],
        None => Seq::empty(),
    };
    w + c + s
}

/// Lists the candidate base directories of a service from its registered parameters.
pub fn base_dir_candidates(singbox_path: &str, config_path: &str, working_dir: &str) -> (res: Vec<
    String,
>)
    ensures
        res@.len() == base_dir_candidates_spec(singbox_path@, config_path@, working_dir@).len(),
        forall|i: int|
            0 <= i < res@.len() ==> (#[trigger] res@[i])@ == base_dir_candidates_spec(
                singbox_path@,
                config_path@,
                working_dir@,
            )[i],
{
    let ghost spec = base_dir_candidates_spec(singbox_path@, config_path@, working_dir@);
    let mut res: Vec<String> = Vec::new();
    let ghost mut views: Seq<Seq<char>> = Seq::empty();
    let w = trim_chars(&chars_of(working_dir));
    if w.len() > 0 {
        res.push(string_of(&w));
        proof {
            views = views.push(w@);
        }
    }
    let c = string_of(&trim_chars(&chars_of(config_path)));
    match parent_of(c.as_str()) {
        Some(p) => {
            proof {
                views = views.push(p@);
            }
            res.push(p);
        },
        None => {},
    }
    let s = string_of(&trim_chars(&chars_of(singbox_path)));
    match parent_of(s.as_str()) {
        Some(p) => {
            proof {
                views = views.push(p@);
            }
            res.push(p);
        },
        None => {},
    }
    assert(views =~= spec);
    assert forall|i: int| 0 <= i < res@.len() implies (#[trigger] res@[i])@ == spec[i] by {}
    res
}

/// Index of the first candidate that exists as a directory, if any.
pub open spec fn first_existing(candidates: Seq<(String, bool)>) -> Option<int>
    decreases candidates.len(),
{
    if candidates.len() == 0 {
        None
    } else if candidates[0].1 {
        Some(0)
    } else {
        match first_existing(candidates.drop_first()) {
            Some(i) => Some(i + 1),
            None => None,
        }
    }
}

proof fn lemma_first_existing(candidates: Seq<(String, bool)>)
    ensures
        match first_existing(candidates) {
            Some(i) => 0 <= i < candidates.len() && candidates[i].1 && forall|k: int|
                0 <= k < i ==> !(#[trigger] candidates[k]).1,
            None => forall|k: int| 0 <= k < candidates.len() ==> !(#[trigger] candidates[k]).1,
        },
    decreases candidates.len(),
{
    if candidates.len() > 0 && !candidates[0].1 {
        lemma_first_existing(candidates.drop_first());
        assert forall|k: int| 1 <= k < candidates.len() implies candidates[k]
            == candidates.drop_first()[k - 1] by {}
    }
}

/// The base directory of a service: the first of its candidate directories,
/// each paired with whether it exists as a directory, that exists.
pub fn resolve_service_base_dir(candidates: &Vec<(String, bool)>) -> (res: Option<String>)
    ensures
        match first_existing(candidates@) {
            Some(i) => res matches Some(d) && d@ == candidates@[i].0@,
            None => res is None,
        },
{
    proof {
        lemma_first_existing(candidates@);
    }
    let mut i: usize = 0;
    while i < candidates.len()
        invariant
            i <= candidates@.len(),
            forall|k: int| 0 <= k < i ==> !(#[trigger] candidates@[k]).1,
            match first_existing(candidates@) {
                Some(j) => 0 <= j < candidates@.len() && candidates@[j].1 && forall|k: int|
                    0 <= k < j ==> !(#[trigger] candidates@[k]).1,
                None => forall|k: int| 0 <= k < candidates@.len() ==> !(#[trigger] candidates@[k]).1,
            },
        decreases candidates.len() - i,
    {
        if candidates[i].1 {
            return Some(candidates[i].0.clone());
        }
        i += 1;
    }
    None
}

/// Where the core's error log is read from: the log file in the directory `log_dir`.
pub fn error_log_path(log_dir: &str) -> (res: String)
    ensures
        res@ == path_join(log_dir@, SERVICE_ERROR_LOG_NAME@),
{
    join(log_dir, SERVICE_ERROR_LOG_NAME)
}

/// A service's state as the panel reports it.
pub struct ServiceStatus {
    pub state: String,
    pub pid: Option<u32>,
    pub uptime_seconds: Option<u64>,
}

/// The panel's name for a service manager state code: running, stopped,
/// starting, stopping (which includes pausing), stopped (for paused),
/// starting (for continuing), or unknown.
pub open spec fn state_name_spec(code: u32) -> Seq<char> {
    if code == 4 {
        "running"@
    } else if code == 1 {
        "stopped"@
    } else if code == 2 {
        "starting"@
    } else if code == 3 {
        "stopping"@
    } else if code == 6 {
        "stopping"@
    } else if code == 7 {
        "stopped"@
    } else if code == 5 {
        "starting"@
    } else {
        "unknown"@
    }
}

pub fn service_state_name(code: u32) -> (res: String)
    ensures
        res@ == state_name_spec(code),
{
    if code == 4 {
        "running".to_owned()
    } else if code == 1 {
        "stopped".to_owned()
    } else if code == 2 {
        "starting".to_owned()
    } else if code == 3 {
        "stopping".to_owned()
    } else if code == 6 {
        "stopping".to_owned()
    } else if code == 7 {
        "stopped".to_owned()
    } else if code == 5 {
        "starting".to_owned()
    } else {
        "unknown".to_owned()
    }
}

impl ServiceStatus {
    /// The status of a service the service manager does not know.
    pub fn not_installed() -> (res: ServiceStatus)
        ensures
            res.state@ == "not_installed"@,
            res.pid is None,
            res.uptime_seconds is None,
    {
        ServiceStatus { state: "not_installed".to_owned(), pid: None, uptime_seconds: None }
    }

    /// The status built from a service manager query: the state's name, the
    /// process id when it is not zero, and the uptime only of a running
    /// service with a process (`uptime` is what was measured for that process).
    pub fn from_query(current_state: u32, process_id: u32, uptime: Option<u64>) -> (res:
        ServiceStatus)
        ensures
            res.state@ == state_name_spec(current_state),
            res.pid == (if process_id != 0 {
                Some(process_id)
            } else {
                None
            }),
            res.uptime_seconds == (if current_state == 4 && process_id != 0 {
                uptime
            } else {
                None
            }),
    {
        let pid = if process_id != 0 {
            Some(process_id)
        } else {
            None
        };
        let uptime_seconds = if current_state == 4 && process_id != 0 {
            uptime
        } else {
            None
        };
        ServiceStatus { state: service_state_name(current_state), pid, uptime_seconds }
    }
}

/// Whether a process measured at the moment its uptime must be reported.
pub fn status_needs_uptime(current_state: u32, process_id: u32) -> (res: bool)
    ensures
        res == (current_state == 4 && process_id != 0),
{
    current_state == 4 && process_id != 0
}

/// Seconds between the Unix epoch and the Windows epoch (1601-01-01).
pub const EPOCH_DIFFERENCE_SECONDS: u64 = 11644473600;

/// The uptime, in seconds, of a process created at the Windows file time
/// `high:low` (100 ns units since 1601), as seen at `now_unix`. `None` when
/// the creation time lies before the Unix epoch; zero when it lies after `now`.
pub open spec fn uptime_spec(high: u32, low: u32, now_unix: u64) -> Option<u64> {
    let created = (high as int * 4294967296 + low as int) / 10000000;
    if created < EPOCH_DIFFERENCE_SECONDS {
        None
    } else {
        let created_unix = created - EPOCH_DIFFERENCE_SECONDS;
        Some(
            if now_unix >= created_unix {
                (now_unix - created_unix) as u64
            } else {
                0
            },
        )
    }
}

pub fn uptime_from_creation(high: u32, low: u32, now_unix: u64) -> (res: Option<u64>)
    ensures
        res == uptime_spec(high, low, now_unix),
{
    let created_100ns: u64 = (high as u64) * 4294967296 + (low as u64);
    let created_unix = match (created_100ns / 10_000_000).checked_sub(EPOCH_DIFFERENCE_SECONDS) {
        Some(c) => c,
        None => return None,
    };
    Some(now_unix.saturating_sub(created_unix))
}

/// Whether a service in state `state` counts as running: running or starting.
pub fn is_active_state(state: &str) -> (res: bool)
    ensures
        res == (state@ == "running"@ || state@ == "starting"@),
{
    let chars = chars_of(state);
    same_chars(&chars, "running") || same_chars(&chars, "starting")
}

/// The characters of `t` before its first whitespace.
pub open spec fn first_token(t: Seq<char>) -> Seq<char>
    decreases t.len(),
{
    if t.len() > 0 && !is_whitespace(t[0]) {
        seq![t[0]] + first_token(t.drop_first())
    } else {
        Seq::empty()
    }
}

/// The executable of a service's image path: the text inside the leading
/// double quotes when it is quoted, else its first whitespace-separated word.
pub open spec fn image_executable(image: Seq<char>) -> Seq<char> {
    let t = trimmed(image);
    if t.len() > 0 && t[0] == '"' {
        split(t.drop_first(), '"')[0]
    } else {
        first_token(t)
    }
}

/// Whether a service's image path launches the executable at `path`,
/// comparing without regard to ASCII case and ignoring any arguments.
pub open spec fn image_points_to_spec(image: Seq<char>, path: Seq<char>) -> bool {
    eq_ignore_ascii_case(image_executable(image), path)
}

proof fn lemma_first_token(t: Seq<char>, k: int)
    requires
        0 <= k <= t.len(),
        forall|j: int| 0 <= j < k ==> !is_whitespace(#[trigger] t[j]),
        k == t.len() || is_whitespace(t[k]),
    ensures
        first_token(t) == t.take(k),
    decreases k,
{
    if k > 0 {
        assert forall|j: int| 0 <= j < k - 1 implies !is_whitespace(#[trigger] t.drop_first()[j]) by {
            assert(t.drop_first()[j] == t[j + 1]);
        }
        lemma_first_token(t.drop_first(), k - 1);
        assert(first_token(t) =~= t.take(k));
    } else {
        assert(t.take(0) =~= Seq::<char>::empty());
    }
}

fn image_executable_chars(image: &str) -> (res: Vec<char>)
    ensures
        res@ == image_executable(image@),
{
    let t = trim_chars(&chars_of(image));
    if t.len() > 0 && t[0] == '"' {
        let rest = copy_range(&t, 1, t.len());
        assert(rest@ =~= t@.drop_first());
        let parts = split_chars(&rest, '"');
        proof {
            crate::text::lemma_index_of(rest@, '"');
            reveal_with_fuel(split, 1);
        }
        assert(parts@[0]@ == split(rest@, '"')[0]);
        copy_range(&parts[0], 0, parts[0].len())
    } else {
        let mut k: usize = 0;
        while k < t.len() && !is_whitespace_char(t[k])
            invariant
                k <= t.len(),
                forall|j: int| 0 <= j < k ==> !is_whitespace(#[trigger] t@[j]),
            decreases t.len() - k,
        {
            k += 1;
        }
        proof {
            lemma_first_token(t@, k as int);
        }
        copy_range(&t, 0, k)
    }
}

/// Whether the image path `image` of a service launches `path`.
pub fn image_points_to(image: &str, path: &str) -> (res: bool)
    ensures
        res == image_points_to_spec(image@, path@),
{
    let exe = image_executable_chars(image);
    let p = chars_of(path);
    eq_ignore_case(&exe, &p)
}

/// Whether the deployed service host needs attention before the panel can
/// use it, as far as can be told without the user's SID.
pub enum SyncNeed {
    UpToDate,
    /// The service still launches another executable than the deployed host.
    Migrate,
    /// The deployed host is missing, outdated, or registered for another user.
    Update,
}

/// The first two checks of a service's deployment: the service must launch
/// the deployed host, and the host must be current. `None` when both hold
/// and the registered user must be compared next.
pub fn sync_need_of_host(image_path: &str, deployed: &str, needs_update: bool) -> (res: Option<
    SyncNeed,
>)
    ensures
        !image_points_to_spec(image_path@, deployed@) ==> res matches Some(SyncNeed::Migrate),
        image_points_to_spec(image_path@, deployed@) && needs_update ==> res matches Some(
            SyncNeed::Update,
        ),
        image_points_to_spec(image_path@, deployed@) && !needs_update ==> res is None,
{
    if !image_points_to(image_path, deployed) {
        return Some(SyncNeed::Migrate);
    }
    if needs_update {
        return Some(SyncNeed::Update);
    }
    None
}

/// The last check of a deployment: the service must be registered for the
/// user running the panel.
pub fn sync_need_of_user(user_sid: &str, registered_sid: Option<&str>) -> (res: SyncNeed)
    ensures
        (registered_sid matches Some(r) && r@ == user_sid@) ==> res is UpToDate,
        !(registered_sid matches Some(r) && r@ == user_sid@) ==> res is Update,
{
    match registered_sid {
        Some(r) => {
            let chars = chars_of(r);
            if same_chars(&chars, user_sid) {
                SyncNeed::UpToDate
            } else {
                SyncNeed::Update
            }
        },
        None => SyncNeed::Update,
    }
}

/// The service the panel manages: its own service once installed, else an
/// older service it has not migrated yet, else its own name.
pub fn current_service_name(installed_state: &str, legacy: Option<String>) -> (res: String)
    ensures
        installed_state@ != "not_installed"@ ==> res@ == SERVICE_NAME@,
        installed_state@ == "not_installed"@ ==> res@ == match legacy {
            Some(l) => l@,
            None => SERVICE_NAME@,
        },
{
    let chars = chars_of(installed_state);
    if !same_chars(&chars, "not_installed") {
        return SERVICE_NAME.to_owned();
    }
    match legacy {
        Some(l) => l,
        None => SERVICE_NAME.to_owned(),
    }
}

/// The executables an older singboard service may have been registered with.
pub fn legacy_candidates(data_dir: &str, panel_exe: &str) -> (res: Vec<String>)
    ensures
        res@.len() == 3,
        res@[0]@ == path_join(data_dir@, "singboard-service.exe"@),
        res@[1]@ == path_join(data_dir@, HELPER_EXE_NAME@),
        res@[2]@ == panel_exe@,
{
    let mut res: Vec<String> = Vec::new();
    res.push(join(data_dir, "singboard-service.exe"));
    res.push(deployed_helper_path(data_dir));
    res.push(panel_exe.to_owned());
    res
}

/// What is known of one entry of the service registry.
pub enum LegacyProbe {
    /// The entry could not be read; the error stops the search.
    Unreadable(String),
    /// A service with its image path (if it has one) and whether its
    /// singboard parameters can be read.
    Service { name: String, image: Option<String>, has_params: bool },
}

/// Whether a registry entry is an older singboard service.
pub open spec fn is_legacy_service(probe: LegacyProbe, candidates: Seq<Seq<char>>) -> bool {
    match probe {
        LegacyProbe::Service { name, image, has_params } => {
            &&& !eq_ignore_ascii_case(name@, SERVICE_NAME@)
            &&& image matches Some(img) && exists|i: int|
                0 <= i < candidates.len() && image_points_to_spec(img@, #[trigger] candidates[i])
            &&& has_params
        },
        LegacyProbe::Unreadable(_) => false,
    }
}

pub open spec fn msg_multiple_legacy() -> Seq<char> {
    "发现多个旧版 singboard 服务，无法唯一确定迁移对象"@
}

/// The older service found among the first `k` registry entries, or the
/// error that ends the search: an unreadable entry, or a second match.
pub open spec fn legacy_upto(probes: Seq<LegacyProbe>, candidates: Seq<Seq<char>>, k: nat) -> Result<
    Option<Seq<char>>,
    Seq<char>,
>
    decreases k,
{
    if k == 0 {
        Ok(None)
    } else {
        match legacy_upto(probes, candidates, (k - 1) as nat) {
            Err(e) => Err(e),
            Ok(found) => match probes[k - 1] {
                LegacyProbe::Unreadable(e) => Err(e@),
                LegacyProbe::Service { name, .. } => if is_legacy_service(
                    probes[k - 1],
                    candidates,
                ) {
                    if found is Some {
                        Err(msg_multiple_legacy())
                    } else {
                        Ok(Some(name@))
                    }
                } else {
                    Ok(found)
                },
            },
        }
    }
}

proof fn lemma_legacy_error_persists(
    probes: Seq<LegacyProbe>,
    candidates: Seq<Seq<char>>,
    k: nat,
    n: nat,
)
    requires
        k <= n,
        legacy_upto(probes, candidates, k) is Err,
    ensures
        legacy_upto(probes, candidates, n) == legacy_upto(probes, candidates, k),
    decreases n - k,
{
    if k < n {
        lemma_legacy_error_persists(probes, candidates, k, (n - 1) as nat);
    }
}

fn points_to_any(image: &str, candidates: &Vec<String>) -> (res: bool)
    ensures
        res == exists|i: int|
            0 <= i < candidates@.len() && image_points_to_spec(image@, #[trigger] candidates@[i]@),
{
    let mut i: usize = 0;
    while i < candidates.len()
        invariant
            i <= candidates.len(),
            forall|k: int|
                0 <= k < i ==> !image_points_to_spec(image@, #[trigger] candidates@[k]@),
        decreases candidates.len() - i,
    {
        if image_points_to(image, candidates[i].as_str()) {
            return true;
        }
        i += 1;
    }
    false
}

/// Finds the one older singboard service to migrate, if there is one.
#[verifier::loop_isolation(false)]
pub fn select_legacy_service(probes: &Vec<LegacyProbe>, candidates: &Vec<String>) -> (res: Result<
    Option<String>,
    String,
>)
    ensures
        match legacy_upto(probes@, candidates@.map_values(|c: String| c@), probes@.len()) {
            Ok(Some(n)) => res matches Ok(Some(r)) && r@ == n,
            Ok(None) => res matches Ok(None),
            Err(e) => res matches Err(m) && m@ == e,
        },
{
    let ghost cands = candidates@.map_values(|c: String| c@);
    let mut found: Option<String> = None;
    let mut i: usize = 0;
    while i < probes.len()
        invariant
            i <= probes.len(),
            match legacy_upto(probes@, cands, i as nat) {
                Ok(Some(n)) => found matches Some(f) && f@ == n,
                Ok(None) => found is None,
                Err(_) => false,
            },
        decreases probes.len() - i,
    {
        match &probes[i] {
            LegacyProbe::Unreadable(e) => {
                proof {
                    lemma_legacy_error_persists(probes@, cands, (i + 1) as nat, probes@.len());
                }
                return Err(e.clone());
            },
            LegacyProbe::Service { name, image, has_params } => {
                let own = eq_ignore_case(&chars_of(name.as_str()), &chars_of(SERVICE_NAME));
                let matched = !own && match image {
                    Some(img) => {
                        let any = points_to_any(img.as_str(), candidates);
                        proof {
                            if any {
                                let k = choose|k: int|
                                    0 <= k < candidates@.len() && image_points_to_spec(
                                        img@,
                                        #[trigger] candidates@[k]@,
                                    );
                                assert(cands[k] == candidates@[k]@);
                                assert(image_points_to_spec(img@, cands[k]));
                            } else {
                                assert forall|k: int| 0 <= k < cands.len() implies !image_points_to_spec(
                                    img@,
                                    #[trigger] cands[k],
                                ) by {
                                    assert(cands[k] == candidates@[k]@);
                                }
                            }
                        }
                        any
                    },
                    None => false,
                } && *has_params;
                assert(matched == is_legacy_service(probes@[i as int], cands));
                if matched {
                    if found.is_some() {
                        proof {
                            lemma_legacy_error_persists(
                                probes@,
                                cands,
                                (i + 1) as nat,
                                probes@.len(),
                            );
                        }
                        return Err("发现多个旧版 singboard 服务，无法唯一确定迁移对象".to_owned());
                    }
                    found = Some(name.clone());
                }
            },
        }
        i += 1;
    }
    Ok(found)
}

/// A migration may go ahead only while the older service it was asked for is
/// still the one found, and the panel's own service is still not installed.
pub fn check_migration(legacy: Option<&str>, old_name: &str, installed_state: &str) -> (res: Result<
    (),
    String,
>)
    ensures
        ((legacy matches Some(l) && l@ == old_name@) && installed_state@ == "not_installed"@)
            ==> res is Ok,
        !((legacy matches Some(l) && l@ == old_name@) && installed_state@ == "not_installed"@)
            ==> (res matches Err(e) && e@ == "服务安装状态已变化，请重新打开面板后重试迁移"@),
{
    let same = match legacy {
        Some(l) => same_chars(&chars_of(l), old_name),
        None => false,
    };
    if !same || !same_chars(&chars_of(installed_state), "not_installed") {
        return Err("服务安装状态已变化，请重新打开面板后重试迁移".to_owned());
    }
    Ok(())
}

/// `parts` joined with `sep` between consecutive elements.
pub open spec fn joined(parts: Seq<Seq<char>>, sep: Seq<char>) -> Seq<char>
    decreases parts.len(),
{
    if parts.len() == 0 {
        Seq::empty()
    } else if parts.len() == 1 {
        parts[0]
    } else {
        joined(parts.drop_last(), sep) + sep + parts.last()
    }
}

/// Joins error messages with `; `.
pub fn join_errors(errors: &Vec<String>) -> (res: String)
    ensures
        res@ == joined(errors@.map_values(|e: String| e@), "; "@),
{
    let ghost views = errors@.map_values(|e: String| e@);
    let mut out: Vec<char> = Vec::new();
    for i in 0..errors.len()
        invariant
            views == errors@.map_values(|e: String| e@),
            out@ == joined(views.take(i as int), "; "@),
    {
        if i > 0 {
            append_chars(&mut out, "; ");
        }
        append_chars(&mut out, errors[i].as_str());
        assert(views.take(i + 1).drop_last() =~= views.take(i as int));
        proof {
            if i == 0 {
                assert(views.take(1).len() == 1);
            }
        }
    }
    assert(views.take(errors.len() as int) =~= views);
    string_of(&out)
}

/// Whether the older service is started again after a failed migration:
/// only when it was running and the new service, if one was created, was removed.
pub fn migration_restores_old(was_running: bool, removed_new: Option<&Result<(), String>>) -> (res:
    bool)
    ensures
        res == (was_running && !(removed_new matches Some(r) && r is Err)),
{
    let safe = match removed_new {
        Some(Err(_)) => false,
        _ => true,
    };
    was_running && safe
}

/// The error that a failed migration reports: the failure, then each
/// failure of undoing it, in the order the steps ran.
pub open spec fn migration_failure_spec(
    error: Seq<char>,
    removed_new: Option<Result<(), Seq<char>>>,
    removed_task: Option<Result<(), Seq<char>>>,
    restarted_old: Option<Result<(), Seq<char>>>,
) -> Seq<char> {
    joined(
        seq![error] + match removed_new {
            Some(Err(e)) => seq!["撤销新服务失败: "@ + e],
            _ => Seq::empty(),
        } + match removed_task {
            Some(Err(e)) => seq![e],
            _ => Seq::empty(),
        } + match restarted_old {
            Some(Err(e)) => seq!["恢复旧服务失败: "@ + e],
            _ => Seq::empty(),
        },
        "; "@,
    )
}

/// The text of an outcome that may be missing.
pub open spec fn opt_outcome_view(r: Option<&Result<(), String>>) -> Option<Result<(), Seq<char>>> {
    match r {
        Some(r) => Some(outcome_view(*r)),
        None => None,
    }
}

/// The error that a failed migration reports; see [`migration_failure_spec`].
pub fn migration_failure(
    error: &str,
    removed_new: Option<&Result<(), String>>,
    removed_task: Option<&Result<(), String>>,
    restarted_old: Option<&Result<(), String>>,
) -> (res: String)
    ensures
        res@ == migration_failure_spec(
            error@,
            opt_outcome_view(removed_new),
            opt_outcome_view(removed_task),
            opt_outcome_view(restarted_old),
        ),
{
    let mut errors: Vec<String> = Vec::new();
    errors.push(error.to_owned());
    let ghost mut parts: Seq<Seq<char>> = seq![error@];
    match removed_new {
        Some(Err(e)) => {
            errors.push(concat_strs("撤销新服务失败: ", e.as_str()));
            proof { parts = parts.push("撤销新服务失败: "@ + e@); }
        },
        _ => {},
    }
    match removed_task {
        Some(Err(e)) => {
            errors.push(e.clone());
            proof { parts = parts.push(e@); }
        },
        _ => {},
    }
    match restarted_old {
        Some(Err(e)) => {
            errors.push(concat_strs("恢复旧服务失败: ", e.as_str()));
            proof { parts = parts.push("恢复旧服务失败: "@ + e@); }
        },
        _ => {},
    }
    let res = join_errors(&errors);
    assert(errors@.map_values(|e: String| e@) =~= parts);
    assert(parts =~= seq![error@] + match opt_outcome_view(removed_new) {
        Some(Err(e)) => seq!["撤销新服务失败: "@ + e],
        _ => Seq::empty(),
    } + match opt_outcome_view(removed_task) {
        Some(Err(e)) => seq![e],
        _ => Seq::empty(),
    } + match opt_outcome_view(restarted_old) {
        Some(Err(e)) => seq!["恢复旧服务失败: "@ + e],
        _ => Seq::empty(),
    });
    res
}

/// The name of the scheduled task that starts `service` at logon.
pub fn startup_task_name(service: &str) -> (res: String)
    ensures
        res@ == "singboard-autostart-"@ + service@,
{
    concat_strs("singboard-autostart-", service)
}

/// The longest logon delay a startup task may have, in seconds.
pub const MAX_STARTUP_DELAY: u32 = 3600;

/// The PowerShell script that registers the logon task for `service` with a
/// delay of `delay` seconds (at most an hour) and checks that the delay was saved.
pub open spec fn startup_task_script_spec(service: Seq<char>, delay: u32) -> Seq<char> {
    let d = if delay < MAX_STARTUP_DELAY {
        delay
    } else {
        MAX_STARTUP_DELAY
    };
    let delay_text = "PT"@ + decimal(d as nat) + "S"@;
    let args = ps_single_quoted_spec("start "@ + service);
    let name = ps_single_quoted_spec("singboard-autostart-"@ + service);
    let delay_q = ps_single_quoted_spec(delay_text);
    "$u=[System.Security.Principal.WindowsIdentity]::GetCurrent().Name;$a=New-ScheduledTaskAction -Execute 'sc.exe' -Argument "@
        + args + ";$t=New-ScheduledTaskTrigger -AtLogOn;$t.Delay="@ + delay_q
        + ";$s=New-ScheduledTaskSettingsSet -MultipleInstances IgnoreNew -ExecutionTimeLimit 0 -Compatibility Vista;$s.Hidden=$true;$s.DisallowStartIfOnBatteries=$false;$s.StopIfGoingOnBatteries=$false;$p=New-ScheduledTaskPrincipal -UserId $u -LogonType Interactive -RunLevel Highest;Register-ScheduledTask -TaskName "@
        + name + " -Action $a -Trigger $t -Settings $s -Principal $p -Force | Out-Null;$created=Get-ScheduledTask -TaskName "@
        + name + ";$actual=[string]$created.Triggers[0].Delay;if ($actual -ne "@ + delay_q
        + ") { throw \"计划任务延迟保存不一致: expected "@ + delay_text + ", actual $actual\" }"@
}

/// Builds the script that registers the logon task for `service`.
pub fn startup_task_script(service: &str, delay: u32) -> (res: String)
    ensures
        res@ == startup_task_script_spec(service@, delay),
{
    let d = if delay < MAX_STARTUP_DELAY {
        delay
    } else {
        MAX_STARTUP_DELAY
    };
    let mut delay_chars: Vec<char> = Vec::new();
    append_chars(&mut delay_chars, "PT");
    push_decimal(&mut delay_chars, d as u128);
    append_chars(&mut delay_chars, "S");
    let delay_text = string_of(&delay_chars);
    let args = ps_single_quoted(concat_strs("start ", service).as_str());
    let name = ps_single_quoted(startup_task_name(service).as_str());
    let delay_q = ps_single_quoted(delay_text.as_str());
    let mut out: Vec<char> = Vec::new();
    append_chars(
        &mut out,
        "$u=[System.Security.Principal.WindowsIdentity]::GetCurrent().Name;$a=New-ScheduledTaskAction -Execute 'sc.exe' -Argument ",
    );
    append_chars(&mut out, args.as_str());
    append_chars(&mut out, ";$t=New-ScheduledTaskTrigger -AtLogOn;$t.Delay=");
    append_chars(&mut out, delay_q.as_str());
    append_chars(
        &mut out,
        ";$s=New-ScheduledTaskSettingsSet -MultipleInstances IgnoreNew -ExecutionTimeLimit 0 -Compatibility Vista;$s.Hidden=$true;$s.DisallowStartIfOnBatteries=$false;$s.StopIfGoingOnBatteries=$false;$p=New-ScheduledTaskPrincipal -UserId $u -LogonType Interactive -RunLevel Highest;Register-ScheduledTask -TaskName ",
    );
    append_chars(&mut out, name.as_str());
    append_chars(
        &mut out,
        " -Action $a -Trigger $t -Settings $s -Principal $p -Force | Out-Null;$created=Get-ScheduledTask -TaskName ",
    );
    append_chars(&mut out, name.as_str());
    append_chars(&mut out, ";$actual=[string]$created.Triggers[0].Delay;if ($actual -ne ");
    append_chars(&mut out, delay_q.as_str());
    append_chars(&mut out, ") { throw \"计划任务延迟保存不一致: expected ");
    append_chars(&mut out, delay_text.as_str());
    append_chars(&mut out, ", actual $actual\" }");
    assert(out@ =~= startup_task_script_spec(service@, delay));
    string_of(&out)
}

/// The error a start reports when the service stopped right after starting,
/// with the core's last error log when there is one.
pub fn start_failure_message(detail: &str) -> (res: String)
    ensures
        detail@.len() == 0 ==> res@ == "服务启动后立即退出，可能是配置文件有误，请检查配置"@,
        detail@.len() > 0 ==> res@ == "服务启动失败:\n"@ + detail@,
{
    if detail.is_empty() {
        "服务启动后立即退出，可能是配置文件有误，请检查配置".to_owned()
    } else {
        concat_strs("服务启动失败:\n", detail)
    }
}

/// The message for a failed service manager call: `<what> failed: error <code>`.
pub fn scm_error(what: &str, code: u32) -> (res: String)
    ensures
        res@ == what@ + " failed: error "@ + decimal(code as nat),
{
    let mut out: Vec<char> = Vec::new();
    append_chars(&mut out, what);
    append_chars(&mut out, " failed: error ");
    push_decimal(&mut out, code as u128);
    string_of(&out)
}

/// The result of a refused start: a service that is already running counts
/// as started.
pub fn start_refusal(code: u32) -> (res: Result<(), String>)
    ensures
        code == 1056 ==> res is Ok,
        code != 1056 ==> (res matches Err(e) && e@ == "StartService failed: error "@ + decimal(
            code as nat,
        )),
{
    if code == 1056 {
        return Ok(());
    }
    proof {
        reveal_strlit("StartService");
        reveal_strlit(" failed: error ");
        reveal_strlit("StartService failed: error ");
        assert("StartService"@ + " failed: error "@ =~= "StartService failed: error "@);
    }
    Err(scm_error("StartService", code))
}

/// The result of a refused stop: a service that is not running counts as stopped.
pub fn stop_refusal(code: u32) -> (res: Result<(), String>)
    ensures
        code == 1062 ==> res is Ok,
        code != 1062 ==> (res matches Err(e) && e@ == "ControlService(STOP) failed: error "@
            + decimal(code as nat)),
{
    if code == 1062 {
        return Ok(());
    }
    proof {
        reveal_strlit("ControlService(STOP)");
        reveal_strlit(" failed: error ");
        reveal_strlit("ControlService(STOP) failed: error ");
        assert("ControlService(STOP)"@ + " failed: error "@ =~= "ControlService(STOP) failed: error "@);
    }
    Err(scm_error("ControlService(STOP)", code))
}

/// The result of a refused deletion: a service already marked for deletion
/// counts as deleted.
pub fn delete_refusal(code: u32) -> (res: Result<(), String>)
    ensures
        code == 1072 ==> res is Ok,
        code != 1072 ==> (res matches Err(e) && e@ == "DeleteService failed: error "@ + decimal(
            code as nat,
        )),
{
    if code == 1072 {
        return Ok(());
    }
    proof {
        reveal_strlit("DeleteService");
        reveal_strlit(" failed: error ");
        reveal_strlit("DeleteService failed: error ");
        assert("DeleteService"@ + " failed: error "@ =~= "DeleteService failed: error "@);
    }
    Err(scm_error("DeleteService", code))
}

/// What installing does after the service manager refused to create the service.
pub enum CreateServiceOutcome {
    /// The service exists already: its executable path is updated and the
    /// install succeeds.
    UpdateExisting,
    /// The service is marked for deletion: wait for it to go, then install again.
    WaitForDeletion,
    /// Any other refusal fails the install with this message.
    Fail(String),
}

/// The outcome of a refused service creation with error `code`.
pub fn create_service_outcome(code: u32) -> (res: CreateServiceOutcome)
    ensures
        code == 1073 ==> res is UpdateExisting,
        code == 1072 ==> res is WaitForDeletion,
        code != 1073 && code != 1072 ==> (res matches CreateServiceOutcome::Fail(e) && e@
            == "CreateService failed: error "@ + decimal(code as nat)),
{
    if code == 1073 {
        return CreateServiceOutcome::UpdateExisting;
    }
    if code == 1072 {
        return CreateServiceOutcome::WaitForDeletion;
    }
    proof {
        reveal_strlit("CreateService");
        reveal_strlit(" failed: error ");
        reveal_strlit("CreateService failed: error ");
        assert("CreateService"@ + " failed: error "@ =~= "CreateService failed: error "@);
    }
    CreateServiceOutcome::Fail(scm_error("CreateService", code))
}

/// The error when a service marked for deletion was not released in time.
pub const DELETION_PENDING: &'static str = "服务已被标记删除但尚未释放，请关闭服务管理器窗口后重试";

/// Whether a service in state `state` is stuck between starting and
/// stopping, so that its process is ended and its stop awaited before the
/// next start.
pub fn start_needs_cleanup(state: u32) -> (res: bool)
    ensures
        res == (state == 2 || state == 3),
{
    state == 2 || state == 3
}

/// How a start that the service manager accepted stands after one poll.
pub enum StartProgress {
    /// The service runs: the start succeeded.
    Running,
    /// The service stopped again: the start failed.
    Stopped,
    /// Neither yet: poll again.
    Pending,
}

/// The progress of a start for the state `state` read in a poll.
pub fn start_progress(state: u32) -> (res: StartProgress)
    ensures
        state == 4 ==> res is Running,
        state == 1 ==> res is Stopped,
        state != 4 && state != 1 ==> res is Pending,
{
    if state == 4 {
        StartProgress::Running
    } else if state == 1 {
        StartProgress::Stopped
    } else {
        StartProgress::Pending
    }
}

/// The `Debug` text of an optional exit code: `Some(<code>)` or `None`.
pub open spec fn exit_code_text(code: Option<i32>) -> Seq<char> {
    match code {
        Some(c) => "Some("@ + (if c < 0 {
            seq!['-'] + decimal((-c) as nat)
        } else {
            decimal(c as nat)
        }) + ")"@,
        None => "None"@,
    }
}

/// Why registering the startup task failed: the script's trimmed error
/// output, else its trimmed standard output, else its exit code.
pub open spec fn task_failure_spec(stderr: Seq<char>, stdout: Seq<char>, code: Option<i32>) -> Seq<
    char,
> {
    "创建任务计划失败: "@ + if trimmed(stderr).len() > 0 {
        trimmed(stderr)
    } else if trimmed(stdout).len() > 0 {
        trimmed(stdout)
    } else {
        "exit code "@ + exit_code_text(code)
    }
}

/// The error of a failed startup task registration.
pub fn task_failure_message(stderr: &str, stdout: &str, code: Option<i32>) -> (res: String)
    ensures
        res@ == task_failure_spec(stderr@, stdout@, code),
{
    let mut out: Vec<char> = Vec::new();
    append_chars(&mut out, "创建任务计划失败: ");
    let err = trim_chars(&chars_of(stderr));
    let std_out = trim_chars(&chars_of(stdout));
    if err.len() > 0 {
        append_vec(&mut out, &err);
    } else if std_out.len() > 0 {
        append_vec(&mut out, &std_out);
    } else {
        append_chars(&mut out, "exit code ");
        match code {
            Some(c) => {
                append_chars(&mut out, "Some(");
                if c < 0 {
                    out.push('-');
                    let magnitude: i64 = -(c as i64);
                    push_decimal(&mut out, magnitude as u128);
                } else {
                    push_decimal(&mut out, c as u128);
                }
                append_chars(&mut out, ")");
            },
            None => {
                append_chars(&mut out, "None");
            },
        }
    }
    proof {
        assert(out@ =~= task_failure_spec(stderr@, stdout@, code));
    }
    string_of(&out)
}

} // verus!
