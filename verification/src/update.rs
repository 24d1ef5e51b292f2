//! Panel and core updates: what a release offers, and how a failed core
//! update is reported.
use vstd::prelude::*;
use crate::digest::concat_strs;
use crate::service::{join_errors, joined};
use crate::text::{
    chars_of, eq_ignore_ascii_case, eq_ignore_case, string_of, strip_leading, strip_leading_pair,
};
use crate::version::{is_newer, is_newer_spec};

verus! {

/// The release asset that holds the panel.
pub const PANEL_ASSET: &'static str = "singboard.exe";

/// The GitHub repository whose releases carry the panel.
pub const PANEL_REPO: &'static str = "Yuu518/singboard";

/// The event through which panel update progress is reported.
pub const PROGRESS_EVENT: &'static str = "panel-update-progress";

/// The command-line flag that starts the update coordinator.
pub const APPLY_UPDATE_FLAG: &'static str = "--apply-update";

/// The API address of the latest panel release.
pub fn latest_release_url() -> (res: String)
    ensures
        res@ == "https://api.github.com/repos/"@ + PANEL_REPO@ + "/releases/latest"@,
{
    let a = concat_strs("https://api.github.com/repos/", PANEL_REPO);
    concat_strs(a.as_str(), "/releases/latest")
}

/// The index of the first release asset named like the panel, ignoring ASCII case.
pub fn panel_asset_index(names: &Vec<String>) -> (res: Option<usize>)
    ensures
        match res {
            Some(i) => i < names@.len() && eq_ignore_ascii_case(names@[i as int]@, PANEL_ASSET@)
                && forall|k: int|
                0 <= k < i ==> !eq_ignore_ascii_case((#[trigger] names@[k])@, PANEL_ASSET@),
            None => forall|k: int|
                0 <= k < names@.len() ==> !eq_ignore_ascii_case(
                    (#[trigger] names@[k])@,
                    PANEL_ASSET@,
                ),
        },
{
    let panel = chars_of(PANEL_ASSET);
    let mut i: usize = 0;
    while i < names.len()
        invariant
            i <= names.len(),
            panel@ == PANEL_ASSET@,
            forall|k: int|
                0 <= k < i ==> !eq_ignore_ascii_case((#[trigger] names@[k])@, PANEL_ASSET@),
        decreases names.len() - i,
    {
        if eq_ignore_case(&chars_of(names[i].as_str()), &panel) {
            return Some(i);
        }
        i += 1;
    }
    None
}

/// The error reported when a release lacks the panel asset.
pub fn missing_panel_asset() -> (res: String)
    ensures
        res@ == "该版本未提供 "@ + PANEL_ASSET@ + " 资产"@,
{
    let a = concat_strs("该版本未提供 ", PANEL_ASSET);
    concat_strs(a.as_str(), " 资产")
}

/// The version a release tag names: the tag without its leading `v`/`V`s.
pub fn release_version(tag_name: &str) -> (res: String)
    ensures
        res@ == strip_leading_pair(tag_name@, 'v', 'V'),
{
    string_of(&strip_leading(&chars_of(tag_name), 'v', 'V'))
}

/// Whether `latest` and `current` name the same version: neither is newer
/// than the other.
pub open spec fn same_version_spec(latest: Seq<char>, current: Seq<char>) -> bool {
    !is_newer_spec(latest, current) && !is_newer_spec(current, latest)
}

/// Whether the running panel must be compared with the release asset: only
/// when the release names the running version.
pub fn needs_sync_check(tag_name: &str, current_version: &str) -> (res: bool)
    ensures
        res == same_version_spec(strip_leading_pair(tag_name@, 'v', 'V'), current_version@),
{
    let latest = release_version(tag_name);
    !is_newer(latest.as_str(), current_version) && !is_newer(current_version, latest.as_str())
}

/// What the panel shows about the latest release.
pub struct PanelUpdateInfo {
    pub current_version: String,
    pub latest_version: String,
    pub has_update: bool,
    /// Same version, but the local executable does not match the release asset.
    pub out_of_sync: bool,
    pub published_at: String,
    pub asset_url: String,
    pub asset_size: u64,
    pub asset_digest: String,
}

impl PanelUpdateInfo {
    /// The summary of a release for the running version `current_version`.
    /// `out_of_sync` is what comparing the running executable with the asset
    /// gave; it only counts when the release names the running version.
    pub fn from_release(
        current_version: String,
        tag_name: &str,
        published_at: Option<String>,
        asset_url: String,
        asset_size: u64,
        asset_digest: Option<String>,
        out_of_sync: bool,
    ) -> (res: PanelUpdateInfo)
        ensures
            res.current_version@ == current_version@,
            res.latest_version@ == strip_leading_pair(tag_name@, 'v', 'V'),
            res.has_update == is_newer_spec(
                strip_leading_pair(tag_name@, 'v', 'V'),
                current_version@,
            ),
            res.out_of_sync == (same_version_spec(
                strip_leading_pair(tag_name@, 'v', 'V'),
                current_version@,
            ) && out_of_sync),
            res.published_at@ == match published_at {
                Some(p) => p@,
                None => Seq::empty(),
            },
            res.asset_url@ == asset_url@,
            res.asset_size == asset_size,
            res.asset_digest@ == match asset_digest {
                Some(d) => d@,
                None => Seq::empty(),
            },
    {
        let latest_version = release_version(tag_name);
        let has_update = is_newer(latest_version.as_str(), current_version.as_str());
        let same = !has_update && !is_newer(current_version.as_str(), latest_version.as_str());
        PanelUpdateInfo {
            current_version,
            latest_version,
            has_update,
            out_of_sync: same && out_of_sync,
            published_at: match published_at {
                Some(p) => p,
                None => String::new(),
            },
            asset_url,
            asset_size,
            asset_digest: match asset_digest {
                Some(d) => d,
                None => String::new(),
            },
        }
    }
}

/// A core update must target the source core the service was installed
/// from; the two resolved paths are compared without regard to ASCII case.
pub fn check_core_target(source: &str, resolved_target: &str) -> (res: Result<(), String>)
    ensures
        eq_ignore_ascii_case(source@, resolved_target@) ==> res is Ok,
        !eq_ignore_ascii_case(source@, resolved_target@) ==> (res matches Err(e) && e@
            == "所选核心路径与已安装服务的源路径不一致，请先重新安装服务"@),
{
    if eq_ignore_case(&chars_of(source), &chars_of(resolved_target)) {
        Ok(())
    } else {
        Err("所选核心路径与已安装服务的源路径不一致，请先重新安装服务".to_owned())
    }
}

/// The text of a step's outcome.
pub open spec fn outcome_view(r: Result<(), String>) -> Result<(), Seq<char>> {
    match r {
        Ok(_) => Ok(()),
        Err(e) => Err(e@),
    }
}

/// The error a failed core update reports: the failure, then each failure
/// met while undoing it, in the order the undo ran: stopping the updated
/// service, restoring the source files, restoring the previous runtime.
pub open spec fn update_failure_spec(
    error: Seq<char>,
    stopped: Result<(), Seq<char>>,
    sources_restored: Option<Result<(), Seq<char>>>,
    runtime_restored: Result<(), Seq<char>>,
) -> Seq<char> {
    joined(
        seq![error] + (match stopped {
            Err(e) => seq!["停止更新后的服务失败: "@ + e],
            Ok(_) => Seq::empty(),
        }) + (match sources_restored {
            Some(Err(e)) => seq!["恢复源核心文件失败: "@ + e],
            _ => Seq::empty(),
        }) + (match runtime_restored {
            Err(e) => seq!["恢复服务运行副本失败: "@ + e],
            Ok(_) => Seq::empty(),
        }),
        "; "@,
    )
}

/// The error a failed core update reports; see [`update_failure_spec`].
pub fn update_failure(
    error: &str,
    stopped: &Result<(), String>,
    sources_restored: Option<&Result<(), String>>,
    runtime_restored: &Result<(), String>,
) -> (res: String)
    ensures
        res@ == update_failure_spec(
            error@,
            outcome_view(*stopped),
            match sources_restored {
                Some(r) => Some(outcome_view(*r)),
                None => None,
            },
            outcome_view(*runtime_restored),
        ),
{
    let mut errors: Vec<String> = Vec::new();
    errors.push(error.to_owned());
    let ghost mut parts: Seq<Seq<char>> = seq![error@];
    match stopped {
        Err(e) => {
            errors.push(concat_strs("停止更新后的服务失败: ", e.as_str()));
            proof { parts = parts.push("停止更新后的服务失败: "@ + e@); }
        },
        Ok(_) => {},
    }
    match sources_restored {
        Some(Err(e)) => {
            errors.push(concat_strs("恢复源核心文件失败: ", e.as_str()));
            proof { parts = parts.push("恢复源核心文件失败: "@ + e@); }
        },
        _ => {},
    }
    match runtime_restored {
        Err(e) => {
            errors.push(concat_strs("恢复服务运行副本失败: ", e.as_str()));
            proof { parts = parts.push("恢复服务运行副本失败: "@ + e@); }
        },
        Ok(_) => {},
    }
    let res = join_errors(&errors);
    assert(errors@.map_values(|e: String| e@) =~= parts);
    assert(parts =~= seq![error@] + (match outcome_view(*stopped) {
        Err(e) => seq!["停止更新后的服务失败: "@ + e],
        Ok(_) => Seq::empty(),
    }) + (match (match sources_restored {
        Some(r) => Some(outcome_view(*r)),
        None => None,
    }) {
        Some(Err(e)) => seq!["恢复源核心文件失败: "@ + e],
        _ => Seq::empty(),
    }) + (match outcome_view(*runtime_restored) {
        Err(e) => seq!["恢复服务运行副本失败: "@ + e],
        Ok(_) => Seq::empty(),
    }));
    res
}

/// The file in the data directory through which the update coordinator
/// reports a failed panel replacement to the next panel start.
pub const PANEL_UPDATE_ERROR_FILE: &'static str = "panel-update-error.txt";

/// The report of a panel replacement that failed with `error`.
pub fn panel_overwrite_error(error: &str) -> (res: String)
    ensures
        res@ == "覆盖面板失败: "@ + error@,
{
    concat_strs("覆盖面板失败: ", error)
}

/// The report of an overwrite that failed with `error` and whose restore
/// from the backup at `backup` then failed with `rollback`.
pub fn overwrite_rollback_failure(error: &str, rollback: &str, backup: &str) -> (res: String)
    ensures
        res@ == "覆盖失败: "@ + error@ + "; 恢复失败: "@ + rollback@ + "; 备份保留在 "@ + backup@,
{
    let a = concat_strs("覆盖失败: ", error);
    let b = concat_strs(a.as_str(), "; 恢复失败: ");
    let c = concat_strs(b.as_str(), rollback);
    let d = concat_strs(c.as_str(), "; 备份保留在 ");
    concat_strs(d.as_str(), backup)
}

} // verus!
