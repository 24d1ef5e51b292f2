//! Approved runtime snapshots of the core and its configuration: how their
//! directories are named and recognised under the protected root, and what
//! happens to a snapshot when another one replaces it.
use vstd::prelude::*;
use crate::elevation::{core_exe_name, is_dll, is_dll_name};
use crate::paths::{
    file_name_of, join, parent_of, path_file_name, path_join, path_parent, paths_equal, same_path,
};
use crate::text::{
    append_chars, chars_of, copy_range, decimal, has_prefix, is_ascii_digit,
    lemma_decimal_digits, lemma_split_field, lemma_split_single, push_decimal, same_chars, split,
    split_chars, starts_with, string_of, trim_chars, trimmed,
};
use crate::version::all_digits;

verus! {

pub open spec fn runtime_prefix() -> Seq<char> {
    seq!['r', 'u', 'n', 't', 'i', 'm', 'e', '-']
}

/// One numeric field of a runtime directory name.
pub open spec fn numeric_field(f: Seq<char>) -> bool {
    f.len() > 0 && all_digits(f)
}

/// A runtime directory name: `runtime-` followed by exactly three
/// `-`-separated, non-empty runs of ASCII digits.
pub open spec fn is_runtime_dir_name_spec(name: Seq<char>) -> bool {
    starts_with(name, runtime_prefix()) && {
        let parts = split(name.skip(8), '-');
        &&& parts.len() == 3
        &&& numeric_field(parts[0])
        &&& numeric_field(parts[1])
        &&& numeric_field(parts[2])
    }
}

/// A runtime directory: a direct child of `root` whose name is a runtime
/// directory name.
pub open spec fn is_runtime_path_spec(path: Seq<char>, root: Seq<char>) -> bool {
    &&& path_parent(path) matches Some(p) && paths_equal(p, root)
    &&& path_file_name(path) matches Some(n) && is_runtime_dir_name_spec(n)
}

fn numeric(v: &Vec<char>) -> (res: bool)
    ensures
        res == numeric_field(v@),
{
    if v.len() == 0 {
        return false;
    }
    let mut i: usize = 0;
    while i < v.len()
        invariant
            i <= v.len(),
            forall|k: int| 0 <= k < i ==> is_ascii_digit(#[trigger] v@[k]),
        decreases v.len() - i,
    {
        if !crate::text::is_digit_char(v[i]) {
            assert(!is_ascii_digit(v@[i as int]));
            return false;
        }
        i += 1;
    }
    true
}

/// Whether `name` is the name of a runtime directory.
pub fn is_runtime_dir_name(name: &str) -> (res: bool)
    ensures
        res == is_runtime_dir_name_spec(name@),
{
    let chars = chars_of(name);
    proof {
        reveal_strlit("runtime-");
        assert("runtime-"@ =~= runtime_prefix());
    }
    if !has_prefix(&chars, "runtime-") {
        return false;
    }
    let rest = copy_range(&chars, 8, chars.len());
    assert(rest@ =~= name@.skip(8));
    let parts = split_chars(&rest, '-');
    if parts.len() != 3 {
        return false;
    }
    numeric(&parts[0]) && numeric(&parts[1]) && numeric(&parts[2])
}

/// Whether `path` is a runtime directory directly under `root`.
pub fn is_runtime_path(path: &str, root: &str) -> (res: bool)
    ensures
        res == is_runtime_path_spec(path@, root@),
{
    let parent_matches = match parent_of(path) {
        Some(p) => same_path(p.as_str(), root),
        None => false,
    };
    if !parent_matches {
        return false;
    }
    match file_name_of(path) {
        Some(n) => is_runtime_dir_name(n.as_str()),
        None => false,
    }
}

/// The unique name `<prefix>-<pid>-<nanos>-<counter>` of a new runtime
/// directory, from the process id, the time in nanoseconds and a counter.
pub open spec fn unique_name_spec(prefix: Seq<char>, pid: u32, nanos: u128, counter: u64) -> Seq<
    char,
> {
    prefix + seq!['-'] + decimal(pid as nat) + seq!['-'] + decimal(nanos as nat) + seq!['-']
        + decimal(counter as nat)
}

/// Builds a unique name from its prefix and the three numbers that make it unique.
pub fn unique_name(prefix: &str, pid: u32, nanos: u128, counter: u64) -> (res: String)
    ensures
        res@ == unique_name_spec(prefix@, pid, nanos, counter),
{
    let mut out: Vec<char> = Vec::new();
    append_chars(&mut out, prefix);
    out.push('-');
    push_decimal(&mut out, pid as u128);
    out.push('-');
    push_decimal(&mut out, nanos);
    out.push('-');
    push_decimal(&mut out, counter as u128);
    assert(out@ =~= unique_name_spec(prefix@, pid, nanos, counter));
    string_of(&out)
}

proof fn lemma_no_dash_in_decimal(n: nat)
    ensures
        !decimal(n).contains('-'),
        numeric_field(decimal(n)),
{
    lemma_decimal_digits(n);
    if decimal(n).contains('-') {
        let i = choose|i: int| 0 <= i < decimal(n).len() && decimal(n)[i] == '-';
        assert(is_ascii_digit(decimal(n)[i]));
    }
}

/// Every directory name this library generates for a runtime snapshot is
/// recognised as a runtime directory name.
pub proof fn generated_runtime_names_are_recognised(pid: u32, nanos: u128, counter: u64)
    ensures
        is_runtime_dir_name_spec(
            unique_name_spec(seq!['r', 'u', 'n', 't', 'i', 'm', 'e'], pid, nanos, counter),
        ),
{
    let a = decimal(pid as nat);
    let b = decimal(nanos as nat);
    let c = decimal(counter as nat);
    lemma_no_dash_in_decimal(pid as nat);
    lemma_no_dash_in_decimal(nanos as nat);
    lemma_no_dash_in_decimal(counter as nat);
    let name = unique_name_spec(seq!['r', 'u', 'n', 't', 'i', 'm', 'e'], pid, nanos, counter);
    assert(name.take(8) =~= runtime_prefix());
    let rest = name.skip(8);
    assert(rest =~= a + seq!['-'] + (b + seq!['-'] + c));
    lemma_split_field(a, '-', b + seq!['-'] + c);
    lemma_split_field(b, '-', c);
    lemma_split_single(c, '-');
    assert(split(rest, '-') =~= seq![a, b, c]);
}

/// Where a snapshot is captured from: the source core, the source
/// configuration and the working directory recorded for the service.
pub struct CaptureSource {
    pub core: String,
    pub config: String,
    pub working_dir: String,
}

/// A service's runtime: the approved copies it runs (`core`, `config`), its
/// working directory, and the user-selected files they were captured from.
pub struct Snapshot {
    pub core: String,
    pub config: String,
    pub working_dir: String,
    pub source_core: String,
    pub source_config: String,
}

pub struct CaptureSourceView {
    pub core: Seq<char>,
    pub config: Seq<char>,
    pub working_dir: Seq<char>,
}

impl View for CaptureSource {
    type V = CaptureSourceView;

    open spec fn view(&self) -> CaptureSourceView {
        CaptureSourceView { core: self.core@, config: self.config@, working_dir: self.working_dir@ }
    }
}

pub struct SnapshotView {
    pub core: Seq<char>,
    pub config: Seq<char>,
    pub working_dir: Seq<char>,
    pub source_core: Seq<char>,
    pub source_config: Seq<char>,
}

impl View for Snapshot {
    type V = SnapshotView;

    open spec fn view(&self) -> SnapshotView {
        SnapshotView {
            core: self.core@,
            config: self.config@,
            working_dir: self.working_dir@,
            source_core: self.source_core@,
            source_config: self.source_config@,
        }
    }
}

/// What a refresh of `s` captures from: its recorded sources and working
/// directory.
pub open spec fn refresh_source(s: SnapshotView) -> CaptureSourceView {
    CaptureSourceView { core: s.source_core, config: s.source_config, working_dir: s.working_dir }
}

/// The snapshot captured into `runtime_dir` from `source`, or why it cannot
/// be: the core and the configuration copied side by side into the
/// directory, the sources recorded, and the working directory of the capture
/// (the given one, or the configuration's directory when it is blank).
pub open spec fn captured_spec(runtime_dir: Seq<char>, source: CaptureSourceView) -> Result<
    SnapshotView,
    Seq<char>,
> {
    if trimmed(source.working_dir).len() == 0 && path_parent(source.config) is None {
        Err("源配置目录无效"@)
    } else {
        Ok(
            SnapshotView {
                core: path_join(runtime_dir, core_exe_name()),
                config: path_join(runtime_dir, RUNTIME_CONFIG_NAME@),
                working_dir: if trimmed(source.working_dir).len() > 0 {
                    source.working_dir
                } else {
                    path_parent(source.config)->0
                },
                source_core: source.core,
                source_config: source.config,
            },
        )
    }
}

pub open spec fn snapshot_result_view(r: Result<Snapshot, String>) -> Result<SnapshotView, Seq<char>> {
    match r {
        Ok(s) => Ok(s@),
        Err(e) => Err(e@),
    }
}

/// What to remove of a snapshot once another one replaces it.
pub enum DiscardAction {
    Keep,
    RemoveFile(String),
    RemoveDir(String),
}

pub open spec fn parents_equal(a: Seq<char>, b: Seq<char>) -> bool {
    match (path_parent(a), path_parent(b)) {
        (Some(p), Some(q)) => paths_equal(p, q),
        (None, None) => true,
        _ => false,
    }
}

impl Snapshot {
    /// What a refresh captures from: the recorded source files and the
    /// recorded working directory. The snapshot the refresh yields is
    /// [`Snapshot::captured`] of these, once the files are copied.
    pub fn refresh_config(&self) -> (res: CaptureSource)
        ensures
            res@ == refresh_source(self@),
    {
        CaptureSource {
            core: self.source_core.clone(),
            config: self.source_config.clone(),
            working_dir: self.working_dir.clone(),
        }
    }

    /// The runtime directory of this snapshot when its layout is that of a
    /// protected snapshot under `root`: the core is `sing-box.exe` in a
    /// runtime directory directly under `root`, and the configuration sits
    /// beside it. The permissions of that directory are checked separately.
    pub fn protected_dir(&self, root: &str) -> (res: Option<String>)
        ensures
            match res {
                Some(d) => path_parent(self.core@) == Some(d@) && is_runtime_path_spec(d@, root@)
                    && (path_parent(self.config@) matches Some(c) && paths_equal(c, d@))
                    && path_file_name(self.core@) == Some(core_exe_name()),
                None => !(path_parent(self.core@) matches Some(d) && is_runtime_path_spec(d, root@)
                    && (path_parent(self.config@) matches Some(c) && paths_equal(c, d))
                    && path_file_name(self.core@) == Some(core_exe_name())),
            },
    {
        let parent = match parent_of(self.core.as_str()) {
            Some(p) => p,
            None => return None,
        };
        if !is_runtime_path(parent.as_str(), root) {
            return None;
        }
        let config_ok = match parent_of(self.config.as_str()) {
            Some(c) => same_path(c.as_str(), parent.as_str()),
            None => false,
        };
        if !config_ok {
            return None;
        }
        let name_ok = match file_name_of(self.core.as_str()) {
            Some(n) => {
                let chars = chars_of(n.as_str());
                proof {
                    reveal_strlit("sing-box.exe");
                    assert("sing-box.exe"@ =~= core_exe_name());
                }
                same_chars(&chars, "sing-box.exe")
            },
            None => false,
        };
        if !name_ok {
            return None;
        }
        Some(parent)
    }

    /// What to remove of this snapshot once `replacement` takes its place.
    /// Nothing is removed unless this snapshot is a protected one. When both
    /// live in the same directory only a configuration file that is no
    /// longer used goes; otherwise this snapshot's whole directory goes.
    pub fn discard_action(&self, replacement: &Snapshot, protected: bool) -> (res: DiscardAction)
        ensures
            !protected ==> res is Keep,
            protected && parents_equal(self.core@, replacement.core@) ==> if paths_equal(
                self.config@,
                replacement.config@,
            ) {
                res is Keep
            } else {
                res matches DiscardAction::RemoveFile(f) && f@ == self.config@
            },
            protected && !parents_equal(self.core@, replacement.core@) ==> match path_parent(
                self.core@,
            ) {
                Some(p) => res matches DiscardAction::RemoveDir(d) && d@ == p,
                None => res is Keep,
            },
    {
        if !protected {
            return DiscardAction::Keep;
        }
        let mine = parent_of(self.core.as_str());
        let theirs = parent_of(replacement.core.as_str());
        let same_parent = match (&mine, &theirs) {
            (Some(a), Some(b)) => same_path(a.as_str(), b.as_str()),
            (None, None) => true,
            _ => false,
        };
        if same_parent {
            if !same_path(self.config.as_str(), replacement.config.as_str()) {
                return DiscardAction::RemoveFile(self.config.clone());
            }
            return DiscardAction::Keep;
        }
        match mine {
            Some(p) => DiscardAction::RemoveDir(p),
            None => DiscardAction::Keep,
        }
    }
}

/// The directory holding a source core, which must have one.
pub fn source_core_dir(core: &str) -> (res: Result<String, String>)
    ensures
        match path_parent(core@) {
            Some(p) => res matches Ok(d) && d@ == p,
            None => res matches Err(e) && e@ == "源核心目录无效"@,
        },
{
    match parent_of(core) {
        Some(p) => Ok(p),
        None => Err("源核心目录无效".to_owned()),
    }
}

/// The working directory a capture records: the given one, or the directory
/// of the configuration when the given one is blank.
pub fn capture_working_dir(config: &str, working_dir: &str) -> (res: Result<String, String>)
    ensures
        trimmed(working_dir@).len() > 0 ==> (res matches Ok(w) && w@ == working_dir@),
        trimmed(working_dir@).len() == 0 ==> match path_parent(config@) {
            Some(p) => res matches Ok(w) && w@ == p,
            None => res matches Err(e) && e@ == "源配置目录无效"@,
        },
{
    let chars = chars_of(working_dir);
    if trim_chars(&chars).len() == 0 {
        match parent_of(config) {
            Some(p) => Ok(p),
            None => Err("源配置目录无效".to_owned()),
        }
    } else {
        Ok(working_dir.to_owned())
    }
}

/// Whether a file may be part of a runtime snapshot: the core executable
/// (exactly `sing-box.exe`) or a DLL.
pub fn runtime_file_allowed(name: &str) -> (res: bool)
    ensures
        res == (name@ == core_exe_name() || is_dll_name(name@)),
{
    let chars = chars_of(name);
    proof {
        reveal_strlit("sing-box.exe");
        assert("sing-box.exe"@ =~= core_exe_name());
    }
    same_chars(&chars, "sing-box.exe") || is_dll(name)
}

/// Whether a set of runtime files includes the core executable.
pub fn has_core_file(files: &[(String, Vec<u8>)]) -> (res: bool)
    ensures
        res == exists|i: int| 0 <= i < files@.len() && (#[trigger] files@[i]).0@ == core_exe_name(),
{
    proof {
        reveal_strlit("sing-box.exe");
        assert("sing-box.exe"@ =~= core_exe_name());
    }
    let mut i: usize = 0;
    while i < files.len()
        invariant
            i <= files.len(),
            "sing-box.exe"@ == core_exe_name(),
            forall|k: int| 0 <= k < i ==> (#[trigger] files@[k]).0@ != core_exe_name(),
        decreases files.len() - i,
    {
        let chars = chars_of(files[i].0.as_str());
        if same_chars(&chars, "sing-box.exe") {
            assert(files@[i as int].0@ == core_exe_name());
            return true;
        }
        i += 1;
    }
    false
}

/// Why a set of runtime files cannot be captured, if it cannot: it must hold
/// the core executable, and every file must be the core or a DLL.
pub open spec fn runtime_files_error(names: Seq<Seq<char>>) -> Option<Seq<char>> {
    if !(exists|i: int| 0 <= i < names.len() && names[i] == core_exe_name()) {
        Some("服务运行文件缺少 sing-box.exe"@)
    } else if exists|i: int|
        0 <= i < names.len() && !(names[i] == core_exe_name() || is_dll_name(#[trigger] names[i])) {
        Some("服务运行文件名称无效"@)
    } else {
        None
    }
}

/// Checks the files of a capture before they are written.
pub fn check_runtime_files(files: &[(String, Vec<u8>)]) -> (res: Result<(), String>)
    ensures
        match runtime_files_error(files@.map_values(|f: (String, Vec<u8>)| f.0@)) {
            Some(e) => res matches Err(m) && m@ == e,
            None => res is Ok,
        },
{
    let ghost names = files@.map_values(|f: (String, Vec<u8>)| f.0@);
    if !has_core_file(files) {
        proof {
            assert forall|i: int| 0 <= i < names.len() implies names[i] != core_exe_name() by {
                assert(names[i] == files@[i].0@);
            }
        }
        return Err("服务运行文件缺少 sing-box.exe".to_owned());
    }
    proof {
        let k = choose|i: int| 0 <= i < files@.len() && (#[trigger] files@[i]).0@ == core_exe_name();
        assert(names[k] == core_exe_name());
    }
    let mut i: usize = 0;
    while i < files.len()
        invariant
            i <= files@.len(),
            names == files@.map_values(|f: (String, Vec<u8>)| f.0@),
            exists|j: int| 0 <= j < names.len() && names[j] == core_exe_name(),
            forall|k: int| 0 <= k < i ==> (names[k] == core_exe_name() || is_dll_name(#[trigger] names[k])),
        decreases files.len() - i,
    {
        if !runtime_file_allowed(files[i].0.as_str()) {
            assert(names[i as int] == files@[i as int].0@);
            return Err("服务运行文件名称无效".to_owned());
        }
        assert(names[i as int] == files@[i as int].0@);
        i += 1;
    }
    Ok(())
}

/// The name of the configuration copy in a runtime directory.
pub const RUNTIME_CONFIG_NAME: &'static str = "config.json";

impl Snapshot {
    /// The snapshot captured into the runtime directory `runtime_dir` from
    /// `source`: the core and the configuration copied beside each other
    /// there, the recorded sources, and the working directory of the capture
    /// (the given one, or the configuration's directory when it is blank).
    pub fn captured(runtime_dir: &str, source: &CaptureSource) -> (res: Result<Snapshot, String>)
        ensures
            snapshot_result_view(res) == captured_spec(runtime_dir@, source@),
    {
        let working_dir = match capture_working_dir(source.config.as_str(), source.working_dir.as_str()) {
            Ok(w) => w,
            Err(e) => return Err(e),
        };
        proof {
            reveal_strlit("sing-box.exe");
            assert("sing-box.exe"@ =~= core_exe_name());
        }
        let core = join(runtime_dir, "sing-box.exe");
        let config = join(runtime_dir, RUNTIME_CONFIG_NAME);
        Ok(Snapshot {
            core,
            config,
            working_dir,
            source_core: source.core.clone(),
            source_config: source.config.clone(),
        })
    }
}

/// A refreshed snapshot is a fresh capture of the sources it records: what
/// a refresh of `s` reads is its recorded core, configuration and working
/// directory, and capturing that into a runtime directory keeps the recorded
/// core and configuration, keeps the working directory (the configuration's
/// directory when it is blank), and copies the core and the configuration
/// side by side into that directory. It fails only when the working
/// directory is blank and the configuration has no directory.
pub proof fn refresh_recaptures_sources(s: SnapshotView, runtime_dir: Seq<char>)
    ensures
        refresh_source(s) == (CaptureSourceView {
            core: s.source_core,
            config: s.source_config,
            working_dir: s.working_dir,
        }),
        captured_spec(runtime_dir, refresh_source(s)) is Err <==> (trimmed(s.working_dir).len() == 0
            && path_parent(s.source_config) is None),
        captured_spec(runtime_dir, refresh_source(s)) matches Ok(n) ==> {
            &&& n.source_core == s.source_core
            &&& n.source_config == s.source_config
            &&& n.working_dir == (if trimmed(s.working_dir).len() > 0 {
                s.working_dir
            } else {
                path_parent(s.source_config)->0
            })
            &&& n.core == path_join(runtime_dir, core_exe_name())
            &&& n.config == path_join(runtime_dir, RUNTIME_CONFIG_NAME@)
        },
{
}

} // verus!
