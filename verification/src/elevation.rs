//! Management requests handed to the elevated helper, and the checks that
//! every request passes before the helper acts on it.
use vstd::prelude::*;
use vstd::utf8::encode_utf8;
use crate::ipc::{encode_utf16, utf16_units, valid_sid, valid_sid_spec};
use crate::paths::{is_absolute_path, path_is_absolute};
pub use crate::quoting::quote_arg;
use crate::quoting::quote_arg_spec;
use crate::service::{SyncNeed, SERVICE_NAME};
use crate::text::{
    append_chars, ascii_lowercase, chars_of, contains_char, decimal, ends_with,
    eq_ignore_ascii_case, eq_ignore_case, has_prefix, has_suffix, is_control, is_control_char,
    push_decimal, same_chars, starts_with, string_of,
};

verus! {

/// One management operation. Paths are absolute paths on the machine.
pub enum Operation {
    Start { service: String },
    Stop { service: String },
    Restart { service: String },
    Install { service: String, core: String, config: String, working_dir: String, delay: u32 },
    Uninstall { service: String },
    Sync { service: String },
    Migrate { service: String },
    CreateTask { service: String, delay: u32 },
    DeleteTask { service: String },
    UpdateCore {
        service: String,
        staging: String,
        target: String,
        files: Vec<(String, String)>,
    },
    ReplacePanel { source: String, target: String, hash: String },
}

/// A management operation together with the panel's data directory and the
/// SID of the user on whose behalf it runs.
pub struct Request {
    pub operation: Operation,
    pub data_dir: String,
    pub user_sid: String,
}

pub open spec fn absolute_ok(p: Seq<char>) -> bool {
    path_is_absolute(p) && !p.contains('\0')
}

/// A character that may not appear in a service name.
pub open spec fn forbidden_in_service(c: char) -> bool {
    is_control(c) || c == '/' || c == '\\' || c == '"'
}

/// A service name the service manager can take: non-empty, at most 256 UTF-16
/// units, and free of control characters, slashes and double quotes.
pub open spec fn valid_service_spec(name: Seq<char>) -> bool {
    &&& name.len() > 0
    &&& encode_utf16(name).len() <= 256
    &&& forall|i: int| 0 <= i < name.len() ==> !forbidden_in_service(#[trigger] name[i])
}

/// A character that may not appear in an update file name.
pub open spec fn forbidden_in_asset(c: char) -> bool {
    is_control(c) || c == '/' || c == '\\' || c == ':' || c == '"'
}

pub open spec fn core_exe_name() -> Seq<char> {
    seq!['s', 'i', 'n', 'g', '-', 'b', 'o', 'x', '.', 'e', 'x', 'e']
}

pub open spec fn dll_suffix() -> Seq<char> {
    seq!['.', 'd', 'l', 'l']
}

/// A name whose ASCII-lowercased form ends with `.dll`.
pub open spec fn is_dll_name(name: Seq<char>) -> bool {
    ends_with(ascii_lowercase(name), dll_suffix())
}

/// An update file name: a plain file name, either the core executable or a DLL.
pub open spec fn valid_asset_name_spec(name: Seq<char>) -> bool {
    &&& name.len() > 0
    &&& forall|i: int| 0 <= i < name.len() ==> !forbidden_in_asset(#[trigger] name[i])
    &&& (eq_ignore_ascii_case(name, core_exe_name()) || is_dll_name(name))
}

pub open spec fn is_hex_byte(b: u8) -> bool {
    (48 <= b <= 57) || (97 <= b <= 102) || (65 <= b <= 70)
}

/// A SHA-256 fingerprint in hex: 64 bytes, all ASCII hex digits.
pub open spec fn hex_hash_ok(h: Seq<char>) -> bool {
    &&& encode_utf8(h).len() == 64
    &&& forall|i: int| 0 <= i < encode_utf8(h).len() ==> is_hex_byte(#[trigger] encode_utf8(h)[i])
}

pub open spec fn file_entry_ok(entry: (String, String)) -> bool {
    valid_asset_name_spec(entry.0@) && hex_hash_ok(entry.1@)
}

/// The service an operation names, if it names one.
pub open spec fn operation_service(op: &Operation) -> Option<Seq<char>> {
    match op {
        Operation::Start { service } => Some(service@),
        Operation::Stop { service } => Some(service@),
        Operation::Restart { service } => Some(service@),
        Operation::Install { service, .. } => Some(service@),
        Operation::Uninstall { service } => Some(service@),
        Operation::Sync { service } => Some(service@),
        Operation::Migrate { service } => Some(service@),
        Operation::CreateTask { service, .. } => Some(service@),
        Operation::DeleteTask { service } => Some(service@),
        Operation::UpdateCore { service, .. } => Some(service@),
        Operation::ReplacePanel { .. } => None,
    }
}

pub open spec fn msg_not_absolute() -> Seq<char> {
    "管理操作必须使用绝对路径"@
}

pub open spec fn msg_bad_sid() -> Seq<char> {
    "无效的原用户身份"@
}

pub open spec fn msg_bad_manifest() -> Seq<char> {
    "无效的更新文件清单"@
}

pub open spec fn msg_bad_panel_hash() -> Seq<char> {
    "无效的面板校验值"@
}

pub open spec fn msg_bad_service() -> Seq<char> {
    "无效的服务名称"@
}

/// The error of the operation-specific checks, if any.
pub open spec fn operation_error(op: &Operation) -> Option<Seq<char>> {
    match op {
        Operation::Install { core, config, working_dir, .. } => {
            if !absolute_ok(core@) || !absolute_ok(config@) || !absolute_ok(working_dir@) {
                Some(msg_not_absolute())
            } else {
                None
            }
        },
        Operation::UpdateCore { staging, target, files, .. } => {
            if !absolute_ok(staging@) || !absolute_ok(target@) {
                Some(msg_not_absolute())
            } else if files@.len() == 0 || exists|i: int|
                0 <= i < files@.len() && !file_entry_ok(#[trigger] files@[i]) {
                Some(msg_bad_manifest())
            } else {
                None
            }
        },
        Operation::ReplacePanel { source, target, hash } => {
            if !absolute_ok(source@) || !absolute_ok(target@) {
                Some(msg_not_absolute())
            } else if !hex_hash_ok(hash@) {
                Some(msg_bad_panel_hash())
            } else {
                None
            }
        },
        _ => None,
    }
}

/// The first reason to refuse `r`, if there is one: the data directory must
/// be absolute, the user SID acceptable, the paths of the operation absolute,
/// its manifest or hash well formed, and the service it names valid.
pub open spec fn request_error(r: &Request) -> Option<Seq<char>> {
    if !absolute_ok(r.data_dir@) {
        Some(msg_not_absolute())
    } else if !valid_sid_spec(r.user_sid@) {
        Some(msg_bad_sid())
    } else if operation_error(&r.operation) is Some {
        operation_error(&r.operation)
    } else if operation_service(&r.operation) matches Some(s) && !valid_service_spec(s) {
        Some(msg_bad_service())
    } else {
        None
    }
}

/// What an accepted request satisfies: its data directory is an absolute
/// path, its user SID is acceptable, every path its operation names is an
/// absolute NUL-free path, an update manifest is non-empty with only core or
/// DLL names and SHA-256 fingerprints, a panel hash is a SHA-256
/// fingerprint, and the service it names is a valid name.
pub proof fn accepted_requests_are_well_formed(r: &Request)
    requires
        request_error(r) is None,
    ensures
        absolute_ok(r.data_dir@),
        valid_sid_spec(r.user_sid@),
        match &r.operation {
            Operation::Start { service } => valid_service_spec(service@),
            Operation::Stop { service } => valid_service_spec(service@),
            Operation::Restart { service } => valid_service_spec(service@),
            Operation::Install { service, core, config, working_dir, .. } => {
                &&& valid_service_spec(service@)
                &&& absolute_ok(core@)
                &&& absolute_ok(config@)
                &&& absolute_ok(working_dir@)
            },
            Operation::Uninstall { service } => valid_service_spec(service@),
            Operation::Sync { service } => valid_service_spec(service@),
            Operation::Migrate { service } => valid_service_spec(service@),
            Operation::CreateTask { service, .. } => valid_service_spec(service@),
            Operation::DeleteTask { service } => valid_service_spec(service@),
            Operation::UpdateCore { service, staging, target, files } => {
                &&& valid_service_spec(service@)
                &&& absolute_ok(staging@)
                &&& absolute_ok(target@)
                &&& files@.len() > 0
                &&& forall|i: int| 0 <= i < files@.len() ==> {
                    &&& valid_asset_name_spec((#[trigger] files@[i]).0@)
                    &&& hex_hash_ok(files@[i].1@)
                }
            },
            Operation::ReplacePanel { source, target, hash } => {
                &&& absolute_ok(source@)
                &&& absolute_ok(target@)
                &&& hex_hash_ok(hash@)
            },
        },
{
    match &r.operation {
        Operation::UpdateCore { files, .. } => {
            assert forall|i: int| 0 <= i < files@.len() implies valid_asset_name_spec(
                (#[trigger] files@[i]).0@,
            ) && hex_hash_ok(files@[i].1@) by {
                assert(file_entry_ok(files@[i]));
            }
        },
        _ => {},
    }
}

/// Relative paths are refused: once the data directory and the user SID
/// pass, a request whose operation names a path that is not an absolute
/// NUL-free path is refused with the message that management operations
/// must use absolute paths. A data directory that is not such a path is
/// refused the same way before anything else.
pub proof fn relative_paths_are_refused(r: &Request)
    ensures
        !absolute_ok(r.data_dir@) ==> request_error(r) == Some("管理操作必须使用绝对路径"@),
        (absolute_ok(r.data_dir@) && valid_sid_spec(r.user_sid@)) ==> match &r.operation {
            Operation::Install { core, config, working_dir, .. } => (!absolute_ok(core@)
                || !absolute_ok(config@) || !absolute_ok(working_dir@)) ==> request_error(r)
                == Some("管理操作必须使用绝对路径"@),
            Operation::UpdateCore { staging, target, .. } => (!absolute_ok(staging@) || !absolute_ok(
                target@,
            )) ==> request_error(r) == Some("管理操作必须使用绝对路径"@),
            Operation::ReplacePanel { source, target, .. } => (!absolute_ok(source@) || !absolute_ok(
                target@,
            )) ==> request_error(r) == Some("管理操作必须使用绝对路径"@),
            _ => true,
        },
        (absolute_ok(r.data_dir@) && !valid_sid_spec(r.user_sid@)) ==> request_error(r) == Some(
            "无效的原用户身份"@,
        ),
{
}

/// Whether `p` is an absolute path without NUL characters.
fn absolute(p: &str) -> (res: Result<(), String>)
    ensures
        absolute_ok(p@) ==> res is Ok,
        !absolute_ok(p@) ==> (res matches Err(e) && e@ == msg_not_absolute()),
{
    let chars = chars_of(p);
    if !is_absolute_path(p) || contains_char(&chars, '\0') {
        return Err("管理操作必须使用绝对路径".to_owned());
    }
    Ok(())
}

proof fn lemma_utf16_prefix(s: Seq<char>, k: int)
    requires
        0 <= k < s.len(),
    ensures
        encode_utf16(s.take(k + 1)) == encode_utf16(s.take(k)) + utf16_units(s[k]),
{
    assert(s.take(k + 1).drop_last() =~= s.take(k));
}

proof fn lemma_utf16_len_monotone(s: Seq<char>, k: int)
    requires
        0 <= k <= s.len(),
    ensures
        encode_utf16(s.take(k)).len() <= encode_utf16(s).len(),
    decreases s.len() - k,
{
    if k < s.len() {
        lemma_utf16_prefix(s, k);
        lemma_utf16_len_monotone(s, k + 1);
    } else {
        assert(s.take(k) =~= s);
    }
}

/// Whether `name` is a valid service name.
pub fn valid_service(name: &str) -> (res: bool)
    ensures
        res == valid_service_spec(name@),
{
    let chars = chars_of(name);
    if chars.len() == 0 {
        return false;
    }
    let mut units: usize = 0;
    let mut i: usize = 0;
    assert(chars@.take(0) =~= Seq::<char>::empty());
    while i < chars.len()
        invariant
            chars@ == name@,
            chars.len() > 0,
            i <= chars.len(),
            units == encode_utf16(chars@.take(i as int)).len(),
            units <= 256,
        decreases chars.len() - i,
    {
        proof {
            lemma_utf16_prefix(chars@, i as int);
        }
        units = units + if (chars[i] as u32) < 0x10000 {
            1
        } else {
            2
        };
        if units > 256 {
            proof {
                lemma_utf16_len_monotone(chars@, i + 1);
            }
            return false;
        }
        i += 1;
    }
    assert(chars@.take(chars.len() as int) =~= chars@);
    let mut j: usize = 0;
    while j < chars.len()
        invariant
            chars@ == name@,
            chars.len() > 0,
            encode_utf16(name@).len() <= 256,
            j <= chars.len(),
            forall|k: int| 0 <= k < j ==> !forbidden_in_service(#[trigger] chars@[k]),
        decreases chars.len() - j,
    {
        let c = chars[j];
        if is_control_char(c) || c == '/' || c == '\\' || c == '"' {
            assert(forbidden_in_service(chars@[j as int]));
            return false;
        }
        j += 1;
    }
    true
}

/// Whether `name` ends with `.dll`, ignoring ASCII case.
pub fn is_dll(name: &str) -> (res: bool)
    ensures
        res == is_dll_name(name@),
{
    let chars = chars_of(name);
    let lower = crate::text::to_ascii_lowercase(&chars);
    proof {
        reveal_strlit(".dll");
        assert(".dll"@ =~= dll_suffix());
    }
    has_suffix(&lower, ".dll")
}

/// Whether `name` is the core executable, ignoring ASCII case.
pub fn is_core_exe_name(name: &str) -> (res: bool)
    ensures
        res == eq_ignore_ascii_case(name@, core_exe_name()),
{
    let chars = chars_of(name);
    let core = chars_of("sing-box.exe");
    proof {
        reveal_strlit("sing-box.exe");
        assert("sing-box.exe"@ =~= core_exe_name());
    }
    eq_ignore_case(&chars, &core)
}

/// Whether `name` is an acceptable update file name.
pub fn valid_asset_name(name: &str) -> (res: bool)
    ensures
        res == valid_asset_name_spec(name@),
{
    let chars = chars_of(name);
    if chars.len() == 0 {
        return false;
    }
    let mut j: usize = 0;
    while j < chars.len()
        invariant
            chars@ == name@,
            j <= chars.len(),
            forall|k: int| 0 <= k < j ==> !forbidden_in_asset(#[trigger] chars@[k]),
        decreases chars.len() - j,
    {
        let c = chars[j];
        if is_control_char(c) || c == '/' || c == '\\' || c == ':' || c == '"' {
            assert(forbidden_in_asset(chars@[j as int]));
            return false;
        }
        j += 1;
    }
    is_core_exe_name(name) || is_dll(name)
}

fn is_hex_byte_exec(b: u8) -> (res: bool)
    ensures
        res == is_hex_byte(b),
{
    (48 <= b && b <= 57) || (97 <= b && b <= 102) || (65 <= b && b <= 70)
}

/// Whether `h` is a 64-digit hex fingerprint.
pub fn hex_hash(h: &str) -> (res: bool)
    ensures
        res == hex_hash_ok(h@),
{
    let bytes = h.as_bytes();
    if bytes.len() != 64 {
        return false;
    }
    let mut i: usize = 0;
    while i < bytes.len()
        invariant
            bytes@ == encode_utf8(h@),
            i <= bytes.len(),
            forall|k: int| 0 <= k < i ==> is_hex_byte(#[trigger] bytes@[k]),
        decreases bytes.len() - i,
    {
        if !is_hex_byte_exec(bytes[i]) {
            assert(!is_hex_byte(encode_utf8(h@)[i as int]));
            return false;
        }
        i += 1;
    }
    true
}

fn files_ok(files: &Vec<(String, String)>) -> (res: bool)
    ensures
        res == (files@.len() > 0 && forall|i: int|
            0 <= i < files@.len() ==> file_entry_ok(#[trigger] files@[i])),
{
    if files.len() == 0 {
        return false;
    }
    let mut i: usize = 0;
    while i < files.len()
        invariant
            files.len() > 0,
            i <= files.len(),
            forall|k: int| 0 <= k < i ==> file_entry_ok(#[trigger] files@[k]),
        decreases files.len() - i,
    {
        let entry = &files[i];
        if !valid_asset_name(entry.0.as_str()) || !hex_hash(entry.1.as_str()) {
            assert(!file_entry_ok(files@[i as int]));
            return false;
        }
        i += 1;
    }
    true
}

fn check_operation(op: &Operation) -> (res: Result<(), String>)
    ensures
        match operation_error(op) {
            Some(e) => res matches Err(m) && m@ == e,
            None => res is Ok,
        },
{
    match op {
        Operation::Install { core, config, working_dir, .. } => {
            absolute(core.as_str())?;
            absolute(config.as_str())?;
            absolute(working_dir.as_str())?;
            Ok(())
        },
        Operation::UpdateCore { staging, target, files, .. } => {
            absolute(staging.as_str())?;
            absolute(target.as_str())?;
            if !files_ok(files) {
                return Err("无效的更新文件清单".to_owned());
            }
            Ok(())
        },
        Operation::ReplacePanel { source, target, hash } => {
            absolute(source.as_str())?;
            absolute(target.as_str())?;
            if !hex_hash(hash.as_str()) {
                return Err("无效的面板校验值".to_owned());
            }
            Ok(())
        },
        _ => Ok(()),
    }
}

fn service_of(op: &Operation) -> (res: Option<&String>)
    ensures
        match res {
            Some(s) => operation_service(op) == Some(s@),
            None => operation_service(op) is None,
        },
{
    match op {
        Operation::Start { service } => Some(service),
        Operation::Stop { service } => Some(service),
        Operation::Restart { service } => Some(service),
        Operation::Install { service, .. } => Some(service),
        Operation::Uninstall { service } => Some(service),
        Operation::Sync { service } => Some(service),
        Operation::Migrate { service } => Some(service),
        Operation::CreateTask { service, .. } => Some(service),
        Operation::DeleteTask { service } => Some(service),
        Operation::UpdateCore { service, .. } => Some(service),
        Operation::ReplacePanel { .. } => None,
    }
}

/// Checks a management request before anything is executed for it.
pub fn validate(request: &Request) -> (res: Result<(), String>)
    ensures
        match request_error(request) {
            Some(e) => res matches Err(m) && m@ == e,
            None => res is Ok,
        },
{
    absolute(request.data_dir.as_str())?;
    if !valid_sid(request.user_sid.as_str()) {
        return Err("无效的原用户身份".to_owned());
    }
    check_operation(&request.operation)?;
    match service_of(&request.operation) {
        Some(name) => {
            if !valid_service(name.as_str()) {
                return Err("无效的服务名称".to_owned());
            }
        },
        None => {},
    }
    Ok(())
}

/// The command-line flag that starts the elevated helper.
pub const ADMIN_FLAG: &'static str = "--admin-operation";

/// The error returned when the user declines the elevation prompt.
pub const CANCELLED: &'static str = "elevation_cancelled";

pub open spec fn admin_pipe_base() -> Seq<char> {
    "\\\\.\\pipe\\singboard-admin-"@
}

/// The start of every management pipe that process `pid` serves.
pub open spec fn admin_pipe_prefix(pid: nat) -> Seq<char> {
    admin_pipe_base() + decimal(pid) + seq!['-']
}

/// The management pipe that process `pid` opens for one request, told apart
/// from its others by `nonce`.
pub open spec fn admin_pipe_name_spec(pid: nat, nonce: nat) -> Seq<char> {
    admin_pipe_prefix(pid) + decimal(nonce)
}

/// The management pipe name of process `pid` for `nonce`.
pub fn admin_pipe_name(pid: u32, nonce: u128) -> (res: String)
    ensures
        res@ == admin_pipe_name_spec(pid as nat, nonce as nat),
{
    let mut out: Vec<char> = Vec::new();
    append_chars(&mut out, "\\\\.\\pipe\\singboard-admin-");
    push_decimal(&mut out, pid as u128);
    out.push('-');
    push_decimal(&mut out, nonce);
    proof {
        assert(out@ =~= admin_pipe_name_spec(pid as nat, nonce as nat));
    }
    string_of(&out)
}

/// The arguments that start the elevated helper on pipe `name` for parent
/// process `pid`.
pub open spec fn admin_args_spec(name: Seq<char>, pid: nat) -> Seq<char> {
    ADMIN_FLAG@ + seq![' '] + quote_arg_spec(name) + seq![' '] + decimal(pid)
}

/// The command line of the elevated helper: the flag, the quoted pipe name
/// and the parent's process id.
pub fn admin_args(name: &str, pid: u32) -> (res: String)
    ensures
        res@ == admin_args_spec(name@, pid as nat),
{
    let mut out: Vec<char> = Vec::new();
    append_chars(&mut out, ADMIN_FLAG);
    out.push(' ');
    let quoted = quote_arg(name);
    append_chars(&mut out, quoted.as_str());
    out.push(' ');
    push_decimal(&mut out, pid as u128);
    proof {
        assert(out@ =~= admin_args_spec(name@, pid as nat));
    }
    string_of(&out)
}

pub open spec fn msg_bad_endpoint() -> Seq<char> {
    "无效的管理端点"@
}

/// Whether the helper accepts pipe `name` from parent `parent_pid`: the
/// parent is a real process and the pipe is one that it serves.
pub open spec fn admin_endpoint_ok(name: Seq<char>, parent_pid: nat) -> bool {
    parent_pid != 0 && starts_with(name, admin_pipe_prefix(parent_pid))
}

/// Checks the endpoint handed to the elevated helper before it connects.
pub fn check_admin_endpoint(name: &str, parent_pid: u32) -> (res: Result<(), String>)
    ensures
        admin_endpoint_ok(name@, parent_pid as nat) ==> res is Ok,
        !admin_endpoint_ok(name@, parent_pid as nat) ==> (res matches Err(e) && e@
            == msg_bad_endpoint()),
{
    if parent_pid == 0 {
        return Err("无效的管理端点".to_owned());
    }
    let mut prefix: Vec<char> = Vec::new();
    append_chars(&mut prefix, "\\\\.\\pipe\\singboard-admin-");
    push_decimal(&mut prefix, parent_pid as u128);
    prefix.push('-');
    assert(prefix@ =~= admin_pipe_prefix(parent_pid as nat));
    let prefix = string_of(&prefix);
    let chars = chars_of(name);
    if !has_prefix(&chars, prefix.as_str()) {
        return Err("无效的管理端点".to_owned());
    }
    Ok(())
}

/// Every pipe that a running process names for itself passes the helper's
/// endpoint check.
pub proof fn admin_pipe_name_accepted(pid: nat, nonce: nat)
    requires
        pid != 0,
    ensures
        admin_endpoint_ok(admin_pipe_name_spec(pid, nonce), pid),
{
    let name = admin_pipe_name_spec(pid, nonce);
    assert(name.take(admin_pipe_prefix(pid).len() as int) =~= admin_pipe_prefix(pid));
}

/// The phase that the panel shows for a progress report of the helper:
/// `restart` stays, anything else is a replacement.
pub fn progress_phase(phase: &str) -> (res: &'static str)
    ensures
        phase@ == "restart"@ ==> res@ == "restart"@,
        phase@ != "restart"@ ==> res@ == "replace"@,
{
    let chars = chars_of(phase);
    if same_chars(&chars, "restart") {
        "restart"
    } else {
        "replace"
    }
}

/// Whether `service` is this panel's own service; a core update asks for the
/// state of any other before it is applied.
pub fn is_own_service(service: &str) -> (res: bool)
    ensures
        res == (service@ == SERVICE_NAME@),
{
    same_chars(&chars_of(service), SERVICE_NAME)
}

/// Whether a core update for `service`, whose state is `installed_state`,
/// first migrates that service: only an older service that is still installed.
pub fn core_update_migrates(service: &str, installed_state: &str) -> (res: bool)
    ensures
        res == (service@ != SERVICE_NAME@ && installed_state@ != "not_installed"@),
{
    !same_chars(&chars_of(service), SERVICE_NAME) && !same_chars(
        &chars_of(installed_state),
        "not_installed",
    )
}

/// The elevated operation the panel asks for once per session when it
/// starts. `own_state` is the state of this panel's own service; `legacy` is
/// the older service found when it is not installed, and `need` what the
/// deployment check found when it is. An older service is migrated, an
/// outdated deployment is synchronised, and otherwise nothing is asked.
pub fn startup_sync_request(own_state: &str, legacy: Option<String>, need: Option<SyncNeed>) -> (res:
    Option<Operation>)
    ensures
        own_state@ == "not_installed"@ ==> (match legacy {
            Some(name) => (res matches Some(Operation::Migrate { service }) && service@ == name@),
            None => res is None,
        }),
        own_state@ != "not_installed"@ ==> (match need {
            Some(SyncNeed::Migrate) | Some(SyncNeed::Update) => (res matches Some(
                Operation::Sync { service },
            ) && service@ == SERVICE_NAME@),
            _ => res is None,
        }),
{
    if same_chars(&chars_of(own_state), "not_installed") {
        match legacy {
            Some(service) => Some(Operation::Migrate { service }),
            None => None,
        }
    } else {
        match need {
            Some(SyncNeed::Migrate) | Some(SyncNeed::Update) => Some(
                Operation::Sync { service: SERVICE_NAME.to_owned() },
            ),
            _ => None,
        }
    }
}

/// What the startup check reports: `"ok"` when nothing was asked for, else
/// the helper's textual answer, or `"updated"` when it gave none.
pub fn startup_sync_report(requested: bool, answer: Option<String>) -> (res: String)
    ensures
        !requested ==> res@ == "ok"@,
        requested ==> res@ == (match answer {
            Some(a) => a@,
            None => "updated"@,
        }),
{
    if !requested {
        "ok".to_owned()
    } else {
        match answer {
            Some(a) => a,
            None => "updated".to_owned(),
        }
    }
}

/// The report of a failed exchange with the elevated helper.
pub fn admin_io_error(detail: &str) -> (res: String)
    ensures
        res@ == "管理操作通信失败: "@ + detail@,
{
    crate::digest::concat_strs("管理操作通信失败: ", detail)
}

/// One piece of work of a management operation, done by the elevated helper
/// in the order of its plan. Fields of the operation supply what each piece
/// works on.
#[derive(Clone, Copy)]
pub enum PlanStep {
    /// Capture a fresh snapshot from the recorded sources and start the
    /// service on it; `restart` stops it first.
    StartWithSnapshot { restart: bool },
    /// Stop the operation's service.
    StopService,
    /// Migrate an older service to this panel's own service: the one found
    /// in the registry when `legacy`, else the operation's service.
    Migrate { legacy: bool },
    /// Capture a snapshot from the operation's core, configuration and
    /// working directory.
    CaptureSnapshot,
    /// Configure the operation's service to run the captured snapshot.
    ConfigureService,
    /// Register the logon task of the operation's service, with its delay.
    CreateStartupTask,
    /// Remove the logon task of the operation's service.
    DeleteStartupTask,
    /// Read the service's recorded snapshot, if it can be read; failing to
    /// read it is not an error.
    ReadSnapshot,
    /// Remove the operation's service from the service manager.
    UninstallService,
    /// Remove the deployed service host and its version file.
    RemoveHelperFiles,
    /// Discard the snapshot read before, if one was read.
    DiscardSnapshot,
    /// Remove files of older installations once no older service remains.
    CleanupLegacyFiles,
    /// Capture a fresh snapshot from the recorded sources of the service.
    RefreshSnapshot,
    /// Check each staged update file against its approved fingerprint.
    VerifyUpdateFiles,
    /// Unless the operation's service is this panel's own, read its state,
    /// and migrate it to this panel's own service when
    /// [`core_update_migrates`] says so; the update then applies to this
    /// panel's own service.
    MigrateOlderService,
    /// Apply the verified core update to the service the step before settled on.
    ApplyCoreUpdate,
    /// Check the staged panel against its approved fingerprint.
    VerifyPanelFile,
    /// Replace the panel with the verified bytes, keeping a backup until done.
    OverwritePanel,
}

/// What the helper answers once every step of the plan succeeded.
#[derive(Clone, Copy)]
pub enum PlanReply {
    Null,
    Updated,
    Migrated,
    /// Whether the updated service was running, as the core update reports.
    UpdateResult,
}

/// What the elevated helper does for an operation.
pub struct OperationPlan {
    /// The steps, in order; the first one that fails ends the operation with its error.
    pub steps: Vec<PlanStep>,
    pub reply: PlanReply,
}

/// The steps of `op`. `installed_state` is the state of this panel's own
/// service for an install; `has_legacy` tells whether an older service was
/// found. A core update checks its files before anything else.
pub open spec fn plan_steps_spec(op: &Operation, installed_state: Seq<char>, has_legacy: bool) -> Seq<
    PlanStep,
> {
    match op {
        Operation::Start { .. } => seq![PlanStep::StartWithSnapshot { restart: false }],
        Operation::Stop { .. } => seq![PlanStep::StopService],
        Operation::Restart { .. } => seq![PlanStep::StartWithSnapshot { restart: true }],
        Operation::Install { .. } => (if installed_state == "not_installed"@ && has_legacy {
            seq![PlanStep::Migrate { legacy: true }]
        } else {
            Seq::empty()
        }) + seq![
            PlanStep::CaptureSnapshot,
            PlanStep::ConfigureService,
            PlanStep::CreateStartupTask,
        ],
        Operation::Uninstall { .. } => seq![
            PlanStep::ReadSnapshot,
            PlanStep::DeleteStartupTask,
            PlanStep::UninstallService,
            PlanStep::RemoveHelperFiles,
            PlanStep::DiscardSnapshot,
            PlanStep::CleanupLegacyFiles,
        ],
        Operation::Sync { .. } => seq![
            PlanStep::RefreshSnapshot,
            PlanStep::ConfigureService,
            PlanStep::CleanupLegacyFiles,
        ],
        Operation::Migrate { .. } => seq![PlanStep::Migrate { legacy: false }],
        Operation::CreateTask { .. } => seq![PlanStep::CreateStartupTask],
        Operation::DeleteTask { .. } => seq![PlanStep::DeleteStartupTask],
        Operation::UpdateCore { .. } => seq![
            PlanStep::VerifyUpdateFiles,
            PlanStep::MigrateOlderService,
            PlanStep::ApplyCoreUpdate,
        ],
        Operation::ReplacePanel { .. } => seq![PlanStep::VerifyPanelFile, PlanStep::OverwritePanel],
    }
}

/// The answer to `op` when all its steps succeed.
pub open spec fn plan_reply_spec(op: &Operation) -> PlanReply {
    match op {
        Operation::Sync { .. } => PlanReply::Updated,
        Operation::Migrate { .. } => PlanReply::Migrated,
        Operation::UpdateCore { .. } => PlanReply::UpdateResult,
        _ => PlanReply::Null,
    }
}

/// The plan of the elevated helper for `op`; see [`plan_steps_spec`].
pub fn plan_operation(op: &Operation, installed_state: &str, has_legacy: bool) -> (res: OperationPlan)
    ensures
        res.steps@ == plan_steps_spec(op, installed_state@, has_legacy),
        res.reply == plan_reply_spec(op),
{
    let mut steps: Vec<PlanStep> = Vec::new();
    let reply = match op {
        Operation::Start { .. } => {
            steps.push(PlanStep::StartWithSnapshot { restart: false });
            PlanReply::Null
        },
        Operation::Stop { .. } => {
            steps.push(PlanStep::StopService);
            PlanReply::Null
        },
        Operation::Restart { .. } => {
            steps.push(PlanStep::StartWithSnapshot { restart: true });
            PlanReply::Null
        },
        Operation::Install { .. } => {
            if same_chars(&chars_of(installed_state), "not_installed") && has_legacy {
                steps.push(PlanStep::Migrate { legacy: true });
            }
            steps.push(PlanStep::CaptureSnapshot);
            steps.push(PlanStep::ConfigureService);
            steps.push(PlanStep::CreateStartupTask);
            PlanReply::Null
        },
        Operation::Uninstall { .. } => {
            steps.push(PlanStep::ReadSnapshot);
            steps.push(PlanStep::DeleteStartupTask);
            steps.push(PlanStep::UninstallService);
            steps.push(PlanStep::RemoveHelperFiles);
            steps.push(PlanStep::DiscardSnapshot);
            steps.push(PlanStep::CleanupLegacyFiles);
            PlanReply::Null
        },
        Operation::Sync { .. } => {
            steps.push(PlanStep::RefreshSnapshot);
            steps.push(PlanStep::ConfigureService);
            steps.push(PlanStep::CleanupLegacyFiles);
            PlanReply::Updated
        },
        Operation::Migrate { .. } => {
            steps.push(PlanStep::Migrate { legacy: false });
            PlanReply::Migrated
        },
        Operation::CreateTask { .. } => {
            steps.push(PlanStep::CreateStartupTask);
            PlanReply::Null
        },
        Operation::DeleteTask { .. } => {
            steps.push(PlanStep::DeleteStartupTask);
            PlanReply::Null
        },
        Operation::UpdateCore { .. } => {
            steps.push(PlanStep::VerifyUpdateFiles);
            steps.push(PlanStep::MigrateOlderService);
            steps.push(PlanStep::ApplyCoreUpdate);
            PlanReply::UpdateResult
        },
        Operation::ReplacePanel { .. } => {
            steps.push(PlanStep::VerifyPanelFile);
            steps.push(PlanStep::OverwritePanel);
            PlanReply::Null
        },
    };
    proof {
        assert(steps@ =~= plan_steps_spec(op, installed_state@, has_legacy));
    }
    OperationPlan { steps, reply }
}

/// Files are replaced only after they were checked: in every plan, an older
/// service is migrated for a core update and the update is applied only after
/// its files were verified, and a panel is overwritten only after its file
/// was verified.
pub proof fn plans_verify_before_replacing(op: &Operation, installed_state: Seq<char>, has_legacy: bool)
    ensures
        ({
            let steps = plan_steps_spec(op, installed_state, has_legacy);
            &&& forall|i: int|
                0 <= i < steps.len() && ((#[trigger] steps[i]) is ApplyCoreUpdate
                    || steps[i] is MigrateOlderService) ==> exists|j: int|
                    0 <= j < i && steps[j] is VerifyUpdateFiles
            &&& forall|i: int|
                0 <= i < steps.len() && (#[trigger] steps[i]) is OverwritePanel ==> exists|j: int|
                    0 <= j < i && steps[j] is VerifyPanelFile
        }),
{
    let steps = plan_steps_spec(op, installed_state, has_legacy);
    match op {
        Operation::UpdateCore { .. } => {
            assert(steps[0] is VerifyUpdateFiles);
        },
        Operation::ReplacePanel { .. } => {
            assert(steps[0] is VerifyPanelFile);
        },
        Operation::Install { .. } => {
            assert forall|i: int| 0 <= i < steps.len() implies !((#[trigger] steps[i]) is ApplyCoreUpdate)
                && !(steps[i] is MigrateOlderService) && !(steps[i] is OverwritePanel) by {
                if installed_state == "not_installed"@ && has_legacy {
                    assert(steps == seq![PlanStep::Migrate { legacy: true }, PlanStep::CaptureSnapshot,
                        PlanStep::ConfigureService, PlanStep::CreateStartupTask]);
                } else {
                    assert(steps == seq![PlanStep::CaptureSnapshot, PlanStep::ConfigureService,
                        PlanStep::CreateStartupTask]);
                }
            }
        },
        _ => {},
    }
}


/// Whether `x` comes before `y` among `steps`.
pub open spec fn comes_before(steps: Seq<PlanStep>, x: PlanStep, y: PlanStep) -> bool {
    exists|i: int, j: int| 0 <= i < j < steps.len() && steps[i] == x && steps[j] == y
}

/// Each plan does the work its operation is for: a stop plan only stops the
/// service; a start starts it on a fresh snapshot and a restart restarts it
/// so, neither stopping it by itself; an install captures a snapshot,
/// configures the service on it and registers the logon task, migrating an
/// older service first exactly when the own one is missing and an older one
/// was found; an uninstall reads the snapshot, removes the logon task and
/// the service and only then discards the snapshot; a sync refreshes the
/// snapshot before configuring and answers "updated"; a migration migrates
/// the named service and answers "migrated"; the task operations create or
/// remove the task; a core update migrates and applies only after checking
/// its files and answers with the update's result; a panel replacement
/// checks the file and then overwrites the panel.
pub proof fn plans_do_their_work(op: &Operation, installed_state: Seq<char>, has_legacy: bool)
    ensures
        ({
            let steps = plan_steps_spec(op, installed_state, has_legacy);
            let reply = plan_reply_spec(op);
            match op {
                Operation::Start { .. } => {
                    &&& steps.contains(PlanStep::StartWithSnapshot { restart: false })
                    &&& !steps.contains(PlanStep::StopService)
                    &&& !steps.contains(PlanStep::StartWithSnapshot { restart: true })
                    &&& reply is Null
                },
                Operation::Stop { .. } => steps == seq![PlanStep::StopService] && reply is Null,
                Operation::Restart { .. } => {
                    &&& steps.contains(PlanStep::StartWithSnapshot { restart: true })
                    &&& !steps.contains(PlanStep::StopService)
                    &&& reply is Null
                },
                Operation::Install { .. } => {
                    &&& comes_before(steps, PlanStep::CaptureSnapshot, PlanStep::ConfigureService)
                    &&& comes_before(steps, PlanStep::ConfigureService, PlanStep::CreateStartupTask)
                    &&& steps.contains(PlanStep::Migrate { legacy: true }) <==> (installed_state
                        == "not_installed"@ && has_legacy)
                    &&& (steps.contains(PlanStep::Migrate { legacy: true }) ==> steps[0]
                        == PlanStep::Migrate { legacy: true })
                    &&& !steps.contains(PlanStep::UninstallService)
                    &&& reply is Null
                },
                Operation::Uninstall { .. } => {
                    &&& comes_before(steps, PlanStep::ReadSnapshot, PlanStep::DiscardSnapshot)
                    &&& comes_before(steps, PlanStep::DeleteStartupTask, PlanStep::UninstallService)
                    &&& comes_before(steps, PlanStep::UninstallService, PlanStep::DiscardSnapshot)
                    &&& steps.contains(PlanStep::RemoveHelperFiles)
                    &&& reply is Null
                },
                Operation::Sync { .. } => {
                    &&& comes_before(steps, PlanStep::RefreshSnapshot, PlanStep::ConfigureService)
                    &&& reply is Updated
                },
                Operation::Migrate { .. } => {
                    &&& steps.contains(PlanStep::Migrate { legacy: false })
                    &&& reply is Migrated
                },
                Operation::CreateTask { .. } => {
                    &&& steps.contains(PlanStep::CreateStartupTask)
                    &&& !steps.contains(PlanStep::DeleteStartupTask)
                    &&& reply is Null
                },
                Operation::DeleteTask { .. } => {
                    &&& steps.contains(PlanStep::DeleteStartupTask)
                    &&& !steps.contains(PlanStep::CreateStartupTask)
                    &&& reply is Null
                },
                Operation::UpdateCore { .. } => {
                    &&& steps[0] == PlanStep::VerifyUpdateFiles
                    &&& comes_before(steps, PlanStep::MigrateOlderService, PlanStep::ApplyCoreUpdate)
                    &&& reply is UpdateResult
                },
                Operation::ReplacePanel { .. } => {
                    &&& comes_before(steps, PlanStep::VerifyPanelFile, PlanStep::OverwritePanel)
                    &&& reply is Null
                },
            }
        }),
{
    let steps = plan_steps_spec(op, installed_state, has_legacy);
    match op {
        Operation::Start { .. } => {
            assert(steps[0] == PlanStep::StartWithSnapshot { restart: false });
        },
        Operation::Restart { .. } => {
            assert(steps[0] == PlanStep::StartWithSnapshot { restart: true });
        },
        Operation::Install { .. } => {
            if installed_state == "not_installed"@ && has_legacy {
                assert(steps =~= seq![PlanStep::Migrate { legacy: true }, PlanStep::CaptureSnapshot,
                    PlanStep::ConfigureService, PlanStep::CreateStartupTask]);
                assert(steps[0] == PlanStep::Migrate { legacy: true });
                assert(steps[1] == PlanStep::CaptureSnapshot && steps[2] == PlanStep::ConfigureService);
                assert(steps[3] == PlanStep::CreateStartupTask);
            } else {
                assert(steps =~= seq![PlanStep::CaptureSnapshot, PlanStep::ConfigureService,
                    PlanStep::CreateStartupTask]);
                assert(steps[0] == PlanStep::CaptureSnapshot && steps[1] == PlanStep::ConfigureService);
                assert(steps[2] == PlanStep::CreateStartupTask);
            }
        },
        Operation::Uninstall { .. } => {
            assert(steps[0] == PlanStep::ReadSnapshot && steps[4] == PlanStep::DiscardSnapshot);
            assert(steps[1] == PlanStep::DeleteStartupTask && steps[2] == PlanStep::UninstallService);
            assert(steps[3] == PlanStep::RemoveHelperFiles);
        },
        Operation::Sync { .. } => {
            assert(steps[0] == PlanStep::RefreshSnapshot && steps[1] == PlanStep::ConfigureService);
        },
        Operation::Migrate { .. } => {
            assert(steps[0] == PlanStep::Migrate { legacy: false });
        },
        Operation::CreateTask { .. } => {
            assert(steps[0] == PlanStep::CreateStartupTask);
        },
        Operation::DeleteTask { .. } => {
            assert(steps[0] == PlanStep::DeleteStartupTask);
        },
        Operation::UpdateCore { .. } => {
            assert(steps[1] == PlanStep::MigrateOlderService && steps[2] == PlanStep::ApplyCoreUpdate);
        },
        Operation::ReplacePanel { .. } => {
            assert(steps[0] == PlanStep::VerifyPanelFile && steps[1] == PlanStep::OverwritePanel);
        },
        _ => {},
    }
}

} // verus!
