//! The protected service directory: the checks on the paths and names that
//! the service files are written under.
use vstd::prelude::*;
use crate::paths::{
    is_absolute_path, join, parent_of, path_is_absolute, path_join, path_parent, paths_equal,
    same_path,
};
use crate::text::{chars_of, ends_with, is_control, is_control_char, same_chars};

verus! {

/// A character that may not appear in a file or directory name.
pub open spec fn forbidden_in_name(c: char) -> bool {
    is_control(c) || c == '/' || c == '\\' || c == ':' || c == '"' || c == '<' || c == '>'
        || c == '|' || c == '?' || c == '*'
}

/// A name that stays inside the directory it is created in: non-empty, not
/// `.` or `..`, not ending in a dot or a space, and free of separators,
/// stream markers, wildcards and control characters.
pub open spec fn safe_name_spec(name: Seq<char>) -> bool {
    &&& name.len() > 0
    &&& !ends_with(name, seq!['.'])
    &&& !ends_with(name, seq![' '])
    &&& name != seq!['.']
    &&& name != seq!['.', '.']
    &&& forall|i: int| 0 <= i < name.len() ==> !forbidden_in_name(#[trigger] name[i])
}

fn forbidden_in_name_char(c: char) -> (res: bool)
    ensures
        res == forbidden_in_name(c),
{
    is_control_char(c) || c == '/' || c == '\\' || c == ':' || c == '"' || c == '<' || c == '>'
        || c == '|' || c == '?' || c == '*'
}

/// Whether `name` is safe to create inside the service directory.
pub fn safe_name(name: &str) -> (res: bool)
    ensures
        res == safe_name_spec(name@),
{
    let chars = chars_of(name);
    let n = chars.len();
    if n == 0 {
        return false;
    }
    let last = chars[n - 1];
    if last == '.' || last == ' ' {
        assert(name@.skip(n - 1) =~= seq![last]);
        return false;
    }
    assert(!ends_with(name@, seq!['.'])) by {
        if ends_with(name@, seq!['.']) {
            assert(name@.skip(n - 1)[0] == name@[n - 1]);
        }
    }
    assert(!ends_with(name@, seq![' '])) by {
        if ends_with(name@, seq![' ']) {
            assert(name@.skip(n - 1)[0] == name@[n - 1]);
        }
    }
    if same_chars(&chars, ".") || same_chars(&chars, "..") {
        proof {
            reveal_strlit(".");
            reveal_strlit("..");
        }
        return false;
    }
    proof {
        reveal_strlit(".");
        reveal_strlit("..");
        assert(".."@ =~= seq!['.', '.']);
        assert("."@ =~= seq!['.']);
    }
    let mut i: usize = 0;
    while i < n
        invariant
            n == chars@.len(),
            chars@ == name@,
            i <= n,
            forall|j: int| 0 <= j < i ==> !forbidden_in_name(#[trigger] name@[j]),
        decreases n - i,
    {
        if forbidden_in_name_char(chars[i]) {
            return false;
        }
        i += 1;
    }
    true
}

pub open spec fn msg_relative_service_path() -> Seq<char> {
    "服务路径必须为绝对路径"@
}

/// The check that opens pinning a directory: only an absolute path is pinned.
pub fn check_pin_path(path: &str) -> (res: Result<(), String>)
    ensures
        path_is_absolute(path@) ==> res is Ok,
        !path_is_absolute(path@) ==> (res matches Err(e) && e@ == msg_relative_service_path()),
{
    if !is_absolute_path(path) {
        return Err("服务路径必须为绝对路径".to_owned());
    }
    Ok(())
}

pub open spec fn msg_bad_child_dir() -> Seq<char> {
    "无效的服务运行目录名称"@
}

pub open spec fn msg_bad_child_file() -> Seq<char> {
    "无效的服务运行文件名称"@
}

/// The path of a new subdirectory `name` of `dir`, or the error when the
/// name is not safe.
pub fn child_dir_path(dir: &str, name: &str) -> (res: Result<String, String>)
    ensures
        safe_name_spec(name@) ==> (res matches Ok(p) && p@ == path_join(dir@, name@)),
        !safe_name_spec(name@) ==> (res matches Err(e) && e@ == msg_bad_child_dir()),
{
    if !safe_name(name) {
        return Err("无效的服务运行目录名称".to_owned());
    }
    Ok(join(dir, name))
}

/// The path of a new file `name` in `dir`, or the error when the name is
/// not safe.
pub fn child_file_path(dir: &str, name: &str) -> (res: Result<String, String>)
    ensures
        safe_name_spec(name@) ==> (res matches Ok(p) && p@ == path_join(dir@, name@)),
        !safe_name_spec(name@) ==> (res matches Err(e) && e@ == msg_bad_child_file()),
{
    if !safe_name(name) {
        return Err("无效的服务运行文件名称".to_owned());
    }
    Ok(join(dir, name))
}

pub open spec fn msg_outside_directory() -> Seq<char> {
    "服务文件不在运行目录中"@
}

/// Whether `path` names an entry directly inside `dir`.
pub open spec fn directly_inside(path: Seq<char>, dir: Seq<char>) -> bool {
    path_parent(path) matches Some(q) && paths_equal(q, dir)
}

/// The first check on a service file: it lies directly in the directory.
pub fn check_file_in_directory(path: &str, dir: &str) -> (res: Result<(), String>)
    ensures
        directly_inside(path@, dir@) ==> res is Ok,
        !directly_inside(path@, dir@) ==> (res matches Err(e) && e@ == msg_outside_directory()),
{
    match parent_of(path) {
        Some(q) => {
            if same_path(q.as_str(), dir) {
                return Ok(());
            }
        },
        None => {},
    }
    Err("服务文件不在运行目录中".to_owned())
}

/// The name of the protected service directory under the program files directory.
pub const SERVICE_DIR_NAME: &'static str = "singboard-service";

/// The protected service directory under the program files directory `base`.
pub fn service_dir_of(base: &str) -> (res: String)
    ensures
        res@ == path_join(base@, SERVICE_DIR_NAME@),
{
    join(base, SERVICE_DIR_NAME)
}

/// The security of the service directory: owned by the administrators,
/// protected from inheritance, writable only by the system and the
/// administrators, readable and executable by users.
pub const DIRECTORY_SECURITY: &'static str =
    "O:BAG:BAD:P(A;OICI;FA;;;SY)(A;OICI;FA;;;BA)(A;OICI;GRGX;;;BU)";

/// The security of a configuration file: like the directory, but users may
/// only read its attributes and its security, not its contents.
pub const CONFIG_SECURITY: &'static str = "O:BAG:BAD:P(A;;FA;;;SY)(A;;FA;;;BA)(A;;0x00020080;;;BU)";

/// Rights with which a holder could replace or re-own an entry: generic
/// write and all, delete, changing the DACL or the owner, deleting children.
pub const REPLACE_ACCESS: u32 = 0x1000_0000 | 0x4000_0000 | 0x0001_0000 | 0x0004_0000 | 0x0008_0000
    | 0x0000_0040;

/// Rights with which a holder could change an entry: those that replace it,
/// and writing or appending data, extended attributes or attributes.
pub const WRITE_ACCESS: u32 = REPLACE_ACCESS | 0x0000_0002 | 0x0000_0004 | 0x0000_0010 | 0x0000_0100;

/// The string form of the TrustedInstaller service SID.
pub const TRUSTED_INSTALLER: &'static str =
    "S-1-5-80-956008885-3418522649-1831038044-1853292631-2271478464";

/// What the checks read of a security identifier: whether it is the local
/// system or the built-in administrators, and its string form when that
/// could be had.
pub struct SidFacts {
    pub well_known_trusted: bool,
    pub text: Option<String>,
}

/// What the checks read of an access control entry.
pub struct AceFacts {
    pub ace_type: u8,
    pub flags: u8,
    pub mask: u32,
    pub sid: SidFacts,
}

/// What the checks read of a security descriptor: its owner, when it could
/// be read; its control bits, when they could be read; and its DACL, when one
/// is present, with each entry that could be read.
pub struct DescriptorFacts {
    pub owner: Option<SidFacts>,
    pub control: Option<u16>,
    pub dacl: Option<Vec<Option<AceFacts>>>,
}

/// The type of an access-allowed entry.
pub const ACCESS_ALLOWED_ACE_TYPE: u8 = 0;

/// The type of an access-denied entry.
pub const ACCESS_DENIED_ACE_TYPE: u8 = 1;

/// The flag of an entry that only applies to children.
pub const INHERIT_ONLY_ACE: u8 = 0x08;

/// The control bit of a DACL that does not inherit.
pub const SE_DACL_PROTECTED: u16 = 0x1000;

/// A trusted principal: the local system, the administrators, or TrustedInstaller.
pub open spec fn sid_trusted_spec(sid: SidFacts) -> bool {
    sid.well_known_trusted || (sid.text matches Some(t) && t@ == TRUSTED_INSTALLER@)
}

/// Whether `sid` is a trusted principal.
pub fn sid_trusted(sid: &SidFacts) -> (res: bool)
    ensures
        res == sid_trusted_spec(*sid),
{
    if sid.well_known_trusted {
        return true;
    }
    match &sid.text {
        Some(t) => {
            let chars = chars_of(t.as_str());
            same_chars(&chars, TRUSTED_INSTALLER)
        },
        None => false,
    }
}

/// An entry that grants nothing beyond `writable` to an untrusted principal:
/// one that only applies to children, a denial, or an allowance that either
/// holds none of those rights or goes to a trusted principal. An entry that
/// could not be read, or of any other type, is refused.
pub open spec fn ace_ok(ace: Option<AceFacts>, writable: u32) -> bool {
    match ace {
        None => false,
        Some(a) => {
            (a.flags & INHERIT_ONLY_ACE) != 0 || a.ace_type == ACCESS_DENIED_ACE_TYPE || (a.ace_type
                == ACCESS_ALLOWED_ACE_TYPE && ((a.mask & writable) == 0 || sid_trusted_spec(a.sid)))
        },
    }
}

/// A descriptor under which no untrusted principal holds any of the rights in
/// `writable`: its owner is trusted; when `protected`, its DACL does not
/// inherit; it has a DACL; and every entry of the DACL passes.
pub open spec fn descriptor_allows_spec(d: DescriptorFacts, protected: bool, writable: u32) -> bool {
    &&& d.owner matches Some(o) && sid_trusted_spec(o)
    &&& protected ==> (d.control matches Some(c) && (c & SE_DACL_PROTECTED) != 0)
    &&& d.dacl matches Some(aces) && forall|i: int|
        0 <= i < aces@.len() ==> ace_ok(#[trigger] aces@[i], writable)
}

fn ace_allows(ace: &Option<AceFacts>, writable: u32) -> (res: bool)
    ensures
        res == ace_ok(*ace, writable),
{
    match ace {
        None => false,
        Some(a) => {
            if (a.flags & INHERIT_ONLY_ACE) != 0 || a.ace_type == ACCESS_DENIED_ACE_TYPE {
                return true;
            }
            if a.ace_type != ACCESS_ALLOWED_ACE_TYPE {
                return false;
            }
            (a.mask & writable) == 0 || sid_trusted(&a.sid)
        },
    }
}

/// Whether the descriptor `d` keeps the rights in `writable` from every
/// untrusted principal.
pub fn descriptor_allows(d: &DescriptorFacts, protected: bool, writable: u32) -> (res: bool)
    ensures
        res == descriptor_allows_spec(*d, protected, writable),
{
    match &d.owner {
        Some(o) => {
            if !sid_trusted(o) {
                return false;
            }
        },
        None => {
            return false;
        },
    }
    if protected {
        match d.control {
            Some(c) => {
                if (c & SE_DACL_PROTECTED) == 0 {
                    return false;
                }
            },
            None => {
                return false;
            },
        }
    }
    match &d.dacl {
        None => false,
        Some(aces) => aces_allow(aces, writable),
    }
}

fn aces_allow(aces: &Vec<Option<AceFacts>>, writable: u32) -> (res: bool)
    ensures
        res == forall|i: int| 0 <= i < aces@.len() ==> ace_ok(#[trigger] aces@[i], writable),
{
    let mut i: usize = 0;
    while i < aces.len()
        invariant
            i <= aces@.len(),
            forall|k: int| 0 <= k < i ==> ace_ok(#[trigger] aces@[k], writable),
        decreases aces.len() - i,
    {
        if !ace_allows(&aces[i], writable) {
            assert(!ace_ok(aces@[i as int], writable));
            return false;
        }
        i += 1;
    }
    true
}

pub open spec fn msg_unsafe_permissions() -> Seq<char> {
    "服务运行目录权限不安全，请使用仅管理员可写的安装目录"@
}

/// The check on an entry of the service directory, or on one of its
/// ancestors with the rights that would let it be replaced.
pub fn check_descriptor(d: &DescriptorFacts, protected: bool, writable: u32) -> (res: Result<
    (),
    String,
>)
    ensures
        descriptor_allows_spec(*d, protected, writable) ==> res is Ok,
        !descriptor_allows_spec(*d, protected, writable) ==> (res matches Err(e) && e@
            == msg_unsafe_permissions()),
{
    if !descriptor_allows(d, protected, writable) {
        return Err("服务运行目录权限不安全，请使用仅管理员可写的安装目录".to_owned());
    }
    Ok(())
}

/// Rights only ever narrow what a descriptor has to keep from others: one that
/// keeps all of `wide` from untrusted principals keeps every part of it.
pub proof fn descriptor_allows_fewer_rights(
    d: DescriptorFacts,
    protected: bool,
    wide: u32,
    narrow: u32,
)
    requires
        narrow & wide == narrow,
        descriptor_allows_spec(d, protected, wide),
    ensures
        descriptor_allows_spec(d, protected, narrow),
{
    match d.dacl {
        Some(aces) => {
            assert forall|i: int| 0 <= i < aces@.len() implies ace_ok(
                #[trigger] aces@[i],
                narrow,
            ) by {
                assert(ace_ok(aces@[i], wide));
                match aces@[i] {
                    Some(a) => {
                        let m = a.mask;
                        assert((m & wide) == 0 ==> (m & narrow) == 0) by (bit_vector)
                            requires
                                narrow & wide == narrow,
                        ;
                    },
                    None => {},
                }
            }
        },
        None => {},
    }
}

/// A protected check asks more than an unprotected one.
pub proof fn protected_check_is_stricter(d: DescriptorFacts, writable: u32)
    requires
        descriptor_allows_spec(d, true, writable),
    ensures
        descriptor_allows_spec(d, false, writable),
{
}

} // verus!
