use singboard::protected::{
    check_descriptor, check_file_in_directory, check_pin_path, child_dir_path, child_file_path,
    descriptor_allows, safe_name, service_dir_of, AceFacts, DescriptorFacts, SidFacts,
    CONFIG_SECURITY, DIRECTORY_SECURITY, REPLACE_ACCESS, WRITE_ACCESS,
};

const FILE_ALL_ACCESS: u32 = 0x001F_01FF;
const GENERIC_READ_EXECUTE: u32 = 0x8000_0000 | 0x2000_0000;
const OBJECT_AND_CONTAINER_INHERIT: u8 = 0x01 | 0x02;
const DACL_PRESENT_SELF_RELATIVE: u16 = 0x0004 | 0x8000;
const DACL_PROTECTED: u16 = 0x1000;

fn system() -> SidFacts {
    SidFacts { well_known_trusted: true, text: Some("S-1-5-18".to_owned()) }
}

fn administrators() -> SidFacts {
    SidFacts { well_known_trusted: true, text: Some("S-1-5-32-544".to_owned()) }
}

fn users() -> SidFacts {
    SidFacts { well_known_trusted: false, text: Some("S-1-5-32-545".to_owned()) }
}

fn allow(flags: u8, mask: u32, sid: SidFacts) -> Option<AceFacts> {
    Some(AceFacts { ace_type: 0, flags, mask, sid })
}

fn descriptor(owner: SidFacts, protected: bool, aces: Vec<Option<AceFacts>>) -> DescriptorFacts {
    let control = if protected {
        DACL_PRESENT_SELF_RELATIVE | DACL_PROTECTED
    } else {
        DACL_PRESENT_SELF_RELATIVE
    };
    DescriptorFacts { owner: Some(owner), control: Some(control), dacl: Some(aces) }
}

// DIRECTORY_SECURITY: "O:BAG:BAD:P(A;OICI;FA;;;SY)(A;OICI;FA;;;BA)(A;OICI;GRGX;;;BU)".
fn directory_security() -> DescriptorFacts {
    descriptor(
        administrators(),
        true,
        vec![
            allow(OBJECT_AND_CONTAINER_INHERIT, FILE_ALL_ACCESS, system()),
            allow(OBJECT_AND_CONTAINER_INHERIT, FILE_ALL_ACCESS, administrators()),
            allow(OBJECT_AND_CONTAINER_INHERIT, GENERIC_READ_EXECUTE, users()),
        ],
    )
}

#[test]
fn accepts_only_protected_administrator_owned_runtime_permissions() {
    assert_eq!(
        DIRECTORY_SECURITY,
        "O:BAG:BAD:P(A;OICI;FA;;;SY)(A;OICI;FA;;;BA)(A;OICI;GRGX;;;BU)"
    );
    let users_full = descriptor(
        administrators(),
        true,
        vec![
            allow(OBJECT_AND_CONTAINER_INHERIT, FILE_ALL_ACCESS, system()),
            allow(OBJECT_AND_CONTAINER_INHERIT, FILE_ALL_ACCESS, administrators()),
            allow(OBJECT_AND_CONTAINER_INHERIT, FILE_ALL_ACCESS, users()),
        ],
    );
    let user_owned = descriptor(
        users(),
        true,
        vec![
            allow(OBJECT_AND_CONTAINER_INHERIT, FILE_ALL_ACCESS, system()),
            allow(OBJECT_AND_CONTAINER_INHERIT, FILE_ALL_ACCESS, administrators()),
        ],
    );
    let inheriting = descriptor(
        administrators(),
        false,
        vec![
            allow(OBJECT_AND_CONTAINER_INHERIT, FILE_ALL_ACCESS, system()),
            allow(OBJECT_AND_CONTAINER_INHERIT, FILE_ALL_ACCESS, administrators()),
        ],
    );
    for (facts, expected) in [
        (directory_security(), true),
        (users_full, false),
        (user_owned, false),
        (inheriting, false),
    ] {
        assert_eq!(descriptor_allows(&facts, true, WRITE_ACCESS), expected);
    }
}

#[test]
fn ancestor_checks_allow_creation_but_reject_replacing_children() {
    // "O:BAG:BAD:(A;;FA;;;SY)(A;;FA;;;BA)(A;;0x00000004;;;BU)"
    let create = descriptor(
        administrators(),
        false,
        vec![
            allow(0, FILE_ALL_ACCESS, system()),
            allow(0, FILE_ALL_ACCESS, administrators()),
            allow(0, 0x0000_0004, users()),
        ],
    );
    assert!(descriptor_allows(&create, false, REPLACE_ACCESS));
    assert!(!descriptor_allows(&create, false, WRITE_ACCESS));
    // "O:BAG:BAD:(A;;FA;;;SY)(A;;FA;;;BA)(A;;0x00000040;;;BU)"
    let replace = descriptor(
        administrators(),
        false,
        vec![
            allow(0, FILE_ALL_ACCESS, system()),
            allow(0, FILE_ALL_ACCESS, administrators()),
            allow(0, 0x0000_0040, users()),
        ],
    );
    assert!(!descriptor_allows(&replace, false, REPLACE_ACCESS));
}

#[test]
fn configuration_permissions_do_not_grant_other_users_content_access() {
    assert_eq!(CONFIG_SECURITY, "O:BAG:BAD:P(A;;FA;;;SY)(A;;FA;;;BA)(A;;0x00020080;;;BU)");
    let config = descriptor(
        administrators(),
        true,
        vec![
            allow(0, FILE_ALL_ACCESS, system()),
            allow(0, FILE_ALL_ACCESS, administrators()),
            allow(0, 0x0002_0080, users()),
        ],
    );
    assert!(descriptor_allows(&config, true, WRITE_ACCESS));
    for ace in config.dacl.as_ref().unwrap() {
        let ace = ace.as_ref().unwrap();
        if !ace.sid.well_known_trusted {
            assert_eq!(ace.mask & (0x0000_0001 | 0x8000_0000 | 0x1000_0000), 0);
        }
    }
}

#[test]
fn rejects_paths_and_names_that_escape_the_selected_directory() {
    assert!(check_pin_path("relative").is_err());
    for name in [
        "../core.dll",
        r"child\core.dll",
        "core.dll:stream",
        ".",
        "..",
        "core.dll.",
        "core.dll ",
    ] {
        assert!(!safe_name(name));
    }
    assert!(safe_name("libcronet.dll"));
}

#[test]
fn descriptor_checks_cover_every_entry() {
    assert_eq!(REPLACE_ACCESS, 0x500D_0040);
    assert_eq!(WRITE_ACCESS, 0x500D_0156);
    // Entries that only apply to children, and denials, grant nothing here.
    let inherit_only = descriptor(administrators(), false, vec![allow(0x08, FILE_ALL_ACCESS, users())]);
    assert!(descriptor_allows(&inherit_only, false, WRITE_ACCESS));
    let denied = descriptor(
        administrators(),
        false,
        vec![Some(AceFacts { ace_type: 1, flags: 0, mask: FILE_ALL_ACCESS, sid: users() })],
    );
    assert!(descriptor_allows(&denied, false, WRITE_ACCESS));
    // Any other entry type, or an entry that cannot be read, is refused.
    let audit = descriptor(
        administrators(),
        false,
        vec![Some(AceFacts { ace_type: 2, flags: 0, mask: 0, sid: system() })],
    );
    assert!(!descriptor_allows(&audit, false, WRITE_ACCESS));
    let unreadable = descriptor(administrators(), false, vec![None]);
    assert!(!descriptor_allows(&unreadable, false, WRITE_ACCESS));
    // TrustedInstaller is trusted by its SID string.
    let installer = SidFacts {
        well_known_trusted: false,
        text: Some("S-1-5-80-956008885-3418522649-1831038044-1853292631-2271478464".to_owned()),
    };
    let owned = descriptor(installer, false, vec![]);
    assert!(descriptor_allows(&owned, false, WRITE_ACCESS));
    // A missing owner, control or DACL fails.
    let mut no_dacl = directory_security();
    no_dacl.dacl = None;
    assert!(!descriptor_allows(&no_dacl, true, WRITE_ACCESS));
    let mut no_control = directory_security();
    no_control.control = None;
    assert!(!descriptor_allows(&no_control, true, WRITE_ACCESS));
    assert!(descriptor_allows(&no_control, false, WRITE_ACCESS));
    let mut no_owner = directory_security();
    no_owner.owner = None;
    assert_eq!(
        check_descriptor(&no_owner, false, WRITE_ACCESS),
        Err("服务运行目录权限不安全，请使用仅管理员可写的安装目录".to_owned())
    );
    assert!(check_descriptor(&directory_security(), true, WRITE_ACCESS).is_ok());
    // What keeps all write rights keeps the replace rights too.
    assert!(descriptor_allows(&directory_security(), true, REPLACE_ACCESS));
}

#[test]
fn service_files_stay_inside_their_directory() {
    assert!(check_pin_path("/opt/service").is_ok());
    assert_eq!(child_dir_path("/opt/service", "runtime-1-2-3"), Ok("/opt/service/runtime-1-2-3".to_owned()));
    assert_eq!(child_dir_path("/opt/service", ".."), Err("无效的服务运行目录名称".to_owned()));
    assert_eq!(child_file_path("/opt/service", "config.json"), Ok("/opt/service/config.json".to_owned()));
    assert_eq!(child_file_path("/opt/service", "a|b"), Err("无效的服务运行文件名称".to_owned()));
    assert!(check_file_in_directory("/opt/service/config.json", "/opt/service/").is_ok());
    assert_eq!(
        check_file_in_directory("/opt/service/sub/config.json", "/opt/service"),
        Err("服务文件不在运行目录中".to_owned())
    );
    assert!(check_file_in_directory("/", "/").is_err());
    assert_eq!(service_dir_of("/opt"), "/opt/singboard-service");
}
