use singboard::source_files::{
    destinations, guid_file_name, replace_failure, restore_error, restore_result, rollback_step,
    Rollback, RollbackAction,
};

fn files(names: &[&str]) -> Vec<(String, Vec<u8>)> {
    names.iter().map(|n| (n.to_string(), b"bytes".to_vec())).collect()
}

#[test]
fn destinations_put_the_core_at_its_target_and_dlls_beside_it() {
    let target = "/opt/core/custom-core.exe";
    assert_eq!(
        destinations(target, &files(&["sing-box.exe", "libcronet.dll"])),
        Ok(vec!["/opt/core/custom-core.exe".to_owned(), "/opt/core/libcronet.dll".to_owned()])
    );
    assert_eq!(
        destinations(target, &files(&["libcronet.dll"])),
        Err("源核心更新缺少 sing-box.exe".to_owned())
    );
    assert_eq!(destinations("/", &files(&["sing-box.exe"])), Err("源核心目录无效".to_owned()));
}

#[test]
fn invalid_or_duplicate_destinations_are_rejected() {
    let target = "/opt/core/sing-box.exe";
    for bad in ["../outside.dll", "C:outside.dll", "nested\\outside.dll", "bad\n.dll", "", "x.dll.", "x.dll ", "readme.txt"] {
        assert_eq!(
            destinations(target, &files(&["sing-box.exe", bad])),
            Err("源核心文件名称无效".to_owned())
        );
    }
    assert_eq!(
        destinations(target, &files(&["sing-box.exe", "libcronet.dll", "LIBCRONET.DLL"])),
        Err("源核心更新包含重复文件".to_owned())
    );
    assert_eq!(
        destinations(target, &files(&["sing-box.exe", "sing-box.exe"])),
        Err("源核心更新包含重复文件".to_owned())
    );
}

#[test]
fn temporary_names_spell_out_the_guid() {
    let name = guid_file_name("new", 0x0123_4567, 0x89ab, 0x00cd, &[0, 1, 2, 3, 4, 5, 0xfe, 0xff]);
    assert_eq!(name, ".singboard-new-0123456789ab00cd000102030405feff");
    assert!(name.starts_with(".singboard-"));
    assert_eq!(guid_file_name("backup", 0, 0, 0, &[0; 8]).len(), 12 + 6 + 32);
}

#[test]
fn rollback_failures_are_joined_in_order() {
    assert_eq!(restore_result(&vec![]), Ok(()));
    let errors = vec![restore_error("/opt/a.dll", "locked"), restore_error("/opt/b.exe", "gone")];
    assert_eq!(errors[0], "恢复源核心文件 /opt/a.dll 失败: locked");
    assert_eq!(
        restore_result(&errors),
        Err("恢复源核心文件 /opt/a.dll 失败: locked; 恢复源核心文件 /opt/b.exe 失败: gone".to_owned())
    );
    assert_eq!(replace_failure("write failed", &Ok(())), "write failed");
    assert_eq!(
        replace_failure("write failed", &Err("restore failed".to_owned())),
        "write failed; restore failed"
    );
}

#[test]
fn rollbacks_go_backwards_and_carry_on_after_a_failure() {
    let (state, action) = Rollback::start(3);
    assert!(matches!(action, RollbackAction::Restore(2)));
    let (state, action) = rollback_step(state, "/c/b.dll", Err("denied".to_owned()));
    assert!(matches!(action, RollbackAction::Restore(1)));
    let (state, action) = rollback_step(state, "/c/a.dll", Ok(()));
    assert!(matches!(action, RollbackAction::Restore(0)));
    let (state, action) = rollback_step(state, "/c/sing-box.exe", Err("busy".to_owned()));
    match action {
        RollbackAction::Finish(r) => assert_eq!(
            r,
            Err("恢复源核心文件 /c/b.dll 失败: denied; 恢复源核心文件 /c/sing-box.exe 失败: busy".to_owned())
        ),
        RollbackAction::Restore(_) => panic!("the rollback should be over"),
    }
    assert_eq!(state.remaining, 0);
    let (_, action) = Rollback::start(0);
    assert!(matches!(action, RollbackAction::Finish(Ok(()))));
}
