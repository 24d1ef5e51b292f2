use singboard::launch::{
    auto_launch_command, launch_mode, tray_menu_position, LaunchMode, AUTO_LAUNCH_KEY,
    AUTO_LAUNCH_NAME,
};

fn args(list: &[&str]) -> Vec<String> {
    list.iter().map(|a| a.to_string()).collect()
}

#[test]
fn command_lines_choose_service_or_panel() {
    match launch_mode(&args(&["singboard.exe", "service", "my-box"])) {
        LaunchMode::Service(name) => assert_eq!(name, "my-box"),
        _ => panic!("service mode expected"),
    }
    match launch_mode(&args(&["singboard.exe", "service"])) {
        LaunchMode::Service(name) => assert_eq!(name, "sing-box"),
        _ => panic!("service mode expected"),
    }
    assert!(matches!(
        launch_mode(&args(&["singboard.exe", "--hidden"])),
        LaunchMode::Gui { hidden: true }
    ));
    assert!(matches!(launch_mode(&args(&["singboard.exe"])), LaunchMode::Gui { hidden: false }));
    assert!(matches!(launch_mode(&args(&[])), LaunchMode::Gui { hidden: false }));
    assert!(matches!(
        launch_mode(&args(&["singboard.exe", "x", "--hidden", "service"])),
        LaunchMode::Gui { hidden: true }
    ));
}

#[test]
fn tray_menu_opens_above_right_and_flips_at_edges() {
    // Room to the right and above.
    assert_eq!(tray_menu_position(100, 500, 200, 300, 0, 0, 1920, 1080), (100, 200));
    // Too close to the right edge: flip left.
    assert_eq!(tray_menu_position(1800, 500, 200, 300, 0, 0, 1920, 1080), (1600, 200));
    // Too close to the top: open below.
    assert_eq!(tray_menu_position(100, 100, 200, 300, 0, 0, 1920, 1080), (100, 100));
    // Too close to the bottom after opening below: pushed up.
    assert_eq!(tray_menu_position(100, 1000, 200, 1100, 0, 0, 1920, 1080), (100, -20));
    // A second monitor to the left.
    assert_eq!(tray_menu_position(-10, 500, 200, 300, -1920, 0, 1920, 1080), (-210, 200));
}

#[test]
fn auto_launch_starts_hidden() {
    assert_eq!(AUTO_LAUNCH_KEY, r"Software\Microsoft\Windows\CurrentVersion\Run");
    assert_eq!(AUTO_LAUNCH_NAME, "singboard");
    assert_eq!(auto_launch_command(r"C:\Apps\singboard.exe"), "\"C:\\Apps\\singboard.exe\" --hidden");
}
