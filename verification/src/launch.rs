//! How the panel executable was asked to start, and where its tray menu opens.
use vstd::prelude::*;
use crate::text::{append_chars, chars_of, same_chars, string_of};

verus! {

/// What the panel executable does when it starts.
pub enum LaunchMode {
    /// Run an older installation's service under this name.
    Service(String),
    /// Show the panel, starting hidden in the tray when asked to.
    Gui { hidden: bool },
}

/// The service name an older installation passes after `service`, or
/// `sing-box` when it passes none.
pub open spec fn legacy_service_arg(args: Seq<String>) -> Seq<char> {
    if args.len() > 2 {
        args[2]@
    } else {
        "sing-box"@
    }
}

/// How to start for the command line `args` (the program itself first):
/// `service [name]` runs a service; otherwise the panel starts, hidden when
/// any argument is `--hidden`.
pub fn launch_mode(args: &Vec<String>) -> (res: LaunchMode)
    ensures
        args@.len() > 1 && args@[1]@ == "service"@ ==> (res matches LaunchMode::Service(n) && n@
            == legacy_service_arg(args@)),
        !(args@.len() > 1 && args@[1]@ == "service"@) ==> (res matches LaunchMode::Gui { hidden }
            && hidden == exists|i: int| 0 <= i < args@.len() && (#[trigger] args@[i])@ == "--hidden"@),
{
    if args.len() > 1 && same_chars(&chars_of(args[1].as_str()), "service") {
        if args.len() > 2 {
            return LaunchMode::Service(args[2].clone());
        }
        return LaunchMode::Service("sing-box".to_owned());
    }
    let mut hidden = false;
    let mut i: usize = 0;
    while i < args.len()
        invariant
            i <= args@.len(),
            hidden == exists|k: int| 0 <= k < i && (#[trigger] args@[k])@ == "--hidden"@,
        decreases args.len() - i,
    {
        if same_chars(&chars_of(args[i].as_str()), "--hidden") {
            hidden = true;
        }
        i += 1;
    }
    LaunchMode::Gui { hidden }
}

/// Where the tray menu window of size `w` by `h` opens for a click at
/// `(px, py)` on a monitor at `(mx, my)` of size `mw` by `mh`: to the right
/// of and above the pointer, flipped to the left or below where it would
/// leave the monitor, then pushed back inside the monitor.
pub open spec fn tray_menu_spec(
    px: int,
    py: int,
    w: int,
    h: int,
    mx: int,
    my: int,
    mw: int,
    mh: int,
) -> (int, int) {
    let x0 = if px + w <= mx + mw { px } else { px - w };
    let y0 = if py - h >= my { py - h } else { py };
    let x1 = if x0 > mx { x0 } else { mx };
    let y1 = if y0 > my { y0 } else { my };
    let x = if x1 < mx + mw - w { x1 } else { mx + mw - w };
    let y = if y1 < my + mh - h { y1 } else { my + mh - h };
    (x, y)
}

/// The position of the tray menu window; see [`tray_menu_spec`].
pub fn tray_menu_position(
    px: i32,
    py: i32,
    w: i32,
    h: i32,
    mx: i32,
    my: i32,
    mw: i32,
    mh: i32,
) -> (res: (i32, i32))
    requires
        i32::MIN <= px + w <= i32::MAX,
        i32::MIN <= px - w <= i32::MAX,
        i32::MIN <= py - h <= i32::MAX,
        i32::MIN <= mx + mw <= i32::MAX,
        i32::MIN <= my + mh <= i32::MAX,
        i32::MIN <= mx + mw - w <= i32::MAX,
        i32::MIN <= my + mh - h <= i32::MAX,
    ensures
        res.0 == tray_menu_spec(px as int, py as int, w as int, h as int, mx as int, my as int, mw as int, mh as int).0,
        res.1 == tray_menu_spec(px as int, py as int, w as int, h as int, mx as int, my as int, mw as int, mh as int).1,
{
    let x0 = if px + w <= mx + mw { px } else { px - w };
    let y0 = if py - h >= my { py - h } else { py };
    let x1 = if x0 > mx { x0 } else { mx };
    let y1 = if y0 > my { y0 } else { my };
    let x = if x1 < mx + mw - w { x1 } else { mx + mw - w };
    let y = if y1 < my + mh - h { y1 } else { my + mh - h };
    (x, y)
}

/// When the menu fits on the monitor it opens wholly inside it.
pub proof fn tray_menu_stays_on_monitor(
    px: int,
    py: int,
    w: int,
    h: int,
    mx: int,
    my: int,
    mw: int,
    mh: int,
)
    requires
        0 <= w <= mw,
        0 <= h <= mh,
    ensures
        mx <= tray_menu_spec(px, py, w, h, mx, my, mw, mh).0,
        tray_menu_spec(px, py, w, h, mx, my, mw, mh).0 + w <= mx + mw,
        my <= tray_menu_spec(px, py, w, h, mx, my, mw, mh).1,
        tray_menu_spec(px, py, w, h, mx, my, mw, mh).1 + h <= my + mh,
{
}

/// The registry key under which programs start at logon.
pub const AUTO_LAUNCH_KEY: &'static str = "Software\\Microsoft\\Windows\\CurrentVersion\\Run";

/// The value name of the panel under [`AUTO_LAUNCH_KEY`].
pub const AUTO_LAUNCH_NAME: &'static str = "singboard";

/// The command that starts the panel at logon: the quoted executable, hidden.
pub fn auto_launch_command(exe: &str) -> (res: String)
    ensures
        res@ == seq!['"'] + exe@ + "\" --hidden"@,
{
    let mut out: Vec<char> = Vec::new();
    out.push('"');
    append_chars(&mut out, exe);
    append_chars(&mut out, "\" --hidden");
    string_of(&out)
}

} // verus!
