use snaps::schema::{snaps_migrations, SNAPS_TABLE_SQL};
use snaps::shell::{
    respond, summon_shortcut, tray_menu, ButtonState, KeyState, MouseButton, ShellAction,
    ShellEvent, Shortcut,
};

#[test]
fn losing_focus_hides_the_window() {
    assert!(respond(&ShellEvent::WindowFocus(false)) == ShellAction::HideWindow);
    assert!(respond(&ShellEvent::WindowFocus(true)) == ShellAction::Ignore);
}

#[test]
fn summon_shortcut_is_ctrl_alt_s() {
    let s = summon_shortcut();
    assert!(s.control && s.alt && !s.shift && !s.meta);
    assert_eq!(s.key, 'S');
}

#[test]
fn releasing_the_shortcut_summons_the_window() {
    let s = summon_shortcut();
    assert!(respond(&ShellEvent::GlobalShortcut(s, KeyState::Released)) == ShellAction::SummonWindow);
    assert!(respond(&ShellEvent::GlobalShortcut(s, KeyState::Pressed)) == ShellAction::Ignore);
    let other = Shortcut { control: true, alt: true, shift: false, meta: false, key: 'D' };
    assert!(respond(&ShellEvent::GlobalShortcut(other, KeyState::Released)) == ShellAction::Ignore);
}

#[test]
fn left_click_released_on_tray_summons_the_window() {
    let up = ShellEvent::TrayClick(MouseButton::Left, ButtonState::Up);
    assert!(respond(&up) == ShellAction::SummonWindow);
    let down = ShellEvent::TrayClick(MouseButton::Left, ButtonState::Down);
    assert!(respond(&down) == ShellAction::Ignore);
    let right = ShellEvent::TrayClick(MouseButton::Right, ButtonState::Up);
    assert!(respond(&right) == ShellAction::Ignore);
}

#[test]
fn menu_entries_quit_or_open() {
    assert!(respond(&ShellEvent::MenuChosen("quit".to_string())) == ShellAction::Quit);
    assert!(respond(&ShellEvent::MenuChosen("open".to_string())) == ShellAction::SummonWindow);
    assert!(respond(&ShellEvent::MenuChosen("other".to_string())) == ShellAction::Ignore);
}

#[test]
fn tray_menu_lists_open_then_quit() {
    let menu = tray_menu();
    assert_eq!(menu.len(), 2);
    assert_eq!(menu[0], ("open".to_string(), "Open".to_string()));
    assert_eq!(menu[1], ("quit".to_string(), "Quit".to_string()));
}

#[test]
fn one_migration_creates_the_snaps_table() {
    let m = snaps_migrations();
    assert_eq!(m.len(), 1);
    assert_eq!(m[0].version, 1);
    assert_eq!(m[0].description, "create snaps table");
    assert_eq!(m[0].sql, SNAPS_TABLE_SQL);
    assert!(SNAPS_TABLE_SQL.contains("CREATE TABLE IF NOT EXISTS snaps"));
}
