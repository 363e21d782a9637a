use tauri_plugin_nspopover::commands::{Command, PLUGIN_NAME};

#[test]
fn plugin_is_named_nspopover() {
    assert_eq!(PLUGIN_NAME, "nspopover");
}

#[test]
fn command_names_match_the_declared_list() {
    let names: Vec<&str> = Command::all().iter().map(|c| c.name()).collect();
    assert_eq!(names, vec!["show_popover", "hide_popover", "is_popover_shown"]);
}

#[test]
fn every_name_selects_its_command() {
    for c in Command::all() {
        assert_eq!(Command::from_name(c.name()), Some(c));
    }
}

#[test]
fn from_name_parses_each_command() {
    assert_eq!(Command::from_name("show_popover"), Some(Command::ShowPopover));
    assert_eq!(Command::from_name("hide_popover"), Some(Command::HidePopover));
    assert_eq!(Command::from_name("is_popover_shown"), Some(Command::IsPopoverShown));
}

#[test]
fn from_name_refuses_unknown_names() {
    assert_eq!(Command::from_name(""), None);
    assert_eq!(Command::from_name("show_popove"), None);
    assert_eq!(Command::from_name("show_popover "), None);
    assert_eq!(Command::from_name("Show_popover"), None);
    assert_eq!(Command::from_name("toggle_popover"), None);
}
