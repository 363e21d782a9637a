use vstd::prelude::*;

use crate::commands::{command_name, Command};
use crate::popover::{
    command_effect, command_reply, hide_effect, show_effect, toggle_effect, tray_effect,
    visible_after, CommandReply, PopoverEffect,
};

verus! {

/// Showing an installed popover leaves it visible, whether or not it was
/// visible before.
pub proof fn law_show_leaves_popover_visible(shown: bool)
    ensures
        visible_after(shown, show_effect(true, shown)),
{
}

/// Hiding an installed popover leaves it hidden, whether or not it was
/// visible before.
pub proof fn law_hide_leaves_popover_hidden(shown: bool)
    ensures
        !visible_after(shown, hide_effect(true, shown)),
{
}

/// A popover that is already visible is never shown a second time, and one
/// that is already hidden is never closed again: the host is only asked to
/// act when the visibility changes.
pub proof fn law_no_redundant_effects(installed: bool, shown: bool)
    ensures
        shown ==> show_effect(installed, shown) == PopoverEffect::Nothing,
        !shown ==> hide_effect(installed, shown) == PopoverEffect::Nothing,
{
}

/// Hiding undoes showing: from a hidden popover, show and then hide
/// leave it hidden again.
pub proof fn law_hide_undoes_show()
    ensures
        ({
            let after_show = visible_after(false, show_effect(true, false));
            after_show && !visible_after(after_show, hide_effect(true, after_show))
        }),
{
}

/// Before a window has been turned into a popover, the popover reads as not
/// shown, and no command or tray event asks anything of the host.
pub proof fn law_nothing_happens_without_popover(shown: bool, cmd: Command)
    ensures
        show_effect(false, shown) == PopoverEffect::Nothing,
        hide_effect(false, shown) == PopoverEffect::Nothing,
        tray_effect(false, shown) == PopoverEffect::Nothing,
        command_effect(cmd, false, shown) == PopoverEffect::Nothing,
        cmd == Command::IsPopoverShown ==> command_reply(cmd, false, shown)
            == CommandReply::Shown(false),
{
}

/// Any event on the tray icon flips the visibility of an installed
/// popover, and asks the same of the host as a click on the status bar
/// button.
pub proof fn law_tray_event_toggles(shown: bool)
    ensures
        visible_after(shown, tray_effect(true, shown)) == !shown,
        tray_effect(true, shown) == toggle_effect(shown),
{
}

/// A click on the status bar button flips the visibility of the popover.
pub proof fn law_status_click_toggles(shown: bool)
    ensures
        visible_after(shown, toggle_effect(shown)) == !shown,
{
}

/// The commands answer what the popover's own methods compute: showing and
/// hiding ask what `show_popover` and `hide_popover` ask, and the query
/// reports the popover shown exactly when it is installed and visible.
pub proof fn law_commands_follow_methods(installed: bool, shown: bool)
    ensures
        command_effect(Command::ShowPopover, installed, shown) == show_effect(installed, shown),
        command_effect(Command::HidePopover, installed, shown) == hide_effect(installed, shown),
        command_effect(Command::IsPopoverShown, installed, shown) == PopoverEffect::Nothing,
        command_reply(Command::IsPopoverShown, installed, shown) == CommandReply::Shown(
            installed && shown,
        ),
        command_reply(Command::ShowPopover, installed, shown) == CommandReply::Done,
        command_reply(Command::HidePopover, installed, shown) == CommandReply::Done,
{
}

/// No two commands share a name, so a name selects at most one command.
pub proof fn law_command_names_distinct(a: Command, b: Command)
    ensures
        command_name(a) == command_name(b) <==> a == b,
{
    if a != b {
        match (a, b) {
            (Command::ShowPopover, Command::HidePopover) | (Command::HidePopover, Command::ShowPopover) => {
                assert(command_name(a)[0] != command_name(b)[0]);
            },
            _ => {
                assert(command_name(a).len() != command_name(b).len() || command_name(a)[0]
                    != command_name(b)[0]);
            },
        }
    }
}

} // verus!
