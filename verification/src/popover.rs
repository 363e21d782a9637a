use vstd::prelude::*;

use crate::commands::Command;
use crate::tray::TrayEvent;

verus! {

/// The edge of the anchor rectangle next to which the popover prefers to open.
#[derive(Clone, Copy, Debug, PartialEq, Eq, Structural)]
pub enum RectEdge {
    MinX,
    MinY,
    MaxX,
    MaxY,
}

/// What the host is asked to do to the popover.
#[derive(Clone, Copy, Debug, PartialEq, Eq, Structural)]
pub enum PopoverEffect {
    /// Leave the popover as it is.
    Nothing,
    /// Show the popover anchored to the bounds of the status bar button,
    /// preferring the given edge.
    ShowRelativeToButton(RectEdge),
    /// Close the popover.
    PerformClose,
}

/// Whether the popover is visible once the host has carried out `effect`,
/// starting from visibility `shown`.
pub open spec fn visible_after(shown: bool, effect: PopoverEffect) -> bool {
    match effect {
        PopoverEffect::Nothing => shown,
        PopoverEffect::ShowRelativeToButton(_) => true,
        PopoverEffect::PerformClose => false,
    }
}

/// The edge below the status bar button, where the popover opens.
pub open spec fn show_below_button() -> PopoverEffect {
    PopoverEffect::ShowRelativeToButton(RectEdge::MaxY)
}

/// What showing the popover asks of the host.
pub open spec fn show_effect(installed: bool, shown: bool) -> PopoverEffect {
    if installed && !shown {
        show_below_button()
    } else {
        PopoverEffect::Nothing
    }
}

/// What hiding the popover asks of the host.
pub open spec fn hide_effect(installed: bool, shown: bool) -> PopoverEffect {
    if installed && shown {
        PopoverEffect::PerformClose
    } else {
        PopoverEffect::Nothing
    }
}

/// What a click on the status bar button asks of the host.
pub open spec fn toggle_effect(shown: bool) -> PopoverEffect {
    if shown {
        PopoverEffect::PerformClose
    } else {
        show_below_button()
    }
}

/// What an event on the tray icon asks of the host: with a popover
/// installed, every event toggles it; without one, nothing happens.
pub open spec fn tray_effect(installed: bool, shown: bool) -> PopoverEffect {
    if installed {
        toggle_effect(shown)
    } else {
        PopoverEffect::Nothing
    }
}

/// The reply the webview gets to a command.
#[derive(Clone, Copy, Debug, PartialEq, Eq, Structural)]
pub enum CommandReply {
    /// The command was carried out and has nothing to report.
    Done,
    /// Whether the popover is shown.
    Shown(bool),
}

/// What a command asks of the host.
pub open spec fn command_effect(cmd: Command, installed: bool, shown: bool) -> PopoverEffect {
    match cmd {
        Command::ShowPopover => show_effect(installed, shown),
        Command::HidePopover => hide_effect(installed, shown),
        Command::IsPopoverShown => PopoverEffect::Nothing,
    }
}

/// What a command answers.
pub open spec fn command_reply(cmd: Command, installed: bool, shown: bool) -> CommandReply {
    match cmd {
        Command::IsPopoverShown => CommandReply::Shown(installed && shown),
        _ => CommandReply::Done,
    }
}

/// The popover and the status bar button it is anchored to.
pub struct PopoverHandles<P, B> {
    pub popover: P,
    pub button: B,
}

/// The state the plugin keeps: the popover and its anchor, once a window
/// has been turned into a popover.
pub struct PopoverState<P, B> {
    handles: Option<PopoverHandles<P, B>>,
}

impl<P, B> View for PopoverState<P, B> {
    type V = Option<(P, B)>;

    closed spec fn view(&self) -> Option<(P, B)> {
        match self.handles {
            Some(h) => Some((h.popover, h.button)),
            None => None,
        }
    }
}

impl<P, B> PopoverState<P, B> {
    /// The state before any window has been turned into a popover.
    pub fn new() -> (r: Self)
        ensures
            r@ is None,
    {
        PopoverState { handles: None }
    }

    /// Records the popover and its anchor, replacing any earlier ones.
    pub fn install(&mut self, popover: P, button: B)
        ensures
            final(self)@ == Some((popover, button)),
    {
        self.handles = Some(PopoverHandles { popover, button });
    }

    /// Whether a popover has been installed.
    pub fn is_installed(&self) -> (r: bool)
        ensures
            r == self@ is Some,
    {
        self.handles.is_some()
    }

    /// The installed popover, if any.
    pub fn popover(&self) -> (r: Option<&P>)
        ensures
            r is Some == self@ is Some,
            r matches Some(p) ==> *p == self@.unwrap().0,
    {
        match &self.handles {
            Some(h) => Some(&h.popover),
            None => None,
        }
    }

    /// The status bar button the popover is anchored to, if any.
    pub fn button(&self) -> (r: Option<&B>)
        ensures
            r is Some == self@ is Some,
            r matches Some(b) ==> *b == self@.unwrap().1,
    {
        match &self.handles {
            Some(h) => Some(&h.button),
            None => None,
        }
    }

    /// Whether the popover is shown, given whether the installed popover
    /// reports itself shown (`shown` is not consulted without a popover).
    pub fn is_popover_shown(&self, shown: bool) -> (r: bool)
        ensures
            r == (self@ is Some && shown),
    {
        self.is_installed() && shown
    }

    /// What showing the popover asks of the host, given whether the
    /// installed popover reports itself shown.
    pub fn show_popover(&self, shown: bool) -> (r: PopoverEffect)
        ensures
            r == show_effect(self@ is Some, shown),
    {
        if !self.is_installed() {
            return PopoverEffect::Nothing;
        }
        if !shown {
            PopoverEffect::ShowRelativeToButton(RectEdge::MaxY)
        } else {
            PopoverEffect::Nothing
        }
    }

    /// What hiding the popover asks of the host, given whether the
    /// installed popover reports itself shown.
    pub fn hide_popover(&self, shown: bool) -> (r: PopoverEffect)
        ensures
            r == hide_effect(self@ is Some, shown),
    {
        if !self.is_installed() {
            return PopoverEffect::Nothing;
        }
        if shown {
            PopoverEffect::PerformClose
        } else {
            PopoverEffect::Nothing
        }
    }

    /// What an event on the tray icon asks of the host: whatever the event,
    /// the popover is hidden when it is shown and shown otherwise.
    pub fn on_tray_event(&self, _event: TrayEvent, shown: bool) -> (r: PopoverEffect)
        ensures
            r == tray_effect(self@ is Some, shown),
    {
        if !self.is_popover_shown(shown) {
            self.show_popover(shown)
        } else {
            self.hide_popover(shown)
        }
    }

    /// What a command asks of the host, and what it answers.
    pub fn run_command(&self, cmd: Command, shown: bool) -> (r: (PopoverEffect, CommandReply))
        ensures
            r.0 == command_effect(cmd, self@ is Some, shown),
            r.1 == command_reply(cmd, self@ is Some, shown),
    {
        match cmd {
            Command::ShowPopover => (self.show_popover(shown), CommandReply::Done),
            Command::HidePopover => (self.hide_popover(shown), CommandReply::Done),
            Command::IsPopoverShown => (
                PopoverEffect::Nothing,
                CommandReply::Shown(self.is_popover_shown(shown)),
            ),
        }
    }
}

/// What a click on the status bar button asks of the host: close the
/// popover when it is shown, show it below the button otherwise.
pub fn on_status_button_click(shown: bool) -> (r: PopoverEffect)
    ensures
        r == toggle_effect(shown),
{
    if !shown {
        PopoverEffect::ShowRelativeToButton(RectEdge::MaxY)
    } else {
        PopoverEffect::PerformClose
    }
}

} // verus!
