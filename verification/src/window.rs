use vstd::prelude::*;

use crate::contracts::RuntimeStatus;

verus! {

pub const SETTINGS_WINDOW_LABEL: &'static str = "settings";
pub const CHARACTER_VISIBILITY_CHANGED_EVENT: &'static str = "waifudex://character-visibility-changed";
pub const SETTINGS_WINDOW_TITLE: &'static str = "Settings - waifudex";
pub const SETTINGS_WINDOW_ENTRY: &'static str = "index.html";

/// What opening the settings window does.
#[derive(Debug, Clone, Copy, PartialEq, Eq, Structural)]
pub enum SettingsWindowAction {
    ShowExisting,
    CreateNew,
}

/// What the character window has to do.
#[derive(Debug, Clone, Copy, PartialEq, Eq, Structural)]
pub enum WindowCommand {
    Show,
    Hide,
    Noop,
}

/// Whether the character window is shown, and whether the user last opened or hid it by hand.
#[derive(Debug, Clone, Copy, PartialEq, Eq, Structural)]
pub struct WindowVisibilityPolicy {
    manual_open: bool,
    manual_hidden: bool,
    visible: bool,
}

pub struct VisibilityView {
    pub manual_open: bool,
    pub manual_hidden: bool,
    pub visible: bool,
}

impl View for WindowVisibilityPolicy {
    type V = VisibilityView;

    closed spec fn view(&self) -> VisibilityView {
        VisibilityView { manual_open: self.manual_open, manual_hidden: self.manual_hidden, visible: self.visible }
    }
}

/// The command that brings a window from `current_visible` to `requested_visible`.
pub open spec fn explicit_change(current_visible: bool, requested_visible: bool) -> WindowCommand {
    if !current_visible && requested_visible {
        WindowCommand::Show
    } else if current_visible && !requested_visible {
        WindowCommand::Hide
    } else {
        WindowCommand::Noop
    }
}

pub fn resolve_explicit_visibility_change(current_visible: bool, requested_visible: bool) -> (r: WindowCommand)
    ensures
        r == explicit_change(current_visible, requested_visible),
{
    match (current_visible, requested_visible) {
        (false, true) => WindowCommand::Show,
        (true, false) => WindowCommand::Hide,
        _ => WindowCommand::Noop,
    }
}

/// An existing settings window is shown again rather than created anew.
pub fn settings_window_action(window_exists: bool) -> (r: SettingsWindowAction)
    ensures
        r == (if window_exists { SettingsWindowAction::ShowExisting } else { SettingsWindowAction::CreateNew }),
{
    if window_exists {
        SettingsWindowAction::ShowExisting
    } else {
        SettingsWindowAction::CreateNew
    }
}

/// The state after the window was observed to be `visible`.
pub open spec fn synced(v: VisibilityView, visible: bool) -> VisibilityView {
    if visible {
        VisibilityView { visible, manual_hidden: false, ..v }
    } else {
        VisibilityView { visible, manual_open: false, ..v }
    }
}

impl WindowVisibilityPolicy {
    /// A visible window with no manual choice; the grace count is not used.
    pub fn new(grace_polls: u8) -> (r: Self)
        ensures
            r@ == (VisibilityView { manual_open: false, manual_hidden: false, visible: true }),
    {
        let _ = grace_polls;
        WindowVisibilityPolicy { manual_open: false, manual_hidden: false, visible: true }
    }

    pub fn is_visible(&self) -> (r: bool)
        ensures
            r == self@.visible,
    {
        self.visible
    }

    pub fn sync_visible(&mut self, visible: bool)
        ensures
            final(self)@ == synced(old(self)@, visible),
    {
        self.visible = visible;
        if visible {
            self.manual_hidden = false;
        } else {
            self.manual_open = false;
        }
    }

    /// The user opens the window by hand.
    pub fn mark_manual_open(&mut self) -> (r: WindowCommand)
        ensures
            final(self)@ == (VisibilityView { manual_open: true, manual_hidden: false, visible: true }),
            r == (if old(self)@.visible { WindowCommand::Noop } else { WindowCommand::Show }),
    {
        self.manual_open = true;
        self.manual_hidden = false;
        if self.visible {
            WindowCommand::Noop
        } else {
            self.visible = true;
            WindowCommand::Show
        }
    }

    /// The user hides the window by hand.
    pub fn mark_manual_close(&mut self) -> (r: WindowCommand)
        ensures
            final(self)@ == (VisibilityView { manual_open: false, manual_hidden: true, visible: false }),
            r == (if old(self)@.visible { WindowCommand::Hide } else { WindowCommand::Noop }),
    {
        self.manual_open = false;
        self.manual_hidden = true;
        if self.visible {
            self.visible = false;
            WindowCommand::Hide
        } else {
            WindowCommand::Noop
        }
    }

    /// The user toggles the window that is now `visible`: it is hidden when visible and
    /// shown when hidden, by hand.
    pub fn toggle(&mut self, visible: bool) -> (r: WindowCommand)
        ensures
            r == (if visible { WindowCommand::Hide } else { WindowCommand::Show }),
            final(self)@ == (VisibilityView { manual_open: !visible, manual_hidden: visible, visible: !visible }),
    {
        self.sync_visible(visible);
        if visible {
            self.mark_manual_close()
        } else {
            self.mark_manual_open()
        }
    }

    /// Status changes never show or hide the character window.
    pub fn on_status(&mut self, status: RuntimeStatus) -> (r: WindowCommand)
        ensures
            r == WindowCommand::Noop,
            final(self)@ == old(self)@,
    {
        let _ = status;
        WindowCommand::Noop
    }
}

} // verus!
