//! The settings view's navigation and close policy.
//!
//! The view edits the draft only; changes reach the running emulator when the
//! front end applies a validated draft.

use vstd::prelude::*;
use crate::app::config_controller::SettingsState;
use crate::domain::config::same_config;
use super::theme::ThemeKind;

verus! {

#[derive(Clone, Copy, Debug, Eq, Hash, PartialEq, Structural)]
pub enum SettingsPage {
    General,
    Terminal,
    Connection,
    Throttle,
    TapeReader,
    TapePunch,
    Sound,
    Ssh,
}

impl Default for SettingsPage {
    fn default() -> (page: Self)
        ensures
            page == SettingsPage::General,
    {
        SettingsPage::General
    }
}

/// Which full view the window shows.
#[derive(Clone, Copy, Debug, Eq, PartialEq, Structural)]
pub enum AppView {
    Terminal,
    Settings,
}

impl Default for AppView {
    fn default() -> (view: Self)
        ensures
            view == AppView::Terminal,
    {
        AppView::Terminal
    }
}

impl AppView {
    pub fn open_settings(&mut self)
        ensures
            *final(self) == AppView::Settings,
    {
        *self = AppView::Settings;
    }

    pub fn show_terminal(&mut self)
        ensures
            *final(self) == AppView::Terminal,
    {
        *self = AppView::Terminal;
    }
}

#[derive(Clone, Copy, Debug, Eq, PartialEq, Structural)]
pub enum SettingsAction {
    Apply,
    Save,
    Cancel,
    Revert,
    Reconnect,
    RefreshPorts,
    Close,
}

/// The navigation entries, in order, with their labels.
pub fn pages() -> (pages: Vec<(SettingsPage, &'static str)>)
    ensures
        pages@.len() == 8,
        pages@[0] == (SettingsPage::General, "General"),
        pages@[1] == (SettingsPage::Terminal, "Terminal"),
        pages@[2] == (SettingsPage::Connection, "Connection"),
        pages@[3] == (SettingsPage::Throttle, "Throttle"),
        pages@[4] == (SettingsPage::TapeReader, "Tape Reader"),
        pages@[5] == (SettingsPage::TapePunch, "Tape Punch"),
        pages@[6] == (SettingsPage::Sound, "Sound"),
        pages@[7] == (SettingsPage::Ssh, "SSH"),
{
    vec![
        (SettingsPage::General, "General"),
        (SettingsPage::Terminal, "Terminal"),
        (SettingsPage::Connection, "Connection"),
        (SettingsPage::Throttle, "Throttle"),
        (SettingsPage::TapeReader, "Tape Reader"),
        (SettingsPage::TapePunch, "Tape Punch"),
        (SettingsPage::Sound, "Sound"),
        (SettingsPage::Ssh, "SSH"),
    ]
}

/// The footer's summary of where the edits stand.
pub fn status_text(draft_dirty: bool, theme_dirty: bool, unsaved: bool) -> (text: &'static str)
    ensures
        text == (if draft_dirty || theme_dirty {
            "Unapplied edits"
        } else if unsaved {
            "Applied, not saved"
        } else {
            "No unapplied changes"
        }),
{
    if draft_dirty || theme_dirty {
        "Unapplied edits"
    } else if unsaved {
        "Applied, not saved"
    } else {
        "No unapplied changes"
    }
}

pub struct SettingsView {
    page: SettingsPage,
    pub error: Option<String>,
    confirm_discard: bool,
    pub applied_theme: ThemeKind,
    pub draft_theme: ThemeKind,
}

impl Default for SettingsView {
    fn default() -> (view: Self)
        ensures
            view.spec_page() == SettingsPage::General,
            view.spec_error() is None,
            !view.spec_confirm_discard(),
            view.spec_applied_theme() == ThemeKind::Light,
            view.spec_draft_theme() == ThemeKind::Light,
    {
        SettingsView {
            page: SettingsPage::General,
            error: None,
            confirm_discard: false,
            applied_theme: ThemeKind::Light,
            draft_theme: ThemeKind::Light,
        }
    }
}

impl SettingsView {
    pub closed spec fn spec_page(&self) -> SettingsPage {
        self.page
    }

    pub closed spec fn spec_confirm_discard(&self) -> bool {
        self.confirm_discard
    }

    pub closed spec fn spec_error(&self) -> Option<String> {
        self.error
    }

    pub closed spec fn spec_applied_theme(&self) -> ThemeKind {
        self.applied_theme
    }

    pub closed spec fn spec_draft_theme(&self) -> ThemeKind {
        self.draft_theme
    }

    /// Open the view on `state`, starting a fresh draft from what is applied.
    pub fn open(&mut self, state: &mut SettingsState, theme: ThemeKind)
        ensures
            same_config(final(state)@.draft, old(state)@.applied),
            final(state)@.applied == old(state)@.applied,
            final(state)@.disk == old(state)@.disk,
            final(state)@.start == old(state)@.start,
            final(state)@.repeat == old(state)@.repeat,
            final(state)@.location == old(state)@.location,
            final(state)@.pending_restart == old(state)@.pending_restart,
            final(state)@.pending_reconnect == old(state)@.pending_reconnect,
            final(self).spec_applied_theme() == theme,
            final(self).spec_draft_theme() == theme,
            final(self).spec_error() is None,
            !final(self).spec_confirm_discard(),
            final(self).spec_page() == old(self).spec_page(),
    {
        state.open();
        self.applied_theme = theme;
        self.draft_theme = theme;
        self.error = None;
        self.confirm_discard = false;
    }

    /// Closing with unapplied edits first asks to discard them.
    pub fn request_close(&mut self, dirty: bool) -> (action: Option<SettingsAction>)
        ensures
            dirty ==> action is None && final(self).spec_confirm_discard(),
            !dirty ==> action == Some(SettingsAction::Close) && final(self).spec_confirm_discard()
                == old(self).spec_confirm_discard(),
            final(self).spec_page() == old(self).spec_page(),
            final(self).spec_applied_theme() == old(self).spec_applied_theme(),
            final(self).spec_draft_theme() == old(self).spec_draft_theme(),
            final(self).spec_error() == old(self).spec_error(),
    {
        if dirty {
            self.confirm_discard = true;
            None
        } else {
            Some(SettingsAction::Close)
        }
    }

    pub fn keep_editing(&mut self)
        ensures
            !final(self).spec_confirm_discard(),
            final(self).spec_page() == old(self).spec_page(),
            final(self).spec_applied_theme() == old(self).spec_applied_theme(),
            final(self).spec_draft_theme() == old(self).spec_draft_theme(),
            final(self).spec_error() == old(self).spec_error(),
    {
        self.confirm_discard = false;
    }

    /// Confirm the discard prompt: the edits are cancelled.
    pub fn discard_edits(&mut self) -> (action: SettingsAction)
        ensures
            action == SettingsAction::Cancel,
            !final(self).spec_confirm_discard(),
            final(self).spec_page() == old(self).spec_page(),
            final(self).spec_applied_theme() == old(self).spec_applied_theme(),
            final(self).spec_draft_theme() == old(self).spec_draft_theme(),
            final(self).spec_error() == old(self).spec_error(),
    {
        self.confirm_discard = false;
        SettingsAction::Cancel
    }

    pub fn discard_confirmation_visible(&self) -> (visible: bool)
        ensures
            visible == self.spec_confirm_discard(),
    {
        self.confirm_discard
    }

    pub fn page(&self) -> (page: SettingsPage)
        ensures
            page == self.spec_page(),
    {
        self.page
    }

    pub fn select_page(&mut self, page: SettingsPage)
        ensures
            final(self).spec_page() == page,
            final(self).spec_confirm_discard() == old(self).spec_confirm_discard(),
            final(self).spec_applied_theme() == old(self).spec_applied_theme(),
            final(self).spec_draft_theme() == old(self).spec_draft_theme(),
            final(self).spec_error() == old(self).spec_error(),
    {
        self.page = page;
    }
}

} // verus!
