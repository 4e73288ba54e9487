//! Settings state and the classification of configuration differences.
//!
//! A configuration passes through three snapshots: what is on disk, what the
//! running emulator applies, and the draft being edited. Every difference
//! between two configurations is classified as live, needing a reconnect, or
//! needing a restart.

use vstd::prelude::*;
use crate::domain::config::{
    AppConfig, SerialConfig, ValidationError, opt_text, same_config, same_opt_text, same_serial,
    same_tape_punch, same_tape_reader, validation_outcome, TerminalConfig, TerminalSection,
};
use crate::domain::config_store::ConfigStore;

verus! {

#[derive(Clone, Copy, Debug, Eq, PartialEq, Structural)]
pub enum ChangeClass {
    Live,
    Reconnect,
    Restart,
}

#[derive(Clone, Copy, Debug, Eq, PartialEq)]
pub struct ConfigChange {
    pub label: &'static str,
    pub class: ChangeClass,
}

#[derive(Clone, Debug, Default, Eq, PartialEq)]
pub struct ConfigChangePlan {
    pub changes: Vec<ConfigChange>,
}

/// Each setting compared by `ConfigChangePlan::between`, in order: whether it
/// differs between `a` and `b`, and the change entry it makes if so.
pub open spec fn change_candidates(a: AppConfig, b: AppConfig) -> Seq<(bool, ConfigChange)> {
    let x = a.terminal.config;
    let y = b.terminal.config;
    seq![
        (x.mode != y.mode, ConfigChange { label: "communication mode", class: ChangeClass::Live }),
        (x.autowrap != y.autowrap, ConfigChange { label: "autowrap", class: ChangeClass::Restart }),
        (
            x.keyboard_uppercase_only != y.keyboard_uppercase_only,
            ConfigChange { label: "uppercase keyboard", class: ChangeClass::Live },
        ),
        (
            x.keyboard_parity_mode != y.keyboard_parity_mode,
            ConfigChange { label: "keyboard parity", class: ChangeClass::Live },
        ),
        (
            x.keyboard_repeat != y.keyboard_repeat,
            ConfigChange { label: "keyboard repeat", class: ChangeClass::Live },
        ),
        (
            x.input_return_mode != y.input_return_mode,
            ConfigChange { label: "input return mode", class: ChangeClass::Live },
        ),
        (
            x.paste_on_right_click != y.paste_on_right_click,
            ConfigChange { label: "right-click paste", class: ChangeClass::Live },
        ),
        (x.no_print != y.no_print, ConfigChange { label: "printer", class: ChangeClass::Live }),
        (x.font_size != y.font_size, ConfigChange { label: "font size", class: ChangeClass::Live }),
        (
            x.columns != y.columns || x.rows != y.rows || x.scrollback != y.scrollback,
            ConfigChange { label: "terminal dimensions/history", class: ChangeClass::Restart },
        ),
        (
            x.send_cr_at_startup != y.send_cr_at_startup,
            ConfigChange { label: "startup CR", class: ChangeClass::Restart },
        ),
        (
            opt_text(x.font_path) != opt_text(y.font_path),
            ConfigChange { label: "font path", class: ChangeClass::Restart },
        ),
        (
            a.data_throttle != b.data_throttle,
            ConfigChange { label: "data throttle", class: ChangeClass::Live },
        ),
        (
            !same_tape_reader(a.tape_reader.config, b.tape_reader.config),
            ConfigChange { label: "paper-tape reader", class: ChangeClass::Live },
        ),
        (
            !same_tape_punch(a.tape_punch.config, b.tape_punch.config),
            ConfigChange { label: "paper-tape punch", class: ChangeClass::Live },
        ),
        (
            !same_serial(a.backend.serial_config, b.backend.serial_config),
            ConfigChange { label: "serial connection", class: ChangeClass::Reconnect },
        ),
        (a.sound != b.sound, ConfigChange { label: "sound", class: ChangeClass::Live }),
    ]
}

pub open spec fn is_changed() -> spec_fn((bool, ConfigChange)) -> bool {
    |p: (bool, ConfigChange)| p.0
}

/// Every setting that differs between `a` and `b`, in the fixed order, with its class.
pub open spec fn planned_changes(a: AppConfig, b: AppConfig) -> Seq<ConfigChange> {
    change_candidates(a, b).filter(is_changed()).map_values(|p: (bool, ConfigChange)| p.1)
}

/// Some change of the given class is listed.
pub open spec fn has_class(changes: Seq<ConfigChange>, class: ChangeClass) -> bool {
    exists|i: int| 0 <= i < changes.len() && (#[trigger] changes[i]).class == class
}

pub open spec fn is_restart() -> spec_fn(ConfigChange) -> bool {
    |c: ConfigChange| c.class == ChangeClass::Restart
}

/// The labels of the restart-class changes, in order.
pub open spec fn restart_labels(changes: Seq<ConfigChange>) -> Seq<&'static str> {
    changes.filter(is_restart()).map_values(|c: ConfigChange| c.label)
}

fn has_change_class(changes: &Vec<ConfigChange>, class: ChangeClass) -> (found: bool)
    ensures
        found == has_class(changes@, class),
{
    let mut i: usize = 0;
    while i < changes.len()
        invariant
            i <= changes@.len(),
            forall|j: int| 0 <= j < i ==> (#[trigger] changes@[j]).class != class,
        decreases changes@.len() - i,
    {
        if changes[i].class == class {
            return true;
        }
        i += 1;
    }
    false
}

#[verifier::rlimit(80)]
fn change_candidates_of(from: &AppConfig, to: &AppConfig) -> (candidates: Vec<(bool, ConfigChange)>)
    ensures
        candidates@ == change_candidates(*from, *to),
{
    let a = &from.terminal.config;
    let b = &to.terminal.config;
    let candidates = vec![
        (a.mode != b.mode, ConfigChange { label: "communication mode", class: ChangeClass::Live }),
        (a.autowrap != b.autowrap, ConfigChange { label: "autowrap", class: ChangeClass::Restart }),
        (
            a.keyboard_uppercase_only != b.keyboard_uppercase_only,
            ConfigChange { label: "uppercase keyboard", class: ChangeClass::Live },
        ),
        (
            a.keyboard_parity_mode != b.keyboard_parity_mode,
            ConfigChange { label: "keyboard parity", class: ChangeClass::Live },
        ),
        (
            a.keyboard_repeat != b.keyboard_repeat,
            ConfigChange { label: "keyboard repeat", class: ChangeClass::Live },
        ),
        (
            a.input_return_mode != b.input_return_mode,
            ConfigChange { label: "input return mode", class: ChangeClass::Live },
        ),
        (
            a.paste_on_right_click != b.paste_on_right_click,
            ConfigChange { label: "right-click paste", class: ChangeClass::Live },
        ),
        (a.no_print != b.no_print, ConfigChange { label: "printer", class: ChangeClass::Live }),
        (a.font_size != b.font_size, ConfigChange { label: "font size", class: ChangeClass::Live }),
        (
            a.columns != b.columns || a.rows != b.rows || a.scrollback != b.scrollback,
            ConfigChange { label: "terminal dimensions/history", class: ChangeClass::Restart },
        ),
        (
            a.send_cr_at_startup != b.send_cr_at_startup,
            ConfigChange { label: "startup CR", class: ChangeClass::Restart },
        ),
        (
            !same_opt_text(&a.font_path, &b.font_path),
            ConfigChange { label: "font path", class: ChangeClass::Restart },
        ),
        (
            from.data_throttle != to.data_throttle,
            ConfigChange { label: "data throttle", class: ChangeClass::Live },
        ),
        (
            !from.tape_reader.config.same_as(&to.tape_reader.config),
            ConfigChange { label: "paper-tape reader", class: ChangeClass::Live },
        ),
        (
            !from.tape_punch.config.same_as(&to.tape_punch.config),
            ConfigChange { label: "paper-tape punch", class: ChangeClass::Live },
        ),
        (
            !from.backend.serial_config.same_as(&to.backend.serial_config),
            ConfigChange { label: "serial connection", class: ChangeClass::Reconnect },
        ),
        (from.sound != to.sound, ConfigChange { label: "sound", class: ChangeClass::Live }),
    ];
    assert(candidates@ =~= change_candidates(*from, *to));
    candidates
}

fn keep_changed(candidates: &Vec<(bool, ConfigChange)>) -> (changes: Vec<ConfigChange>)
    ensures
        changes@ == candidates@.filter(is_changed()).map_values(|p: (bool, ConfigChange)| p.1),
{
    let mut changes: Vec<ConfigChange> = Vec::new();
    let mut i: usize = 0;
    while i < candidates.len()
        invariant
            i <= candidates@.len(),
            changes@ == candidates@.take(i as int).filter(is_changed()).map_values(
                |p: (bool, ConfigChange)| p.1,
            ),
        decreases candidates@.len() - i,
    {
        let candidate = candidates[i];
        proof {
            assert(candidates@.take(i + 1) =~= candidates@.take(i as int).push(candidate));
            candidates@.take(i as int).lemma_filter_push(candidate, is_changed());
        }
        if candidate.0 {
            changes.push(candidate.1);
        }
        assert(changes@ =~= candidates@.take(i + 1).filter(is_changed()).map_values(
            |p: (bool, ConfigChange)| p.1,
        ));
        i += 1;
    }
    assert(candidates@.take(candidates@.len() as int) =~= candidates@);
    changes
}

impl ConfigChangePlan {
    /// Classify every difference from `old` to `new`.
    pub fn between(old: &AppConfig, new: &AppConfig) -> (plan: Self)
        ensures
            plan.changes@ == planned_changes(*old, *new),
    {
        let candidates = change_candidates_of(old, new);
        let changes = keep_changed(&candidates);
        ConfigChangePlan { changes }
    }

    pub fn requires_restart(&self) -> (restart: bool)
        ensures
            restart == has_class(self.changes@, ChangeClass::Restart),
    {
        has_change_class(&self.changes, ChangeClass::Restart)
    }

    pub fn requires_reconnect(&self) -> (reconnect: bool)
        ensures
            reconnect == has_class(self.changes@, ChangeClass::Reconnect),
    {
        has_change_class(&self.changes, ChangeClass::Reconnect)
    }
}

/// Whether an active serial connection differs from the desired settings.
pub fn serial_reconnect_required(active: Option<&SerialConfig>, desired: &SerialConfig) -> (required:
    bool)
    ensures
        required == (active matches Some(a) && !same_serial(*a, *desired)),
{
    match active {
        Some(a) => !a.same_as(desired),
        None => false,
    }
}

fn restart_labels_of(changes: &Vec<ConfigChange>) -> (labels: Vec<&'static str>)
    ensures
        labels@ == restart_labels(changes@),
{
    let mut labels: Vec<&'static str> = Vec::new();
    let mut i: usize = 0;
    while i < changes.len()
        invariant
            i <= changes@.len(),
            labels@ == restart_labels(changes@.take(i as int)),
        decreases changes@.len() - i,
    {
        let change = changes[i];
        proof {
            assert(changes@.take(i + 1) =~= changes@.take(i as int).push(change));
            changes@.take(i as int).lemma_filter_push(change, is_restart());
        }
        if change.class == ChangeClass::Restart {
            labels.push(change.label);
            assert(labels@ =~= restart_labels(changes@.take(i + 1)));
        } else {
            assert(labels@ =~= restart_labels(changes@.take(i + 1)));
        }
        i += 1;
    }
    assert(changes@.take(changes@.len() as int) =~= changes@);
    labels
}

/// Why saving the applied configuration failed.
#[derive(Debug, PartialEq, Eq)]
pub enum SaveError<E> {
    /// The configuration is invalid; nothing was written.
    Invalid(ValidationError),
    /// The writer refused.
    Write(E),
}

#[derive(Clone)]
pub struct SettingsState {
    pub store: ConfigStore,
    pub runtime_start_config: AppConfig,
    pub keyboard_repeat: bool,
    pub disk_config: AppConfig,
    pub applied_config: AppConfig,
    pub draft_config: AppConfig,
    pub pending_restart: Vec<&'static str>,
    pub pending_reconnect: bool,
}

/// The settings snapshots and pending notices, as plain values.
pub struct SettingsSnapshot {
    pub location: Seq<char>,
    /// The configuration the running emulator was started with.
    pub start: AppConfig,
    /// The live keyboard-repeat policy, authoritative over the configuration field.
    pub repeat: bool,
    pub disk: AppConfig,
    pub applied: AppConfig,
    pub draft: AppConfig,
    pub pending_restart: Seq<&'static str>,
    pub pending_reconnect: bool,
}

impl View for SettingsState {
    type V = SettingsSnapshot;

    open spec fn view(&self) -> SettingsSnapshot {
        SettingsSnapshot {
            location: self.store.location(),
            start: self.runtime_start_config,
            repeat: self.keyboard_repeat,
            disk: self.disk_config,
            applied: self.applied_config,
            draft: self.draft_config,
            pending_restart: self.pending_restart@,
            pending_reconnect: self.pending_reconnect,
        }
    }
}

impl SettingsState {

    pub fn new(path: String, disk_config: AppConfig, applied_config: AppConfig) -> (state: Self)
        ensures
            state@.location == path@,
            state@.disk == disk_config,
            state@.applied == applied_config,
            same_config(state@.draft, applied_config),
            same_config(state@.start, applied_config),
            state@.repeat == applied_config.terminal.config.keyboard_repeat,
            state@.pending_restart == Seq::<&'static str>::empty(),
            !state@.pending_reconnect,
    {
        let keyboard_repeat = applied_config.terminal.config.keyboard_repeat;
        SettingsState {
            store: ConfigStore::new(path),
            runtime_start_config: applied_config.duplicate(),
            keyboard_repeat,
            disk_config,
            draft_config: applied_config.duplicate(),
            applied_config,
            pending_restart: Vec::new(),
            pending_reconnect: false,
        }
    }

    pub fn path(&self) -> (path: &str)
        ensures
            path@ == self@.location,
    {
        self.store.path()
    }

    /// The live keyboard-repeat policy.
    pub fn keyboard_repeat_enabled(&self) -> (enabled: bool)
        ensures
            enabled == self@.repeat,
    {
        self.keyboard_repeat
    }

    /// Switch the live keyboard-repeat policy; the configuration follows on the next
    /// live-control update.
    pub fn set_keyboard_repeat_enabled(&mut self, enabled: bool)
        ensures
            final(self)@.repeat == enabled,
            final(self)@.start == old(self)@.start,
            final(self)@.location == old(self)@.location,
            final(self)@.disk == old(self)@.disk,
            final(self)@.applied == old(self)@.applied,
            final(self)@.draft == old(self)@.draft,
            final(self)@.pending_restart == old(self)@.pending_restart,
            final(self)@.pending_reconnect == old(self)@.pending_reconnect,
    {
        self.keyboard_repeat = enabled;
    }

    /// The draft differs from what is applied.
    pub fn draft_dirty(&self) -> (dirty: bool)
        ensures
            dirty == !same_config(self@.draft, self@.applied),
    {
        !self.draft_config.same_as(&self.applied_config)
    }

    /// What is applied differs from what is on disk.
    pub fn unsaved(&self) -> (unsaved: bool)
        ensures
            unsaved == !same_config(self@.applied, self@.disk),
    {
        !self.applied_config.same_as(&self.disk_config)
    }

    /// Start editing from what is applied.
    pub fn open(&mut self)
        ensures
            same_config(final(self)@.draft, old(self)@.applied),
            final(self)@.applied == old(self)@.applied,
            final(self)@.disk == old(self)@.disk,
            final(self)@.start == old(self)@.start,
            final(self)@.repeat == old(self)@.repeat,
            final(self)@.location == old(self)@.location,
            final(self)@.pending_restart == old(self)@.pending_restart,
            final(self)@.pending_reconnect == old(self)@.pending_reconnect,
    {
        self.draft_config = self.applied_config.duplicate();
    }

    /// Drop the draft's edits.
    pub fn cancel(&mut self)
        ensures
            same_config(final(self)@.draft, old(self)@.applied),
            final(self)@.applied == old(self)@.applied,
            final(self)@.disk == old(self)@.disk,
            final(self)@.start == old(self)@.start,
            final(self)@.repeat == old(self)@.repeat,
            final(self)@.location == old(self)@.location,
            final(self)@.pending_restart == old(self)@.pending_restart,
            final(self)@.pending_reconnect == old(self)@.pending_reconnect,
    {
        self.open();
    }

    /// Return the draft to what is applied.
    pub fn revert(&mut self)
        ensures
            same_config(final(self)@.draft, old(self)@.applied),
            final(self)@.applied == old(self)@.applied,
            final(self)@.disk == old(self)@.disk,
            final(self)@.start == old(self)@.start,
            final(self)@.repeat == old(self)@.repeat,
            final(self)@.location == old(self)@.location,
            final(self)@.pending_restart == old(self)@.pending_restart,
            final(self)@.pending_reconnect == old(self)@.pending_reconnect,
    {
        self.open();
    }

    pub fn validate_draft(&self) -> (result: Result<(), ValidationError>)
        ensures
            result == validation_outcome(self@.draft),
    {
        self.draft_config.validate()
    }

    /// The changes applying the draft would make.
    pub fn plan(&self) -> (plan: ConfigChangePlan)
        ensures
            plan.changes@ == planned_changes(self@.applied, self@.draft),
    {
        ConfigChangePlan::between(&self.applied_config, &self.draft_config)
    }

    /// Apply the draft: restart-class differences from the start configuration are
    /// listed, and a reconnect is remembered until cleared.
    pub fn commit_apply(&mut self, plan: &ConfigChangePlan)
        ensures
            same_config(final(self)@.applied, old(self)@.draft),
            final(self)@.draft == old(self)@.draft,
            final(self)@.disk == old(self)@.disk,
            final(self)@.start == old(self)@.start,
            final(self)@.location == old(self)@.location,
            final(self)@.repeat == old(self)@.draft.terminal.config.keyboard_repeat,
            final(self)@.pending_restart == restart_labels(
                planned_changes(old(self)@.start, final(self)@.applied),
            ),
            final(self)@.pending_reconnect == (old(self)@.pending_reconnect || has_class(
                plan.changes@,
                ChangeClass::Reconnect,
            )),
    {
        self.applied_config = self.draft_config.duplicate();
        self.keyboard_repeat = self.applied_config.terminal.config.keyboard_repeat;
        let since_start = ConfigChangePlan::between(&self.runtime_start_config, &self.applied_config);
        self.pending_restart = restart_labels_of(&since_start.changes);
        let reconnect = plan.requires_reconnect();
        self.pending_reconnect = self.pending_reconnect || reconnect;
    }

    /// Persist what is applied through `write`; on success the disk snapshot follows.
    ///
    /// An applied configuration that fails validation is refused before anything is
    /// written.
    pub fn save_applied<E, F: FnOnce(&AppConfig) -> Result<(), E>>(&mut self, write: F) -> (result:
        Result<(), SaveError<E>>)
        requires
            validation_outcome(old(self)@.applied) is Ok ==> write.requires((&old(self)@.applied,)),
        ensures
            match validation_outcome(old(self)@.applied) {
                Err(v) => result == Err::<(), SaveError<E>>(SaveError::Invalid(v)),
                Ok(()) => match result {
                    Ok(unit) => write.ensures((&old(self)@.applied,), Ok::<(), E>(unit)),
                    Err(SaveError::Write(e)) => write.ensures(
                        (&old(self)@.applied,),
                        Err::<(), E>(e),
                    ),
                    Err(SaveError::Invalid(_)) => false,
                },
            },
            match result {
                Ok(()) => same_config(final(self)@.disk, old(self)@.applied),
                Err(_) => final(self)@.disk == old(self)@.disk,
            },
            final(self)@.applied == old(self)@.applied,
            final(self)@.draft == old(self)@.draft,
            final(self)@.start == old(self)@.start,
            final(self)@.repeat == old(self)@.repeat,
            final(self)@.location == old(self)@.location,
            final(self)@.pending_restart == old(self)@.pending_restart,
            final(self)@.pending_reconnect == old(self)@.pending_reconnect,
    {
        match self.applied_config.validate() {
            Ok(()) => {},
            Err(v) => {
                return Err(SaveError::Invalid(v));
            },
        }
        let written = write(&self.applied_config);
        match written {
            Ok(unit) => {
                self.disk_config = self.applied_config.duplicate();
                Ok(unit)
            },
            Err(e) => {
                assert(written == Err::<(), E>(e));
                Err(SaveError::Write(e))
            },
        }
    }

    /// Apply a change made by a live control. The live keyboard-repeat policy is
    /// authoritative for that one setting; the draft follows the result.
    pub fn update_applied_from_live_control<F: FnOnce(AppConfig) -> AppConfig>(&mut self, update: F)
        requires
            update.requires((old(self)@.applied,)),
        ensures
            exists|updated: AppConfig|
                {
                    &&& #[trigger] update.ensures((old(self)@.applied,), updated)
                    &&& final(self)@.applied == (AppConfig {
                        terminal: TerminalSection {
                            config: TerminalConfig {
                                keyboard_repeat: old(self)@.repeat,
                                ..updated.terminal.config
                            },
                        },
                        ..updated
                    })
                },
            same_config(final(self)@.draft, final(self)@.applied),
            final(self)@.disk == old(self)@.disk,
            final(self)@.start == old(self)@.start,
            final(self)@.repeat == old(self)@.repeat,
            final(self)@.location == old(self)@.location,
            final(self)@.pending_restart == old(self)@.pending_restart,
            final(self)@.pending_reconnect == old(self)@.pending_reconnect,
    {
        let mut current = self.applied_config.duplicate();
        std::mem::swap(&mut current, &mut self.applied_config);
        let mut updated = update(current);
        updated.terminal.config.keyboard_repeat = self.keyboard_repeat;
        self.applied_config = updated;
        self.draft_config = self.applied_config.duplicate();
    }

    pub fn clear_reconnect_required(&mut self)
        ensures
            !final(self)@.pending_reconnect,
            final(self)@.applied == old(self)@.applied,
            final(self)@.draft == old(self)@.draft,
            final(self)@.disk == old(self)@.disk,
            final(self)@.start == old(self)@.start,
            final(self)@.repeat == old(self)@.repeat,
            final(self)@.location == old(self)@.location,
            final(self)@.pending_restart == old(self)@.pending_restart,
    {
        self.pending_reconnect = false;
    }
}

/// Comparing a configuration with one that agrees with it in every setting plans
/// no change, so it asks for neither a restart nor a reconnect.
pub proof fn lemma_same_config_plans_nothing(a: AppConfig, b: AppConfig)
    requires
        same_config(a, b),
    ensures
        planned_changes(a, b).len() == 0,
        !has_class(planned_changes(a, b), ChangeClass::Restart),
        !has_class(planned_changes(a, b), ChangeClass::Reconnect),
{
    let candidates = change_candidates(a, b);
    let kept = candidates.filter(is_changed());
    assert forall|i: int| 0 <= i < candidates.len() implies !(#[trigger] candidates[i]).0 by {}
    if kept.len() > 0 {
        broadcast use vstd::seq_lib::group_filter_ensures;

        assert(is_changed()(kept[0]));
        candidates.lemma_filter_contains_rev(is_changed(), kept[0]);
        let j = choose|j: int| 0 <= j < candidates.len() && candidates[j] == kept[0];
        assert(!candidates[j].0);
    }
}

/// A setting that needs a restart differs: autowrap, the terminal dimensions or
/// history, the startup carriage return, or the font path.
pub open spec fn restart_fields_differ(a: AppConfig, b: AppConfig) -> bool {
    let x = a.terminal.config;
    let y = b.terminal.config;
    ||| x.autowrap != y.autowrap
    ||| x.columns != y.columns || x.rows != y.rows || x.scrollback != y.scrollback
    ||| x.send_cr_at_startup != y.send_cr_at_startup
    ||| opt_text(x.font_path) != opt_text(y.font_path)
}

/// A plan asks for a reconnect exactly when the serial settings differ, and for a
/// restart exactly when a setting that needs one differs.
pub proof fn lemma_plan_classes(a: AppConfig, b: AppConfig)
    ensures
        has_class(planned_changes(a, b), ChangeClass::Reconnect) <==> !same_serial(
            a.backend.serial_config,
            b.backend.serial_config,
        ),
        has_class(planned_changes(a, b), ChangeClass::Restart) <==> restart_fields_differ(a, b),
{
    broadcast use vstd::seq_lib::group_filter_ensures;

    let candidates = change_candidates(a, b);
    let kept = candidates.filter(is_changed());
    let changes = planned_changes(a, b);
    assert(changes.len() == kept.len());
    assert forall|k: int| 0 <= k < changes.len() implies #[trigger] changes[k] == kept[k].1
        && kept[k].0 && candidates.contains(kept[k]) by {
        assert(is_changed()(kept[k]));
        candidates.lemma_filter_contains_rev(is_changed(), kept[k]);
    }
    assert forall|j: int| 0 <= j < candidates.len() implies (#[trigger] candidates[j]).1.class
        == ChangeClass::Reconnect <==> j == 15 by {}
    assert forall|j: int| 0 <= j < candidates.len() implies (#[trigger] candidates[j]).1.class
        == ChangeClass::Restart <==> (j == 1 || j == 9 || j == 10 || j == 11) by {}
    assert forall|j: int| 0 <= j < candidates.len() && candidates[j].0 implies exists|k: int|
        0 <= k < changes.len() && #[trigger] changes[k] == candidates[j].1 by {
        candidates.lemma_filter_contains(is_changed(), j);
        let k = choose|k: int| 0 <= k < kept.len() && kept[k] == candidates[j];
        assert(changes[k] == candidates[j].1);
    }
    if !same_serial(a.backend.serial_config, b.backend.serial_config) {
        assert(candidates[15].0);
        let k = choose|k: int| 0 <= k < changes.len() && #[trigger] changes[k] == candidates[15].1;
        assert(changes[k].class == ChangeClass::Reconnect);
    }
    if restart_fields_differ(a, b) {
        let j: int = if candidates[1].0 {
            1
        } else if candidates[9].0 {
            9
        } else if candidates[10].0 {
            10
        } else {
            11
        };
        assert(candidates[j].0);
        let k = choose|k: int| 0 <= k < changes.len() && #[trigger] changes[k] == candidates[j].1;
        assert(changes[k].class == ChangeClass::Restart);
    }
}

} // verus!
