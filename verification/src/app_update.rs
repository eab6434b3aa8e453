use vstd::prelude::*;

use crate::clock::timestamp_now;
use crate::codex::parser::opt_view;
use crate::text::clone_opt;

verus! {

#[derive(Debug, Clone, Copy, PartialEq, Eq, Structural)]
pub enum AppUpdateStatus {
    Idle,
    Checking,
    Downloading,
    Installing,
    ReadyToRestart,
    UpToDate,
    Error,
}

#[derive(Debug, Clone, Copy, PartialEq, Eq, Structural)]
pub enum CheckTrigger {
    Startup,
    Manual,
}

/// What the settings window shows of the updater.
#[derive(Debug, Clone, PartialEq, Eq)]
pub struct AppUpdateSnapshot {
    pub current_version: String,
    pub available_version: Option<String>,
    pub status: AppUpdateStatus,
    pub last_checked_at: Option<String>,
    pub last_error: Option<String>,
    pub should_prompt_restart: bool,
}

/// The updater state: the snapshot and whether a check is running.
pub struct UpdateView {
    pub current_version: Seq<char>,
    pub available_version: Option<Seq<char>>,
    pub status: AppUpdateStatus,
    pub last_checked_at: Option<Seq<char>>,
    pub last_error: Option<Seq<char>>,
    pub should_prompt_restart: bool,
    pub check_in_progress: bool,
}

/// Decides which update steps may happen and what the snapshot says.
#[derive(Debug)]
pub struct AppUpdateCoordinator {
    snapshot: AppUpdateSnapshot,
    check_in_progress: bool,
}

pub open spec fn snapshot_view(s: AppUpdateSnapshot, in_progress: bool) -> UpdateView {
    UpdateView {
        current_version: s.current_version@,
        available_version: opt_view(s.available_version),
        status: s.status,
        last_checked_at: opt_view(s.last_checked_at),
        last_error: opt_view(s.last_error),
        should_prompt_restart: s.should_prompt_restart,
        check_in_progress: in_progress,
    }
}

impl View for AppUpdateCoordinator {
    type V = UpdateView;

    closed spec fn view(&self) -> UpdateView {
        snapshot_view(self.snapshot, self.check_in_progress)
    }
}

/// A check may start unless one is running or an installed update waits for a restart.
pub open spec fn may_begin_check(v: UpdateView) -> bool {
    !v.check_in_progress && v.status != AppUpdateStatus::ReadyToRestart
}

/// The state once a check has started at `stamp`.
pub open spec fn began_check(v: UpdateView, stamp: Seq<char>) -> UpdateView {
    UpdateView {
        check_in_progress: true,
        status: AppUpdateStatus::Checking,
        last_error: None,
        last_checked_at: Some(stamp),
        ..v
    }
}

pub open spec fn marked_progress(v: UpdateView, status: AppUpdateStatus, version: Option<Seq<char>>) -> UpdateView {
    UpdateView { status, available_version: version, last_error: None, ..v }
}

pub open spec fn marked_ready(v: UpdateView, version: Option<Seq<char>>, stamp: Seq<char>) -> UpdateView {
    UpdateView {
        check_in_progress: false,
        status: AppUpdateStatus::ReadyToRestart,
        available_version: version,
        last_error: None,
        last_checked_at: Some(stamp),
        should_prompt_restart: true,
        ..v
    }
}

pub open spec fn deferred(v: UpdateView) -> UpdateView {
    if v.status == AppUpdateStatus::ReadyToRestart {
        UpdateView { should_prompt_restart: false, ..v }
    } else {
        v
    }
}

/// A restart prompt is owed: an update waits and the prompt was not yet taken.
pub open spec fn prompt_owed(v: UpdateView) -> bool {
    v.status == AppUpdateStatus::ReadyToRestart && v.should_prompt_restart
}

/// The state once the restart prompt, if owed, was taken.
pub open spec fn prompt_taken(v: UpdateView) -> UpdateView {
    if prompt_owed(v) { UpdateView { should_prompt_restart: false, ..v } } else { v }
}

pub open spec fn completed_without_update(v: UpdateView, stamp: Seq<char>) -> UpdateView {
    UpdateView {
        check_in_progress: false,
        status: AppUpdateStatus::UpToDate,
        available_version: None,
        last_error: None,
        last_checked_at: Some(stamp),
        should_prompt_restart: false,
        ..v
    }
}

pub open spec fn failed(v: UpdateView, message: Seq<char>, stamp: Seq<char>) -> UpdateView {
    UpdateView {
        check_in_progress: false,
        status: AppUpdateStatus::Error,
        last_error: Some(message),
        last_checked_at: Some(stamp),
        ..v
    }
}

impl AppUpdateCoordinator {
    pub fn new(current_version: String) -> (r: Self)
        ensures
            r@ == (UpdateView {
                current_version: current_version@,
                available_version: None,
                status: AppUpdateStatus::Idle,
                last_checked_at: None,
                last_error: None,
                should_prompt_restart: false,
                check_in_progress: false,
            }),
    {
        AppUpdateCoordinator {
            snapshot: AppUpdateSnapshot {
                current_version,
                available_version: None,
                status: AppUpdateStatus::Idle,
                last_checked_at: None,
                last_error: None,
                should_prompt_restart: false,
            },
            check_in_progress: false,
        }
    }

    pub fn snapshot(&self) -> (r: AppUpdateSnapshot)
        ensures
            snapshot_view(r, self@.check_in_progress) == self@,
    {
        AppUpdateSnapshot {
            current_version: self.snapshot.current_version.clone(),
            available_version: clone_opt(&self.snapshot.available_version),
            status: self.snapshot.status,
            last_checked_at: clone_opt(&self.snapshot.last_checked_at),
            last_error: clone_opt(&self.snapshot.last_error),
            should_prompt_restart: self.snapshot.should_prompt_restart,
        }
    }

    /// Starts a check stamped `now`, unless one is running or an update waits for a restart.
    pub fn begin_check_at(&mut self, trigger: CheckTrigger, now: String) -> (r: bool)
        ensures
            r == may_begin_check(old(self)@),
            r ==> final(self)@ == began_check(old(self)@, now@),
            !r ==> final(self)@ == old(self)@,
    {
        if self.check_in_progress || self.snapshot.status == AppUpdateStatus::ReadyToRestart {
            return false;
        }
        self.check_in_progress = true;
        let _ = trigger;
        self.snapshot.status = AppUpdateStatus::Checking;
        self.snapshot.last_error = None;
        self.snapshot.last_checked_at = Some(now);
        true
    }

    /// Starts a check stamped with the current time.
    pub fn begin_check(&mut self, trigger: CheckTrigger) -> (r: bool)
        ensures
            r == may_begin_check(old(self)@),
            r ==> exists|stamp: Seq<char>| final(self)@ == began_check(old(self)@, stamp),
            !r ==> final(self)@ == old(self)@,
    {
        if !(self.check_in_progress || self.snapshot.status == AppUpdateStatus::ReadyToRestart) {
            let now = timestamp_now();
            self.begin_check_at(trigger, now)
        } else {
            false
        }
    }

    pub fn mark_downloading(&mut self, available_version: Option<String>)
        ensures
            final(self)@ == marked_progress(old(self)@, AppUpdateStatus::Downloading, opt_view(available_version)),
    {
        self.snapshot.status = AppUpdateStatus::Downloading;
        self.snapshot.available_version = available_version;
        self.snapshot.last_error = None;
    }

    pub fn mark_installing(&mut self, available_version: Option<String>)
        ensures
            final(self)@ == marked_progress(old(self)@, AppUpdateStatus::Installing, opt_view(available_version)),
    {
        self.snapshot.status = AppUpdateStatus::Installing;
        self.snapshot.available_version = available_version;
        self.snapshot.last_error = None;
    }

    pub fn mark_ready_to_restart_at(&mut self, available_version: Option<String>, now: String)
        ensures
            final(self)@ == marked_ready(old(self)@, opt_view(available_version), now@),
    {
        self.check_in_progress = false;
        self.snapshot.status = AppUpdateStatus::ReadyToRestart;
        self.snapshot.available_version = available_version;
        self.snapshot.last_error = None;
        self.snapshot.last_checked_at = Some(now);
        self.snapshot.should_prompt_restart = true;
    }

    pub fn mark_ready_to_restart(&mut self, available_version: Option<String>)
        ensures
            exists|stamp: Seq<char>| final(self)@ == marked_ready(old(self)@, opt_view(available_version), stamp),
    {
        let now = timestamp_now();
        self.mark_ready_to_restart_at(available_version, now);
    }

    pub fn mark_restart_prompt_deferred(&mut self)
        ensures
            final(self)@ == deferred(old(self)@),
    {
        if self.snapshot.status == AppUpdateStatus::ReadyToRestart {
            self.snapshot.should_prompt_restart = false;
        }
    }

    /// Hands out the restart prompt once per ready update.
    pub fn take_restart_prompt_request(&mut self) -> (r: bool)
        ensures
            r == prompt_owed(old(self)@),
            final(self)@ == prompt_taken(old(self)@),
    {
        if self.snapshot.status != AppUpdateStatus::ReadyToRestart || !self.snapshot.should_prompt_restart {
            return false;
        }
        self.snapshot.should_prompt_restart = false;
        true
    }

    pub fn complete_with_no_update_at(&mut self, now: String)
        ensures
            final(self)@ == completed_without_update(old(self)@, now@),
    {
        self.check_in_progress = false;
        self.snapshot.status = AppUpdateStatus::UpToDate;
        self.snapshot.available_version = None;
        self.snapshot.last_error = None;
        self.snapshot.last_checked_at = Some(now);
        self.snapshot.should_prompt_restart = false;
    }

    pub fn complete_with_no_update(&mut self)
        ensures
            exists|stamp: Seq<char>| final(self)@ == completed_without_update(old(self)@, stamp),
    {
        let now = timestamp_now();
        self.complete_with_no_update_at(now);
    }

    pub fn mark_error_at(&mut self, message: String, now: String)
        ensures
            final(self)@ == failed(old(self)@, message@, now@),
    {
        self.check_in_progress = false;
        self.snapshot.status = AppUpdateStatus::Error;
        self.snapshot.last_error = Some(message);
        self.snapshot.last_checked_at = Some(now);
    }

    pub fn mark_error(&mut self, message: String)
        ensures
            exists|stamp: Seq<char>| final(self)@ == failed(old(self)@, message@, stamp),
    {
        let now = timestamp_now();
        self.mark_error_at(message, now);
    }
}

/// What the updater reported during a check.
#[derive(Debug, Clone, PartialEq, Eq)]
pub enum UpdateCheckEvent {
    /// The check or the download failed with this message.
    Failed(String),
    /// No newer version is published.
    NoUpdate,
    /// This version is published; its download starts.
    Found(String),
    /// The downloaded version is being installed.
    Installing(String),
    /// The version is installed and waits for a restart.
    Installed(String),
}

/// What the caller does after an event of a check.
#[derive(Debug, Clone, Copy, PartialEq, Eq, Structural)]
pub enum UpdateFollowUp {
    /// Nothing more: the check is over.
    Stop,
    /// Download and install the version found.
    Download,
    /// Wait for the installation to finish.
    Wait,
    /// Ask the user whether to restart now.
    PromptRestart,
}

/// The state after an event of a check at `stamp`, and what follows it.
pub open spec fn check_event_step(v: UpdateView, event: UpdateCheckEvent, stamp: Seq<char>) -> (UpdateView, UpdateFollowUp) {
    match event {
        UpdateCheckEvent::Failed(message) => (failed(v, message@, stamp), UpdateFollowUp::Stop),
        UpdateCheckEvent::NoUpdate => (completed_without_update(v, stamp), UpdateFollowUp::Stop),
        UpdateCheckEvent::Found(version) => (
            marked_progress(v, AppUpdateStatus::Downloading, Some(version@)),
            UpdateFollowUp::Download,
        ),
        UpdateCheckEvent::Installing(version) => (
            marked_progress(v, AppUpdateStatus::Installing, Some(version@)),
            UpdateFollowUp::Wait,
        ),
        UpdateCheckEvent::Installed(version) => {
            let ready = marked_ready(v, Some(version@), stamp);
            (prompt_taken(ready), if prompt_owed(ready) { UpdateFollowUp::PromptRestart } else { UpdateFollowUp::Stop })
        },
    }
}

impl AppUpdateCoordinator {
    /// Takes in an event of a running check, stamped `now`, and says what follows.
    pub fn on_check_event_at(&mut self, event: UpdateCheckEvent, now: String) -> (r: UpdateFollowUp)
        ensures
            (final(self)@, r) == check_event_step(old(self)@, event, now@),
    {
        match event {
            UpdateCheckEvent::Failed(message) => {
                self.mark_error_at(message, now);
                UpdateFollowUp::Stop
            },
            UpdateCheckEvent::NoUpdate => {
                self.complete_with_no_update_at(now);
                UpdateFollowUp::Stop
            },
            UpdateCheckEvent::Found(version) => {
                self.mark_downloading(Some(version));
                UpdateFollowUp::Download
            },
            UpdateCheckEvent::Installing(version) => {
                self.mark_installing(Some(version));
                UpdateFollowUp::Wait
            },
            UpdateCheckEvent::Installed(version) => {
                self.mark_ready_to_restart_at(Some(version), now);
                if self.take_restart_prompt_request() {
                    UpdateFollowUp::PromptRestart
                } else {
                    UpdateFollowUp::Stop
                }
            },
        }
    }

    /// Takes in an event of a running check at the current time.
    pub fn on_check_event(&mut self, event: UpdateCheckEvent) -> (r: UpdateFollowUp)
        ensures
            exists|stamp: Seq<char>| #[trigger] check_event_step(old(self)@, event, stamp) == (final(self)@, r),
    {
        let now = timestamp_now();
        self.on_check_event_at(event, now)
    }

    /// A restart applies an update only when one waits for it.
    pub fn check_restart(&self) -> (r: Result<(), String>)
        ensures
            r is Ok <==> self@.status == AppUpdateStatus::ReadyToRestart,
            r matches Err(message) ==> message@ == "no installed update is waiting to restart"@,
    {
        if self.snapshot.status != AppUpdateStatus::ReadyToRestart {
            return Err("no installed update is waiting to restart".to_owned());
        }
        Ok(())
    }
}

} // verus!
