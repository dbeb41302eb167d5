//! The update state shown in the settings window: checking for a release,
//! downloading and installing it, and the operation lock that keeps these
//! steps from overlapping.
use vstd::prelude::*;

use crate::text::{chars_equal, chars_of, joined, push_str, trim_seq, trimmed};

verus! {

/// The stages of the updater.
#[derive(Debug, Clone, Copy, PartialEq, Eq, Structural)]
pub enum UpdateStage {
    Idle,
    Checking,
    Available,
    Downloading,
    Installing,
    UpToDate,
    Error,
}

/// The update state: stage, versions, release notes, download progress and
/// the error, if any.
#[derive(Debug)]
pub struct UpdateStatus {
    pub stage: UpdateStage,
    pub current_version: String,
    pub available_version: Option<String>,
    pub notes: Option<String>,
    pub published_at: Option<String>,
    pub downloaded_bytes: u64,
    pub total_bytes: Option<u64>,
    pub error: Option<String>,
}

/// The plain value of an `UpdateStatus`.
pub struct StatusModel {
    pub stage: UpdateStage,
    pub current_version: Seq<char>,
    pub available_version: Option<Seq<char>>,
    pub notes: Option<Seq<char>>,
    pub published_at: Option<Seq<char>>,
    pub downloaded_bytes: u64,
    pub total_bytes: Option<u64>,
    pub error: Option<Seq<char>>,
}

pub open spec fn opt_text(s: Option<String>) -> Option<Seq<char>> {
    match s {
        Some(t) => Some(t@),
        None => None,
    }
}

impl View for UpdateStatus {
    type V = StatusModel;

    open spec fn view(&self) -> StatusModel {
        StatusModel {
            stage: self.stage,
            current_version: self.current_version@,
            available_version: opt_text(self.available_version),
            notes: opt_text(self.notes),
            published_at: opt_text(self.published_at),
            downloaded_bytes: self.downloaded_bytes,
            total_bytes: self.total_bytes,
            error: opt_text(self.error),
        }
    }
}

/// The idle state for `current_version`.
pub open spec fn idle_model(current_version: Seq<char>) -> StatusModel {
    StatusModel {
        stage: UpdateStage::Idle,
        current_version,
        available_version: None,
        notes: None,
        published_at: None,
        downloaded_bytes: 0,
        total_bytes: None,
        error: None,
    }
}

fn copy_opt(s: &Option<String>) -> (r: Option<String>)
    ensures
        opt_text(r) == opt_text(*s),
{
    match s {
        Some(t) => Some(t.clone()),
        None => None,
    }
}

impl UpdateStatus {
    /// Nothing checked yet.
    pub fn idle(current_version: String) -> (r: UpdateStatus)
        ensures
            r@ == idle_model(current_version@),
    {
        UpdateStatus {
            stage: UpdateStage::Idle,
            current_version,
            available_version: None,
            notes: None,
            published_at: None,
            downloaded_bytes: 0,
            total_bytes: None,
            error: None,
        }
    }

    /// A copy.
    pub fn copy(&self) -> (r: UpdateStatus)
        ensures
            r@ == self@,
    {
        UpdateStatus {
            stage: self.stage,
            current_version: self.current_version.clone(),
            available_version: copy_opt(&self.available_version),
            notes: copy_opt(&self.notes),
            published_at: copy_opt(&self.published_at),
            downloaded_bytes: self.downloaded_bytes,
            total_bytes: self.total_bytes,
            error: copy_opt(&self.error),
        }
    }
}

/// A release that the update check found.
#[derive(Debug)]
pub struct ReleaseInfo {
    pub version: String,
    pub body: Option<String>,
    pub date: Option<String>,
}

/// The update state, and whether an update operation is running.
#[derive(Debug)]
pub struct UpdateManager {
    status: UpdateStatus,
    operation_in_progress: bool,
}

/// `downloaded + chunk`, saturating (a chunk length that does not fit in a
/// `u64` counts as `u64::MAX`).
pub open spec fn added_bytes(downloaded: u64, chunk: usize) -> u64 {
    if downloaded as int + chunk as int > u64::MAX {
        u64::MAX
    } else {
        (downloaded + chunk) as u64
    }
}

/// Release notes are kept only where they hold more than whitespace.
pub open spec fn kept_notes(body: Option<Seq<char>>) -> Option<Seq<char>> {
    match body {
        Some(b) => if trim_seq(b).len() == 0 {
            None
        } else {
            Some(b)
        },
        None => None,
    }
}

/// The state after a successful check: the release is available, or the
/// program is up to date.
pub open spec fn checked_model(current_version: Seq<char>, release: Option<ReleaseInfo>) -> StatusModel {
    match release {
        Some(r) => StatusModel {
            stage: UpdateStage::Available,
            current_version,
            available_version: Some(r.version@),
            notes: kept_notes(opt_text(r.body)),
            published_at: opt_text(r.date),
            downloaded_bytes: 0,
            total_bytes: None,
            error: None,
        },
        None => StatusModel {
            stage: UpdateStage::UpToDate,
            current_version,
            available_version: None,
            notes: None,
            published_at: None,
            downloaded_bytes: 0,
            total_bytes: None,
            error: None,
        },
    }
}

/// The state after recording the error `message`.
pub open spec fn failed_model(s: StatusModel, message: Seq<char>) -> StatusModel {
    StatusModel {
        stage: UpdateStage::Error,
        downloaded_bytes: 0,
        total_bytes: None,
        error: Some(message),
        ..s
    }
}

pub open spec fn busy_message() -> Seq<char> {
    "已有更新操作正在进行"@
}

impl UpdateManager {
    /// The update state held.
    pub closed spec fn spec_status(&self) -> StatusModel {
        self.status@
    }

    /// Whether an update operation is running.
    pub closed spec fn spec_busy(&self) -> bool {
        self.operation_in_progress
    }

    /// An idle manager for the running version.
    pub fn new(current_version: String) -> (r: UpdateManager)
        ensures
            r.spec_status() == idle_model(current_version@),
            !r.spec_busy(),
    {
        UpdateManager { status: UpdateStatus::idle(current_version), operation_in_progress: false }
    }

    /// A copy of the current state.
    pub fn snapshot(&self) -> (r: Result<UpdateStatus, String>)
        ensures
            r matches Ok(s) && s@ == self.spec_status(),
    {
        Ok(self.status.copy())
    }

    /// Replaces the state and returns a copy of it.
    pub fn replace(&mut self, status: UpdateStatus) -> (r: UpdateStatus)
        ensures
            final(self).spec_status() == status@,
            r@ == status@,
            final(self).spec_busy() == old(self).spec_busy(),
    {
        let copy = status.copy();
        self.status = status;
        copy
    }

    /// Starts an update operation; refused while another one runs.
    pub fn begin_operation(&mut self) -> (r: Result<(), String>)
        ensures
            old(self).spec_busy() ==> (r matches Err(e) && e@ == busy_message())
                && final(self).spec_busy(),
            !old(self).spec_busy() ==> r is Ok && final(self).spec_busy(),
            final(self).spec_status() == old(self).spec_status(),
    {
        if self.operation_in_progress {
            return Err("已有更新操作正在进行".to_owned());
        }
        self.operation_in_progress = true;
        Ok(())
    }

    /// Ends the running update operation.
    pub fn end_operation(&mut self)
        ensures
            !final(self).spec_busy(),
            final(self).spec_status() == old(self).spec_status(),
    {
        self.operation_in_progress = false;
    }

    /// Moves to `stage` and clears the error.
    pub fn set_stage(&mut self, stage: UpdateStage) -> (r: UpdateStatus)
        ensures
            final(self).spec_status() == (StatusModel { stage, error: None, ..old(self).spec_status() }),
            r@ == final(self).spec_status(),
            final(self).spec_busy() == old(self).spec_busy(),
    {
        self.status.stage = stage;
        self.status.error = None;
        self.status.copy()
    }

    /// Records an error: the download progress is reset.
    pub fn set_error(&mut self, message: String) -> (r: UpdateStatus)
        ensures
            final(self).spec_status() == (StatusModel {
                stage: UpdateStage::Error,
                downloaded_bytes: 0,
                total_bytes: None,
                error: Some(message@),
                ..old(self).spec_status()
            }),
            r@ == final(self).spec_status(),
            final(self).spec_busy() == old(self).spec_busy(),
    {
        self.status.stage = UpdateStage::Error;
        self.status.downloaded_bytes = 0;
        self.status.total_bytes = None;
        self.status.error = Some(message);
        self.status.copy()
    }

    /// Records a downloaded chunk and the total size, if known.
    pub fn record_download(&mut self, chunk_length: usize, total: Option<u64>) -> (r: UpdateStatus)
        ensures
            final(self).spec_status() == (StatusModel {
                stage: UpdateStage::Downloading,
                downloaded_bytes: added_bytes(old(self).spec_status().downloaded_bytes, chunk_length),
                total_bytes: total,
                ..old(self).spec_status()
            }),
            r@ == final(self).spec_status(),
            final(self).spec_busy() == old(self).spec_busy(),
    {
        let chunk: u64 = if chunk_length as u128 > u64::MAX as u128 {
            u64::MAX
        } else {
            chunk_length as u64
        };
        self.status.stage = UpdateStage::Downloading;
        self.status.downloaded_bytes = self.status.downloaded_bytes.saturating_add(chunk);
        self.status.total_bytes = total;
        self.status.copy()
    }

    /// Starts a download from zero.
    pub fn begin_download(&mut self) -> (r: UpdateStatus)
        ensures
            final(self).spec_status() == (StatusModel {
                stage: UpdateStage::Downloading,
                downloaded_bytes: 0,
                total_bytes: None,
                error: None,
                ..old(self).spec_status()
            }),
            r@ == final(self).spec_status(),
            final(self).spec_busy() == old(self).spec_busy(),
    {
        self.status.stage = UpdateStage::Downloading;
        self.status.downloaded_bytes = 0;
        self.status.total_bytes = None;
        self.status.error = None;
        self.status.copy()
    }

    /// Records the result of an update check. A successful check records
    /// the release (or that the program is up to date), and an automatic
    /// check that found a release asks to open the settings window. A failed
    /// automatic check goes back to idle quietly; a failed manual check
    /// records the error. The result is the state, or the error.
    pub fn finish_check(
        &mut self,
        automatic: bool,
        current_version: String,
        result: Result<Option<ReleaseInfo>, String>,
    ) -> (r: (Result<UpdateStatus, String>, bool))
        ensures
            final(self).spec_busy() == old(self).spec_busy(),
            result matches Ok(release) ==> final(self).spec_status() == checked_model(
                current_version@,
                release,
            ),
            result matches Ok(release) ==> (r.0 matches Ok(s) && s@ == final(self).spec_status()),
            result matches Ok(release) ==> r.1 == (automatic && release is Some),
            result matches Err(e) ==> (r.0 matches Err(m) && m@ == e@) && !r.1,
            result is Err && automatic ==> final(self).spec_status() == idle_model(current_version@),
            !automatic ==> (result matches Err(e) ==> final(self).spec_status() == failed_model(
                old(self).spec_status(),
                e@,
            )),
    {
        match result {
            Ok(Some(release)) => {
                let notes = match release.body {
                    Some(b) => {
                        let c = chars_of(b.as_str());
                        let t = trimmed(c.as_slice());
                        if t.len() == 0 {
                            None
                        } else {
                            Some(b)
                        }
                    },
                    None => None,
                };
                let status = UpdateStatus {
                    stage: UpdateStage::Available,
                    current_version,
                    available_version: Some(release.version),
                    notes,
                    published_at: release.date,
                    downloaded_bytes: 0,
                    total_bytes: None,
                    error: None,
                };
                let s = self.replace(status);
                (Ok(s), automatic)
            },
            Ok(None) => {
                let status = UpdateStatus {
                    stage: UpdateStage::UpToDate,
                    current_version,
                    available_version: None,
                    notes: None,
                    published_at: None,
                    downloaded_bytes: 0,
                    total_bytes: None,
                    error: None,
                };
                let s = self.replace(status);
                (Ok(s), false)
            },
            Err(e) => {
                if automatic {
                    self.replace(UpdateStatus::idle(current_version));
                } else {
                    let m = e.clone();
                    self.set_error(m);
                }
                (Err(e), false)
            },
        }
    }
}

/// Checks the release found before installing: it must still exist and
/// have the version the user confirmed.
pub fn check_install_target(expected_version: &str, found: Option<&str>) -> (r: Result<(), String>)
    ensures
        found is None ==> (r matches Err(e) && e@ == "该更新已不可用，请重新检查"@),
        found matches Some(v) ==> (v@ == expected_version@ ==> r is Ok),
        found matches Some(v) ==> (v@ != expected_version@ ==> (r matches Err(e) && e@
            == "最新版本已从 "@ + expected_version@ + " 变为 "@ + v@ + "，请确认后重试"@)),
{
    match found {
        None => Err("该更新已不可用，请重新检查".to_owned()),
        Some(v) => {
            let a = chars_of(expected_version);
            let b = chars_of(v);
            if chars_equal(a.as_slice(), b.as_slice()) {
                Ok(())
            } else {
                let mut m = joined("最新版本已从 ", expected_version);
                push_str(&mut m, " 变为 ");
                push_str(&mut m, v);
                push_str(&mut m, "，请确认后重试");
                Err(m)
            }
        },
    }
}

} // verus!
