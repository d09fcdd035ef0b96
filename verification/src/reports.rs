//! What the download worker's reports do to the downloads panel.
use vstd::prelude::*;
use crate::model::{DownloadTask, DownloadStatus, DownloadEvent};
use crate::state::{AfterScan, Effect};
use crate::app::{App, Downloads, text_is, message, message_of};
use crate::manager::without;
use crate::local::{FoundTask, found_status};
use crate::text::{decimal, push_decimal};

verus! {

/// Everything but the table of downloads is kept.
pub open spec fn only_tasks_changed(a: App, b: App) -> bool {
    b == App { downloads: Downloads { manager: b.downloads.manager, ..a.downloads }, ..a }
}

/// The table of downloads after the task `id` is replaced by `t`, when
/// there is a task `id`; else the table unchanged.
pub open spec fn task_replaced(
    m0: (Map<Seq<char>, DownloadTask>, Seq<Seq<char>>),
    m1: (Map<Seq<char>, DownloadTask>, Seq<Seq<char>>),
    id: Seq<char>,
    t: DownloadTask,
) -> bool {
    if m0.0.dom().contains(id) {
        m1.0 == m0.0.insert(id, t) && m1.1 == m0.1
    } else {
        m1 == m0
    }
}

/// The rescan that follows a change of the files on disk.
pub open spec fn rescan(e: Seq<Effect>) -> bool {
    e == seq![Effect::RefreshLocalFiles(AfterScan::Nothing)]
}

/// A progress report: the task is downloading, with this much done, at
/// this speed, with this time left, of this size.
pub open spec fn progress_recorded(a: App, b: App, e: Seq<Effect>, id: Seq<char>, bits: u64, speed: String, eta: String, size: String) -> bool {
    let m0 = a.downloads.manager@;
    &&& only_tasks_changed(a, b)
    &&& task_replaced(m0, b.downloads.manager@, id, DownloadTask {
        status: DownloadStatus::Downloading,
        progress_bits: bits,
        speed,
        eta,
        total_size: size,
        ..m0.0[id]
    })
    &&& e.len() == 0
}

/// A finished download leaves the table and the order, the selection of
/// the panel is cleared, and the download directory is rescanned.
pub open spec fn download_finished(a: App, b: App, e: Seq<Effect>, id: Seq<char>) -> bool {
    let m0 = a.downloads.manager@;
    &&& b == App {
        downloads: Downloads {
            manager: b.downloads.manager,
            selected: None,
            selected_set: b.downloads.selected_set,
            ..a.downloads
        },
        ..a
    }
    &&& b.downloads.selected_set@.len() == 0
    &&& b.downloads.manager@.0 == m0.0.remove(id)
    &&& b.downloads.manager@.1 == without(m0.1, id)
    &&& rescan(e)
}

/// A failed download shows the error, unless it was canceled.
pub open spec fn download_failed(a: App, b: App, e: Seq<Effect>, id: Seq<char>, error: String) -> bool {
    let m0 = a.downloads.manager@;
    &&& only_tasks_changed(a, b)
    &&& if m0.0.dom().contains(id) && m0.0[id].status != DownloadStatus::Canceled {
        task_replaced(m0, b.downloads.manager@, id, DownloadTask { status: DownloadStatus::Error(error), ..m0.0[id] })
    } else {
        b.downloads.manager@ == m0
    }
    &&& e.len() == 0
}

/// A started download records its process id, and the download directory
/// is rescanned.
pub open spec fn download_started(a: App, b: App, e: Seq<Effect>, id: Seq<char>, pid: u32) -> bool {
    let m0 = a.downloads.manager@;
    &&& only_tasks_changed(a, b)
    &&& task_replaced(m0, b.downloads.manager@, id, DownloadTask { pid: Some(pid), ..m0.0[id] })
    &&& rescan(e)
}

/// The task takes the status `s`.
pub open spec fn status_set(a: App, b: App, e: Seq<Effect>, id: Seq<char>, s: DownloadStatus) -> bool {
    let m0 = a.downloads.manager@;
    &&& only_tasks_changed(a, b)
    &&& task_replaced(m0, b.downloads.manager@, id, DownloadTask { status: s, ..m0.0[id] })
    &&& e.len() == 0
}

/// A canceled download is marked so, with no speed and no time left, and
/// the download directory is rescanned.
pub open spec fn download_canceled(a: App, b: App, e: Seq<Effect>, id: Seq<char>) -> bool {
    let m0 = a.downloads.manager@;
    let m1 = b.downloads.manager@;
    &&& only_tasks_changed(a, b)
    &&& if m0.0.dom().contains(id) {
        let t = m1.0[id];
        &&& m1.1 == m0.1
        &&& m1.0.dom() == m0.0.dom()
        &&& m1.0.remove(id) == m0.0.remove(id)
        &&& t == DownloadTask { status: DownloadStatus::Canceled, speed: t.speed, eta: t.eta, ..m0.0[id] }
        &&& t.speed@.len() == 0 && t.eta@.len() == 0
    } else {
        m1 == m0
    }
    &&& rescan(e)
}

/// What a report of the download worker does.
pub open spec fn download_reported(a: App, b: App, e: Seq<Effect>, ev: DownloadEvent) -> bool {
    match ev {
        DownloadEvent::Update(id, bits, speed, eta, size) => progress_recorded(a, b, e, id@, bits, speed, eta, size),
        DownloadEvent::Finished(id) => download_finished(a, b, e, id@),
        DownloadEvent::Error(id, error) => download_failed(a, b, e, id@, error),
        DownloadEvent::Started(id, pid) => download_started(a, b, e, id@, pid),
        DownloadEvent::Pause(id) => status_set(a, b, e, id@, DownloadStatus::Paused),
        DownloadEvent::Resume(id) => status_set(a, b, e, id@, DownloadStatus::Downloading),
        DownloadEvent::Canceled(id) => download_canceled(a, b, e, id@),
    }
}

/// Only the status line changes, to `m`.
pub open spec fn told(a: App, b: App, m: Seq<char>) -> bool {
    &&& b == App { status_message: b.status_message, ..a }
    &&& text_is(b.status_message, m)
}

/// A task restored from a metadata file found on disk: canceled, with
/// nothing downloaded, and the metadata file kept for its removal.
pub open spec fn restored_task(t: DownloadTask, f: FoundTask) -> bool {
    &&& t.id == f.video.id
    &&& t.title == f.video.title
    &&& t.video == f.video
    &&& t.format_id == f.format_id
    &&& t.status == DownloadStatus::Canceled
    &&& t.progress_bits == 0
    &&& t.speed@.len() == 0 && t.eta@.len() == 0 && t.total_size@.len() == 0
    &&& t.pid is None
    &&& t.info_json_path == Some(f.info_json_path)
}

/// A download found on disk is listed as a canceled task, unless its video
/// already has a task.
pub open spec fn found_restored(a: App, b: App, found: FoundTask) -> bool {
    let m0 = a.downloads.manager@;
    let m1 = b.downloads.manager@;
    if m0.0.dom().contains(found.video.id@) {
        b == a
    } else {
        &&& only_tasks_changed(a, b)
        &&& m1.0 == m0.0.insert(found.video.id@, m1.0[found.video.id@])
        &&& restored_task(m1.0[found.video.id@], found)
        &&& m1.1 == m0.1.push(found.video.id@)
    }
}

impl App {
    /// A download found on disk beside its metadata file: listed (see
    /// `found_restored`) when one of its partial files exists, as it can
    /// be resumed; a finished one is not listed.
    pub fn restore_scanned(&mut self, found: FoundTask, part_exists: &[bool])
        ensures
            (exists|k: int| 0 <= k < part_exists@.len() && part_exists@[k]) ==> found_restored(*old(self), *final(self), found),
            !(exists|k: int| 0 <= k < part_exists@.len() && part_exists@[k]) ==> *final(self) == *old(self),
    {
        match found_status(part_exists) {
            DownloadStatus::Canceled => self.restore_found(found),
            _ => {},
        }
    }

    /// The selected file was deleted, or could not be: on success the
    /// download directory is rescanned.
    pub fn file_deleted(&mut self, r: Result<(), String>) -> (effects: Vec<Effect>)
        ensures
            match r {
                Ok(()) => told(*old(self), *final(self), "File deleted."@) && rescan(effects@),
                Err(err) => told(*old(self), *final(self), "Error deleting: "@ + err@) && effects@.len() == 0,
            },
    {
        match r {
            Ok(()) => {
                self.status_message = message_of("File deleted.");
                let e = vec![Effect::RefreshLocalFiles(AfterScan::Nothing)];
                assert(e@ =~= seq![Effect::RefreshLocalFiles(AfterScan::Nothing)]);
                e
            },
            Err(err) => {
                self.status_message = message("Error deleting: ", err.as_str());
                Vec::new()
            },
        }
    }

    /// The leftovers of the download directory were removed (this many),
    /// or could not be: on success the directory is rescanned.
    pub fn cleanup_done(&mut self, r: Result<u64, String>) -> (effects: Vec<Effect>)
        ensures
            match r {
                Ok(n) => told(*old(self), *final(self), "Cleaned "@ + decimal(n as nat) + " garbage files."@)
                    && rescan(effects@),
                Err(err) => told(*old(self), *final(self), "Error cleanup: "@ + err@) && effects@.len() == 0,
            },
    {
        match r {
            Ok(n) => {
                let mut m = String::from_str("Cleaned ");
                push_decimal(&mut m, n);
                m.append(" garbage files.");
                self.status_message = Some(m);
                let e = vec![Effect::RefreshLocalFiles(AfterScan::Nothing)];
                assert(e@ =~= seq![Effect::RefreshLocalFiles(AfterScan::Nothing)]);
                e
            },
            Err(err) => {
                self.status_message = message("Error cleanup: ", err.as_str());
                Vec::new()
            },
        }
    }

    /// The text named `label` was copied (`Some(true)`), could not be
    /// (`Some(false)`), or there is no clipboard (`None`).
    pub fn copy_done(&mut self, label: &str, r: Option<bool>)
        ensures
            told(
                *old(self),
                *final(self),
                match r {
                    Some(true) => label@ + " copied to clipboard."@,
                    Some(false) => "Failed to copy "@ + label@ + "."@,
                    None => "Clipboard not available."@,
                },
            ),
    {
        self.status_message = match r {
            Some(true) => {
                let mut m = String::from_str(label);
                m.append(" copied to clipboard.");
                Some(m)
            },
            Some(false) => {
                let mut m = String::from_str("Failed to copy ");
                m.append(label);
                m.append(".");
                Some(m)
            },
            None => message_of("Clipboard not available."),
        };
    }

    /// The browser was asked to open the address, or could not be.
    pub fn browser_opened(&mut self, ok: bool)
        ensures
            told(*old(self), *final(self), if ok { "Opening in browser..."@ } else { "Failed to open browser."@ }),
    {
        self.status_message = if ok {
            message_of("Opening in browser...")
        } else {
            message_of("Failed to open browser.")
        };
    }

    /// Lists an unfinished download found on disk as a canceled task that
    /// can be resumed, unless its video already has a task.
    pub fn restore_found(&mut self, found: FoundTask)
        ensures
            found_restored(*old(self), *final(self), found),
    {
        if self.downloads.manager.contains(found.video.id.as_str()) {
            return;
        }
        let ghost f = found;
        let mut t = DownloadTask::new(found.video, found.format_id);
        t.status = DownloadStatus::Canceled;
        t.info_json_path = Some(found.info_json_path);
        let ghost tv = t;
        self.downloads.manager.restore_task(t);
        assert(self.downloads.manager@.0[f.video.id@] == tv);
    }

    fn record_progress(&mut self, id: String, bits: u64, speed: String, eta: String, size: String) -> (effects: Vec<Effect>)
        ensures
            progress_recorded(*old(self), *final(self), effects@, id@, bits, speed, eta, size),
    {
        self.downloads.manager.update_progress(id.as_str(), bits, speed, eta, size);
        Vec::new()
    }

    fn finish_download(&mut self, id: String) -> (effects: Vec<Effect>)
        ensures
            download_finished(*old(self), *final(self), effects@, id@),
    {
        self.downloads.manager.remove(id.as_str());
        self.downloads.selected_set = Vec::new();
        self.downloads.selected = None;
        let e = vec![Effect::RefreshLocalFiles(AfterScan::Nothing)];
        assert(e@ =~= seq![Effect::RefreshLocalFiles(AfterScan::Nothing)]);
        e
    }

    fn fail_download(&mut self, id: String, error: String) -> (effects: Vec<Effect>)
        ensures
            download_failed(*old(self), *final(self), effects@, id@, error),
    {
        let set = match self.downloads.manager.get(id.as_str()) {
            Some(t) => match &t.status {
                DownloadStatus::Canceled => false,
                _ => true,
            },
            None => false,
        };
        if set {
            self.downloads.manager.set_status(id.as_str(), DownloadStatus::Error(error));
        }
        Vec::new()
    }

    fn start_download_task(&mut self, id: String, pid: u32) -> (effects: Vec<Effect>)
        ensures
            download_started(*old(self), *final(self), effects@, id@, pid),
    {
        self.downloads.manager.set_pid(id.as_str(), pid);
        let e = vec![Effect::RefreshLocalFiles(AfterScan::Nothing)];
        assert(e@ =~= seq![Effect::RefreshLocalFiles(AfterScan::Nothing)]);
        e
    }

    fn set_task_status(&mut self, id: String, s: DownloadStatus) -> (effects: Vec<Effect>)
        ensures
            status_set(*old(self), *final(self), effects@, id@, s),
    {
        self.downloads.manager.set_status(id.as_str(), s);
        Vec::new()
    }

    fn cancel_task(&mut self, id: String) -> (effects: Vec<Effect>)
        ensures
            download_canceled(*old(self), *final(self), effects@, id@),
    {
        let ghost m0 = self.downloads.manager@;
        self.downloads.manager.mark_canceled(id.as_str());
        proof {
            if m0.0.dom().contains(id@) {
                let m1 = self.downloads.manager@;
                assert(m1.0.dom() =~= m0.0.dom());
                let t = m1.0[id@];
                let o = m0.0[id@];
                assert(t == DownloadTask { status: DownloadStatus::Canceled, speed: t.speed, eta: t.eta, ..o });
            }
        }
        let e = vec![Effect::RefreshLocalFiles(AfterScan::Nothing)];
        assert(e@ =~= seq![Effect::RefreshLocalFiles(AfterScan::Nothing)]);
        e
    }

    /// Takes a report of the download worker (see `download_reported`).
    pub fn on_download_event(&mut self, event: DownloadEvent) -> (effects: Vec<Effect>)
        ensures
            download_reported(*old(self), *final(self), effects@, event),
    {
        match event {
            DownloadEvent::Update(id, bits, speed, eta, size) => self.record_progress(id, bits, speed, eta, size),
            DownloadEvent::Finished(id) => self.finish_download(id),
            DownloadEvent::Error(id, error) => self.fail_download(id, error),
            DownloadEvent::Started(id, pid) => self.start_download_task(id, pid),
            DownloadEvent::Pause(id) => self.set_task_status(id, DownloadStatus::Paused),
            DownloadEvent::Resume(id) => self.set_task_status(id, DownloadStatus::Downloading),
            DownloadEvent::Canceled(id) => self.cancel_task(id),
        }
    }
}

} // verus!
