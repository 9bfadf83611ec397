//! The decisions taken around single-file, directory and upload transfers:
//! what may be overwritten, what is skipped, and what each resume record holds.

use vstd::prelude::*;

use crate::download::{ascii_ci_eq, eq_ignore_ascii_case, DownloadTask};
use crate::error::{is_invalid_argument, QuarkPanError};
use crate::options::{effective_verify, DownloadArgs, DownloadDirArgs};
use crate::remote_path::views;
use crate::entry::QuarkEntry;
use crate::paths::{path_join, path_join_of};
use crate::text::{owned, str_eq};

verus! {

/// Rejects a download that names both or neither of `--output` and `--stdout`.
pub fn check_output_choice(has_output: bool, stdout: bool) -> (r: Result<(), QuarkPanError>)
    ensures
        r is Ok <==> has_output != stdout,
        r is Err ==> is_invalid_argument(r, "exactly one of --output or --stdout is required"@),
{
    if has_output == stdout {
        return Err(QuarkPanError::invalid_argument("exactly one of --output or --stdout is required"));
    }
    Ok(())
}

/// Whether a saved download record belongs to this download.
pub fn task_targets(task: &DownloadTask, fid: &str, output: &str, part: &str) -> (r: bool)
    ensures
        r == (task.fid@ == fid@ && task.output_path@ == output@ && task.part_path@ == part@),
{
    str_eq(task.fid.as_str(), fid) && str_eq(task.output_path.as_str(), output) && str_eq(
        task.part_path.as_str(),
        part,
    )
}

/// How a single-file download goes on once the remote file is known.
#[derive(Debug, Clone, Copy, PartialEq, Eq, Structural)]
pub enum DownloadStart {
    /// The local file already has the remote md5: remove the resume files
    /// and stop.
    AlreadyPresent,
    /// Download, first removing the output, partial file and resume record
    /// when `clear_all`.
    Fetch { clear_all: bool },
}

/// Decides how a single-file download starts, once a resume record of
/// another download has been removed: `same_target` says the local output
/// already has the remote md5.
pub fn plan_download_start(
    output: &str,
    same_target: bool,
    output_exists: bool,
    overwrite: bool,
    continue_download: bool,
) -> (r: Result<DownloadStart, QuarkPanError>)
    ensures
        same_target ==> r == Ok::<DownloadStart, QuarkPanError>(DownloadStart::AlreadyPresent),
        !same_target && output_exists && !overwrite ==> is_invalid_argument(
            r,
            "output already exists: "@ + output@ + " (use --overwrite)"@,
        ),
        !same_target && !(output_exists && !overwrite) ==> r == Ok::<DownloadStart, QuarkPanError>(
            DownloadStart::Fetch { clear_all: overwrite && !continue_download },
        ),
{
    if same_target {
        return Ok(DownloadStart::AlreadyPresent);
    }
    if output_exists && !overwrite {
        let mut m = String::new();
        m.append("output already exists: ");
        m.append(output);
        m.append(" (use --overwrite)");
        return Err(QuarkPanError::InvalidArgument(m));
    }
    Ok(DownloadStart::Fetch { clear_all: overwrite && !continue_download })
}

/// The state of one entry of a directory transfer.
#[derive(Debug, Clone, Copy, PartialEq, Eq, Structural)]
pub enum DirEntryStatus {
    Pending,
    Running,
    Done,
    Skipped,
    Failed,
}

/// An entry still to be transferred: neither done nor skipped.
pub open spec fn still_to_do(status: DirEntryStatus) -> bool {
    status != DirEntryStatus::Done && status != DirEntryStatus::Skipped
}

/// Whether a directory-transfer entry still has to be transferred.
pub fn entry_pending(status: DirEntryStatus) -> (r: bool)
    ensures
        r == still_to_do(status),
{
    match status {
        DirEntryStatus::Done | DirEntryStatus::Skipped => false,
        _ => true,
    }
}

/// What happens to one entry of a directory transfer.
#[derive(Debug, Clone, Copy, PartialEq, Eq, Structural)]
pub enum EntryEvent {
    /// Its transfer begins.
    Begin,
    /// It needs no transfer: the copy at the other end already matches.
    Skip,
    /// Its transfer ended, successfully or not.
    Finish { succeeded: bool },
}

/// The status an entry takes after an event: running once begun, skipped,
/// and done or failed once its transfer ended.
pub open spec fn status_after(event: EntryEvent) -> DirEntryStatus {
    match event {
        EntryEvent::Begin => DirEntryStatus::Running,
        EntryEvent::Skip => DirEntryStatus::Skipped,
        EntryEvent::Finish { succeeded } => if succeeded {
            DirEntryStatus::Done
        } else {
            DirEntryStatus::Failed
        },
    }
}

/// The status an entry takes after an event.
pub fn entry_status_after(event: EntryEvent) -> (r: DirEntryStatus)
    ensures
        r == status_after(event),
{
    match event {
        EntryEvent::Begin => DirEntryStatus::Running,
        EntryEvent::Skip => DirEntryStatus::Skipped,
        EntryEvent::Finish { succeeded } => if succeeded {
            DirEntryStatus::Done
        } else {
            DirEntryStatus::Failed
        },
    }
}

/// Resuming a directory transfer redoes exactly what did not finish: an
/// entry left skipped or done is passed over, one left running (the
/// transfer was interrupted) or failed is transferred again.
pub proof fn lemma_entry_lifecycle(event: EntryEvent)
    ensures
        still_to_do(status_after(event)) <==> (event == EntryEvent::Begin || event
            == EntryEvent::Finish { succeeded: false }),
        still_to_do(DirEntryStatus::Pending),
{
}

/// A file found under the remote folder of a directory download.
#[derive(Debug, Clone)]
pub struct RemoteFileItem {
    pub relative_path: String,
    pub fid: String,
}

/// One file of a directory download's resume record.
#[derive(Debug, Clone)]
pub struct DownloadDirEntryTask {
    pub relative_path: String,
    pub fid: String,
    pub md5: Option<String>,
    pub status: DirEntryStatus,
}

/// The resume record of a directory download.
#[derive(Debug, Clone)]
pub struct DownloadDirTask {
    pub kind: String,
    pub pdir_fid: String,
    pub output_dir: String,
    pub entries: Vec<DownloadDirEntryTask>,
}

impl DownloadDirTask {
    /// Records an event of entry `idx`; nothing else changes.
    pub fn record(&mut self, idx: usize, event: EntryEvent)
        requires
            idx < old(self).entries@.len(),
        ensures
            final(self).kind == old(self).kind,
            final(self).pdir_fid == old(self).pdir_fid,
            final(self).output_dir == old(self).output_dir,
            final(self).entries@ == old(self).entries@.update(
                idx as int,
                (DownloadDirEntryTask { status: status_after(event), ..old(self).entries@[idx as int] }),
            ),
    {
        self.entries[idx].status = entry_status_after(event);
    }

    /// Records the md5 the service reported for entry `idx`; nothing else
    /// changes.
    pub fn record_md5(&mut self, idx: usize, md5: Option<String>)
        requires
            idx < old(self).entries@.len(),
        ensures
            final(self).kind == old(self).kind,
            final(self).pdir_fid == old(self).pdir_fid,
            final(self).output_dir == old(self).output_dir,
            final(self).entries@ == old(self).entries@.update(
                idx as int,
                (DownloadDirEntryTask { md5, ..old(self).entries@[idx as int] }),
            ),
    {
        self.entries[idx].md5 = md5;
    }
}

/// A fresh directory-download record: every remote file pending, in the
/// order found.
pub fn new_download_dir_task(pdir_fid: &str, output_dir: &str, files: &[RemoteFileItem]) -> (r:
    DownloadDirTask)
    ensures
        r.kind@ == "download_dir"@,
        r.pdir_fid@ == pdir_fid@,
        r.output_dir@ == output_dir@,
        r.entries@.len() == files@.len(),
        forall|i: int|
            0 <= i < files@.len() ==> {
                let e = #[trigger] r.entries@[i];
                &&& e.relative_path@ == files@[i].relative_path@
                &&& e.fid@ == files@[i].fid@
                &&& e.md5 is None
                &&& e.status == DirEntryStatus::Pending
            },
{
    let mut entries: Vec<DownloadDirEntryTask> = Vec::new();
    let mut i: usize = 0;
    while i < files.len()
        invariant
            i <= files@.len(),
            entries@.len() == i,
            forall|j: int|
                0 <= j < i ==> {
                    let e = #[trigger] entries@[j];
                    &&& e.relative_path@ == files@[j].relative_path@
                    &&& e.fid@ == files@[j].fid@
                    &&& e.md5 is None
                    &&& e.status == DirEntryStatus::Pending
                },
        decreases files@.len() - i,
    {
        entries.push(
            DownloadDirEntryTask {
                relative_path: owned(files[i].relative_path.as_str()),
                fid: owned(files[i].fid.as_str()),
                md5: None,
                status: DirEntryStatus::Pending,
            },
        );
        i = i + 1;
    }
    DownloadDirTask {
        kind: owned("download_dir"),
        pdir_fid: owned(pdir_fid),
        output_dir: owned(output_dir),
        entries,
    }
}

/// Checks that a directory download may start: an existing output directory
/// needs `--continue` or `--overwrite`, and `--continue` alone needs an
/// interrupted task when the directory exists.
pub fn check_download_dir_start(
    output: &str,
    output_exists: bool,
    continue_download: bool,
    overwrite: bool,
    has_task: bool,
) -> (r: Result<(), QuarkPanError>)
    ensures
        output_exists && !continue_download && !overwrite ==> is_invalid_argument(
            r,
            "output directory already exists: "@ + output@,
        ),
        output_exists && continue_download && !overwrite && !has_task ==> is_invalid_argument(
            r,
            "no interrupted directory task found; local directory already exists or download already completed"@,
        ),
        !output_exists || overwrite || (continue_download && has_task) ==> r is Ok,
{
    let merge_mode = continue_download && overwrite;
    if output_exists && !continue_download && !overwrite {
        let mut m = String::new();
        m.append("output directory already exists: ");
        m.append(output);
        return Err(QuarkPanError::InvalidArgument(m));
    }
    if continue_download && !has_task && output_exists && !merge_mode {
        return Err(
            QuarkPanError::invalid_argument(
                "no interrupted directory task found; local directory already exists or download already completed",
            ),
        );
    }
    Ok(())
}

/// What happens to one pending entry of a directory download.
#[derive(Debug, Clone, Copy, PartialEq, Eq, Structural)]
pub enum EntryStep {
    /// The local file already has the remote md5: mark it skipped.
    Skip,
    /// Download it.
    Fetch,
}

/// Decides one pending entry of a directory download. In merge mode
/// (`--continue --overwrite`) a local file with the remote md5 is skipped;
/// without `--continue` an existing local file is an error.
pub fn plan_dir_entry(
    output_path: &str,
    merge_mode: bool,
    same_target: bool,
    output_exists: bool,
    continue_download: bool,
) -> (r: Result<EntryStep, QuarkPanError>)
    ensures
        merge_mode && same_target ==> r == Ok::<EntryStep, QuarkPanError>(EntryStep::Skip),
        !(merge_mode && same_target) && output_exists && !merge_mode && !continue_download
            ==> is_invalid_argument(r, "local file already exists: "@ + output_path@),
        !(merge_mode && same_target) && !(output_exists && !merge_mode && !continue_download)
            ==> r == Ok::<EntryStep, QuarkPanError>(EntryStep::Fetch),
{
    if merge_mode && same_target {
        return Ok(EntryStep::Skip);
    }
    if output_exists && !merge_mode && !continue_download {
        let mut m = String::new();
        m.append("local file already exists: ");
        m.append(output_path);
        return Err(QuarkPanError::InvalidArgument(m));
    }
    Ok(EntryStep::Fetch)
}

/// The single-file download of one entry of a directory download: merge mode
/// overwrites, the directory's retry and verify settings carry over.
pub fn entry_download_args(fid: &str, output_path: &str, args: &DownloadDirArgs) -> (r: DownloadArgs)
    ensures
        r.fid@ == fid@,
        r.output matches Some(o) && o@ == output_path@,
        !r.stdout,
        r.overwrite == (args.continue_download && args.overwrite),
        r.continue_download == args.continue_download,
        r.retry == args.retry,
        r.retry_delay == args.retry_delay,
        r.retry_max_delay == args.retry_max_delay,
        r.retry_backoff == args.retry_backoff,
        r.verify == effective_verify(args.verify, args.skip_verify),
        !r.skip_verify,
{
    DownloadArgs {
        fid: owned(fid),
        output: Some(owned(output_path)),
        stdout: false,
        overwrite: args.continue_download && args.overwrite,
        continue_download: args.continue_download,
        retry: args.retry,
        retry_delay: args.retry_delay,
        retry_max_delay: args.retry_max_delay,
        retry_backoff: args.retry_backoff,
        verify: args.verify_mode(),
        skip_verify: false,
    }
}

/// The name of the folder an upload directory creates: the given name, else
/// the local directory's name, else `root`.
pub fn upload_root_name(file_name: Option<&str>, dir_name: Option<&str>) -> (r: String)
    ensures
        r@ == match file_name {
            Some(n) => n@,
            None => match dir_name {
                Some(d) => d@,
                None => "root"@,
            },
        },
{
    match file_name {
        Some(n) => owned(n),
        None => match dir_name {
            Some(d) => owned(d),
            None => owned("root"),
        },
    }
}

/// An entry of the drive found under the upload's target name.
#[derive(Debug, Clone)]
pub struct ExistingEntry {
    pub fid: String,
    pub dir: bool,
}

/// Where the files of a directory upload go.
#[derive(Debug, Clone)]
pub enum UploadRoot {
    /// Into this existing folder.
    Existing(String),
    /// Into a folder that must be created first.
    Create,
}

/// Decides the target folder of a directory upload that has no resume
/// record, given the entry already under the target name.
pub fn plan_upload_root(existing: Option<ExistingEntry>, continue_upload: bool, overwrite: bool) -> (r:
    Result<UploadRoot, QuarkPanError>)
    ensures
        match existing {
            None => r matches Ok(UploadRoot::Create),
            Some(e) => if !e.dir {
                is_invalid_argument(r, "target cloud entry exists and is not a folder"@)
            } else if !continue_upload && !overwrite {
                is_invalid_argument(r, "target cloud folder already exists"@)
            } else if continue_upload && !overwrite {
                is_invalid_argument(
                    r,
                    "no interrupted directory task found; cloud folder already exists or upload already completed"@,
                )
            } else {
                r matches Ok(UploadRoot::Existing(f)) && f@ == e.fid@
            },
        },
{
    let merge_mode = continue_upload && overwrite;
    match existing {
        Some(entry) => {
            if entry.dir && !continue_upload && !overwrite {
                Err(QuarkPanError::invalid_argument("target cloud folder already exists"))
            } else if entry.dir && continue_upload && !merge_mode {
                Err(
                    QuarkPanError::invalid_argument(
                        "no interrupted directory task found; cloud folder already exists or upload already completed",
                    ),
                )
            } else if entry.dir {
                Ok(UploadRoot::Existing(entry.fid))
            } else {
                Err(QuarkPanError::invalid_argument("target cloud entry exists and is not a folder"))
            }
        },
        None => Ok(UploadRoot::Create),
    }
}

/// What happens to a local file whose name already exists in the target
/// folder of a directory upload.
#[derive(Debug, Clone, Copy, PartialEq, Eq, Structural)]
pub enum ClashStep {
    /// The remote file has the same md5: mark the entry skipped.
    Skip,
    /// Delete the remote file and upload the local one.
    Replace,
}

/// Decides a clash with an existing remote entry: only merge mode may touch
/// it, a folder is never replaced by a file, and a file with the local md5
/// (ignoring ASCII case) is kept.
pub fn plan_upload_clash(
    relative_path: &str,
    merge_mode: bool,
    remote_is_dir: bool,
    remote_md5: Option<&str>,
    local_md5: &str,
) -> (r: Result<ClashStep, QuarkPanError>)
    ensures
        !merge_mode ==> is_invalid_argument(r, "cloud file already exists: "@ + relative_path@),
        merge_mode && remote_is_dir ==> is_invalid_argument(
            r,
            "cloud entry is a folder but local path is a file: "@ + relative_path@,
        ),
        merge_mode && !remote_is_dir ==> r == Ok::<ClashStep, QuarkPanError>(
            if remote_md5 matches Some(m) && ascii_ci_eq(m@, local_md5@) {
                ClashStep::Skip
            } else {
                ClashStep::Replace
            },
        ),
{
    if !merge_mode {
        let mut m = String::new();
        m.append("cloud file already exists: ");
        m.append(relative_path);
        return Err(QuarkPanError::InvalidArgument(m));
    }
    if remote_is_dir {
        let mut m = String::new();
        m.append("cloud entry is a folder but local path is a file: ");
        m.append(relative_path);
        return Err(QuarkPanError::InvalidArgument(m));
    }
    match remote_md5 {
        Some(md5) => if eq_ignore_ascii_case(md5, local_md5) {
            Ok(ClashStep::Skip)
        } else {
            Ok(ClashStep::Replace)
        },
        None => Ok(ClashStep::Replace),
    }
}

/// One file of a directory upload's resume record.
#[derive(Debug, Clone)]
pub struct UploadDirEntryTask {
    pub relative_path: String,
    pub status: DirEntryStatus,
}

/// The resume record of a directory upload.
#[derive(Debug, Clone)]
pub struct UploadDirTask {
    pub kind: String,
    pub source_dir: String,
    pub pdir_fid: String,
    pub target_file_name: String,
    pub root_fid: String,
    pub entries: Vec<UploadDirEntryTask>,
}

impl UploadDirTask {
    /// Records an event of entry `idx`; nothing else changes.
    pub fn record(&mut self, idx: usize, event: EntryEvent)
        requires
            idx < old(self).entries@.len(),
        ensures
            final(self).kind == old(self).kind,
            final(self).source_dir == old(self).source_dir,
            final(self).pdir_fid == old(self).pdir_fid,
            final(self).target_file_name == old(self).target_file_name,
            final(self).root_fid == old(self).root_fid,
            final(self).entries@ == old(self).entries@.update(
                idx as int,
                (UploadDirEntryTask { status: status_after(event), ..old(self).entries@[idx as int] }),
            ),
    {
        self.entries[idx].status = entry_status_after(event);
    }
}

/// A fresh directory-upload record: every local file pending, in the order
/// given.
pub fn new_upload_dir_task(
    source_dir: &str,
    pdir_fid: &str,
    target_file_name: &str,
    root_fid: &str,
    files: &[String],
) -> (r: UploadDirTask)
    ensures
        r.kind@ == "upload_dir"@,
        r.source_dir@ == source_dir@,
        r.pdir_fid@ == pdir_fid@,
        r.target_file_name@ == target_file_name@,
        r.root_fid@ == root_fid@,
        r.entries@.len() == files@.len(),
        forall|i: int|
            0 <= i < files@.len() ==> (#[trigger] r.entries@[i]).relative_path@ == files@[i]@
                && r.entries@[i].status == DirEntryStatus::Pending,
{
    let mut entries: Vec<UploadDirEntryTask> = Vec::new();
    let mut i: usize = 0;
    while i < files.len()
        invariant
            i <= files@.len(),
            entries@.len() == i,
            forall|j: int|
                0 <= j < i ==> (#[trigger] entries@[j]).relative_path@ == files@[j]@
                    && entries@[j].status == DirEntryStatus::Pending,
        decreases files@.len() - i,
    {
        entries.push(
            UploadDirEntryTask {
                relative_path: owned(files[i].as_str()),
                status: DirEntryStatus::Pending,
            },
        );
        i = i + 1;
    }
    UploadDirTask {
        kind: owned("upload_dir"),
        source_dir: owned(source_dir),
        pdir_fid: owned(pdir_fid),
        target_file_name: owned(target_file_name),
        root_fid: owned(root_fid),
        entries,
    }
}

/// Checks that a resumed upload names the file its record was made for.
pub fn check_upload_task_file(task_file_path: &str, file_path: &str) -> (r: Result<(), QuarkPanError>)
    ensures
        task_file_path@ != file_path@ ==> is_invalid_argument(r, "--file does not match task file"@),
        task_file_path@ == file_path@ ==> r is Ok,
{
    if !str_eq(task_file_path, file_path) {
        return Err(QuarkPanError::invalid_argument("--file does not match task file"));
    }
    Ok(())
}

/// Checks that the file of a resumed upload is unchanged: same size, md5 and
/// SHA-1 as recorded.
pub fn check_upload_resume(
    task_size: u64,
    task_md5: &str,
    task_sha1: &str,
    size: u64,
    md5: &str,
    sha1: &str,
) -> (r: Result<(), QuarkPanError>)
    ensures
        size != task_size || md5@ != task_md5@ || sha1@ != task_sha1@ ==> is_invalid_argument(
            r,
            "local file size/md5/sha1 does not match upload task"@,
        ),
        size == task_size && md5@ == task_md5@ && sha1@ == task_sha1@ ==> r is Ok,
{
    if size != task_size || !str_eq(md5, task_md5) || !str_eq(sha1, task_sha1) {
        return Err(QuarkPanError::invalid_argument("local file size/md5/sha1 does not match upload task"));
    }
    Ok(())
}

/// Where a resumed multipart upload continues: the first part still to send
/// (at least part 1), its byte offset, and the bytes left.
pub fn upload_resume_point(next_part_number: u32, part_size: u64, size: u64) -> (r: (u32, u64, u64))
    requires
        (if next_part_number > 1 { next_part_number - 1 } else { 0 }) * part_size <= u64::MAX,
    ensures
        r.0 == if next_part_number > 1 { next_part_number } else { 1 },
        r.1 == (r.0 - 1) * part_size,
        r.2 == if size > r.1 { size - r.1 } else { 0 },
{
    let start_part = if next_part_number > 1 { next_part_number } else { 1 };
    let seek_to = ((start_part - 1) as u64) * part_size;
    let remaining = if size > seek_to { size - seek_to } else { 0 };
    (start_part, seek_to, remaining)
}


/// What one folder listing adds to a remote walk: the sub-folders to visit
/// (id and path) and the files found (path and id), each in listing order.
pub open spec fn absorbed(prefix: Seq<char>, entries: Seq<QuarkEntry>) -> (
    Seq<(Seq<char>, Seq<char>)>,
    Seq<(Seq<char>, Seq<char>)>,
)
    decreases entries.len(),
{
    if entries.len() == 0 {
        (Seq::empty(), Seq::empty())
    } else {
        let (dirs, files) = absorbed(prefix, entries.drop_last());
        let e = entries.last();
        let path = path_join_of(prefix, e.file_name@);
        if e.dir {
            (dirs.push((e.fid@, path)), files)
        } else {
            (dirs, files.push((path, e.fid@)))
        }
    }
}

/// What one folder listing adds to a remote walk: every sub-folder of the
/// listing is queued with its own id and the path of the listed folder
/// joined with its name, every file is collected with that joined path and
/// its id, and nothing else is added.
pub proof fn lemma_absorbed_joins_paths(prefix: Seq<char>, entries: Seq<QuarkEntry>)
    ensures
        forall|j: int|
            0 <= j < entries.len() && (#[trigger] entries[j]).dir ==> absorbed(prefix, entries).0.contains(
                (entries[j].fid@, path_join_of(prefix, entries[j].file_name@)),
            ),
        forall|j: int|
            0 <= j < entries.len() && !(#[trigger] entries[j]).dir ==> absorbed(
                prefix,
                entries,
            ).1.contains((path_join_of(prefix, entries[j].file_name@), entries[j].fid@)),
        forall|i: int|
            #![trigger absorbed(prefix, entries).0[i]]
            0 <= i < absorbed(prefix, entries).0.len() ==> exists|j: int|
                0 <= j < entries.len() && (#[trigger] entries[j]).dir && absorbed(prefix, entries).0[i]
                    == (entries[j].fid@, path_join_of(prefix, entries[j].file_name@)),
        forall|i: int|
            #![trigger absorbed(prefix, entries).1[i]]
            0 <= i < absorbed(prefix, entries).1.len() ==> exists|j: int|
                0 <= j < entries.len() && !(#[trigger] entries[j]).dir && absorbed(prefix, entries).1[i]
                    == (path_join_of(prefix, entries[j].file_name@), entries[j].fid@),
    decreases entries.len(),
{
    if entries.len() > 0 {
        let init = entries.drop_last();
        let e = entries.last();
        let n = entries.len() - 1;
        lemma_absorbed_joins_paths(prefix, init);
        let dirs = absorbed(prefix, init).0;
        let files = absorbed(prefix, init).1;
        let d2 = absorbed(prefix, entries).0;
        let f2 = absorbed(prefix, entries).1;
        assert(e == entries[n]);
        assert forall|j: int| 0 <= j < init.len() implies #[trigger] init[j] == entries[j] by {}
        if e.dir {
            assert(d2 == dirs.push((e.fid@, path_join_of(prefix, e.file_name@))));
            assert(d2.len() == dirs.len() + 1);
            assert(f2 == files);
            assert forall|j: int|
                0 <= j < entries.len() && (#[trigger] entries[j]).dir implies d2.contains(
                    (entries[j].fid@, path_join_of(prefix, entries[j].file_name@)),
                ) by {
                if j < n {
                    assert(init[j] == entries[j]);
                    let k = choose|k: int| 0 <= k < dirs.len() && dirs[k] == (init[j].fid@, path_join_of(prefix, init[j].file_name@));
                    assert(d2[k] == dirs[k]);
                } else {
                    assert(d2[dirs.len() as int] == (e.fid@, path_join_of(prefix, e.file_name@)));
                }
            }
            assert forall|j: int|
                0 <= j < entries.len() && !(#[trigger] entries[j]).dir implies f2.contains(
                    (path_join_of(prefix, entries[j].file_name@), entries[j].fid@),
                ) by {
                assert(j < n);
                assert(init[j] == entries[j]);
            }
            assert forall|i: int| #![trigger d2[i]] 0 <= i < d2.len() implies exists|j: int|
                0 <= j < entries.len() && (#[trigger] entries[j]).dir && d2[i]
                    == (entries[j].fid@, path_join_of(prefix, entries[j].file_name@)) by {
                if i < dirs.len() {
                    assert(d2[i] == dirs[i]);
                    let j = choose|j: int| 0 <= j < init.len() && (#[trigger] init[j]).dir && dirs[i]
                        == (init[j].fid@, path_join_of(prefix, init[j].file_name@));
                    assert(init[j] == entries[j]);
                } else {
                    assert(i == dirs.len());
                    assert(d2[i] == (e.fid@, path_join_of(prefix, e.file_name@)));
                    assert(entries[n].dir && d2[i] == (entries[n].fid@, path_join_of(
                        prefix,
                        entries[n].file_name@,
                    )));
                }
            }
            assert forall|i: int| #![trigger f2[i]] 0 <= i < f2.len() implies exists|j: int|
                0 <= j < entries.len() && !(#[trigger] entries[j]).dir && f2[i]
                    == (path_join_of(prefix, entries[j].file_name@), entries[j].fid@) by {
                let j = choose|j: int| 0 <= j < init.len() && !(#[trigger] init[j]).dir && files[i]
                    == (path_join_of(prefix, init[j].file_name@), init[j].fid@);
                assert(init[j] == entries[j]);
            }
        } else {
            assert(f2 == files.push((path_join_of(prefix, e.file_name@), e.fid@)));
            assert(d2 == dirs);
            assert forall|j: int|
                0 <= j < entries.len() && !(#[trigger] entries[j]).dir implies f2.contains(
                    (path_join_of(prefix, entries[j].file_name@), entries[j].fid@),
                ) by {
                if j < n {
                    assert(init[j] == entries[j]);
                    let k = choose|k: int| 0 <= k < files.len() && files[k] == (path_join_of(prefix, init[j].file_name@), init[j].fid@);
                    assert(f2[k] == files[k]);
                } else {
                    assert(f2[files.len() as int] == (path_join_of(prefix, e.file_name@), e.fid@));
                }
            }
            assert forall|j: int|
                0 <= j < entries.len() && (#[trigger] entries[j]).dir implies d2.contains(
                    (entries[j].fid@, path_join_of(prefix, entries[j].file_name@)),
                ) by {
                assert(j < n);
                assert(init[j] == entries[j]);
            }
            assert forall|i: int| #![trigger f2[i]] 0 <= i < f2.len() implies exists|j: int|
                0 <= j < entries.len() && !(#[trigger] entries[j]).dir && f2[i]
                    == (path_join_of(prefix, entries[j].file_name@), entries[j].fid@) by {
                if i < files.len() {
                    assert(f2[i] == files[i]);
                    let j = choose|j: int| 0 <= j < init.len() && !(#[trigger] init[j]).dir && files[i]
                        == (path_join_of(prefix, init[j].file_name@), init[j].fid@);
                    assert(init[j] == entries[j]);
                } else {
                    assert(!entries[n].dir);
                }
            }
            assert forall|i: int| #![trigger d2[i]] 0 <= i < d2.len() implies exists|j: int|
                0 <= j < entries.len() && (#[trigger] entries[j]).dir && d2[i]
                    == (entries[j].fid@, path_join_of(prefix, entries[j].file_name@)) by {
                assert(d2[i] == dirs[i]);
                let j = choose|j: int| 0 <= j < init.len() && (#[trigger] init[j]).dir && dirs[i]
                    == (init[j].fid@, path_join_of(prefix, init[j].file_name@));
                assert(init[j] == entries[j]);
            }
        }
        assert forall|i: int|
            #![trigger absorbed(prefix, entries).0[i]]
            0 <= i < absorbed(prefix, entries).0.len() implies exists|j: int|
                0 <= j < entries.len() && (#[trigger] entries[j]).dir && absorbed(prefix, entries).0[i]
                    == (entries[j].fid@, path_join_of(prefix, entries[j].file_name@)) by {
            assert(absorbed(prefix, entries).0[i] == d2[i]);
        }
    } else {
        assert(absorbed(prefix, entries).0.len() == 0);
        assert(absorbed(prefix, entries).1.len() == 0);
    }
}

/// A walk over a remote folder tree that collects every file, depth first:
/// folders still to list wait on a stack.
pub struct RemoteCollector {
    pub stack: Vec<(String, String)>,
    pub out: Vec<RemoteFileItem>,
}

/// The folders waiting to be listed (id and path).
pub open spec fn stack_view(v: Seq<(String, String)>) -> Seq<(Seq<char>, Seq<char>)> {
    v.map_values(|p: (String, String)| (p.0@, p.1@))
}

/// The files found (relative path and id).
pub open spec fn files_view(v: Seq<RemoteFileItem>) -> Seq<(Seq<char>, Seq<char>)> {
    v.map_values(|f: RemoteFileItem| (f.relative_path@, f.fid@))
}

impl RemoteCollector {
    /// A walk that starts at folder `pdir_fid`, whose files are named
    /// relative to `prefix`.
    pub fn new(pdir_fid: &str, prefix: &str) -> (r: Self)
        ensures
            stack_view(r.stack@) == seq![(pdir_fid@, prefix@)],
            files_view(r.out@) == Seq::<(Seq<char>, Seq<char>)>::empty(),
    {
        let mut stack: Vec<(String, String)> = Vec::new();
        stack.push((owned(pdir_fid), owned(prefix)));
        let out: Vec<RemoteFileItem> = Vec::new();
        assert(stack_view(stack@) =~= seq![(pdir_fid@, prefix@)]);
        assert(files_view(out@) =~= Seq::<(Seq<char>, Seq<char>)>::empty());
        RemoteCollector { stack, out }
    }

    /// The next folder to list: the one pushed last.
    pub fn next_folder(&mut self) -> (r: Option<(String, String)>)
        ensures
            stack_view(old(self).stack@).len() == 0 ==> r is None && stack_view(final(self).stack@)
                == stack_view(old(self).stack@),
            stack_view(old(self).stack@).len() > 0 ==> (r matches Some((f, p)) && (f@, p@)
                == stack_view(old(self).stack@).last() && stack_view(final(self).stack@)
                == stack_view(old(self).stack@).drop_last()),
            files_view(final(self).out@) == files_view(old(self).out@),
    {
        let ghost before = stack_view(self.stack@);
        let r = self.stack.pop();
        proof {
            if before.len() > 0 {
                assert(stack_view(self.stack@) =~= before.drop_last());
            }
        }
        r
    }

    /// Records the listing of folder `prefix`: its sub-folders wait to be
    /// listed, its files are collected.
    pub fn absorb(&mut self, prefix: &str, entries: &[QuarkEntry])
        ensures
            stack_view(final(self).stack@) == stack_view(old(self).stack@) + absorbed(
                prefix@,
                entries@,
            ).0,
            files_view(final(self).out@) == files_view(old(self).out@) + absorbed(
                prefix@,
                entries@,
            ).1,
    {
        let ghost s0 = stack_view(self.stack@);
        let ghost f0 = files_view(self.out@);
        let mut i: usize = 0;
        assert(entries@.take(0) =~= Seq::<QuarkEntry>::empty());
        assert(s0 + Seq::<(Seq<char>, Seq<char>)>::empty() =~= s0);
        assert(f0 + Seq::<(Seq<char>, Seq<char>)>::empty() =~= f0);
        while i < entries.len()
            invariant
                i <= entries@.len(),
                stack_view(self.stack@) == s0 + absorbed(prefix@, entries@.take(i as int)).0,
                files_view(self.out@) == f0 + absorbed(prefix@, entries@.take(i as int)).1,
            decreases entries@.len() - i,
        {
            let e = &entries[i];
            let path = path_join(prefix, e.file_name.as_str());
            let ghost before_s = stack_view(self.stack@);
            let ghost before_f = files_view(self.out@);
            assert(entries@.take(i + 1).drop_last() =~= entries@.take(i as int));
            assert(entries@.take(i + 1).last() == entries@[i as int]);
            if e.dir {
                self.stack.push((owned(e.fid.as_str()), path));
                assert(stack_view(self.stack@) =~= before_s.push((e.fid@, path_join_of(prefix@, e.file_name@))));
            } else {
                self.out.push(RemoteFileItem { relative_path: path, fid: owned(e.fid.as_str()) });
                assert(files_view(self.out@) =~= before_f.push((path_join_of(prefix@, e.file_name@), e.fid@)));
            }
            i = i + 1;
        }
        assert(entries@.take(entries@.len() as int) =~= entries@);
    }
}

/// What to do with one folder of the chain a directory upload needs.
#[derive(Debug, Clone)]
pub enum FolderStep {
    /// The folder exists with this id.
    Use(String),
    /// The folder must be created.
    Create,
}

/// Decides one folder of the remote chain an upload needs, given the entry
/// already under its name: a folder is used, a file is an error.
pub fn plan_chain_folder(existing: Option<ExistingEntry>, relative: &str) -> (r: Result<
    FolderStep,
    QuarkPanError,
>)
    ensures
        match existing {
            None => r matches Ok(FolderStep::Create),
            Some(e) => if e.dir {
                r matches Ok(FolderStep::Use(f)) && f@ == e.fid@
            } else {
                is_invalid_argument(r, "cloud path component exists as file: "@ + relative@)
            },
        },
{
    match existing {
        None => Ok(FolderStep::Create),
        Some(e) => if e.dir {
            Ok(FolderStep::Use(e.fid))
        } else {
            let mut m = owned("cloud path component exists as file: ");
            m.append(relative);
            Err(QuarkPanError::InvalidArgument(m))
        },
    }
}

} // verus!
