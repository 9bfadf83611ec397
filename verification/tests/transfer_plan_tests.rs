use quarkcli::download::DownloadTask;
use quarkcli::entry::QuarkEntry;
use quarkcli::error::{HttpFailure, IoErrorKind, IoFailure, QuarkPanError};
use quarkcli::hashing::{FileHasher, Md5Hasher};
use quarkcli::navigate::{
    find_by_name, finish_entry_lookup, start_dir_walk, start_entry_lookup, walk_found, walk_step,
    DirStart, EntryStart, ShellState, WalkStep,
};
use quarkcli::options::{DownloadDirArgs, RetryBackoff, RetryMode, VerifyMode};
use quarkcli::plan::{
    check_download_dir_start, check_output_choice, check_upload_resume, check_upload_task_file, entry_download_args,
    entry_pending, new_download_dir_task, new_upload_dir_task, plan_chain_folder, plan_dir_entry,
    plan_download_start, plan_upload_clash, plan_upload_root, entry_status_after, task_targets,
    upload_resume_point, upload_root_name, ClashStep, DirEntryStatus, DownloadStart, EntryEvent, EntryStep,
    ExistingEntry, FolderStep, RemoteCollector, RemoteFileItem, UploadRoot,
};
use quarkcli::resume::{after_copy_failure, after_open_failure, resume_offset, RetryPolicy, RetryStep};

fn entry(fid: &str, name: &str, dir: bool) -> QuarkEntry {
    QuarkEntry {
        fid: fid.to_string(),
        file_name: name.to_string(),
        pdir_fid: "0".to_string(),
        size: 1,
        format_type: String::new(),
        status: 1,
        created_at: 0,
        updated_at: 0,
        dir,
        file: !dir,
    }
}

fn invalid(err: QuarkPanError) -> String {
    match err {
        QuarkPanError::InvalidArgument(m) => m,
        other => panic!("unexpected error {:?}", other),
    }
}

#[test]
fn output_choice_needs_exactly_one_target() {
    assert!(check_output_choice(true, false).is_ok());
    assert!(check_output_choice(false, true).is_ok());
    assert_eq!(
        invalid(check_output_choice(true, true).unwrap_err()),
        "exactly one of --output or --stdout is required"
    );
    assert!(check_output_choice(false, false).is_err());
}

#[test]
fn download_start_decisions() {
    assert_eq!(
        plan_download_start("a.bin", true, true, false, false).unwrap(),
        DownloadStart::AlreadyPresent
    );
    assert_eq!(
        invalid(plan_download_start("a.bin", false, true, false, true).unwrap_err()),
        "output already exists: a.bin (use --overwrite)"
    );
    assert_eq!(
        plan_download_start("a.bin", false, true, true, false).unwrap(),
        DownloadStart::Fetch { clear_all: true }
    );
    assert_eq!(
        plan_download_start("a.bin", false, false, true, true).unwrap(),
        DownloadStart::Fetch { clear_all: false }
    );
    let task = DownloadTask::new("f".to_string(), "a.bin", "a.bin.part", None, None, VerifyMode::Auto);
    assert!(task_targets(&task, "f", "a.bin", "a.bin.part"));
    assert!(!task_targets(&task, "g", "a.bin", "a.bin.part"));
}

#[test]
fn directory_download_records_and_steps() {
    let files = vec![
        RemoteFileItem { relative_path: "a.txt".to_string(), fid: "f1".to_string() },
        RemoteFileItem { relative_path: "sub/b.txt".to_string(), fid: "f2".to_string() },
    ];
    let task = new_download_dir_task("p", "/out", &files);
    assert_eq!(task.kind, "download_dir");
    assert_eq!(task.pdir_fid, "p");
    assert_eq!(task.output_dir, "/out");
    assert_eq!(task.entries.len(), 2);
    assert_eq!(task.entries[1].relative_path, "sub/b.txt");
    assert_eq!(task.entries[1].fid, "f2");
    assert_eq!(task.entries[0].status, DirEntryStatus::Pending);
    assert!(entry_pending(DirEntryStatus::Pending));
    assert!(entry_pending(DirEntryStatus::Failed));
    assert!(entry_pending(DirEntryStatus::Running));
    assert!(!entry_pending(DirEntryStatus::Done));
    assert!(!entry_pending(DirEntryStatus::Skipped));
    assert_eq!(entry_status_after(EntryEvent::Finish { succeeded: true }), DirEntryStatus::Done);
    assert_eq!(entry_status_after(EntryEvent::Finish { succeeded: false }), DirEntryStatus::Failed);
    assert_eq!(entry_status_after(EntryEvent::Begin), DirEntryStatus::Running);
    assert_eq!(entry_status_after(EntryEvent::Skip), DirEntryStatus::Skipped);

    let mut task = task;
    task.record_md5(1, Some("m2".to_string()));
    task.record(1, EntryEvent::Begin);
    assert_eq!(task.entries[1].status, DirEntryStatus::Running);
    assert!(entry_pending(task.entries[1].status));
    task.record(1, EntryEvent::Finish { succeeded: true });
    assert_eq!(task.entries[1].status, DirEntryStatus::Done);
    assert_eq!(task.entries[1].md5, Some("m2".to_string()));
    assert_eq!(task.entries[1].fid, "f2");
    assert!(!entry_pending(task.entries[1].status));
    assert_eq!(task.entries[0].status, DirEntryStatus::Pending);
    task.record(0, EntryEvent::Skip);
    assert!(!entry_pending(task.entries[0].status));

    assert_eq!(
        invalid(check_download_dir_start("/out", true, false, false, false).unwrap_err()),
        "output directory already exists: /out"
    );
    assert_eq!(
        invalid(check_download_dir_start("/out", true, true, false, false).unwrap_err()),
        "no interrupted directory task found; local directory already exists or download already completed"
    );
    assert!(check_download_dir_start("/out", true, true, false, true).is_ok());
    assert!(check_download_dir_start("/out", true, true, true, false).is_ok());
    assert!(check_download_dir_start("/out", false, false, false, false).is_ok());

    assert_eq!(plan_dir_entry("/out/a", true, true, true, true).unwrap(), EntryStep::Skip);
    assert_eq!(plan_dir_entry("/out/a", false, true, false, false).unwrap(), EntryStep::Fetch);
    assert_eq!(
        invalid(plan_dir_entry("/out/a", false, false, true, false).unwrap_err()),
        "local file already exists: /out/a"
    );
    assert_eq!(plan_dir_entry("/out/a", false, false, true, true).unwrap(), EntryStep::Fetch);
}

#[test]
fn directory_entry_download_inherits_settings() {
    let dir = DownloadDirArgs {
        pdir_fid: "p".to_string(),
        output: "/out".to_string(),
        continue_download: true,
        overwrite: true,
        retry: RetryMode::Count(2),
        retry_delay: 1,
        retry_max_delay: 9,
        retry_backoff: RetryBackoff::Fixed,
        verify: VerifyMode::Always,
        skip_verify: true,
    };
    let d = entry_download_args("f1", "/out/a", &dir);
    assert_eq!(d.fid, "f1");
    assert_eq!(d.output, Some("/out/a".to_string()));
    assert!(d.overwrite);
    assert!(d.continue_download);
    assert_eq!(d.retry, RetryMode::Count(2));
    assert_eq!(d.verify, VerifyMode::Never);
    assert!(!d.skip_verify);
}

#[test]
fn upload_root_and_clash_decisions() {
    assert_eq!(upload_root_name(Some("n"), Some("d")), "n");
    assert_eq!(upload_root_name(None, Some("d")), "d");
    assert_eq!(upload_root_name(None, None), "root");
    assert!(matches!(plan_upload_root(None, false, false).unwrap(), UploadRoot::Create));
    let folder = || Some(ExistingEntry { fid: "r".to_string(), dir: true });
    assert_eq!(
        invalid(plan_upload_root(folder(), false, false).unwrap_err()),
        "target cloud folder already exists"
    );
    assert_eq!(
        invalid(plan_upload_root(folder(), true, false).unwrap_err()),
        "no interrupted directory task found; cloud folder already exists or upload already completed"
    );
    assert!(matches!(plan_upload_root(folder(), true, true).unwrap(), UploadRoot::Existing(f) if f == "r"));
    assert!(matches!(plan_upload_root(folder(), false, true).unwrap(), UploadRoot::Existing(f) if f == "r"));
    assert_eq!(
        invalid(plan_upload_root(Some(ExistingEntry { fid: "x".to_string(), dir: false }), true, true).unwrap_err()),
        "target cloud entry exists and is not a folder"
    );

    assert_eq!(
        invalid(plan_upload_clash("a/b", false, false, None, "m").unwrap_err()),
        "cloud file already exists: a/b"
    );
    assert_eq!(
        invalid(plan_upload_clash("a/b", true, true, None, "m").unwrap_err()),
        "cloud entry is a folder but local path is a file: a/b"
    );
    assert_eq!(plan_upload_clash("a/b", true, false, Some("ABC"), "abc").unwrap(), ClashStep::Skip);
    assert_eq!(plan_upload_clash("a/b", true, false, Some("abd"), "abc").unwrap(), ClashStep::Replace);
    assert_eq!(plan_upload_clash("a/b", true, false, None, "abc").unwrap(), ClashStep::Replace);

    assert!(matches!(plan_chain_folder(None, "a").unwrap(), FolderStep::Create));
    assert!(matches!(
        plan_chain_folder(Some(ExistingEntry { fid: "d1".to_string(), dir: true }), "a").unwrap(),
        FolderStep::Use(f) if f == "d1"
    ));
    assert_eq!(
        invalid(plan_chain_folder(Some(ExistingEntry { fid: "x".to_string(), dir: false }), "a/b").unwrap_err()),
        "cloud path component exists as file: a/b"
    );
}

#[test]
fn upload_records_and_resume() {
    let files = vec!["a.txt".to_string(), "s/b.txt".to_string()];
    let t = new_upload_dir_task("/src", "p", "name", "root", &files);
    assert_eq!(t.kind, "upload_dir");
    assert_eq!(t.source_dir, "/src");
    assert_eq!(t.root_fid, "root");
    assert_eq!(t.entries.len(), 2);
    assert_eq!(t.entries[1].relative_path, "s/b.txt");
    assert_eq!(t.entries[1].status, DirEntryStatus::Pending);
    let mut t = t;
    t.record(0, EntryEvent::Begin);
    t.record(0, EntryEvent::Finish { succeeded: false });
    assert_eq!(t.entries[0].status, DirEntryStatus::Failed);
    assert!(entry_pending(t.entries[0].status));
    assert_eq!(t.entries[0].relative_path, "a.txt");
    assert_eq!(t.entries[1].status, DirEntryStatus::Pending);

    assert!(check_upload_task_file("/f", "/f").is_ok());
    assert_eq!(
        invalid(check_upload_task_file("/f", "/g").unwrap_err()),
        "--file does not match task file"
    );
    assert!(check_upload_resume(3, "m", "s", 3, "m", "s").is_ok());
    assert_eq!(
        invalid(check_upload_resume(3, "m", "s", 4, "m", "s").unwrap_err()),
        "local file size/md5/sha1 does not match upload task"
    );
    assert!(check_upload_resume(3, "m", "s", 3, "M", "s").is_err());
    assert!(check_upload_resume(3, "m", "s", 3, "m", "t").is_err());
    assert_eq!(upload_resume_point(0, 10, 25), (1, 0, 25));
    assert_eq!(upload_resume_point(3, 10, 25), (3, 20, 5));
    assert_eq!(upload_resume_point(4, 10, 25), (4, 30, 0));
}

#[test]
fn remote_collector_walks_depth_first() {
    let mut c = RemoteCollector::new("root", "");
    let (fid, prefix) = c.next_folder().unwrap();
    assert_eq!((fid.as_str(), prefix.as_str()), ("root", ""));
    c.absorb(&prefix, &[entry("d1", "sub", true), entry("f1", "a.txt", false)]);
    let (fid, prefix) = c.next_folder().unwrap();
    assert_eq!((fid.as_str(), prefix.as_str()), ("d1", "sub"));
    c.absorb(&prefix, &[entry("f2", "b.txt", false)]);
    assert!(c.next_folder().is_none());
    let found: Vec<(String, String)> =
        c.out.iter().map(|f| (f.relative_path.clone(), f.fid.clone())).collect();
    assert_eq!(
        found,
        vec![
            ("a.txt".to_string(), "f1".to_string()),
            ("sub/b.txt".to_string(), "f2".to_string())
        ]
    );
}

#[test]
fn shell_state_starts_at_root() {
    let s = ShellState::root();
    assert_eq!(s.current_fid, "0");
    assert_eq!(s.current_path, "/");
    let d = ShellState::default();
    assert_eq!(d.current_fid, "0");
}

#[test]
fn find_by_name_takes_the_first_match() {
    let entries = vec![entry("a", "x", false), entry("b", "y", true), entry("c", "y", false)];
    assert_eq!(find_by_name(entries.clone(), "y").unwrap().fid, "b");
    assert!(find_by_name(entries, "z").is_none());
}

#[test]
fn directory_walk_follows_components() {
    let state = ShellState { current_fid: "cur".to_string(), current_path: "/a".to_string() };
    assert!(matches!(start_dir_walk(&state, None), DirStart::Done { fid, path } if fid == "cur" && path == "/a"));
    assert!(matches!(start_dir_walk(&state, Some(" ")), DirStart::Done { fid, .. } if fid == "cur"));
    assert!(matches!(start_dir_walk(&state, Some("/")), DirStart::Done { fid, path } if fid == "0" && path == "/"));
    assert!(matches!(start_dir_walk(&state, Some("..")), DirStart::Done { fid, path } if fid == "0" && path == "/"));
    assert!(matches!(
        start_dir_walk(&state, Some("9142a9e0d2ba435d99a98b7acc773e7a")),
        DirStart::Done { fid, path } if fid == "9142a9e0d2ba435d99a98b7acc773e7a" && path == "/@fid:9142a9e0"
    ));
    let mut walk = match start_dir_walk(&state, Some("b/c")) {
        DirStart::Walk(w) => w,
        other => panic!("expected a walk, got {:?}", other),
    };
    assert_eq!(walk.absolute, "/a/b/c");
    assert_eq!(walk.components, vec!["a".to_string(), "b".to_string(), "c".to_string()]);
    let mut looked_up = Vec::new();
    loop {
        match walk_step(&walk) {
            WalkStep::Lookup { parent_fid, name } => {
                looked_up.push((parent_fid, name.clone()));
                walk = walk_found(walk, Some(entry(&format!("id-{name}"), &name, true))).unwrap();
            }
            WalkStep::Done { fid, path } => {
                assert_eq!(fid, "id-c");
                assert_eq!(path, "/a/b/c");
                break;
            }
        }
    }
    assert_eq!(
        looked_up,
        vec![
            ("0".to_string(), "a".to_string()),
            ("id-a".to_string(), "b".to_string()),
            ("id-b".to_string(), "c".to_string())
        ]
    );
    let walk = match start_dir_walk(&state, Some("/x")) {
        DirStart::Walk(w) => w,
        other => panic!("expected a walk, got {:?}", other),
    };
    assert_eq!(invalid(walk_found(walk.clone(), None).unwrap_err()), "remote path not found: /x");
    assert_eq!(
        invalid(walk_found(walk, Some(entry("f", "x", false))).unwrap_err()),
        "remote path is not a directory: /x"
    );
}

#[test]
fn entry_lookup_splits_paths() {
    assert!(matches!(
        start_entry_lookup("/", "9142a9e0d2ba435d99a98b7acc773e7a").unwrap(),
        EntryStart::ById(f) if f == "9142a9e0d2ba435d99a98b7acc773e7a"
    ));
    assert!(matches!(
        start_entry_lookup("/docs", "a.txt").unwrap(),
        EntryStart::ByName { absolute, parent, name }
            if absolute == "/docs/a.txt" && parent == "/docs" && name == "a.txt"
    ));
    assert_eq!(
        invalid(start_entry_lookup("/docs", "..").unwrap_err()),
        "remote root is not a file entry"
    );
    let (e, p) = finish_entry_lookup(Some(entry("f", "a.txt", false)), "/docs/a.txt".to_string()).unwrap();
    assert_eq!(e.fid, "f");
    assert_eq!(p, "/docs/a.txt");
    assert_eq!(
        invalid(finish_entry_lookup(None, "/docs/z".to_string()).unwrap_err()),
        "remote path not found: /docs/z"
    );
}

#[test]
fn resume_offsets_and_retry_steps() {
    assert_eq!(resume_offset(false, 0, Some(10)), 0);
    assert_eq!(resume_offset(true, 0, Some(10)), 10);
    assert_eq!(resume_offset(false, 2, Some(10)), 10);
    assert_eq!(resume_offset(true, 2, None), 0);

    let policy = RetryPolicy {
        retry: RetryMode::Count(2),
        retry_delay: 2,
        retry_max_delay: 60,
        retry_backoff: RetryBackoff::Exponential,
    };
    let unsupported =
        QuarkPanError::invalid_argument("server did not honor range request for resume download");
    assert_eq!(after_open_failure(&policy, 1, 100, &unsupported), (1, RetryStep::Restart));
    assert_eq!(after_open_failure(&policy, 1, 0, &unsupported), (1, RetryStep::Fail));
    let timeout = QuarkPanError::Http(HttpFailure {
        timeout: true,
        connect: false,
        status: None,
        body: false,
        request: false,
        message: "timed out".to_string(),
    });
    assert_eq!(after_open_failure(&policy, 0, 0, &timeout), (1, RetryStep::Wait { secs: 2 }));
    assert_eq!(after_open_failure(&policy, 1, 0, &timeout), (2, RetryStep::Wait { secs: 4 }));
    assert_eq!(after_open_failure(&policy, 2, 0, &timeout), (2, RetryStep::Fail));
    let reset = QuarkPanError::Io(IoFailure {
        kind: IoErrorKind::ConnectionReset,
        message: "reset".to_string(),
    });
    assert_eq!(after_copy_failure(&policy, 0, Some(&reset)), (1, RetryStep::Wait { secs: 2 }));
    assert_eq!(after_copy_failure(&policy, 0, None), (0, RetryStep::Fail));
    assert_eq!(
        after_copy_failure(&policy, 0, Some(&QuarkPanError::Cancelled)),
        (0, RetryStep::Fail)
    );
}

#[test]
fn hashers_compute_known_digests() {
    let mut h = FileHasher::new();
    h.consume(b"hello ");
    h.consume(b"world");
    let out = h.finish("greeting.txt".to_string());
    assert_eq!(out.name, "greeting.txt");
    assert_eq!(out.size, 11);
    assert_eq!(out.md5, "5eb63bbbe01eeed093cb22bb8f5acdc3");
    assert_eq!(out.sha1, "2aae6c35c94fcfb415dbe95f408b9ce91ee846ed");

    let empty = FileHasher::new().finish(String::new());
    assert_eq!(empty.size, 0);
    assert_eq!(empty.md5, "d41d8cd98f00b204e9800998ecf8427e");
    assert_eq!(empty.sha1, "da39a3ee5e6b4b0d3255bfef95601890afd80709");

    let mut m = Md5Hasher::new();
    m.consume(b"abc");
    assert_eq!(m.finish(), "900150983cd24fb0d6963f7d28e17f72");
}
