use quarkcli::commands::{
    api_base_url, check_cookie_text, check_rename_target, choose_cookie_input,
    choose_cookie_source, cleared_cookie_record, color_enabled, cookie_file_text, delete_prompt,
    effective_color_mode, get_download_args, get_target, is_yes, more_prompt, output_format,
    page_is_last, plan_removal, probe_record, shell_download_args, shell_download_dir_args,
    show_source, shows_progress, stored_cookie_record, upload_name, wants_quit, CookieInput,
    CookieSource, RangeProbe, Removal,
};
use quarkcli::entry::{ListPage, QuarkEntry};
use quarkcli::error::QuarkPanError;
use quarkcli::options::{
    AppPathSource, AppPaths, ColorMode, GetArgs, OutputFormat, RetryBackoff, RetryMode, VerifyMode,
};
use quarkcli::output::{
    color_result, format_header, format_time, list_table_lines, render_record, OutputFlags,
    OutputRecord,
};

fn paths(source: AppPathSource) -> AppPaths {
    AppPaths {
        config_file: "/cfg/config.toml".to_string(),
        cookie_file: "/cfg/cookie.txt".to_string(),
        source,
        write_config_dir: "/new".to_string(),
        write_cookie_file: "/new/cookie.txt".to_string(),
    }
}

fn flags(quiet: bool, color: bool) -> OutputFlags {
    OutputFlags {
        quiet,
        no_progress: false,
        debug: false,
        format: OutputFormat::Table,
        color,
        interactive: true,
    }
}

fn entry(fid: &str, name: &str, dir: bool, size: u64, updated_at: u64) -> QuarkEntry {
    QuarkEntry {
        fid: fid.to_string(),
        file_name: name.to_string(),
        pdir_fid: "0".to_string(),
        size,
        format_type: String::new(),
        status: 1,
        created_at: 0,
        updated_at,
        dir,
        file: !dir,
    }
}

#[test]
fn confirmation_answers() {
    assert!(is_yes("y"));
    assert!(is_yes("  YES \n"));
    assert!(is_yes("Yes"));
    assert!(!is_yes(""));
    assert!(!is_yes("no"));
    assert!(!is_yes("yess"));
    assert_eq!(delete_prompt("/a.bin"), "delete /a.bin? [y/N] ");
}

#[test]
fn removal_needs_yes_or_a_terminal() {
    assert_eq!(plan_removal(true, false).unwrap(), Removal::Delete);
    assert_eq!(plan_removal(false, true).unwrap(), Removal::Confirm);
    let err = plan_removal(false, false).unwrap_err();
    assert!(matches!(err, QuarkPanError::InvalidArgument(m)
        if m == "refusing to delete without --yes in non-interactive mode"));
}

#[test]
fn rename_stays_in_folder() {
    assert!(check_rename_target("new.bin").is_ok());
    let err = check_rename_target("sub/new.bin").unwrap_err();
    assert!(matches!(err, QuarkPanError::InvalidArgument(m)
        if m == "mv only supports renaming within the same remote directory"));
}

#[test]
fn get_target_places_files_inside_directories() {
    assert_eq!(get_target(None, "a.bin", false, false), "a.bin");
    assert_eq!(get_target(Some("./out"), "a.bin", false, true), "./out/a.bin");
    assert_eq!(get_target(Some("./out"), "dir", true, true), "./out");
    assert_eq!(get_target(Some("x.bin"), "a.bin", false, false), "x.bin");
}

#[test]
fn get_and_shell_download_arguments() {
    let get = GetArgs {
        remote_path_or_fid: "/a.bin".to_string(),
        local_path: None,
        overwrite: true,
        continue_download: false,
        retry: RetryMode::Count(9),
        retry_delay: 4,
        retry_max_delay: 30,
        retry_backoff: RetryBackoff::Fixed,
        verify: VerifyMode::Always,
        skip_verify: false,
    };
    let d = get_download_args("fid1".to_string(), "a.bin".to_string(), &get);
    assert_eq!(d.fid, "fid1");
    assert_eq!(d.output, Some("a.bin".to_string()));
    assert!(!d.stdout);
    assert!(d.overwrite);
    assert_eq!(d.retry, RetryMode::Count(9));
    assert_eq!(d.retry_delay, 4);
    assert_eq!(d.retry_max_delay, 30);
    assert_eq!(d.retry_backoff, RetryBackoff::Fixed);
    assert_eq!(d.verify_mode(), VerifyMode::Always);

    let s = shell_download_args("fid2".to_string(), "b.bin".to_string(), true, false);
    assert_eq!(s.retry, RetryMode::Count(5));
    assert_eq!(s.retry_delay, 2);
    assert_eq!(s.retry_max_delay, 60);
    assert!(s.continue_download);
    assert_eq!(s.verify_mode(), VerifyMode::Auto);

    let sd = shell_download_dir_args("fid3".to_string(), "dir".to_string(), false, true);
    assert_eq!(sd.pdir_fid, "fid3");
    assert_eq!(sd.retry, RetryMode::Count(5));
    assert!(sd.overwrite);
}

#[test]
fn output_and_colour_choices() {
    assert_eq!(output_format(true, OutputFormat::Table), OutputFormat::Json);
    assert_eq!(output_format(false, OutputFormat::Table), OutputFormat::Table);
    assert_eq!(effective_color_mode(Some(ColorMode::Never), Some(ColorMode::Always)), ColorMode::Never);
    assert_eq!(effective_color_mode(None, Some(ColorMode::Always)), ColorMode::Always);
    assert_eq!(effective_color_mode(None, None), ColorMode::Auto);
    assert!(color_enabled(ColorMode::Auto, false, true));
    assert!(!color_enabled(ColorMode::Auto, false, false));
    assert!(color_enabled(ColorMode::Always, false, false));
    assert!(!color_enabled(ColorMode::Never, true, true));
    assert_eq!(api_base_url(None, None), "https://drive.quark.cn");
    assert_eq!(api_base_url(None, Some("http://c".to_string())), "http://c");
    assert_eq!(
        api_base_url(Some("http://a".to_string()), Some("http://c".to_string())),
        "http://a"
    );
    assert!(shows_progress(flags(false, false)));
    assert!(!shows_progress(flags(true, false)));
    let mut f = flags(false, false);
    f.interactive = false;
    assert!(!shows_progress(f));
}

#[test]
fn cookie_input_and_text() {
    assert!(matches!(
        choose_cookie_input(Some("a=b".to_string()), true, true, true).unwrap(),
        CookieInput::Given(c) if c == "a=b"
    ));
    assert!(matches!(choose_cookie_input(None, true, true, false).unwrap(), CookieInput::Stdin));
    assert!(matches!(choose_cookie_input(None, false, true, true).unwrap(), CookieInput::Editor(e) if e == "nano"));
    assert!(matches!(choose_cookie_input(None, false, false, true).unwrap(), CookieInput::Editor(e) if e == "vi"));
    assert!(choose_cookie_input(None, false, false, false).is_err());
    assert_eq!(check_cookie_text("  a=b \n").unwrap(), "a=b");
    let err = check_cookie_text(" \n\t").unwrap_err();
    assert!(matches!(err, QuarkPanError::InvalidArgument(m) if m == "cookie cannot be empty"));
    assert_eq!(cookie_file_text(" a=b "), "a=b\n");
}

#[test]
fn cookie_source_order() {
    let p = paths(AppPathSource::New);
    assert!(matches!(
        choose_cookie_source(Some("c".to_string()), Some("/f".to_string()), None, &p, true).unwrap(),
        CookieSource::Given(c) if c == "c"
    ));
    assert!(matches!(
        choose_cookie_source(None, Some("/f".to_string()), Some("e".to_string()), &p, true).unwrap(),
        CookieSource::File(f) if f == "/f"
    ));
    assert!(matches!(
        choose_cookie_source(None, None, Some("e=1".to_string()), &p, true).unwrap(),
        CookieSource::Given(c) if c == "e=1"
    ));
    assert!(matches!(
        choose_cookie_source(None, None, Some("  ".to_string()), &p, true).unwrap(),
        CookieSource::File(f) if f == "/cfg/cookie.txt"
    ));
    assert!(matches!(
        choose_cookie_source(None, None, None, &p, false).unwrap_err(),
        QuarkPanError::MissingField("cookie")
    ));
}

#[test]
fn auth_source_records() {
    let legacy = paths(AppPathSource::Legacy);
    assert!(matches!(
        show_source(Some("x"), true, &legacy),
        OutputRecord::AuthSource { source, path: None, legacy: false } if source == "env"
    ));
    assert!(matches!(
        show_source(Some(""), true, &legacy),
        OutputRecord::AuthSource { source, path: Some(p), legacy: true }
            if source == "stored-legacy" && p == "/cfg/cookie.txt"
    ));
    assert!(matches!(
        show_source(None, false, &legacy),
        OutputRecord::AuthSource { source, path: None, legacy: false } if source == "none"
    ));
    assert!(matches!(
        stored_cookie_record(&legacy),
        OutputRecord::AuthSource { source, path: Some(p), legacy: false }
            if source == "persisted_cookie" && p == "/new/cookie.txt"
    ));
    assert!(matches!(
        cleared_cookie_record(&legacy),
        OutputRecord::AuthSource { source, path: Some(p), legacy: false }
            if source == "cleared" && p == "/new/cookie.txt"
    ));
}

#[test]
fn probe_report_hides_url_unless_debug() {
    let r = probe_record(
        "fid1".to_string(),
        "https://dl".to_string(),
        Some("abc"),
        RangeProbe::Opened { first_chunk: Some(100) },
        false,
    );
    match r {
        OutputRecord::ProbeDownload {
            fid,
            download_url,
            md5,
            range,
            first_bytes,
            sensitive_download_url,
        } => {
            assert_eq!(fid, "fid1");
            assert_eq!(download_url, "present");
            assert_eq!(md5, "present");
            assert_eq!(range, "ok");
            assert_eq!(first_bytes, 16);
            assert_eq!(sensitive_download_url, None);
        }
        _ => panic!("unexpected record"),
    }
    let r = probe_record(
        "fid1".to_string(),
        " ".to_string(),
        None,
        RangeProbe::Failed { message: "boom".to_string() },
        true,
    );
    let lines = render_record(&r, false).unwrap();
    assert_eq!(
        lines,
        vec![
            "fid: fid1".to_string(),
            "download_url: missing".to_string(),
            "md5: missing".to_string(),
            "range: failed: boom".to_string(),
            "first_bytes: 0".to_string(),
            "sensitive_download_url:  ".to_string(),
        ]
    );
}

#[test]
fn paging_helpers() {
    assert!(page_is_last(3, 50));
    assert!(!page_is_last(50, 50));
    assert_eq!(more_prompt(2), "-- More -- page 2 | Enter next page | q quit: ");
    assert!(wants_quit(" Q\n"));
    assert!(!wants_quit(""));
    assert!(!wants_quit("quit"));
}

#[test]
fn upload_names() {
    assert_eq!(upload_name(Some("x.bin"), "/d/a.bin").unwrap(), "x.bin");
    assert_eq!(upload_name(None, "/d/a.bin").unwrap(), "a.bin");
    let err = upload_name(None, "/").unwrap_err();
    assert!(matches!(err, QuarkPanError::InvalidArgument(m) if m == "invalid file name"));
}

#[test]
fn result_records_render_lines() {
    let one = |r: OutputRecord| render_record(&r, false).unwrap();
    assert_eq!(
        one(OutputRecord::FolderCreated { fid: "f1".to_string() }),
        vec!["folder created: f1".to_string()]
    );
    assert_eq!(
        one(OutputRecord::UploadDone { fid: "f2".to_string(), rapid_upload: true }),
        vec!["rapid upload completed: f2".to_string()]
    );
    assert_eq!(
        one(OutputRecord::UploadDone { fid: "f2".to_string(), rapid_upload: false }),
        vec!["upload completed: f2".to_string()]
    );
    assert_eq!(
        one(OutputRecord::Renamed { fid: "f3".to_string(), file_name: "n".to_string() }),
        vec!["renamed f3 -> n".to_string()]
    );
    assert_eq!(
        one(OutputRecord::Deleted { fids: vec!["a".to_string()] }),
        vec!["deleted 1 entry".to_string()]
    );
    assert_eq!(
        one(OutputRecord::Deleted { fids: vec!["a".to_string(), "b".to_string()] }),
        vec!["deleted 2 entries".to_string()]
    );
    assert_eq!(
        one(OutputRecord::AuthSource {
            source: "env".to_string(),
            path: None,
            legacy: false
        }),
        vec!["env".to_string()]
    );
    assert!(render_record(
        &OutputRecord::Stat {
            fid: "f".to_string(),
            name: "n".to_string(),
            dir: false,
            size: 1,
            updated_at: 2
        },
        false
    )
    .is_none());
    let coloured = render_record(&OutputRecord::FolderCreated { fid: "f1".to_string() }, true).unwrap();
    assert_eq!(coloured, vec!["\x1b[32mfolder created: f1\x1b[39m".to_string()]);
}

#[test]
fn colour_wrappers_add_escape_codes() {
    assert_eq!(format_header(false, "NAME"), "NAME");
    assert_eq!(format_header(true, "NAME"), "\x1b[36m\x1b[1mNAME\x1b[0m\x1b[39m");
    assert_eq!(color_result(false, "ok"), "ok");
    assert_eq!(color_result(true, "ok"), "\x1b[32mok\x1b[39m");
}

#[test]
fn times_render_in_utc_minutes() {
    assert_eq!(format_time(0, false), "1970-01-01 00:00");
    assert_eq!(format_time(1_700_000_000_000, false), "2023-11-14 22:13");
    assert_eq!(format_time(1_700_000_000_000, true), "1700000000000");
    assert_eq!(format_time(u64::MAX, false), "-");
}

#[test]
fn listing_table_has_summary_header_and_rows() {
    let page = ListPage {
        entries: vec![entry("fid1", "a.txt", false, 123, 0), entry("fid2", "d", true, 0, 0)],
        page: 1,
        size: 50,
        total: 2,
    };
    let lines = list_table_lines(flags(false, false), &page, false, false);
    assert_eq!(
        lines,
        vec![
            "page=1 shown=2 total=2".to_string(),
            "TYPE         SIZE FID NAME".to_string(),
            "FILE          123 fid1 a.txt".to_string(),
            "DIR             - fid2 d".to_string(),
        ]
    );
    let long = list_table_lines(flags(true, false), &page, true, true);
    assert_eq!(
        long,
        vec![
            "TYPE         SIZE UPDATED          FID NAME".to_string(),
            "FILE          123 0                fid1 a.txt".to_string(),
            "DIR             - 0                fid2 d".to_string(),
        ]
    );
    let coloured = list_table_lines(flags(false, true), &page, false, false);
    assert_eq!(coloured.len(), 4);
    assert_eq!(coloured[1], "\x1b[36m\x1b[1mTYPE         SIZE FID NAME\x1b[0m\x1b[39m");
}
