use quarkcli::download::{
    decode_hex, dir_task_path, eq_ignore_ascii_case, file_task_path, hex_value,
    is_retryable_boxed_error, is_retryable_error, is_unsupported_resume_error,
    md5_matches_remote, partial_download_path, retry_allows_attempt, retry_sleep_secs,
    should_retry_download, verify_download_checksum, DownloadTask, VerificationOutcome,
};
use quarkcli::error::{IoErrorKind, IoFailure, QuarkPanError};
use quarkcli::options::{
    legacy_app_name, new_app_name, parse_u32, select_existing_app_paths, validate_cli,
    AppPathSource, DownloadArgs, DownloadDirArgs, GetArgs, RetryBackoff, RetryMode, VerifyMode,
};

fn path_join(base: &str, tail: &str) -> String {
    std::path::Path::new(base)
        .join(tail)
        .to_string_lossy()
        .into_owned()
}

#[test]
fn app_paths_uses_explicit_config_file_exactly() {
    let base = "/tmp/quarkcli-test-explicit".to_string();
    let config_file = path_join(&base, "custom.toml");

    let paths = select_existing_app_paths(
        Some(config_file.clone()),
        path_join(&base, "new"),
        false,
        path_join(&base, "legacy"),
        false,
    )
    .unwrap();

    assert_eq!(paths.source, AppPathSource::Explicit);
    assert_eq!(paths.config_file, config_file);
    assert_eq!(paths.cookie_file, path_join(&base, "cookie.txt"));
    assert_eq!(paths.write_config_dir, base);
}

#[test]
fn app_paths_prefers_existing_new_config_path() {
    let base = "/tmp/quarkcli-test-new".to_string();
    let new_dir = path_join(&base, "quarkcli");
    let legacy_dir = path_join(&base, "quarkpan");

    let paths = select_existing_app_paths(None, new_dir.clone(), true, legacy_dir, true).unwrap();

    assert_eq!(paths.source, AppPathSource::New);
    assert_eq!(paths.config_file, path_join(&new_dir, "config.toml"));
    assert_eq!(paths.write_config_dir, new_dir);
}

#[test]
fn app_paths_accepts_legacy_when_new_missing() {
    let base = "/tmp/quarkcli-test-legacy".to_string();
    let new_dir = path_join(&base, "quarkcli");
    let legacy_dir = path_join(&base, "quarkpan");

    let paths =
        select_existing_app_paths(None, new_dir.clone(), false, legacy_dir.clone(), true).unwrap();

    assert_eq!(paths.source, AppPathSource::Legacy);
    assert_eq!(paths.config_file, path_join(&legacy_dir, "config.toml"));
    assert_eq!(paths.cookie_file, path_join(&legacy_dir, "cookie.txt"));
    assert_eq!(paths.write_config_dir, new_dir);
    assert_eq!(paths.write_cookie_file, path_join(&new_dir, "cookie.txt"));
}

#[test]
fn app_paths_default_to_new_when_nothing_exists() {
    let paths = select_existing_app_paths(
        None,
        "/cfg/quarkcli".to_string(),
        false,
        "/cfg/quarkpan".to_string(),
        false,
    )
    .unwrap();
    assert_eq!(paths.source, AppPathSource::New);
    assert_eq!(paths.config_file, "/cfg/quarkcli/config.toml");
    assert_eq!(paths.cookie_file, "/cfg/quarkcli/cookie.txt");
    assert_eq!(paths.write_cookie_file, "/cfg/quarkcli/cookie.txt");
}

#[test]
fn app_paths_reject_config_file_without_parent() {
    let err = select_existing_app_paths(
        Some("/".to_string()),
        "/cfg/quarkcli".to_string(),
        false,
        "/cfg/quarkpan".to_string(),
        false,
    )
    .unwrap_err();
    assert!(matches!(err, QuarkPanError::InvalidArgument(m) if m == "invalid --config-file path"));
}

#[test]
fn app_names_are_fixed() {
    assert_eq!(new_app_name(), "quarkcli");
    assert_eq!(legacy_app_name(), "quarkpan");
}

#[test]
fn legacy_auth_source_is_identified() {
    assert_eq!(AppPathSource::Legacy.stored_source(), "stored-legacy");
}

#[test]
fn other_auth_sources_are_persisted_cookie() {
    assert_eq!(AppPathSource::New.stored_source(), "persisted_cookie");
    assert_eq!(AppPathSource::Explicit.stored_source(), "persisted_cookie");
}

#[test]
fn verify_auto_fails_on_remote_md5_mismatch() {
    let outcome = verify_download_checksum(
        VerifyMode::Auto,
        "4dbede38d219d5e194cabe3863cab2ca",
        Some("eccef295b1bfee6ffd98a4bd75717f08"),
    );

    assert!(outcome.is_err());
}

#[test]
fn verify_never_allows_mismatch() {
    let outcome = verify_download_checksum(
        VerifyMode::Never,
        "4dbede38d219d5e194cabe3863cab2ca",
        Some("eccef295b1bfee6ffd98a4bd75717f08"),
    );

    assert!(matches!(outcome, Ok(VerificationOutcome::Skipped)));
}

#[test]
fn verify_always_fails_when_remote_md5_missing() {
    let outcome =
        verify_download_checksum(VerifyMode::Always, "4dbede38d219d5e194cabe3863cab2ca", None);

    assert!(outcome.is_err());
}

#[test]
fn verify_outcomes_for_each_mode() {
    let local = "4dbede38d219d5e194cabe3863cab2ca";
    assert_eq!(
        verify_download_checksum(VerifyMode::Auto, local, None).unwrap(),
        VerificationOutcome::NotAvailable
    );
    assert_eq!(
        verify_download_checksum(VerifyMode::Auto, local, Some("  ")).unwrap(),
        VerificationOutcome::NotAvailable
    );
    assert_eq!(
        verify_download_checksum(VerifyMode::Always, local, Some("4DBEDE38D219D5E194CABE3863CAB2CA"))
            .unwrap(),
        VerificationOutcome::Verified
    );
    let err = verify_download_checksum(VerifyMode::Always, local, Some("")).unwrap_err();
    assert!(matches!(err, QuarkPanError::InvalidArgument(m)
        if m == "download verification required but remote md5 is missing"));
    let err = verify_download_checksum(
        VerifyMode::Auto,
        local,
        Some("eccef295b1bfee6ffd98a4bd75717f08"),
    )
    .unwrap_err();
    assert!(matches!(err, QuarkPanError::InvalidArgument(m)
        if m == "download md5 mismatch: local=4dbede38d219d5e194cabe3863cab2ca, remote=eccef295b1bfee6ffd98a4bd75717f08"));
}

#[test]
fn md5_matches_hex_in_any_case_and_base64_digest() {
    // md5("") = d41d8cd98f00b204e9800998ecf8427e, whose raw digest in base64 is 1B2M2Y8AsgTpgAmY7PhCfg==
    let local = "d41d8cd98f00b204e9800998ecf8427e";
    assert!(md5_matches_remote(local, "D41D8CD98F00B204E9800998ECF8427E"));
    assert!(md5_matches_remote(local, "1B2M2Y8AsgTpgAmY7PhCfg=="));
    assert!(!md5_matches_remote(local, "1B2M2Y8AsgTpgAmY7PhCfg"));
    assert!(!md5_matches_remote(local, "0123456789abcdef0123456789abcdef"));
    assert_eq!(
        verify_download_checksum(VerifyMode::Always, local, Some("1B2M2Y8AsgTpgAmY7PhCfg==")).unwrap(),
        VerificationOutcome::Verified
    );
}

#[test]
fn hex_helpers_decode_digits() {
    assert_eq!(hex_value(b'0').unwrap(), 0);
    assert_eq!(hex_value(b'a').unwrap(), 10);
    assert_eq!(hex_value(b'F').unwrap(), 15);
    assert!(hex_value(b'g').is_err());
    assert_eq!(decode_hex("00ff10").unwrap(), vec![0u8, 255, 16]);
    let err = decode_hex("abc").unwrap_err();
    assert!(matches!(err, QuarkPanError::InvalidArgument(m) if m == "invalid md5 hex length"));
    let err = decode_hex("zz").unwrap_err();
    assert!(matches!(err, QuarkPanError::InvalidArgument(m) if m == "invalid hex digit"));
    assert!(eq_ignore_ascii_case("AbC", "aBc"));
    assert!(!eq_ignore_ascii_case("abc", "abd"));
    assert!(!eq_ignore_ascii_case("abc", "ab"));
}

#[test]
fn partial_download_path_appends_part_suffix() {
    assert_eq!(partial_download_path("file.bin"), "file.bin.part");
}

#[test]
fn task_paths_sit_beside_their_targets() {
    assert_eq!(file_task_path("/d/file.bin"), "/d/file.bin.quark.task");
    assert_eq!(dir_task_path("/d/ai").unwrap(), "/d/ai.quark.task");
    assert!(matches!(dir_task_path("/").unwrap_err(),
        QuarkPanError::InvalidArgument(m) if m == "directory has no parent"));
}

#[test]
fn download_task_tracks_output_and_part_paths() {
    let output = "file.bin".to_string();
    let part = partial_download_path(&output);
    let task = DownloadTask::new(
        "fid1".to_string(),
        &output,
        &part,
        Some("remote-md5".to_string()),
        Some(42),
        VerifyMode::Auto,
    );

    assert_eq!(task.output_path, "file.bin");
    assert_eq!(task.part_path, "file.bin.part");
    assert_eq!(task.verify, VerifyMode::Auto);
    assert_eq!(task.kind, "download");
    assert_eq!(task.fid, "fid1");
    assert_eq!(task.size, Some(42));
}

#[test]
fn retry_helper_retries_transient_quark_errors_only() {
    let transient = QuarkPanError::Io(IoFailure {
        kind: IoErrorKind::Interrupted,
        message: "interrupted".to_string(),
    });
    let hard = QuarkPanError::invalid_argument("bad request");

    assert!(is_retryable_error(&transient));
    assert!(!is_retryable_error(&hard));
}

#[test]
fn retry_decisions_follow_policy() {
    let transient = QuarkPanError::Api {
        status: 500,
        message: "oops".to_string(),
    };
    let limited = QuarkPanError::Api {
        status: 429,
        message: "slow down".to_string(),
    };
    assert!(is_retryable_error(&limited));
    assert!(is_retryable_boxed_error(Some(&transient)));
    assert!(!is_retryable_boxed_error(None));
    assert!(should_retry_download(&RetryMode::Count(3), 2, &transient));
    assert!(!should_retry_download(&RetryMode::Count(3), 3, &transient));
    assert!(should_retry_download(&RetryMode::Infinite, u32::MAX, &transient));
    assert!(!should_retry_download(&RetryMode::Infinite, 0, &QuarkPanError::Cancelled));
    assert!(retry_allows_attempt(&RetryMode::Auto, 999));
    assert!(!retry_allows_attempt(&RetryMode::Auto, 1000));
    assert!(!retry_allows_attempt(&RetryMode::Count(0), 0));
}

#[test]
fn detects_unsupported_resume_range_error() {
    let unsupported =
        QuarkPanError::invalid_argument("server did not honor range request for resume download");
    let other = QuarkPanError::invalid_argument("download md5 mismatch");

    assert!(is_unsupported_resume_error(&unsupported));
    assert!(!is_unsupported_resume_error(&other));
}

#[test]
fn retry_mode_parses_auto() {
    assert_eq!("auto".parse::<RetryMode>().unwrap(), RetryMode::Auto);
}

#[test]
fn retry_mode_parses_infinite() {
    assert_eq!(
        "infinite".parse::<RetryMode>().unwrap(),
        RetryMode::Infinite
    );
}

#[test]
fn retry_mode_parses_number() {
    assert_eq!("300".parse::<RetryMode>().unwrap(), RetryMode::Count(300));
}

#[test]
fn retry_mode_rejects_other_values() {
    for bad in ["", "-1", "forever", "4294967296", "12a"] {
        let err = bad.parse::<RetryMode>().unwrap_err();
        assert!(matches!(err, QuarkPanError::InvalidArgument(m)
            if m == "retry must be auto, infinite, or a number"));
    }
    assert_eq!("+7".parse::<RetryMode>().unwrap(), RetryMode::Count(7));
    assert_eq!("4294967295".parse::<RetryMode>().unwrap(), RetryMode::Count(u32::MAX));
}

#[test]
fn verify_and_backoff_values_parse() {
    assert_eq!("auto".parse::<VerifyMode>().unwrap(), VerifyMode::Auto);
    assert_eq!("always".parse::<VerifyMode>().unwrap(), VerifyMode::Always);
    assert_eq!("never".parse::<VerifyMode>().unwrap(), VerifyMode::Never);
    assert!("sometimes".parse::<VerifyMode>().is_err());
    assert_eq!(
        "exponential".parse::<RetryBackoff>().unwrap(),
        RetryBackoff::Exponential
    );
    assert_eq!("fixed".parse::<RetryBackoff>().unwrap(), RetryBackoff::Fixed);
    assert!("linear".parse::<RetryBackoff>().is_err());
}

#[test]
fn parse_u32_reads_decimal_counts() {
    assert_eq!(parse_u32("0"), Some(0));
    assert_eq!(parse_u32("0042"), Some(42));
    assert_eq!(parse_u32("+"), None);
    assert_eq!(parse_u32(" 1"), None);
}

#[test]
fn retry_sleep_uses_exponential_backoff_with_cap() {
    assert_eq!(retry_sleep_secs(1, 2, 60, RetryBackoff::Exponential), 2);
    assert_eq!(retry_sleep_secs(3, 2, 60, RetryBackoff::Exponential), 8);
    assert_eq!(retry_sleep_secs(10, 2, 60, RetryBackoff::Exponential), 60);
}

#[test]
fn retry_sleep_uses_fixed_backoff_with_cap() {
    assert_eq!(retry_sleep_secs(3, 120, 60, RetryBackoff::Fixed), 60);
}

#[test]
fn retry_sleep_doubling_stops_at_sixty_four_times() {
    assert_eq!(retry_sleep_secs(0, 3, 1000, RetryBackoff::Exponential), 3);
    assert_eq!(retry_sleep_secs(7, 1, 1000, RetryBackoff::Exponential), 64);
    assert_eq!(retry_sleep_secs(50, 1, 1000, RetryBackoff::Exponential), 64);
    assert_eq!(
        retry_sleep_secs(7, u64::MAX, u64::MAX, RetryBackoff::Exponential),
        u64::MAX
    );
    assert_eq!(retry_sleep_secs(2, 5, 60, RetryBackoff::Fixed), 5);
}

#[test]
fn get_directory_args_preserve_no_verify_for_download_dir() {
    let get = GetArgs {
        remote_path_or_fid: "ai".to_string(),
        local_path: None,
        overwrite: false,
        continue_download: true,
        retry: RetryMode::Auto,
        retry_delay: 2,
        retry_max_delay: 60,
        retry_backoff: RetryBackoff::Exponential,
        verify: VerifyMode::Auto,
        skip_verify: true,
    };

    let dir = DownloadDirArgs::from_get("fid1".to_string(), "ai".to_string(), get);

    assert_eq!(dir.verify_mode(), VerifyMode::Never);
}

#[test]
fn download_args_verify_mode_follows_flags() {
    let mut args = DownloadArgs {
        fid: "fid1".to_string(),
        output: None,
        stdout: false,
        overwrite: false,
        continue_download: false,
        retry: RetryMode::Auto,
        retry_delay: 2,
        retry_max_delay: 60,
        retry_backoff: RetryBackoff::Exponential,
        verify: VerifyMode::Always,
        skip_verify: false,
    };
    assert_eq!(args.verify_mode(), VerifyMode::Always);
    args.skip_verify = true;
    assert_eq!(args.verify_mode(), VerifyMode::Never);
}

#[test]
fn validate_cli_rejects_both_cookie_sources() {
    assert!(validate_cli(None, None).is_ok());
    assert!(validate_cli(Some("a=b"), None).is_ok());
    assert!(validate_cli(None, Some("/c.txt")).is_ok());
    let err = validate_cli(Some("a=b"), Some("/c.txt")).unwrap_err();
    assert!(matches!(err, QuarkPanError::InvalidArgument(m)
        if m == "--cookie and --cookie-file cannot be used together"));
}


#[test]
fn retry_counts_round_trip_through_text() {
    for n in [0u32, 1, 9, 10, 300, 65535, u32::MAX] {
        assert_eq!(n.to_string().parse::<RetryMode>().unwrap(), RetryMode::Count(n));
    }
}

#[test]
fn retry_sleep_never_shrinks_and_respects_the_cap() {
    let mut previous = 0;
    for attempt in 0..20 {
        let secs = retry_sleep_secs(attempt, 3, 100, RetryBackoff::Exponential);
        assert!(secs >= previous && secs <= 100);
        previous = secs;
        assert_eq!(retry_sleep_secs(attempt, 3, 100, RetryBackoff::Fixed), 3);
    }
}
