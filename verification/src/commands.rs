//! The decisions of the individual commands: confirmations, cookie sources,
//! download targets, probe reports and paging.

use vstd::prelude::*;

use crate::download::{ascii_ci_eq, eq_ignore_ascii_case};
use crate::error::{is_invalid_argument, QuarkPanError};
use crate::options::{
    effective_verify, AppPathSource, AppPaths, ColorMode, DownloadArgs, DownloadDirArgs, GetArgs,
    OutputFormat, RetryBackoff, RetryMode, VerifyMode,
};
use crate::output::{OutputFlags, OutputRecord};
use crate::paths::{path_file_name, path_file_name_of, path_join, path_join_of};
use crate::text::{all_whitespace, contains_char, decimal, is_blank, owned, trim, trimmed};

verus! {

/// An answer that confirms: `y` or `yes` in any ASCII case, around white space.
pub open spec fn confirms(answer: Seq<char>) -> bool {
    ascii_ci_eq(trimmed(answer), "y"@) || ascii_ci_eq(trimmed(answer), "yes"@)
}

/// Whether a typed answer confirms a prompt.
pub fn is_yes(answer: &str) -> (r: bool)
    ensures
        r == confirms(answer@),
{
    let t = trim(answer);
    eq_ignore_ascii_case(t.as_str(), "y") || eq_ignore_ascii_case(t.as_str(), "yes")
}

/// The question asked before deleting `path`.
pub fn delete_prompt(path: &str) -> (r: String)
    ensures
        r@ == "delete "@ + path@ + "? [y/N] "@,
{
    let mut r = owned("delete ");
    r.append(path);
    r.append("? [y/N] ");
    r
}

/// Rejects a new name that would move the entry to another folder.
pub fn check_rename_target(new_name: &str) -> (r: Result<(), QuarkPanError>)
    ensures
        new_name@.contains('/') ==> is_invalid_argument(
            r,
            "mv only supports renaming within the same remote directory"@,
        ),
        !new_name@.contains('/') ==> r is Ok,
{
    if contains_char(new_name, '/') {
        return Err(QuarkPanError::invalid_argument("mv only supports renaming within the same remote directory"));
    }
    Ok(())
}

/// How a removal proceeds.
#[derive(Debug, Clone, Copy, PartialEq, Eq, Structural)]
pub enum Removal {
    /// `--yes` was given: delete.
    Delete,
    /// Ask on the terminal first.
    Confirm,
}

/// Decides how `rm` proceeds: `--yes` deletes, a terminal is asked, and
/// anything else is refused.
pub fn plan_removal(yes: bool, interactive: bool) -> (r: Result<Removal, QuarkPanError>)
    ensures
        yes ==> r == Ok::<Removal, QuarkPanError>(Removal::Delete),
        !yes && interactive ==> r == Ok::<Removal, QuarkPanError>(Removal::Confirm),
        !yes && !interactive ==> is_invalid_argument(
            r,
            "refusing to delete without --yes in non-interactive mode"@,
        ),
{
    if yes {
        Ok(Removal::Delete)
    } else if interactive {
        Ok(Removal::Confirm)
    } else {
        Err(QuarkPanError::invalid_argument("refusing to delete without --yes in non-interactive mode"))
    }
}

/// Where `get` writes an entry: the local path given, else the entry's name;
/// a file fetched into an existing local directory goes inside it.
pub open spec fn get_target_of(
    local_path: Option<Seq<char>>,
    entry_name: Seq<char>,
    entry_is_dir: bool,
    output_is_dir: bool,
) -> Seq<char> {
    let output = match local_path {
        Some(p) => p,
        None => entry_name,
    };
    if !entry_is_dir && output_is_dir {
        path_join_of(output, entry_name)
    } else {
        output
    }
}

/// Computes where `get` writes an entry; `output_is_dir` says whether the
/// chosen local path is an existing directory.
pub fn get_target(
    local_path: Option<&str>,
    entry_name: &str,
    entry_is_dir: bool,
    output_is_dir: bool,
) -> (r: String)
    ensures
        r@ == get_target_of(
            match local_path {
                Some(p) => Some(p@),
                None => None,
            },
            entry_name@,
            entry_is_dir,
            output_is_dir,
        ),
{
    let output = match local_path {
        Some(p) => owned(p),
        None => owned(entry_name),
    };
    if !entry_is_dir && output_is_dir {
        path_join(output.as_str(), entry_name)
    } else {
        output
    }
}

/// The file download `get` performs: every transfer option carries over.
pub fn get_download_args(fid: String, output: String, args: &GetArgs) -> (r: DownloadArgs)
    ensures
        r.fid == fid,
        r.output == Some(output),
        !r.stdout,
        r.overwrite == args.overwrite,
        r.continue_download == args.continue_download,
        r.retry == args.retry,
        r.retry_delay == args.retry_delay,
        r.retry_max_delay == args.retry_max_delay,
        r.retry_backoff == args.retry_backoff,
        r.verify == args.verify,
        r.skip_verify == args.skip_verify,
{
    DownloadArgs {
        fid,
        output: Some(output),
        stdout: false,
        overwrite: args.overwrite,
        continue_download: args.continue_download,
        retry: args.retry,
        retry_delay: args.retry_delay,
        retry_max_delay: args.retry_max_delay,
        retry_backoff: args.retry_backoff,
        verify: args.verify,
        skip_verify: args.skip_verify,
    }
}

/// The file download the shell's `get` performs: five retries two seconds
/// apart (growing), otherwise the defaults.
pub fn shell_download_args(fid: String, output: String, continue_transfer: bool, overwrite: bool) -> (r:
    DownloadArgs)
    ensures
        r.fid == fid,
        r.output == Some(output),
        !r.stdout,
        r.overwrite == overwrite,
        r.continue_download == continue_transfer,
        r.retry == RetryMode::Count(5),
        r.retry_delay == 2,
        r.retry_max_delay == 60,
        r.retry_backoff == RetryBackoff::Exponential,
        r.verify == VerifyMode::Auto,
        !r.skip_verify,
{
    DownloadArgs {
        fid,
        output: Some(output),
        stdout: false,
        overwrite,
        continue_download: continue_transfer,
        retry: RetryMode::Count(5),
        retry_delay: 2,
        retry_max_delay: 60,
        retry_backoff: RetryBackoff::Exponential,
        verify: VerifyMode::Auto,
        skip_verify: false,
    }
}

/// The directory download the shell's `get` performs for a folder.
pub fn shell_download_dir_args(
    pdir_fid: String,
    output: String,
    continue_transfer: bool,
    overwrite: bool,
) -> (r: DownloadDirArgs)
    ensures
        r.pdir_fid == pdir_fid,
        r.output == output,
        r.continue_download == continue_transfer,
        r.overwrite == overwrite,
        r.retry == RetryMode::Count(5),
        r.retry_delay == 2,
        r.retry_max_delay == 60,
        r.retry_backoff == RetryBackoff::Exponential,
        r.verify == VerifyMode::Auto,
        !r.skip_verify,
{
    DownloadDirArgs {
        pdir_fid,
        output,
        continue_download: continue_transfer,
        overwrite,
        retry: RetryMode::Count(5),
        retry_delay: 2,
        retry_max_delay: 60,
        retry_backoff: RetryBackoff::Exponential,
        verify: VerifyMode::Auto,
        skip_verify: false,
    }
}

/// `--json` selects JSON output whatever `--format` says.
pub fn output_format(json: bool, format: OutputFormat) -> (r: OutputFormat)
    ensures
        json ==> r == OutputFormat::Json,
        !json ==> r == format,
{
    if json {
        OutputFormat::Json
    } else {
        format
    }
}

/// The colour mode in force: the command line's, else the configuration's,
/// else automatic.
pub fn effective_color_mode(cli: Option<ColorMode>, config: Option<ColorMode>) -> (r: ColorMode)
    ensures
        r == match cli {
            Some(m) => m,
            None => match config {
                Some(m) => m,
                None => ColorMode::Auto,
            },
        },
{
    match cli {
        Some(m) => m,
        None => match config {
            Some(m) => m,
            None => ColorMode::Auto,
        },
    }
}

/// Whether output is coloured: always, never, or when stdout or stderr is a
/// terminal.
pub fn color_enabled(mode: ColorMode, stdout_is_terminal: bool, stderr_is_terminal: bool) -> (r: bool)
    ensures
        r == match mode {
            ColorMode::Always => true,
            ColorMode::Never => false,
            ColorMode::Auto => stdout_is_terminal || stderr_is_terminal,
        },
{
    match mode {
        ColorMode::Always => true,
        ColorMode::Never => false,
        ColorMode::Auto => stdout_is_terminal || stderr_is_terminal,
    }
}

/// The API server: the command line's, else the configuration's, else the
/// public Quark Drive address.
pub fn api_base_url(cli: Option<String>, config: Option<String>) -> (r: String)
    ensures
        r@ == match cli {
            Some(u) => u@,
            None => match config {
                Some(u) => u@,
                None => "https://drive.quark.cn"@,
            },
        },
{
    match cli {
        Some(u) => u,
        None => match config {
            Some(u) => u,
            None => owned("https://drive.quark.cn"),
        },
    }
}

/// Whether a transfer shows a live progress bar: only on a terminal, and not
/// when quiet or asked not to.
pub fn shows_progress(flags: OutputFlags) -> (r: bool)
    ensures
        r == !(flags.no_progress || flags.quiet || !flags.interactive),
{
    !(flags.no_progress || flags.quiet || !flags.interactive)
}

/// Where `auth set-cookie` takes the cookie from.
#[derive(Debug, Clone)]
pub enum CookieInput {
    Given(String),
    Stdin,
    Editor(String),
}

/// Chooses the cookie source of `auth set-cookie`, in the order `--cookie`,
/// `--from-stdin`, `--from-nano`, `--from-vi`.
pub fn choose_cookie_input(cookie: Option<String>, from_stdin: bool, from_nano: bool, from_vi: bool) -> (r:
    Result<CookieInput, QuarkPanError>)
    ensures
        cookie is Some ==> (r matches Ok(CookieInput::Given(c)) && Some(c) == cookie),
        cookie is None && from_stdin ==> r matches Ok(CookieInput::Stdin),
        cookie is None && !from_stdin && from_nano ==> (r matches Ok(CookieInput::Editor(e)) && e@
            == "nano"@),
        cookie is None && !from_stdin && !from_nano && from_vi ==> (r matches Ok(
            CookieInput::Editor(e),
        ) && e@ == "vi"@),
        cookie is None && !from_stdin && !from_nano && !from_vi ==> is_invalid_argument(
            r,
            "one of --cookie, --from-stdin, --from-nano, or --from-vi is required"@,
        ),
{
    match cookie {
        Some(c) => Ok(CookieInput::Given(c)),
        None => {
            if from_stdin {
                Ok(CookieInput::Stdin)
            } else if from_nano {
                Ok(CookieInput::Editor(owned("nano")))
            } else if from_vi {
                Ok(CookieInput::Editor(owned("vi")))
            } else {
                Err(
                    QuarkPanError::invalid_argument(
                        "one of --cookie, --from-stdin, --from-nano, or --from-vi is required",
                    ),
                )
            }
        },
    }
}

/// A typed or edited cookie, trimmed; an empty one is refused.
pub fn check_cookie_text(text: &str) -> (r: Result<String, QuarkPanError>)
    ensures
        trimmed(text@).len() == 0 ==> is_invalid_argument(r, "cookie cannot be empty"@),
        trimmed(text@).len() > 0 ==> (r matches Ok(c) && c@ == trimmed(text@)),
{
    let cookie = trim(text);
    if cookie.as_str().unicode_len() == 0 {
        return Err(QuarkPanError::invalid_argument("cookie cannot be empty"));
    }
    Ok(cookie)
}

/// The contents a cookie file is written with: the trimmed cookie and a
/// line break.
pub fn cookie_file_text(cookie: &str) -> (r: String)
    ensures
        r@ == trimmed(cookie@) + "\n"@,
{
    let mut r = trim(cookie);
    r.append("\n");
    r
}

/// Where the cookie of a drive command comes from.
#[derive(Debug, Clone)]
pub enum CookieSource {
    /// This cookie text.
    Given(String),
    /// The trimmed contents of this file.
    File(String),
}

/// Chooses the cookie of a drive command, in the order `--cookie`,
/// `--cookie-file`, a non-blank `QUARK_COOKIE`, the stored cookie file.
pub fn choose_cookie_source(
    cookie: Option<String>,
    cookie_file: Option<String>,
    env_cookie: Option<String>,
    paths: &AppPaths,
    stored_exists: bool,
) -> (r: Result<CookieSource, QuarkPanError>)
    ensures
        cookie is Some ==> (r matches Ok(CookieSource::Given(c)) && Some(c) == cookie),
        cookie is None && cookie_file is Some ==> (r matches Ok(CookieSource::File(f)) && Some(f)
            == cookie_file),
        cookie is None && cookie_file is None && (env_cookie matches Some(e) && !all_whitespace(e@))
            ==> (r matches Ok(CookieSource::Given(c)) && Some(c) == env_cookie),
        cookie is None && cookie_file is None && !(env_cookie matches Some(e) && !all_whitespace(
            e@,
        )) && stored_exists ==> (r matches Ok(CookieSource::File(f)) && f@ == paths.cookie_file@),
        cookie is None && cookie_file is None && !(env_cookie matches Some(e) && !all_whitespace(
            e@,
        )) && !stored_exists ==> (r matches Err(QuarkPanError::MissingField(f)) && f@ == "cookie"@),
{
    if let Some(c) = cookie {
        return Ok(CookieSource::Given(c));
    }
    if let Some(f) = cookie_file {
        return Ok(CookieSource::File(f));
    }
    if let Some(e) = env_cookie {
        if !is_blank(e.as_str()) {
            return Ok(CookieSource::Given(e));
        }
    }
    if stored_exists {
        return Ok(CookieSource::File(owned(paths.cookie_file.as_str())));
    }
    Err(QuarkPanError::missing_field("cookie"))
}

/// What `auth show-source` reports: a non-blank `QUARK_COOKIE` first, then
/// the stored cookie file (flagged when it is the legacy one), else none.
pub fn show_source(env_cookie: Option<&str>, cookie_file_exists: bool, paths: &AppPaths) -> (r:
    OutputRecord)
    ensures
        (env_cookie matches Some(e) && !all_whitespace(e@)) ==> (r matches OutputRecord::AuthSource {
            source,
            path,
            legacy,
        } && source@ == "env"@ && path is None && !legacy),
        !(env_cookie matches Some(e) && !all_whitespace(e@)) && cookie_file_exists ==> (r matches OutputRecord::AuthSource {
            source,
            path,
            legacy,
        } && (if paths.source == AppPathSource::Legacy {
            source@ == "stored-legacy"@
        } else {
            source@ == "persisted_cookie"@
        }) && (path matches Some(p) && p@ == paths.cookie_file@) && legacy == (paths.source
            == AppPathSource::Legacy)),
        !(env_cookie matches Some(e) && !all_whitespace(e@)) && !cookie_file_exists ==> (r matches OutputRecord::AuthSource {
            source,
            path,
            legacy,
        } && source@ == "none"@ && path is None && !legacy),
{
    let env_set = match env_cookie {
        Some(e) => !is_blank(e),
        None => false,
    };
    if env_set {
        OutputRecord::AuthSource { source: owned("env"), path: None, legacy: false }
    } else if cookie_file_exists {
        OutputRecord::AuthSource {
            source: owned(paths.source.stored_source()),
            path: Some(owned(paths.cookie_file.as_str())),
            legacy: paths.source == AppPathSource::Legacy,
        }
    } else {
        OutputRecord::AuthSource { source: owned("none"), path: None, legacy: false }
    }
}

/// What `auth set-cookie` and `auth import-cookie` report after writing.
pub fn stored_cookie_record(paths: &AppPaths) -> (r: OutputRecord)
    ensures
        r matches OutputRecord::AuthSource { source, path, legacy } && source@
            == "persisted_cookie"@ && (path matches Some(p) && p@ == paths.write_cookie_file@)
            && !legacy,
{
    OutputRecord::AuthSource {
        source: owned("persisted_cookie"),
        path: Some(owned(paths.write_cookie_file.as_str())),
        legacy: false,
    }
}

/// What `auth clear-cookie` reports.
pub fn cleared_cookie_record(paths: &AppPaths) -> (r: OutputRecord)
    ensures
        r matches OutputRecord::AuthSource { source, path, legacy } && source@ == "cleared"@ && (
        path matches Some(p) && p@ == paths.write_cookie_file@) && !legacy,
{
    OutputRecord::AuthSource {
        source: owned("cleared"),
        path: Some(owned(paths.write_cookie_file.as_str())),
        legacy: false,
    }
}

/// `present` or `missing`.
pub open spec fn presence_text(present: bool) -> Seq<char> {
    if present {
        "present"@
    } else {
        "missing"@
    }
}

fn presence(present: bool) -> (r: String)
    ensures
        r@ == presence_text(present),
{
    if present {
        owned("present")
    } else {
        owned("missing")
    }
}

/// The outcome of reading from offset 1 of a download.
#[derive(Debug, Clone)]
pub enum RangeProbe {
    /// The stream opened and its first chunk (if any) had this many bytes.
    Opened { first_chunk: Option<usize> },
    /// Opening or reading failed with this message.
    Failed { message: String },
}

/// The report of `probe download`: whether a download URL and md5 came
/// back, how the ranged read went, at most 16 of its first bytes, and the
/// URL itself only in debug mode.
pub fn probe_record(
    fid: String,
    download_url: String,
    md5: Option<&str>,
    range: RangeProbe,
    debug: bool,
) -> (r: OutputRecord)
    ensures
        r matches OutputRecord::ProbeDownload {
            fid: f,
            download_url: u,
            md5: m,
            range: g,
            first_bytes,
            sensitive_download_url,
        } && f == fid && u@ == presence_text(!all_whitespace(download_url@)) && m@
            == presence_text(md5 matches Some(s) && !all_whitespace(s@)) && g@ == match range {
            RangeProbe::Opened { .. } => "ok"@,
            RangeProbe::Failed { message } => "failed: "@ + message@,
        } && first_bytes == match range {
            RangeProbe::Opened { first_chunk: Some(n) } => if n < 16 {
                n
            } else {
                16
            },
            _ => 0,
        } && sensitive_download_url == if debug {
            Some(download_url)
        } else {
            None
        },
{
    let url_present = !is_blank(download_url.as_str());
    let md5_present = match md5 {
        Some(m) => !is_blank(m),
        None => false,
    };
    let (range_text, first_bytes) = match range {
        RangeProbe::Opened { first_chunk } => {
            let n = match first_chunk {
                Some(n) => if n < 16 {
                    n
                } else {
                    16
                },
                None => 0,
            };
            (owned("ok"), n)
        },
        RangeProbe::Failed { message } => {
            let mut t = owned("failed: ");
            t.append(message.as_str());
            (t, 0)
        },
    };
    let sensitive_download_url = if debug {
        Some(download_url)
    } else {
        None
    };
    OutputRecord::ProbeDownload {
        fid,
        download_url: presence(url_present),
        md5: presence(md5_present),
        range: range_text,
        first_bytes,
        sensitive_download_url,
    }
}

/// Whether a listing page was the last: it held fewer entries than asked for.
pub fn page_is_last(count: usize, size: u32) -> (r: bool)
    ensures
        r == (count < size),
{
    count < size as usize
}

/// The pager prompt after a page of `list --more`.
pub fn more_prompt(page: u32) -> (r: String)
    ensures
        r@ == "-- More -- page "@ + decimal(page as nat) + " | Enter next page | q quit: "@,
{
    let mut r = owned("-- More -- page ");
    r.append(crate::text::decimal_string(page as u64).as_str());
    r.append(" | Enter next page | q quit: ");
    r
}

/// Whether a pager answer asks to stop: `q` in any ASCII case.
pub fn wants_quit(line: &str) -> (r: bool)
    ensures
        r == ascii_ci_eq(trimmed(line@), "q"@),
{
    let t = trim(line);
    eq_ignore_ascii_case(t.as_str(), "q")
}

/// The name an upload is stored under: the given name, else the local file
/// name.
pub fn upload_name(name: Option<&str>, path: &str) -> (r: Result<String, QuarkPanError>)
    ensures
        name matches Some(n) ==> (r matches Ok(s) && s@ == n@),
        name is None ==> match path_file_name_of(path@) {
            Some(f) => r matches Ok(s) && s@ == f,
            None => is_invalid_argument(r, "invalid file name"@),
        },
{
    match name {
        Some(n) => Ok(owned(n)),
        None => match path_file_name(path) {
            Some(f) => Ok(f),
            None => Err(QuarkPanError::invalid_argument("invalid file name")),
        },
    }
}

} // verus!
