//! Command-line option values and the rules that combine them.

use vstd::prelude::*;

use crate::error::{is_invalid_argument, QuarkPanError};
use crate::paths::{path_join, path_join_of, path_parent, path_parent_of};
use crate::text::{decimal, digit_char, owned, str_eq};

verus! {

/// When a finished download is checked against the remote md5.
#[derive(Debug, Clone, Copy, PartialEq, Eq, Structural)]
pub enum VerifyMode {
    Auto,
    Always,
    Never,
}

/// How many times a failed transfer is retried.
#[derive(Debug, Clone, Copy, PartialEq, Eq, Structural)]
pub enum RetryMode {
    Auto,
    Infinite,
    Count(u32),
}

/// How the pause between retries grows.
#[derive(Debug, Clone, Copy, PartialEq, Eq, Structural)]
pub enum RetryBackoff {
    Exponential,
    Fixed,
}

/// Whether terminal output is coloured.
#[derive(Debug, Clone, Copy, PartialEq, Eq, Structural)]
pub enum ColorMode {
    Auto,
    Always,
    Never,
}

/// How command results are printed.
#[derive(Debug, Clone, Copy, PartialEq, Eq, Structural)]
pub enum OutputFormat {
    Table,
    Json,
}

/// An ASCII decimal digit.
pub open spec fn is_digit_char(c: char) -> bool {
    '0' <= c <= '9'
}

/// The value of a string of decimal digits.
pub open spec fn digits_value(s: Seq<char>) -> nat
    decreases s.len(),
{
    if s.len() == 0 {
        0
    } else {
        10 * digits_value(s.drop_last()) + ((s.last() as nat) - 48) as nat
    }
}

/// `s` without one leading `+`.
pub open spec fn without_plus(s: Seq<char>) -> Seq<char> {
    if s.len() > 0 && s[0] == '+' {
        s.drop_first()
    } else {
        s
    }
}

/// Every character of `d` is a decimal digit.
pub open spec fn all_digits(d: Seq<char>) -> bool {
    forall|i: int| 0 <= i < d.len() ==> is_digit_char(#[trigger] d[i])
}

/// What `str::parse::<u32>` accepts: an optional `+` followed by at least
/// one decimal digit, with a value that fits in 32 bits.
pub open spec fn u32_of(s: Seq<char>) -> Option<u32> {
    let d = without_plus(s);
    if d.len() > 0 && all_digits(d) && digits_value(d) <= u32::MAX {
        Some(digits_value(d) as u32)
    } else {
        None
    }
}

proof fn lemma_digits_value_grows(d: Seq<char>, c: char)
    requires
        is_digit_char(c),
    ensures
        digits_value(d.push(c)) >= digits_value(d),
        digits_value(d.push(c)) == 10 * digits_value(d) + ((c as nat) - 48),
{
    assert(d.push(c).drop_last() =~= d);
}

/// Parses an unsigned 32-bit decimal number (`str::parse::<u32>`).
pub fn parse_u32(s: &str) -> (r: Option<u32>)
    ensures
        r == u32_of(s@),
{
    let n = s.unicode_len();
    let start: usize = if n > 0 && s.get_char(0) == '+' {
        1
    } else {
        0
    };
    let ghost d = without_plus(s@);
    assert(d =~= s@.subrange(start as int, n as int));
    if start == n {
        return None;
    }
    let mut value: u64 = 0;
    let mut i: usize = start;
    assert(d.take(0) =~= Seq::<char>::empty());
    while i < n
        invariant
            start <= i <= n,
            n == s@.len(),
            d =~= s@.subrange(start as int, n as int),
            d == without_plus(s@),
            forall|j: int| 0 <= j < i - start ==> is_digit_char(#[trigger] d[j]),
            value == digits_value(d.take(i - start)),
            value <= u32::MAX,
        decreases n - i,
    {
        let c = s.get_char(i);
        assert(c == d[i - start]);
        if !('0' <= c && c <= '9') {
            assert(!is_digit_char(d[i - start]));
            return None;
        }
        let digit = (c as u32 - 48) as u64;
        assert(d.take(i - start + 1) =~= d.take(i - start).push(c));
        proof {
            lemma_digits_value_grows(d.take(i - start), c);
        }
        value = value * 10 + digit;
        if value > 0xffff_ffffu64 {
            proof {
                if all_digits(d) {
                    lemma_digits_value_monotone(d, i - start + 1);
                }
            }
            return None;
        }
        i = i + 1;
    }
    assert(d.take(n - start) =~= d);
    Some(value as u32)
}

proof fn lemma_digits_value_monotone(d: Seq<char>, k: int)
    requires
        0 <= k <= d.len(),
        forall|j: int| 0 <= j < d.len() ==> is_digit_char(#[trigger] d[j]),
    ensures
        digits_value(d) >= digits_value(d.take(k)),
    decreases d.len() - k,
{
    if k < d.len() {
        assert(d.take(k + 1) =~= d.take(k).push(d[k]));
        lemma_digits_value_grows(d.take(k), d[k]);
        lemma_digits_value_monotone(d, k + 1);
    } else {
        assert(d.take(k) =~= d);
    }
}

/// The verify mode a `--verify` value names, if any.
pub open spec fn verify_mode_of(value: Seq<char>) -> Option<VerifyMode> {
    if value == "auto"@ {
        Some(VerifyMode::Auto)
    } else if value == "always"@ {
        Some(VerifyMode::Always)
    } else if value == "never"@ {
        Some(VerifyMode::Never)
    } else {
        None
    }
}

/// Parses the value of `--verify`.
pub fn parse_verify_mode(value: &str) -> (r: Result<VerifyMode, QuarkPanError>)
    ensures
        match verify_mode_of(value@) {
            Some(m) => r == Ok::<VerifyMode, QuarkPanError>(m),
            None => is_invalid_argument(r, "verify must be auto, always, or never"@),
        },
{
    if str_eq(value, "auto") {
        Ok(VerifyMode::Auto)
    } else if str_eq(value, "always") {
        Ok(VerifyMode::Always)
    } else if str_eq(value, "never") {
        Ok(VerifyMode::Never)
    } else {
        Err(QuarkPanError::invalid_argument("verify must be auto, always, or never"))
    }
}

/// The retry mode a `--retry` value names, if any.
pub open spec fn retry_mode_of(value: Seq<char>) -> Option<RetryMode> {
    if value == "auto"@ {
        Some(RetryMode::Auto)
    } else if value == "infinite"@ {
        Some(RetryMode::Infinite)
    } else {
        match u32_of(value) {
            Some(n) => Some(RetryMode::Count(n)),
            None => None,
        }
    }
}

proof fn lemma_decimal_digits(n: nat)
    ensures
        decimal(n).len() > 0,
        all_digits(decimal(n)),
        digits_value(decimal(n)) == n,
        decimal(n)[0] != '+',
    decreases n,
{
    if n < 10 {
        assert(decimal(n) == seq![digit_char(n)]);
        assert(decimal(n).drop_last() =~= Seq::<char>::empty());
        assert(digit_char(n) as nat == n + 48);
        assert(digits_value(decimal(n)) == 10 * digits_value(decimal(n).drop_last()) + ((decimal(
            n,
        ).last() as nat) - 48) as nat);
    } else {
        lemma_decimal_digits(n / 10);
        let d = decimal(n / 10);
        let c = digit_char(n % 10);
        assert(decimal(n) == d.push(c));
        assert(d.push(c).drop_last() =~= d);
        assert forall|i: int| 0 <= i < d.push(c).len() implies is_digit_char(#[trigger] d.push(c)[i]) by {
            if i < d.len() {
                assert(d.push(c)[i] == d[i]);
            }
        }
        assert(d.push(c)[0] == d[0]);
        assert(c as nat == n % 10 + 48);
        assert(digits_value(d.push(c)) == 10 * digits_value(d.push(c).drop_last()) + ((d.push(
            c,
        ).last() as nat) - 48) as nat);
        assert(n == 10 * (n / 10) + n % 10);
    }
}

/// A retry count written in decimal parses back to the same count, so
/// `--retry <n>` means exactly `n` retries.
pub proof fn lemma_retry_count_roundtrip(n: u32)
    ensures
        u32_of(decimal(n as nat)) == Some(n),
        retry_mode_of(decimal(n as nat)) == Some(RetryMode::Count(n)),
{
    lemma_decimal_digits(n as nat);
    let d = decimal(n as nat);
    assert(without_plus(d) == d);
    reveal_strlit("auto");
    reveal_strlit("infinite");
    assert(d != "auto"@) by {
        assert("auto"@[0] == 'a');
        assert(is_digit_char(d[0]));
    }
    assert(d != "infinite"@) by {
        assert("infinite"@[0] == 'i');
        assert(is_digit_char(d[0]));
    }
}

/// Parses the value of `--retry`: `auto`, `infinite` or a count.
pub fn parse_retry_mode(value: &str) -> (r: Result<RetryMode, QuarkPanError>)
    ensures
        match retry_mode_of(value@) {
            Some(m) => r == Ok::<RetryMode, QuarkPanError>(m),
            None => r matches Err(QuarkPanError::InvalidArgument(m)) && m@
                == "retry must be auto, infinite, or a number"@,
        },
{
    if str_eq(value, "auto") {
        Ok(RetryMode::Auto)
    } else if str_eq(value, "infinite") {
        Ok(RetryMode::Infinite)
    } else {
        match parse_u32(value) {
            Some(n) => Ok(RetryMode::Count(n)),
            None => Err(QuarkPanError::invalid_argument("retry must be auto, infinite, or a number")),
        }
    }
}

/// The backoff a `--retry-backoff` value names, if any.
pub open spec fn retry_backoff_of(value: Seq<char>) -> Option<RetryBackoff> {
    if value == "exponential"@ {
        Some(RetryBackoff::Exponential)
    } else if value == "fixed"@ {
        Some(RetryBackoff::Fixed)
    } else {
        None
    }
}

/// Parses the value of `--retry-backoff`.
pub fn parse_retry_backoff(value: &str) -> (r: Result<RetryBackoff, QuarkPanError>)
    ensures
        match retry_backoff_of(value@) {
            Some(b) => r == Ok::<RetryBackoff, QuarkPanError>(b),
            None => is_invalid_argument(r, "retry backoff must be exponential or fixed"@),
        },
{
    if str_eq(value, "exponential") {
        Ok(RetryBackoff::Exponential)
    } else if str_eq(value, "fixed") {
        Ok(RetryBackoff::Fixed)
    } else {
        Err(QuarkPanError::invalid_argument("retry backoff must be exponential or fixed"))
    }
}

impl std::str::FromStr for VerifyMode {
    type Err = QuarkPanError;

    fn from_str(value: &str) -> (r: Result<Self, Self::Err>)
        ensures
            match verify_mode_of(value@) {
                Some(m) => r == Ok::<VerifyMode, QuarkPanError>(m),
                None => is_invalid_argument(r, "verify must be auto, always, or never"@),
            },
    {
        parse_verify_mode(value)
    }
}

impl std::str::FromStr for RetryMode {
    type Err = QuarkPanError;

    fn from_str(value: &str) -> (r: Result<Self, Self::Err>)
        ensures
            match retry_mode_of(value@) {
                Some(m) => r == Ok::<RetryMode, QuarkPanError>(m),
                None => is_invalid_argument(r, "retry must be auto, infinite, or a number"@),
            },
    {
        parse_retry_mode(value)
    }
}

impl std::str::FromStr for RetryBackoff {
    type Err = QuarkPanError;

    fn from_str(value: &str) -> (r: Result<Self, Self::Err>)
        ensures
            match retry_backoff_of(value@) {
                Some(b) => r == Ok::<RetryBackoff, QuarkPanError>(b),
                None => is_invalid_argument(r, "retry backoff must be exponential or fixed"@),
            },
    {
        parse_retry_backoff(value)
    }
}

/// The verify mode in force given `--verify` and `--no-verify`.
pub open spec fn effective_verify(verify: VerifyMode, skip_verify: bool) -> VerifyMode {
    if skip_verify {
        VerifyMode::Never
    } else {
        verify
    }
}

/// Options of `get <remote> [local]`.
#[derive(Debug, Clone)]
pub struct GetArgs {
    pub remote_path_or_fid: String,
    pub local_path: Option<String>,
    pub overwrite: bool,
    pub continue_download: bool,
    pub retry: RetryMode,
    pub retry_delay: u64,
    pub retry_max_delay: u64,
    pub retry_backoff: RetryBackoff,
    pub verify: VerifyMode,
    pub skip_verify: bool,
}

/// Options of `download --fid`.
#[derive(Debug, Clone)]
pub struct DownloadArgs {
    pub fid: String,
    pub output: Option<String>,
    pub stdout: bool,
    pub overwrite: bool,
    pub continue_download: bool,
    pub retry: RetryMode,
    pub retry_delay: u64,
    pub retry_max_delay: u64,
    pub retry_backoff: RetryBackoff,
    pub verify: VerifyMode,
    pub skip_verify: bool,
}

impl DownloadArgs {
    /// The verify mode in force: `--no-verify` wins over `--verify`.
    pub fn verify_mode(&self) -> (r: VerifyMode)
        ensures
            r == effective_verify(self.verify, self.skip_verify),
    {
        if self.skip_verify {
            VerifyMode::Never
        } else {
            self.verify
        }
    }
}

/// Options of `download-dir --pdir-fid`.
#[derive(Debug, Clone)]
pub struct DownloadDirArgs {
    pub pdir_fid: String,
    pub output: String,
    pub continue_download: bool,
    pub overwrite: bool,
    pub retry: RetryMode,
    pub retry_delay: u64,
    pub retry_max_delay: u64,
    pub retry_backoff: RetryBackoff,
    pub verify: VerifyMode,
    pub skip_verify: bool,
}

impl DownloadDirArgs {
    /// The directory download that `get` performs when the remote entry is a
    /// folder: every transfer option of `get` is carried over.
    pub fn from_get(pdir_fid: String, output: String, args: GetArgs) -> (r: Self)
        ensures
            r.pdir_fid == pdir_fid,
            r.output == output,
            r.continue_download == args.continue_download,
            r.overwrite == args.overwrite,
            r.retry == args.retry,
            r.retry_delay == args.retry_delay,
            r.retry_max_delay == args.retry_max_delay,
            r.retry_backoff == args.retry_backoff,
            r.verify == args.verify,
            r.skip_verify == args.skip_verify,
    {
        DownloadDirArgs {
            pdir_fid,
            output,
            continue_download: args.continue_download,
            overwrite: args.overwrite,
            retry: args.retry,
            retry_delay: args.retry_delay,
            retry_max_delay: args.retry_max_delay,
            retry_backoff: args.retry_backoff,
            verify: args.verify,
            skip_verify: args.skip_verify,
        }
    }

    /// The verify mode in force: `--no-verify` wins over `--verify`.
    pub fn verify_mode(&self) -> (r: VerifyMode)
        ensures
            r == effective_verify(self.verify, self.skip_verify),
    {
        if self.skip_verify {
            VerifyMode::Never
        } else {
            self.verify
        }
    }
}

/// Rejects `--cookie` together with `--cookie-file`.
pub fn validate_cli(cookie: Option<&str>, cookie_file: Option<&str>) -> (r: Result<(), QuarkPanError>)
    ensures
        r is Ok <==> !(cookie is Some && cookie_file is Some),
        r is Err ==> is_invalid_argument(r, "--cookie and --cookie-file cannot be used together"@),
{
    if cookie.is_some() && cookie_file.is_some() {
        return Err(QuarkPanError::invalid_argument("--cookie and --cookie-file cannot be used together"));
    }
    Ok(())
}

/// The configuration directory name of the current tool.
pub fn new_app_name() -> (r: &'static str)
    ensures
        r@ == "quarkcli"@,
{
    "quarkcli"
}

/// The configuration directory name of the earlier tool, still read.
pub fn legacy_app_name() -> (r: &'static str)
    ensures
        r@ == "quarkpan"@,
{
    "quarkpan"
}

/// Where the configuration in use was found.
#[derive(Debug, Clone, Copy, PartialEq, Eq, Structural)]
pub enum AppPathSource {
    Explicit,
    New,
    Legacy,
}

impl AppPathSource {
    /// The name `auth show-source` reports for a stored cookie.
    pub fn stored_source(self) -> (r: &'static str)
        ensures
            self == AppPathSource::Legacy ==> r@ == "stored-legacy"@,
            self != AppPathSource::Legacy ==> r@ == "persisted_cookie"@,
    {
        match self {
            AppPathSource::Explicit | AppPathSource::New => "persisted_cookie",
            AppPathSource::Legacy => "stored-legacy",
        }
    }
}

/// The files the tool reads its configuration and cookie from, and the
/// places it writes them to.
#[derive(Debug, Clone)]
pub struct AppPaths {
    pub config_file: String,
    pub cookie_file: String,
    pub source: AppPathSource,
    pub write_config_dir: String,
    pub write_cookie_file: String,
}

/// Chooses the configuration paths: an explicit config file wins (its
/// directory holds the cookie, and is written to); otherwise the new
/// directory is read unless only the legacy one holds files. Writes always
/// go to the new directory.
pub fn select_existing_app_paths(
    config_file: Option<String>,
    new_config_dir: String,
    new_exists: bool,
    legacy_config_dir: String,
    legacy_exists: bool,
) -> (r: Result<AppPaths, QuarkPanError>)
    ensures
        match config_file {
            Some(f) => match path_parent_of(f@) {
                None => r matches Err(QuarkPanError::InvalidArgument(m)) && m@
                    == "invalid --config-file path"@,
                Some(dir) => r matches Ok(p) && p.source == AppPathSource::Explicit
                    && p.config_file@ == f@ && p.cookie_file@ == path_join_of(dir, "cookie.txt"@)
                    && p.write_config_dir@ == dir && p.write_cookie_file@ == path_join_of(
                    dir,
                    "cookie.txt"@,
                ),
            },
            None => {
                let legacy = !new_exists && legacy_exists;
                let dir = if legacy {
                    legacy_config_dir@
                } else {
                    new_config_dir@
                };
                r matches Ok(p) && p.source == (if legacy {
                    AppPathSource::Legacy
                } else {
                    AppPathSource::New
                }) && p.config_file@ == path_join_of(dir, "config.toml"@) && p.cookie_file@
                    == path_join_of(dir, "cookie.txt"@) && p.write_config_dir@ == new_config_dir@
                    && p.write_cookie_file@ == path_join_of(new_config_dir@, "cookie.txt"@)
            },
        },
{
    if let Some(config_file) = config_file {
        let config_dir = match path_parent(config_file.as_str()) {
            Some(d) => d,
            None => {
                return Err(QuarkPanError::invalid_argument("invalid --config-file path"));
            },
        };
        let cookie_file = path_join(config_dir.as_str(), "cookie.txt");
        let write_cookie_file = path_join(config_dir.as_str(), "cookie.txt");
        return Ok(AppPaths {
            config_file,
            cookie_file,
            source: AppPathSource::Explicit,
            write_config_dir: config_dir,
            write_cookie_file,
        });
    }
    let (config_dir, source) = if new_exists || !legacy_exists {
        (owned(new_config_dir.as_str()), AppPathSource::New)
    } else {
        (legacy_config_dir, AppPathSource::Legacy)
    };
    Ok(AppPaths {
        config_file: path_join(config_dir.as_str(), "config.toml"),
        cookie_file: path_join(config_dir.as_str(), "cookie.txt"),
        source,
        write_cookie_file: path_join(new_config_dir.as_str(), "cookie.txt"),
        write_config_dir: new_config_dir,
    })
}

} // verus!
