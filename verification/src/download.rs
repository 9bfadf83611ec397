//! Download bookkeeping: retry policy, checksum verification and the names
//! of the files a download leaves beside its target.

use base64::Engine;
use vstd::prelude::*;
use vstd::string::StringSliceAdditionalSpecFns;

use crate::error::{is_invalid_argument, spec_retry_class, QuarkPanError, RetryClass};
use crate::options::{RetryBackoff, RetryMode, VerifyMode};
use crate::paths::{path_file_name, path_file_name_of, path_join, path_join_of, path_parent, path_parent_of};
use crate::text::{is_blank, owned, str_eq};

verus! {

/// Whether the retry policy still allows another attempt after `attempts`
/// retries: `auto` allows 1000, `infinite` any number, a count that many.
pub open spec fn allows_attempt(retry: RetryMode, attempts: u32) -> bool {
    match retry {
        RetryMode::Auto => attempts < 1000,
        RetryMode::Infinite => true,
        RetryMode::Count(limit) => attempts < limit,
    }
}

/// Decides whether the retry policy allows another attempt.
pub fn retry_allows_attempt(retry: &RetryMode, attempts: u32) -> (r: bool)
    ensures
        r == allows_attempt(*retry, attempts),
{
    match retry {
        RetryMode::Auto => attempts < 1000,
        RetryMode::Infinite => true,
        RetryMode::Count(limit) => attempts < *limit,
    }
}

/// Two to the power `k`.
pub open spec fn two_pow(k: nat) -> nat
    decreases k,
{
    if k == 0 {
        1
    } else {
        2 * two_pow((k - 1) as nat)
    }
}

/// `a * b`, or `u64::MAX` when the product does not fit.
pub open spec fn saturating_product(a: nat, b: nat) -> u64 {
    if a * b > u64::MAX {
        u64::MAX
    } else {
        (a * b) as u64
    }
}

/// The doubling exponent for a retry attempt: attempt 1 waits the base
/// delay, each later attempt doubles it, up to 64 times the base.
pub open spec fn backoff_shift(attempt: u32) -> nat {
    if attempt <= 1 {
        0
    } else if attempt - 1 > 6 {
        6
    } else {
        (attempt - 1) as nat
    }
}

/// Seconds to wait before retry number `attempt`, never more than `max`.
pub open spec fn sleep_secs(attempt: u32, base: u64, max: u64, backoff: RetryBackoff) -> u64 {
    match backoff {
        RetryBackoff::Fixed => if base < max {
            base
        } else {
            max
        },
        RetryBackoff::Exponential => {
            let d = saturating_product(base as nat, two_pow(backoff_shift(attempt)));
            if d < max {
                d
            } else {
                max
            }
        },
    }
}

/// Computes the pause before retry number `attempt`.
pub fn retry_sleep_secs(attempt: u32, base: u64, max: u64, backoff: RetryBackoff) -> (r: u64)
    ensures
        r == sleep_secs(attempt, base, max, backoff),
{
    match backoff {
        RetryBackoff::Fixed => if base < max {
            base
        } else {
            max
        },
        RetryBackoff::Exponential => {
            let shift: u32 = if attempt <= 1 {
                0
            } else if attempt - 1 > 6 {
                6
            } else {
                attempt - 1
            };
            let mut factor: u64 = 1;
            let mut k: u32 = 0;
            while k < shift
                invariant
                    k <= shift <= 6,
                    factor == two_pow(k as nat),
                    factor <= 64,
                decreases shift - k,
            {
                proof {
                    lemma_two_pow_bound((k + 1) as nat);
                }
                factor = factor * 2;
                k = k + 1;
            }
            let d = match base.checked_mul(factor) {
                Some(v) => v,
                None => u64::MAX,
            };
            if d < max {
                d
            } else {
                max
            }
        },
    }
}

proof fn lemma_two_pow_bound(k: nat)
    requires
        k <= 6,
    ensures
        two_pow(k) <= 64,
        two_pow(k) >= 1,
    decreases k,
{
    assert(two_pow(0) == 1);
    assert(two_pow(1) == 2);
    assert(two_pow(2) == 4);
    assert(two_pow(3) == 8);
    assert(two_pow(4) == 16);
    assert(two_pow(5) == 32);
    assert(two_pow(6) == 64);
}

proof fn lemma_two_pow_monotone(a: nat, b: nat)
    requires
        a <= b,
    ensures
        two_pow(a) <= two_pow(b),
    decreases b,
{
    if a < b {
        lemma_two_pow_monotone(a, (b - 1) as nat);
        lemma_two_pow_bound_positive((b - 1) as nat);
    }
}

proof fn lemma_two_pow_bound_positive(k: nat)
    ensures
        two_pow(k) >= 1,
    decreases k,
{
    if k > 0 {
        lemma_two_pow_bound_positive((k - 1) as nat);
    }
}

/// The pause before a retry never exceeds `max`; with exponential backoff it
/// never shrinks from one attempt to the next, and from the seventh attempt
/// on it stays at its cap; with fixed backoff it is the same for every
/// attempt.
pub proof fn lemma_backoff_bounded_and_monotone(
    a1: u32,
    a2: u32,
    base: u64,
    max: u64,
    backoff: RetryBackoff,
)
    requires
        a1 <= a2,
    ensures
        sleep_secs(a1, base, max, backoff) <= max,
        sleep_secs(a1, base, max, backoff) <= sleep_secs(a2, base, max, backoff),
        backoff == RetryBackoff::Fixed ==> sleep_secs(a1, base, max, backoff) == sleep_secs(
            a2,
            base,
            max,
            backoff,
        ),
        a1 >= 7 ==> sleep_secs(a1, base, max, backoff) == sleep_secs(a2, base, max, backoff),
{
    let s1 = backoff_shift(a1);
    let s2 = backoff_shift(a2);
    lemma_two_pow_monotone(s1, s2);
    let p1 = two_pow(s1);
    let p2 = two_pow(s2);
    let b = base as nat;
    assert(b * p1 <= b * p2) by (nonlinear_arith)
        requires
            p1 <= p2,
    ;
}

/// The retry class of an error is one a download retries.
pub open spec fn retryable(e: QuarkPanError) -> bool {
    spec_retry_class(e) == RetryClass::Transient || spec_retry_class(e) == RetryClass::RateLimited
}

/// Whether an error is transient or a rate limit, and so worth retrying.
pub fn is_retryable_error(err: &QuarkPanError) -> (r: bool)
    ensures
        r == retryable(*err),
{
    match err.retry_class() {
        RetryClass::Transient | RetryClass::RateLimited => true,
        RetryClass::Hard => false,
    }
}

/// Whether a failure that may or may not be one of this library's errors is
/// worth retrying: only the library's own retryable errors are.
pub fn is_retryable_boxed_error(err: Option<&QuarkPanError>) -> (r: bool)
    ensures
        r == (err matches Some(e) && retryable(*e)),
{
    match err {
        Some(e) => is_retryable_error(e),
        None => false,
    }
}

/// Whether a failed download attempt should be retried.
pub fn should_retry_download(retry: &RetryMode, attempts: u32, err: &QuarkPanError) -> (r: bool)
    ensures
        r == (retryable(*err) && allows_attempt(*retry, attempts)),
{
    is_retryable_error(err) && retry_allows_attempt(retry, attempts)
}

/// Whether a failed stream copy should be retried.
pub fn should_retry_boxed_download(
    retry: &RetryMode,
    attempts: u32,
    err: Option<&QuarkPanError>,
) -> (r: bool)
    ensures
        r == ((err matches Some(e) && retryable(*e)) && allows_attempt(*retry, attempts)),
{
    is_retryable_boxed_error(err) && retry_allows_attempt(retry, attempts)
}

/// A download is retried only for transient or rate-limit errors, and only
/// while the retry policy allows it.
pub proof fn lemma_retry_only_transient(retry: RetryMode, attempts: u32, err: QuarkPanError)
    ensures
        (retryable(err) && allows_attempt(retry, attempts)) ==> spec_retry_class(err)
            != RetryClass::Hard,
        retry == RetryMode::Infinite ==> allows_attempt(retry, attempts),
        (retry matches RetryMode::Count(n) && attempts >= n) ==> !allows_attempt(retry, attempts),
{
}

/// The message the client uses when a server ignores a resume range.
pub open spec fn range_not_honored_text() -> Seq<char> {
    "server did not honor range request for resume download"@
}

/// Whether an error says the server refused to resume from an offset.
pub fn is_unsupported_resume_error(err: &QuarkPanError) -> (r: bool)
    ensures
        r == (*err matches QuarkPanError::InvalidArgument(m) && m@ == range_not_honored_text()),
{
    match err {
        QuarkPanError::InvalidArgument(message) => str_eq(
            message.as_str(),
            "server did not honor range request for resume download",
        ),
        _ => false,
    }
}

/// What became of the checksum check of a finished download.
#[derive(Debug, Clone, Copy, PartialEq, Eq, Structural)]
pub enum VerificationOutcome {
    Verified,
    NotAvailable,
    Skipped,
}

/// ASCII lower case of one character (`char::to_ascii_lowercase`).
pub open spec fn ascii_lower(c: char) -> char {
    if 'A' <= c <= 'Z' {
        ((c as u32) + 32) as char
    } else {
        c
    }
}

/// An ASCII case-insensitive match (`str::eq_ignore_ascii_case`).
pub open spec fn ascii_ci_eq(a: Seq<char>, b: Seq<char>) -> bool {
    a.len() == b.len() && forall|i: int| 0 <= i < a.len() ==> ascii_lower(#[trigger] a[i]) == ascii_lower(b[i])
}

fn lower_char(c: char) -> (r: char)
    ensures
        r == ascii_lower(c),
{
    if 'A' <= c && c <= 'Z' {
        ((c as u8) + 32) as char
    } else {
        c
    }
}

/// Compares two strings, ignoring ASCII case.
pub fn eq_ignore_ascii_case(a: &str, b: &str) -> (r: bool)
    ensures
        r == ascii_ci_eq(a@, b@),
{
    let n = a.unicode_len();
    if n != b.unicode_len() {
        return false;
    }
    let mut i: usize = 0;
    while i < n
        invariant
            n == a@.len(),
            n == b@.len(),
            i <= n,
            forall|j: int| 0 <= j < i ==> ascii_lower(#[trigger] a@[j]) == ascii_lower(b@[j]),
        decreases n - i,
    {
        if lower_char(a.get_char(i)) != lower_char(b.get_char(i)) {
            return false;
        }
        i = i + 1;
    }
    true
}

/// The value of an ASCII hexadecimal digit byte.
pub open spec fn hex_digit_value(b: u8) -> Option<u8> {
    if 48 <= b <= 57 {
        Some((b - 48) as u8)
    } else if 97 <= b <= 102 {
        Some((b - 97 + 10) as u8)
    } else if 65 <= b <= 70 {
        Some((b - 65 + 10) as u8)
    } else {
        None
    }
}

/// Reads one hexadecimal digit.
pub fn hex_value(byte: u8) -> (r: Result<u8, QuarkPanError>)
    ensures
        match hex_digit_value(byte) {
            Some(v) => r == Ok::<u8, QuarkPanError>(v),
            None => is_invalid_argument(r, "invalid hex digit"@),
        },
{
    if 48 <= byte && byte <= 57 {
        Ok(byte - 48)
    } else if 97 <= byte && byte <= 102 {
        Ok(byte - 97 + 10)
    } else if 65 <= byte && byte <= 70 {
        Ok(byte - 65 + 10)
    } else {
        Err(QuarkPanError::invalid_argument("invalid hex digit"))
    }
}

/// Every byte of `bytes` is a hexadecimal digit.
pub open spec fn all_hex(bytes: Seq<u8>) -> bool {
    forall|i: int| 0 <= i < bytes.len() ==> (#[trigger] hex_digit_value(bytes[i])) is Some
}

/// The bytes a hexadecimal string spells, two digits per byte.
pub open spec fn hex_bytes(bytes: Seq<u8>) -> Seq<u8> {
    Seq::new(
        bytes.len() / 2,
        |i: int|
            (hex_digit_value(bytes[2 * i])->0 * 16 + hex_digit_value(bytes[2 * i + 1])->0) as u8,
    )
}

/// Decodes a hexadecimal string into bytes.
pub fn decode_hex(hex: &str) -> (r: Result<Vec<u8>, QuarkPanError>)
    ensures
        hex.spec_bytes().len() % 2 != 0 ==> is_invalid_argument(r, "invalid md5 hex length"@),
        hex.spec_bytes().len() % 2 == 0 && !all_hex(hex.spec_bytes()) ==> is_invalid_argument(
            r,
            "invalid hex digit"@,
        ),
        hex.spec_bytes().len() % 2 == 0 && all_hex(hex.spec_bytes()) ==> (r matches Ok(v) && v@
            == hex_bytes(hex.spec_bytes()) && v@.len() <= usize::MAX / 2),
{
    let bytes = hex.as_bytes();
    let len = bytes.len();
    if len % 2 != 0 {
        return Err(QuarkPanError::invalid_argument("invalid md5 hex length"));
    }
    let ghost b = hex.spec_bytes();
    let mut out: Vec<u8> = Vec::new();
    let mut i: usize = 0;
    while i < len
        invariant
            bytes@ == b,
            b == hex.spec_bytes(),
            len == b.len(),
            len % 2 == 0,
            i % 2 == 0,
            i <= len,
            out@.len() == i / 2,
            forall|j: int| 0 <= j < i ==> (#[trigger] hex_digit_value(b[j])) is Some,
            forall|k: int| 0 <= k < i / 2 ==> #[trigger] out@[k] == hex_bytes(b)[k],
        decreases len - i,
    {
        let hi = match hex_value(bytes[i]) {
            Ok(v) => v,
            Err(e) => {
                assert(hex_digit_value(b[i as int]) is None);
                return Err(e);
            },
        };
        let lo = match hex_value(bytes[i + 1]) {
            Ok(v) => v,
            Err(e) => {
                assert(hex_digit_value(b[i + 1]) is None);
                return Err(e);
            },
        };
        out.push(hi * 16 + lo);
        i = i + 2;
    }
    assert(out@ =~= hex_bytes(b));
    Ok(out)
}

/// What the `base64` crate's standard engine encodes bytes as.
pub uninterp spec fn base64_standard(bytes: Seq<u8>) -> Seq<char>;

/// A character of the standard base64 alphabet, or the padding `=`.
pub open spec fn is_base64_char(c: char) -> bool {
    ||| 'A' <= c <= 'Z'
    ||| 'a' <= c <= 'z'
    ||| '0' <= c <= '9'
    ||| c == '+'
    ||| c == '/'
    ||| c == '='
}

/// Encodes bytes with the standard, padded base64 alphabet
/// (`general_purpose::STANDARD.encode`): four characters for every started
/// group of three bytes, each from the alphabet
/// `A-Z a-z 0-9 + /` or the padding `=`. The encoder panics when that length
/// overflows `usize`, which the bound on the input rules out.
#[verifier::external_body]
fn base64_encode(bytes: &[u8]) -> (r: String)
    requires
        bytes@.len() <= usize::MAX / 2,
    ensures
        r@ == base64_standard(bytes@),
        r@.len() == 4 * ((bytes@.len() + 2) / 3),
        forall|i: int| 0 <= i < r@.len() ==> is_base64_char(#[trigger] r@[i]),
{
    base64::engine::general_purpose::STANDARD.encode(bytes)
}

/// A local hex md5 matches a remote md5 given either as hex (in any ASCII
/// case) or as the base64 of the raw digest.
pub open spec fn md5_matches(local_hex: &str, remote: Seq<char>) -> bool {
    ||| ascii_ci_eq(local_hex@, remote)
    ||| (local_hex.spec_bytes().len() % 2 == 0 && all_hex(local_hex.spec_bytes()) && base64_standard(
        hex_bytes(local_hex.spec_bytes()),
    ) == remote)
}

/// Compares a local hex md5 with the md5 the server reported.
pub fn md5_matches_remote(local_hex_md5: &str, remote_md5: &str) -> (r: bool)
    ensures
        r == md5_matches(local_hex_md5, remote_md5@),
{
    if eq_ignore_ascii_case(local_hex_md5, remote_md5) {
        return true;
    }
    match decode_hex(local_hex_md5) {
        Err(_) => false,
        Ok(raw) => {
            let encoded = base64_encode(raw.as_slice());
            str_eq(encoded.as_str(), remote_md5)
        },
    }
}

/// The outcome of checking a download, or the text of the error it raises:
/// `never` skips; a missing (or blank) remote md5 is an error under
/// `always` and leaves the check unavailable under `auto`; otherwise the
/// md5s must match.
pub open spec fn verification_of(
    mode: VerifyMode,
    local_hex_md5: &str,
    remote_md5: Option<&str>,
) -> Result<VerificationOutcome, Seq<char>> {
    if mode == VerifyMode::Never {
        Ok(VerificationOutcome::Skipped)
    } else if remote_md5 is None || is_blank_text(remote_md5->0@) {
        if mode == VerifyMode::Always {
            Err("download verification required but remote md5 is missing"@)
        } else {
            Ok(VerificationOutcome::NotAvailable)
        }
    } else if md5_matches(local_hex_md5, remote_md5->0@) {
        Ok(VerificationOutcome::Verified)
    } else {
        Err(
            "download md5 mismatch: local="@ + local_hex_md5@ + ", remote="@ + remote_md5->0@,
        )
    }
}

/// Text that trims to nothing.
pub open spec fn is_blank_text(s: Seq<char>) -> bool {
    crate::text::all_whitespace(s)
}

/// Verification never fails under `never`; under any other mode a matching
/// md5 verifies and a mismatching one is an error; a missing md5 is an
/// error only under `always`. In particular a local md5 always matches
/// itself, in any ASCII case.
pub proof fn lemma_verification_modes(local_hex_md5: &str, remote_md5: Option<&str>, mode: VerifyMode)
    ensures
        verification_of(VerifyMode::Never, local_hex_md5, remote_md5) == Ok::<
            VerificationOutcome,
            Seq<char>,
        >(VerificationOutcome::Skipped),
        mode != VerifyMode::Never && (remote_md5 matches Some(r) && !is_blank_text(r@))
            ==> (verification_of(mode, local_hex_md5, remote_md5) is Ok <==> md5_matches(
            local_hex_md5,
            remote_md5->0@,
        )),
        (remote_md5 is None || is_blank_text(remote_md5->0@)) ==> (verification_of(
            mode,
            local_hex_md5,
            remote_md5,
        ) is Err <==> mode == VerifyMode::Always),
        md5_matches(local_hex_md5, local_hex_md5@),
{
}

/// Checks a finished download against the remote md5 under a verify mode.
pub fn verify_download_checksum(
    mode: VerifyMode,
    local_hex_md5: &str,
    remote_md5: Option<&str>,
) -> (r: Result<VerificationOutcome, QuarkPanError>)
    ensures
        match verification_of(mode, local_hex_md5, remote_md5) {
            Ok(o) => r == Ok::<VerificationOutcome, QuarkPanError>(o),
            Err(text) => is_invalid_argument(r, text),
        },
{
    if mode == VerifyMode::Never {
        return Ok(VerificationOutcome::Skipped);
    }
    let remote = match remote_md5 {
        Some(v) => {
            if is_blank(v) {
                None
            } else {
                Some(v)
            }
        },
        None => None,
    };
    let remote = match remote {
        None => {
            return match mode {
                VerifyMode::Always => Err(
                    QuarkPanError::invalid_argument(
                        "download verification required but remote md5 is missing",
                    ),
                ),
                VerifyMode::Auto => Ok(VerificationOutcome::NotAvailable),
                VerifyMode::Never => Ok(VerificationOutcome::Skipped),
            };
        },
        Some(v) => v,
    };
    if md5_matches_remote(local_hex_md5, remote) {
        Ok(VerificationOutcome::Verified)
    } else {
        let mut m = String::new();
        m.append("download md5 mismatch: local=");
        m.append(local_hex_md5);
        m.append(", remote=");
        m.append(remote);
        Err(QuarkPanError::InvalidArgument(m))
    }
}

/// The task file that records how to resume a transfer of `path`.
pub fn file_task_path(path: &str) -> (r: String)
    ensures
        r@ == path@ + ".quark.task"@,
{
    let mut r = owned(path);
    r.append(".quark.task");
    r
}

/// The partial file a download of `output` is written to first.
pub fn partial_download_path(output: &str) -> (r: String)
    ensures
        r@ == output@ + ".part"@,
{
    let mut r = owned(output);
    r.append(".part");
    r
}

/// The task file of a directory transfer: `<name>.quark.task` beside the
/// directory.
pub fn dir_task_path(path: &str) -> (r: Result<String, QuarkPanError>)
    ensures
        match (path_parent_of(path@), path_file_name_of(path@)) {
            (None, _) => is_invalid_argument(r, "directory has no parent"@),
            (Some(_), None) => is_invalid_argument(r, "invalid directory name"@),
            (Some(parent), Some(name)) => r matches Ok(p) && p@ == path_join_of(
                parent,
                name + ".quark.task"@,
            ),
        },
{
    let parent = match path_parent(path) {
        Some(p) => p,
        None => {
            return Err(QuarkPanError::invalid_argument("directory has no parent"));
        },
    };
    let name = match path_file_name(path) {
        Some(n) => n,
        None => {
            return Err(QuarkPanError::invalid_argument("invalid directory name"));
        },
    };
    let mut file = name;
    file.append(".quark.task");
    Ok(path_join(parent.as_str(), file.as_str()))
}

/// The resume record of a single-file download.
#[derive(Debug, Clone)]
pub struct DownloadTask {
    pub kind: String,
    pub fid: String,
    pub output_path: String,
    pub part_path: String,
    pub md5: Option<String>,
    pub size: Option<u64>,
    pub verify: VerifyMode,
}

impl DownloadTask {
    /// A new download record.
    pub fn new(
        fid: String,
        output_path: &str,
        part_path: &str,
        md5: Option<String>,
        size: Option<u64>,
        verify: VerifyMode,
    ) -> (r: Self)
        ensures
            r.kind@ == "download"@,
            r.fid == fid,
            r.output_path@ == output_path@,
            r.part_path@ == part_path@,
            r.md5 == md5,
            r.size == size,
            r.verify == verify,
    {
        DownloadTask {
            kind: owned("download"),
            fid,
            output_path: owned(output_path),
            part_path: owned(part_path),
            md5,
            size,
            verify,
        }
    }
}

} // verus!
