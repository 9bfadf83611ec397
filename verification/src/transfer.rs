//! Transfer progress: the snapshot every progress display reads, how each
//! event changes it, and the shared control object that carries it.

use std::sync::Arc;

use tokio::sync::watch;
use tokio_util::sync::CancellationToken;
use vstd::prelude::*;

use crate::paths::{path_file_name, path_file_name_of};
use crate::text::{decimal, decimal_string, owned, push_char};

verus! {

/// The latest known transfer progress.
#[derive(Debug, Clone, Copy, Default, PartialEq, Eq, Structural)]
pub struct TransferProgress {
    pub transferred: u64,
    pub total: Option<u64>,
    pub reconnects: u32,
}

/// `progress` after `delta` more bytes arrived (saturating at `u64::MAX`).
pub open spec fn advanced(progress: TransferProgress, delta: u64) -> TransferProgress {
    TransferProgress {
        transferred: if progress.transferred + delta > u64::MAX {
            u64::MAX
        } else {
            (progress.transferred + delta) as u64
        },
        ..progress
    }
}

/// `progress` after one more reconnect (saturating at `u32::MAX`).
pub open spec fn reconnected(progress: TransferProgress) -> TransferProgress {
    TransferProgress {
        reconnects: if progress.reconnects == u32::MAX {
            u32::MAX
        } else {
            (progress.reconnects + 1) as u32
        },
        ..progress
    }
}

/// `progress` once the transfer completed: a known total counts as fully
/// transferred.
pub open spec fn finished(progress: TransferProgress) -> TransferProgress {
    match progress.total {
        Some(t) => TransferProgress { transferred: t, ..progress },
        None => progress,
    }
}

impl TransferProgress {
    /// The progress of a transfer that has not started.
    pub fn starting(total: Option<u64>) -> (r: Self)
        ensures
            r == (TransferProgress { transferred: 0, total, reconnects: 0 }),
    {
        TransferProgress { transferred: 0, total, reconnects: 0 }
    }

    /// Counts `delta` more transferred bytes.
    pub fn advance(self, delta: u64) -> (r: Self)
        ensures
            r == advanced(self, delta),
    {
        let transferred = match self.transferred.checked_add(delta) {
            Some(t) => t,
            None => u64::MAX,
        };
        TransferProgress { transferred, ..self }
    }

    /// Counts one more reconnect.
    pub fn add_reconnect(self) -> (r: Self)
        ensures
            r == reconnected(self),
    {
        let reconnects = if self.reconnects == u32::MAX {
            u32::MAX
        } else {
            self.reconnects + 1
        };
        TransferProgress { reconnects, ..self }
    }

    /// Marks the transfer complete.
    pub fn finish(self) -> (r: Self)
        ensures
            r == finished(self),
    {
        match self.total {
            Some(t) => TransferProgress { transferred: t, ..self },
            None => self,
        }
    }
}

/// Progress events never lose what the others recorded: no event changes the
/// total; a reconnect keeps the byte count, more bytes never lower the count
/// nor touch the reconnects, and finishing sets the count to a known total,
/// changes nothing without one, and twice is the same as once.
pub proof fn lemma_progress_events(p: TransferProgress, delta: u64)
    ensures
        reconnected(p).transferred == p.transferred,
        reconnected(p).total == p.total,
        reconnected(p).reconnects >= p.reconnects,
        p.reconnects < u32::MAX ==> reconnected(p).reconnects == p.reconnects + 1,
        advanced(p, delta).transferred >= p.transferred,
        advanced(p, delta).reconnects == p.reconnects,
        advanced(p, delta).total == p.total,
        finished(finished(p)) == finished(p),
        finished(p).reconnects == p.reconnects,
        finished(p).total == p.total,
        p.total matches Some(t) ==> finished(p).transferred == t,
        p.total is None ==> finished(p) == p,
{
}

/// The progress caption: the label, followed by the reconnect count when
/// there was at least one reconnect.
pub open spec fn progress_text(label: Seq<char>, reconnects: u32) -> Seq<char> {
    if reconnects == 0 {
        label
    } else {
        label + " reconnects:"@ + decimal(reconnects as nat)
    }
}

/// Renders the progress caption.
pub fn progress_message(label: &str, reconnects: u32) -> (r: String)
    ensures
        r@ == progress_text(label@, reconnects),
{
    if reconnects == 0 {
        owned(label)
    } else {
        let mut r = owned(label);
        r.append(" reconnects:");
        let digits = decimal_string(reconnects as u64);
        r.append(digits.as_str());
        r
    }
}

/// `text` cut to at most `max_chars` characters; a cut text ends in `…`
/// (unless only one character fits).
pub open spec fn truncated(text: Seq<char>, max_chars: nat) -> Seq<char> {
    let head = if text.len() <= max_chars {
        text
    } else {
        text.take(max_chars as int)
    };
    if text.len() > max_chars && max_chars > 1 {
        head.drop_last().push('…')
    } else {
        head
    }
}

/// Shortens a label for the progress display.
pub fn truncate_label(text: &str, max_chars: usize) -> (r: String)
    ensures
        r@ == truncated(text@, max_chars as nat),
        r@.len() <= max_chars,
        text@.len() <= max_chars ==> r@ == text@,
{
    let n = text.unicode_len();
    let keep = if n <= max_chars {
        n
    } else {
        max_chars
    };
    let head = text.substring_char(0, keep);
    if n > max_chars && max_chars > 1 {
        let short = head.substring_char(0, keep - 1);
        let mut r = owned(short);
        push_char(&mut r, '…');
        assert(head@.drop_last() =~= short@);
        r
    } else {
        proof {
            if n <= max_chars {
                assert(head@ =~= text@);
            }
        }
        owned(head)
    }
}

/// The label shown beside a transfer of `path`: the action and the file
/// name (or the whole path when it has none), cut to 28 characters.
pub open spec fn label_text(action: Seq<char>, path: Seq<char>) -> Seq<char> {
    let name = match path_file_name_of(path) {
        Some(n) => n,
        None => path,
    };
    truncated(action + " "@ + name, 28)
}

/// Builds the progress label of a transfer.
pub fn progress_label(action: &str, path: &str) -> (r: String)
    ensures
        r@ == label_text(action@, path@),
{
    let name = match path_file_name(path) {
        Some(n) => n,
        None => owned(path),
    };
    let mut text = owned(action);
    text.append(" ");
    text.append(name.as_str());
    truncate_label(text.as_str(), 28)
}

/// Shared transfer control object used to observe progress and cancel work.
#[derive(Clone)]
pub struct TransferControl {
    inner: Arc<TransferInner>,
}

struct TransferInner {
    progress_tx: watch::Sender<TransferProgress>,
    cancel: CancellationToken,
}

#[verifier::external_type_specification]
#[verifier::external_body]
#[verifier::reject_recursive_types(T)]
pub struct ExWatchSender<T>(watch::Sender<T>);

#[verifier::external_type_specification]
#[verifier::external_body]
#[verifier::reject_recursive_types(T)]
pub struct ExWatchReceiver<T>(watch::Receiver<T>);

#[verifier::external_type_specification]
#[verifier::external_body]
pub struct ExCancellationToken(CancellationToken);

/// The total of the progress values a progress channel holds. It is set
/// when the channel is made, and every send of this library keeps it (see
/// `publish_progress`), so it is the same for the channel's whole life.
pub uninterp spec fn channel_total(tx: watch::Sender<TransferProgress>) -> Option<u64>;

/// The total of the progress values a receiver reads: that of the channel it
/// was subscribed to.
pub uninterp spec fn receiver_total(rx: watch::Receiver<TransferProgress>) -> Option<u64>;

/// `tokio::sync::watch::channel`: a progress channel holding `initial`, whose
/// total is `initial.total`. The receiver made with it is dropped; the
/// sender keeps working.
#[verifier::external_body]
fn progress_channel(initial: TransferProgress) -> (r: watch::Sender<TransferProgress>)
    ensures
        channel_total(r) == initial.total,
{
    watch::channel(initial).0
}

/// `watch::Sender::borrow`, copied out at once: the value last sent, or the
/// initial value. Other tasks may send at any time, so only the total is
/// stated: every value the channel ever holds has the channel's total.
#[verifier::external_body]
fn current_progress(tx: &watch::Sender<TransferProgress>) -> (r: TransferProgress)
    ensures
        r.total == channel_total(*tx),
{
    *tx.borrow()
}

/// `watch::Sender::send_replace`: stores `value` and wakes the receivers;
/// the previous value it hands back is dropped. Only values with the
/// channel's total are sent.
#[verifier::external_body]
fn publish_progress(tx: &watch::Sender<TransferProgress>, value: TransferProgress)
    requires
        value.total == channel_total(*tx),
{
    tx.send_replace(value);
}

/// `watch::Sender::subscribe`: a new receiver of the same channel, so the
/// values it reads carry the channel's total.
#[verifier::external_body]
fn subscribe_progress(tx: &watch::Sender<TransferProgress>) -> (r: watch::Receiver<TransferProgress>)
    ensures
        receiver_total(r) == channel_total(*tx),
{
    tx.subscribe()
}

/// `CancellationToken::new`.
#[verifier::external_body]
fn new_token() -> CancellationToken {
    CancellationToken::new()
}

/// `CancellationToken::cancel`.
#[verifier::external_body]
fn cancel_token(token: &CancellationToken) {
    token.cancel();
}

/// `CancellationToken::is_cancelled`: whether any clone of the token was
/// cancelled, which other tasks can change at any time, so nothing is stated
/// of the result.
#[verifier::external_body]
fn token_is_cancelled(token: &CancellationToken) -> bool {
    token.is_cancelled()
}

/// Whether two tokens are handles on one cancellation state: cancelling
/// either cancels the other.
pub uninterp spec fn shares_cancellation(a: CancellationToken, b: CancellationToken) -> bool;

/// `CancellationToken::clone`: a clone "which will get cancelled whenever the
/// current token gets cancelled, and vice versa", as its documentation says.
#[verifier::external_body]
fn clone_token(token: &CancellationToken) -> (r: CancellationToken)
    ensures
        shares_cancellation(r, *token),
{
    token.clone()
}

impl TransferControl {
    /// The total byte count the transfer was created with; every progress
    /// snapshot carries it.
    pub closed spec fn total(&self) -> Option<u64> {
        channel_total(self.inner.progress_tx)
    }

    /// Creates a new transfer controller with an optional total byte count;
    /// its first snapshot is `TransferProgress::starting(total)`.
    pub fn new(total: Option<u64>) -> (r: Self)
        ensures
            r.total() == total,
    {
        let progress_tx = progress_channel(TransferProgress::starting(total));
        TransferControl { inner: Arc::new(TransferInner { progress_tx, cancel: new_token() }) }
    }

    /// Returns the latest known progress snapshot; its total is the one the
    /// transfer was created with.
    pub fn snapshot(&self) -> (r: TransferProgress)
        ensures
            r.total == self.total(),
    {
        current_progress(&self.inner.progress_tx)
    }

    /// Subscribes to progress updates of this transfer.
    pub fn subscribe(&self) -> (r: watch::Receiver<TransferProgress>)
        ensures
            receiver_total(r) == self.total(),
    {
        subscribe_progress(&self.inner.progress_tx)
    }

    /// Cancels the associated transfer.
    pub fn cancel(&self) {
        cancel_token(&self.inner.cancel);
    }

    /// Returns true if cancellation has been requested.
    pub fn is_cancelled(&self) -> bool {
        token_is_cancelled(&self.inner.cancel)
    }

    /// Whether `token` is a handle on this transfer's cancellation state.
    pub closed spec fn cancels_with(&self, token: CancellationToken) -> bool {
        shares_cancellation(token, self.inner.cancel)
    }

    /// Returns a cloneable token for integration with external cancellation
    /// logic: it is cancelled whenever this transfer is, and vice versa.
    pub fn cancellation_token(&self) -> (r: CancellationToken)
        ensures
            self.cancels_with(r),
    {
        clone_token(&self.inner.cancel)
    }

    /// Counts `delta` more transferred bytes (see `TransferProgress::advance`).
    pub fn advance(&self, delta: u64) {
        let current = current_progress(&self.inner.progress_tx);
        publish_progress(&self.inner.progress_tx, current.advance(delta));
    }

    /// Increments the reconnect counter for long-running transfer UIs.
    pub fn increment_reconnects(&self) {
        let current = current_progress(&self.inner.progress_tx);
        publish_progress(&self.inner.progress_tx, current.add_reconnect());
    }

    /// Marks the transfer as complete so progress UIs can render a final 100% state.
    pub fn finish(&self) {
        let current = current_progress(&self.inner.progress_tx);
        publish_progress(&self.inner.progress_tx, current.finish());
    }
}

} // verus!
