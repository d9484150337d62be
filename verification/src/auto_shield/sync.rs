//! What to do about an error of the wallet's synchronisation.
use vstd::prelude::*;

use crate::text::{chars_of, contains_text, join3, occurs_in};

verus! {

/// Whether an error says that the backend does not know a transaction.
pub open spec fn reports_missing_transaction(err_text: Seq<char>) -> bool {
    occurs_in("No such mempool or main chain transaction"@, err_text)
}

/// Whether an error says that the wallet lacks data on a note that it has decrypted.
pub open spec fn reports_missing_note(err_text: Seq<char>) -> bool {
    occurs_in("decrypted note nullifier and position data not found"@, err_text)
}

pub fn is_missing_backend_transaction(err_text: &str) -> (result: bool)
    ensures
        result == reports_missing_transaction(err_text@),
{
    contains_text(err_text, "No such mempool or main chain transaction")
}

pub fn is_missing_note_metadata(err_text: &str) -> (result: bool)
    ensures
        result == reports_missing_note(err_text@),
{
    contains_text(err_text, "decrypted note nullifier and position data not found")
}

/// The characters between which an error text is taken apart.
pub open spec fn is_separator(c: char) -> bool {
    c == ' ' || c == '"' || c == '\n' || c == ':' || c == ','
}

pub open spec fn is_hex_digit(c: char) -> bool {
    '0' <= c <= '9' || 'a' <= c <= 'f' || 'A' <= c <= 'F'
}

/// Whether the characters from `from` up to `to` stand between separators or the ends of the
/// text, and none of them is a separator.
pub open spec fn is_token(text: Seq<char>, from: int, to: int) -> bool {
    &&& 0 <= from <= to <= text.len()
    &&& forall|i: int| from <= i < to ==> !is_separator(#[trigger] text[i])
    &&& from == 0 || is_separator(text[from - 1])
    &&& to == text.len() || is_separator(text[to])
}

/// Whether a transaction id stands at `from`: a token of 64 hexadecimal digits.
pub open spec fn is_txid_at(text: Seq<char>, from: int) -> bool {
    &&& is_token(text, from, from + 64)
    &&& forall|i: int| from <= i < from + 64 ==> is_hex_digit(#[trigger] text[i])
}

/// Whether the first transaction id in `text` stands at `from`.
pub open spec fn is_first_txid_at(text: Seq<char>, from: int) -> bool {
    &&& is_txid_at(text, from)
    &&& forall|earlier: int| earlier < from ==> !#[trigger] is_txid_at(text, earlier)
}

/// The first transaction id in `text`.
pub open spec fn first_txid(text: Seq<char>) -> Option<Seq<char>> {
    if exists|from: int| is_first_txid_at(text, from) {
        let from = choose|from: int| is_first_txid_at(text, from);
        Some(text.subrange(from, from + 64))
    } else {
        None
    }
}

pub open spec fn txid_view(txid: Option<String>) -> Option<Seq<char>> {
    match txid {
        Some(text) => Some(text@),
        None => None,
    }
}

fn is_separator_char(c: char) -> (result: bool)
    ensures
        result == is_separator(c),
{
    c == ' ' || c == '"' || c == '\n' || c == ':' || c == ','
}

fn is_hex_digit_char(c: char) -> (result: bool)
    ensures
        result == is_hex_digit(c),
{
    ('0' <= c && c <= '9') || ('a' <= c && c <= 'f') || ('A' <= c && c <= 'F')
}

/// Finds the first transaction id that an error text mentions.
pub fn extract_txid_from_error(err_text: &str) -> (txid: Option<String>)
    ensures
        txid_view(txid) == first_txid(err_text@),
{
    let chars = chars_of(err_text);
    let mut from: usize = 0;
    let mut at: usize = 0;
    let mut all_hex: bool = true;
    loop
        invariant
            chars@ == err_text@,
            from <= at <= chars@.len(),
            from == 0 || is_separator(chars@[from - 1]),
            forall|i: int| from <= i < at ==> !is_separator(#[trigger] chars@[i]),
            all_hex == (forall|i: int| from <= i < at ==> is_hex_digit(#[trigger] chars@[i])),
            forall|earlier: int| earlier < from ==> !#[trigger] is_txid_at(chars@, earlier),
        decreases chars@.len() - at,
    {
        let ended = at == chars.len() || is_separator_char(chars[at]);
        if ended {
            if at - from == 64 && all_hex {
                assert(is_first_txid_at(err_text@, from as int));
                proof {
                    first_txid_is_unique(err_text@, from as int);
                }
                return Some(err_text.substring_char(from, at).to_owned());
            }
            proof {
                assert forall|earlier: int| earlier <= at implies !#[trigger] is_txid_at(
                    chars@,
                    earlier,
                ) by {
                    if is_txid_at(chars@, earlier) {
                        if earlier == from {
                            let end = earlier + 64;
                            if end < at {
                                assert(!is_separator(chars@[end]));
                            } else if end > at {
                                assert(is_separator(chars@[at as int]));
                            }
                        } else if earlier > from && earlier <= at {
                            assert(is_separator(chars@[earlier - 1]));
                            if earlier - 1 < at {
                                assert(!is_separator(chars@[earlier - 1]));
                            }
                        }
                    }
                }
            }
            if at == chars.len() {
                proof {
                    assert forall|other: int| !#[trigger] is_first_txid_at(err_text@, other) by {
                        if other > at {
                            assert(!is_token(err_text@, other, other + 64));
                        } else {
                            assert(!is_txid_at(chars@, other));
                        }
                    }
                }
                return None;
            }
            at = at + 1;
            from = at;
            all_hex = true;
        } else {
            all_hex = all_hex && is_hex_digit_char(chars[at]);
            at = at + 1;
        }
    }
}

proof fn first_txid_is_unique(text: Seq<char>, from: int)
    requires
        is_first_txid_at(text, from),
    ensures
        first_txid(text) == Some(text.subrange(from, from + 64)),
{
    let other = choose|other: int| is_first_txid_at(text, other);
    assert(is_first_txid_at(text, other));
    if other < from {
        assert(is_txid_at(text, other));
    } else if from < other {
        assert(is_txid_at(text, from));
    }
}

/// What is said of a transaction that the backend does not know.
pub open spec fn missing_transaction_message(context: Seq<char>, err_text: Seq<char>) -> Seq<char> {
    match first_txid(err_text) {
        Some(txid) => context + " hit missing backend transaction "@ + txid
            + "; backend reindex or txindex=1 may be required. Continuing."@,
        None => context
            + " hit missing backend transaction data; backend reindex or txindex=1 may be required. Continuing. ("@
            + err_text + ")"@,
    }
}

/// The log message about a transaction that the backend does not know.
pub fn log_missing_backend_transaction(context: &str, err_text: &str) -> (message: String)
    ensures
        message@ == missing_transaction_message(context@, err_text@),
{
    match extract_txid_from_error(err_text) {
        Some(txid) => {
            let mut message = join3(context, " hit missing backend transaction ", txid.as_str());
            message.append("; backend reindex or txindex=1 may be required. Continuing.");
            message
        },
        None => {
            let mut message = join3(
                context,
                " hit missing backend transaction data; backend reindex or txindex=1 may be required. Continuing. (",
                err_text,
            );
            message.append(")");
            message
        },
    }
}

/// The two ways to bring the wallet up to date.
#[derive(Debug, Clone, Copy, PartialEq, Eq, Structural)]
pub enum WalletSyncOp {
    Sync,
    Rescan,
}

/// A synchronisation that is to be run.
#[derive(Debug, Clone, Copy, PartialEq, Eq, Structural)]
pub struct WalletSync {
    pub op: WalletSyncOp,
    /// Whether a rescan may follow where the wallet lacks data on a note.
    pub allow_note_recovery: bool,
}

/// What follows a synchronisation that failed.
#[derive(Debug, Clone, Copy, PartialEq, Eq, Structural)]
pub enum SyncErrorAction {
    /// The backend lacks a transaction: go on as if the synchronisation had succeeded.
    Continue,
    /// Run another synchronisation, which decides about success.
    Recover(WalletSync),
    /// Give up with the error.
    Fail,
}

/// What follows where `sync` failed with `err_text`.
pub open spec fn sync_error_action(sync: WalletSync, err_text: Seq<char>) -> SyncErrorAction {
    if reports_missing_transaction(err_text) {
        SyncErrorAction::Continue
    } else if sync.allow_note_recovery && reports_missing_note(err_text) {
        SyncErrorAction::Recover(
            WalletSync { op: WalletSyncOp::Rescan, allow_note_recovery: false },
        )
    } else {
        SyncErrorAction::Fail
    }
}

/// The synchronisation for an operation: it may be followed by one recovery.
pub fn run_wallet_sync(op: WalletSyncOp) -> (sync: WalletSync)
    ensures
        sync == (WalletSync { op, allow_note_recovery: true }),
{
    WalletSync { op, allow_note_recovery: true }
}

/// Decides what follows a synchronisation that failed.
pub fn handle_wallet_sync_error(sync: WalletSync, err_text: &str) -> (action: SyncErrorAction)
    ensures
        action == sync_error_action(sync, err_text@),
{
    if is_missing_backend_transaction(err_text) {
        SyncErrorAction::Continue
    } else if sync.allow_note_recovery && is_missing_note_metadata(err_text) {
        SyncErrorAction::Recover(
            WalletSync { op: WalletSyncOp::Rescan, allow_note_recovery: false },
        )
    } else {
        SyncErrorAction::Fail
    }
}

/// A recovery is never followed by another: one call runs at most two synchronisations, and the
/// second is a rescan.
pub proof fn recovery_happens_once(
    sync: WalletSync,
    err_text: Seq<char>,
    recovery: WalletSync,
    later_text: Seq<char>,
)
    requires
        sync_error_action(sync, err_text) == SyncErrorAction::Recover(recovery),
    ensures
        recovery.op == WalletSyncOp::Rescan,
        !(sync_error_action(recovery, later_text) is Recover),
{
}

/// A missing backend transaction never fails a synchronisation, whatever else the error says.
pub proof fn missing_transaction_never_fails(sync: WalletSync, err_text: Seq<char>)
    requires
        reports_missing_transaction(err_text),
    ensures
        sync_error_action(sync, err_text) == SyncErrorAction::Continue,
{
}

} // verus!
