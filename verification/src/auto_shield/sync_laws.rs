//! What holds of the reaction to an error of the wallet's synchronisation.
use vstd::prelude::*;

use crate::auto_shield::sync::{
    extract_txid_from_error, first_txid, handle_wallet_sync_error, is_first_txid_at,
    is_hex_digit, is_missing_backend_transaction, is_missing_note_metadata, is_separator,
    is_txid_at, log_missing_backend_transaction, missing_transaction_message,
    reports_missing_note, reports_missing_transaction, run_wallet_sync, sync_error_action,
    txid_view, SyncErrorAction, WalletSync, WalletSyncOp,
};
use crate::text_laws::a_text_occurs_in_what_surrounds_it;

verus! {

/// An error that says anywhere that the backend lacks a transaction lets the daemon go on. One
/// that says anywhere that data on a note is missing, and not the former, brings a rescan that no
/// other follows, where that is allowed. Every other error fails.
pub proof fn errors_are_handled_by_what_they_say(
    sync: WalletSync,
    before: Seq<char>,
    behind: Seq<char>,
)
    ensures
        sync_error_action(
            sync,
            before + "No such mempool or main chain transaction"@ + behind,
        ) == SyncErrorAction::Continue,
        ({
            let text = before + "decrypted note nullifier and position data not found"@ + behind;
            !reports_missing_transaction(text) ==> sync_error_action(sync, text) == (
            if sync.allow_note_recovery {
                SyncErrorAction::Recover(
                    WalletSync { op: WalletSyncOp::Rescan, allow_note_recovery: false },
                )
            } else {
                SyncErrorAction::Fail
            })
        }),
{
    a_text_occurs_in_what_surrounds_it(
        before,
        "No such mempool or main chain transaction"@,
        behind,
        behind,
    );
    a_text_occurs_in_what_surrounds_it(
        before,
        "decrypted note nullifier and position data not found"@,
        behind,
        behind,
    );
}

/// An error that says neither that the backend lacks a transaction nor that data on a note is
/// missing fails.
pub proof fn other_errors_fail(sync: WalletSync, err_text: Seq<char>)
    requires
        forall|before: Seq<char>, behind: Seq<char>|
            err_text != #[trigger] (before + "No such mempool or main chain transaction"@
                + behind),
        forall|before: Seq<char>, behind: Seq<char>|
            err_text != #[trigger] (before
                + "decrypted note nullifier and position data not found"@ + behind),
    ensures
        sync_error_action(sync, err_text) == SyncErrorAction::Fail,
{
    a_text_occurs_in_what_surrounds_it(
        err_text,
        "No such mempool or main chain transaction"@,
        err_text,
        err_text,
    );
    a_text_occurs_in_what_surrounds_it(
        err_text,
        "decrypted note nullifier and position data not found"@,
        err_text,
        err_text,
    );
    assert(!reports_missing_transaction(err_text));
    assert(!reports_missing_note(err_text));
}

/// The reaction to an error goes on, recovers or fails by what the error says.
pub proof fn the_reaction_is_by_the_error(
    sync: WalletSync,
    err_text: &str,
    action: SyncErrorAction,
)
    requires
        call_ensures(handle_wallet_sync_error, (sync, err_text), action),
    ensures
        action == SyncErrorAction::Continue <==> reports_missing_transaction(err_text@),
        action is Recover <==> !reports_missing_transaction(err_text@) && sync.allow_note_recovery
            && reports_missing_note(err_text@),
        action matches SyncErrorAction::Recover(recovery) ==> recovery.op == WalletSyncOp::Rescan
            && !recovery.allow_note_recovery,
{
}

/// A synchronisation is the one that is asked for, and may be followed by a recovery.
pub proof fn a_synchronisation_may_recover(op: WalletSyncOp, sync: WalletSync)
    requires
        call_ensures(run_wallet_sync, (op,), sync),
    ensures
        sync.op == op,
        sync.allow_note_recovery,
{
}

/// Whether 64 hexadecimal digits stand at `from`, with a separator or an end of the text on both
/// sides.
pub open spec fn id_stands_at(text: Seq<char>, from: int) -> bool {
    &&& 0 <= from
    &&& from + 64 <= text.len()
    &&& forall|i: int| from <= i < from + 64 ==> is_hexadecimal(#[trigger] text[i])
    &&& from > 0 ==> separates(text[from - 1])
    &&& from + 64 < text.len() ==> separates(text[from + 64])
}

/// The digits 0 to 9 and the letters A to F, large or small.
pub open spec fn is_hexadecimal(c: char) -> bool {
    ||| '0' <= c && c <= '9'
    ||| 'a' <= c && c <= 'f'
    ||| 'A' <= c && c <= 'F'
}

/// A space, a quotation mark, a line feed, a colon or a comma.
pub open spec fn separates(c: char) -> bool {
    c == ' ' || c == '"' || c == '\n' || c == ':' || c == ','
}

/// A transaction id stands where 64 hexadecimal digits stand between separators or ends, and
/// nowhere else.
pub proof fn ids_are_digits_between_separators(text: Seq<char>, from: int)
    ensures
        is_txid_at(text, from) <==> id_stands_at(text, from),
{
    if id_stands_at(text, from) {
        assert forall|i: int| from <= i < from + 64 implies !is_separator(#[trigger] text[i])
            && is_hex_digit(text[i]) by {
            assert(is_hexadecimal(text[i]));
        }
    }
    if is_txid_at(text, from) {
        assert forall|i: int| from <= i < from + 64 implies is_hexadecimal(#[trigger] text[i]) by {
            assert(is_hex_digit(text[i]));
        }
    }
}

/// The id that is found in an error is the one that stands first in it, and none is found exactly
/// if none stands in it.
pub proof fn the_first_id_is_found(err_text: &str, txid: Option<String>, from: int)
    requires
        call_ensures(extract_txid_from_error, (err_text,), txid),
    ensures
        txid is None ==> !id_stands_at(err_text@, from),
        id_stands_at(err_text@, from) && (forall|earlier: int|
            earlier < from ==> !#[trigger] id_stands_at(err_text@, earlier)) ==> (txid matches Some(
            found,
        ) && found@ == err_text@.subrange(from, from + 64)),
        txid matches Some(found) ==> found@.len() == 64,
{
    let text = err_text@;
    assert forall|at: int| #[trigger] is_txid_at(text, at) <==> id_stands_at(text, at) by {
        ids_are_digits_between_separators(text, at);
    }
    if id_stands_at(text, from) {
        let first = first_at_or_before(text, from);
        assert(is_first_txid_at(text, first)) by {
            assert forall|earlier: int| earlier < first implies !#[trigger] is_txid_at(
                text,
                earlier,
            ) by {
                ids_are_digits_between_separators(text, earlier);
            }
        }
        let chosen = choose|at: int| is_first_txid_at(text, at);
        assert(is_first_txid_at(text, chosen));
        if chosen < first {
            assert(is_txid_at(text, chosen));
        } else if first < chosen {
            assert(is_txid_at(text, first));
        }
        assert(chosen == first);
        assert(txid_view(txid) == Some(text.subrange(first, first + 64)));
        if forall|earlier: int| earlier < from ==> !#[trigger] id_stands_at(text, earlier) {
            if first < from {
                assert(id_stands_at(text, first));
            }
            assert(first == from);
        }
    }
    if txid is Some {
        assert(first_txid(text) is Some);
        let chosen = choose|at: int| is_first_txid_at(text, at);
        assert(is_first_txid_at(text, chosen));
    }
}

proof fn first_at_or_before(text: Seq<char>, from: int) -> (first: int)
    requires
        id_stands_at(text, from),
    ensures
        first <= from,
        id_stands_at(text, first),
        forall|earlier: int| earlier < first ==> !#[trigger] id_stands_at(text, earlier),
    decreases from,
{
    if exists|earlier: int| earlier < from && #[trigger] id_stands_at(text, earlier) {
        let earlier = choose|earlier: int| earlier < from && #[trigger] id_stands_at(text, earlier);
        first_at_or_before(text, earlier)
    } else {
        from
    }
}

/// The message about a missing transaction starts with what was done, names the id that stands in
/// the error, and quotes the whole error where no id does.
pub proof fn the_message_names_the_id(context: &str, err_text: &str, message: String)
    requires
        call_ensures(log_missing_backend_transaction, (context, err_text), message),
    ensures
        message@ == missing_transaction_message(context@, err_text@),
        context@.is_prefix_of(message@),
        first_txid(err_text@) matches Some(txid) ==> message@ == context@
            + " hit missing backend transaction "@ + txid
            + "; backend reindex or txindex=1 may be required. Continuing."@,
        first_txid(err_text@) is None ==> message@ == context@
            + " hit missing backend transaction data; backend reindex or txindex=1 may be required. Continuing. ("@
            + err_text@ + ")"@,
{
    assert(message@.subrange(0, context@.len() as int) == context@);
}

/// Whether an error says that a transaction is missing, or that data on a note is, is whether it
/// holds the words for it somewhere.
pub proof fn reports_are_recognised(err_text: &str, transaction: bool, note: bool)
    requires
        call_ensures(is_missing_backend_transaction, (err_text,), transaction),
        call_ensures(is_missing_note_metadata, (err_text,), note),
    ensures
        transaction <==> exists|before: Seq<char>, behind: Seq<char>|
            err_text@ == #[trigger] (before + "No such mempool or main chain transaction"@
                + behind),
        note <==> exists|before: Seq<char>, behind: Seq<char>|
            err_text@ == #[trigger] (before
                + "decrypted note nullifier and position data not found"@ + behind),
{
    let text = err_text@;
    a_text_occurs_in_what_surrounds_it(
        text,
        "No such mempool or main chain transaction"@,
        text,
        text,
    );
    a_text_occurs_in_what_surrounds_it(
        text,
        "decrypted note nullifier and position data not found"@,
        text,
        text,
    );
    if exists|before: Seq<char>, behind: Seq<char>|
        text == #[trigger] (before + "No such mempool or main chain transaction"@ + behind) {
        let (before, behind) = choose|before: Seq<char>, behind: Seq<char>|
            text == #[trigger] (before + "No such mempool or main chain transaction"@ + behind);
        a_text_occurs_in_what_surrounds_it(
            before,
            "No such mempool or main chain transaction"@,
            behind,
            text,
        );
    }
    if exists|before: Seq<char>, behind: Seq<char>|
        text == #[trigger] (before + "decrypted note nullifier and position data not found"@
            + behind) {
        let (before, behind) = choose|before: Seq<char>, behind: Seq<char>|
            text == #[trigger] (before + "decrypted note nullifier and position data not found"@
                + behind);
        a_text_occurs_in_what_surrounds_it(
            before,
            "decrypted note nullifier and position data not found"@,
            behind,
            text,
        );
    }
}

} // verus!
