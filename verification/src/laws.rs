use vstd::prelude::*;
use crate::checker::{spec_attempts, spec_check, spec_checkpoint_after, CheckOutcome};
use crate::detect::spec_is_changed;
use crate::feed::spec_head_item;
use crate::model::{CheckError, ItemView};

verus! {

/// Law: new-feed bootstrap. A subscription with no stored checkpoint
/// whose document yields an item hands the relay exactly one
/// notification; with relay and store answering success, the check ends
/// notified and the checkpoint becomes the item's publish instant.
pub proof fn lemma_new_feed_bootstrap(doc: Seq<u8>, item: ItemView)
    requires
        spec_head_item(doc) == Ok::<ItemView, CheckError>(item),
    ensures
        spec_attempts(None::<i64>, Some(doc)) == 1,
        spec_check(None::<i64>, Some(doc), true, true) == (CheckOutcome::Notified {
            new_checkpoint: item.published_at,
        }),
        spec_checkpoint_after(None::<i64>, spec_check(None::<i64>, Some(doc), true, true))
            == Some(item.published_at),
{
}

/// Law: no-op on match. When the stored checkpoint exactly equals the
/// fetched item's publish instant, the check skips — no notification is
/// handed out and the checkpoint stays as it was, whatever relay and
/// store would have answered.
pub proof fn lemma_no_op_on_match(doc: Seq<u8>, item: ItemView, send_ok: bool, persist_ok: bool)
    requires
        spec_head_item(doc) == Ok::<ItemView, CheckError>(item),
    ensures
        spec_attempts(Some(item.published_at), Some(doc)) == 0,
        spec_check(Some(item.published_at), Some(doc), send_ok, persist_ok)
            == CheckOutcome::Skipped,
        spec_checkpoint_after(
            Some(item.published_at),
            spec_check(Some(item.published_at), Some(doc), send_ok, persist_ok),
        ) == Some(item.published_at),
{
}

/// Law: equality-only change detection. A fetched item chronologically
/// *older* than the stored checkpoint still counts as a change: exactly
/// one notification is handed out, and on success the checkpoint is
/// overwritten backwards to the older instant.
pub proof fn lemma_equality_only_detection(doc: Seq<u8>, item: ItemView, stored: i64)
    requires
        spec_head_item(doc) == Ok::<ItemView, CheckError>(item),
        item.published_at < stored,
    ensures
        spec_attempts(Some(stored), Some(doc)) == 1,
        spec_check(Some(stored), Some(doc), true, true) == (CheckOutcome::Notified {
            new_checkpoint: item.published_at,
        }),
        spec_checkpoint_after(Some(stored), spec_check(Some(stored), Some(doc), true, true))
            == Some(item.published_at),
{
}

/// Law: the checkpoint moves only with a delivered notification. For
/// every check, either the checkpoint is left exactly as it was, or the
/// relay and the store both answered success, the document yielded an
/// item, exactly one notification was handed out, and the new checkpoint
/// is that item's publish instant.
pub proof fn lemma_checkpoint_moves_only_on_notify(
    stored: Option<i64>,
    doc: Option<Seq<u8>>,
    send_ok: bool,
    persist_ok: bool,
)
    ensures
        ({
            let after = spec_checkpoint_after(stored, spec_check(stored, doc, send_ok, persist_ok));
            after != stored ==> {
                &&& send_ok
                &&& persist_ok
                &&& spec_attempts(stored, doc) == 1
                &&& doc matches Some(d)
                &&& spec_head_item(d) matches Ok(item)
                &&& after == Some(item.published_at)
            }
        }),
{
}

/// Law: a notification failure blocks the checkpoint. With a relay that
/// fails, a detected change ends the check in a notification error and
/// the checkpoint stays unchanged — so a later check with the same
/// stored checkpoint and the same document detects the same change and
/// hands the relay exactly one notification again.
pub proof fn lemma_notify_failure_blocks_checkpoint(
    stored: Option<i64>,
    doc: Seq<u8>,
    item: ItemView,
    persist_ok: bool,
)
    requires
        spec_head_item(doc) == Ok::<ItemView, CheckError>(item),
        spec_is_changed(stored, item.published_at),
    ensures
        spec_check(stored, Some(doc), false, persist_ok) == (CheckOutcome::Failed {
            error: CheckError::Notify,
        }),
        spec_checkpoint_after(stored, spec_check(stored, Some(doc), false, persist_ok)) == stored,
        spec_attempts(stored, Some(doc)) == 1,
        spec_check(stored, Some(doc), true, true) == (CheckOutcome::Notified {
            new_checkpoint: item.published_at,
        }),
{
}

} // verus!
