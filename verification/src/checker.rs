use vstd::prelude::*;
use crate::detect::{is_changed, spec_is_changed};
use crate::feed::{parse_feed_document, spec_head_item};
use crate::model::{CheckError, FeedSubscription, FetchedItem, ItemView};
use crate::notify::{build_notification, spec_from_name, spec_html_body, spec_text_body, NotificationRecord};

verus! {

/// How one check of one feed ends.
#[derive(Clone, Copy, PartialEq, Eq, Structural, Debug)]
pub enum CheckOutcome {
    /// The stored checkpoint equals the fetched publish instant: nothing
    /// was sent and nothing was written.
    Skipped,
    /// A notification went out and the checkpoint was advanced to the
    /// fetched publish instant.
    Notified { new_checkpoint: i64 },
    /// The check stopped with this error; for `CheckError::Persist` the
    /// notification had already gone out.
    Failed { error: CheckError },
}

/// What the check decides once the fetch has completed (or failed).
pub enum FetchStep {
    /// The check ends here with this error; no notification is attempted.
    Failed(CheckError),
    /// The checkpoint matches: the check ends, nothing is sent or written.
    Skip,
    /// A change was detected: the record is to be handed to the relay,
    /// and on relay success the checkpoint is to become `published_at`.
    Notify { record: NotificationRecord, published_at: i64 },
}

/// What the check decides once the relay has answered.
pub enum SendStep {
    /// The relay failed: the check ends, the checkpoint stays untouched.
    Failed(CheckError),
    /// The relay accepted the message: write `published_at` as the new
    /// checkpoint of subscription `id`.
    Persist { id: u32, published_at: i64 },
}

/// The decision owed after a completed fetch, as a function of the
/// stored checkpoint and the fetched document (`None`: retrieval
/// failure). Ghost counterpart of `on_fetched`.
pub enum EvalStep {
    Failed(CheckError),
    Skip,
    Notify(ItemView),
}

pub open spec fn spec_eval(stored: Option<i64>, doc: Option<Seq<u8>>) -> EvalStep {
    match doc {
        None => EvalStep::Failed(CheckError::Fetch),
        Some(d) => match spec_head_item(d) {
            Err(e) => EvalStep::Failed(e),
            Ok(item) => if spec_is_changed(stored, item.published_at) {
                EvalStep::Notify(item)
            } else {
                EvalStep::Skip
            },
        },
    }
}

/// The outcome of one whole check, as a function of the stored
/// checkpoint, the fetched document, and the answers of the relay and
/// the store.
pub open spec fn spec_check(
    stored: Option<i64>,
    doc: Option<Seq<u8>>,
    send_ok: bool,
    persist_ok: bool,
) -> CheckOutcome {
    match spec_eval(stored, doc) {
        EvalStep::Failed(e) => CheckOutcome::Failed { error: e },
        EvalStep::Skip => CheckOutcome::Skipped,
        EvalStep::Notify(item) => if !send_ok {
            CheckOutcome::Failed { error: CheckError::Notify }
        } else if !persist_ok {
            CheckOutcome::Failed { error: CheckError::Persist }
        } else {
            CheckOutcome::Notified { new_checkpoint: item.published_at }
        },
    }
}

/// The checkpoint after a check: it moves only when the check ended in
/// `Notified`; every failure (a relay failure above all) leaves it as it
/// was, so the same change is re-detected on the next cycle.
pub open spec fn spec_checkpoint_after(stored: Option<i64>, outcome: CheckOutcome) -> Option<i64> {
    match outcome {
        CheckOutcome::Notified { new_checkpoint } => Some(new_checkpoint),
        _ => stored,
    }
}

/// How many notifications one check hands to the relay: one exactly
/// when the document yields an item whose publish instant differs from
/// the stored checkpoint, zero in every other case.
pub open spec fn spec_attempts(stored: Option<i64>, doc: Option<Seq<u8>>) -> nat {
    if spec_eval(stored, doc) is Notify {
        1
    } else {
        0
    }
}

/// First decision of a check: parse the fetched document, detect a
/// change against the subscription's checkpoint, and either stop, skip,
/// or produce the notification owed to the relay.
pub fn on_fetched(sub: &FeedSubscription, fetched: Option<&Vec<u8>>) -> (r: FetchStep)
    ensures
        (match r {
            FetchStep::Failed(e) => spec_eval(sub.last_pub_date, doc_view(fetched))
                == EvalStep::Failed(e),
            FetchStep::Skip => spec_eval(sub.last_pub_date, doc_view(fetched)) == EvalStep::Skip,
            FetchStep::Notify { record, published_at } => {
                &&& spec_eval(sub.last_pub_date, doc_view(fetched)) matches EvalStep::Notify(item)
                &&& published_at == item.published_at
                &&& record.from_name@ == spec_from_name(sub.name@)
                &&& record.subject@ == item.title
                &&& record.text_body@ == spec_text_body(item.title, item.link)
                &&& record.html_body@ == spec_html_body(item.title, item.link, item.description)
            },
        }),
{
    let doc = match fetched {
        None => {
            return FetchStep::Failed(CheckError::Fetch);
        },
        Some(d) => d,
    };
    let item = match parse_feed_document(doc) {
        Err(e) => {
            return FetchStep::Failed(e);
        },
        Ok(item) => item,
    };
    if !is_changed(sub.last_pub_date, item.published_at) {
        return FetchStep::Skip;
    }
    let record = build_notification(sub, &item);
    FetchStep::Notify { record, published_at: item.published_at }
}

/// The view of an optional fetched document.
pub open spec fn doc_view(fetched: Option<&Vec<u8>>) -> Option<Seq<u8>> {
    match fetched {
        Some(d) => Some(d@),
        None => None,
    }
}

/// Second decision: the notification may only be followed by a
/// checkpoint write when the relay accepted it; a relay failure ends the
/// check without touching the store.
pub fn on_send_result(sub: &FeedSubscription, published_at: i64, send_ok: bool) -> (r: SendStep)
    ensures
        send_ok ==> (r matches SendStep::Persist { id, published_at: p }
            && id == sub.id && p == published_at),
        !send_ok ==> r == SendStep::Failed(CheckError::Notify),
{
    if send_ok {
        SendStep::Persist { id: sub.id, published_at }
    } else {
        SendStep::Failed(CheckError::Notify)
    }
}

/// Last decision: a successful checkpoint write completes the check; a
/// failed one is an error of its own (the notification already went
/// out, so the next cycle may notify again — the accepted at-least-once
/// tradeoff).
pub fn on_persist_result(published_at: i64, persist_ok: bool) -> (r: CheckOutcome)
    ensures
        persist_ok ==> r == (CheckOutcome::Notified { new_checkpoint: published_at }),
        !persist_ok ==> r == (CheckOutcome::Failed { error: CheckError::Persist }),
{
    if persist_ok {
        CheckOutcome::Notified { new_checkpoint: published_at }
    } else {
        CheckOutcome::Failed { error: CheckError::Persist }
    }
}

/// The answers the environment gives to one check: the fetched document
/// (`None`: retrieval failure), whether the relay would accept the
/// notification, and whether the store would accept the checkpoint
/// write.
pub struct CheckEnv {
    pub fetched: Option<Vec<u8>>,
    pub send_ok: bool,
    pub persist_ok: bool,
}

pub open spec fn env_doc(env: CheckEnv) -> Option<Seq<u8>> {
    match env.fetched {
        Some(d) => Some(d@),
        None => None,
    }
}

/// Everything one check did: its outcome, the checkpoint it leaves
/// behind, and the notifications it handed to the relay (none, or
/// exactly one).
pub struct CheckReport {
    pub outcome: CheckOutcome,
    pub checkpoint: Option<i64>,
    pub notifications: Vec<NotificationRecord>,
}

/// One whole check of one feed, run to completion against the given
/// environment answers: the sequencing of fetch, change detection,
/// notification and checkpoint write, with every error terminal for
/// this check alone.
pub fn run_check(sub: &FeedSubscription, env: CheckEnv) -> (r: CheckReport)
    ensures
        r.outcome == spec_check(sub.last_pub_date, env_doc(env), env.send_ok, env.persist_ok),
        r.checkpoint == spec_checkpoint_after(sub.last_pub_date, r.outcome),
        r.notifications@.len() == spec_attempts(sub.last_pub_date, env_doc(env)),
        (spec_eval(sub.last_pub_date, env_doc(env)) matches EvalStep::Notify(item) ==> {
            &&& r.notifications@[0].from_name@ == spec_from_name(sub.name@)
            &&& r.notifications@[0].subject@ == item.title
            &&& r.notifications@[0].text_body@ == spec_text_body(item.title, item.link)
            &&& r.notifications@[0].html_body@ == spec_html_body(
                item.title,
                item.link,
                item.description,
            )
        }),
{
    let CheckEnv { fetched, send_ok, persist_ok } = env;
    let mut notifications: Vec<NotificationRecord> = Vec::new();
    let step = on_fetched(sub, fetched.as_ref());
    let outcome = match step {
        FetchStep::Failed(e) => CheckOutcome::Failed { error: e },
        FetchStep::Skip => CheckOutcome::Skipped,
        FetchStep::Notify { record, published_at } => {
            notifications.push(record);
            match on_send_result(sub, published_at, send_ok) {
                SendStep::Failed(e) => CheckOutcome::Failed { error: e },
                SendStep::Persist { id: _, published_at: p } => on_persist_result(p, persist_ok),
            }
        },
    };
    let checkpoint = match outcome {
        CheckOutcome::Notified { new_checkpoint } => Some(new_checkpoint),
        _ => sub.last_pub_date,
    };
    CheckReport { outcome, checkpoint, notifications }
}

} // verus!
