use vstd::prelude::*;

mod checker;
mod detect;
mod dispatch;
mod feed;
mod laws;
mod model;
mod notify;

pub use checker::{
    doc_view, env_doc, on_fetched, on_persist_result, on_send_result, run_check, spec_attempts,
    spec_check, spec_checkpoint_after, spec_eval, CheckEnv, CheckOutcome, CheckReport, EvalStep,
    FetchStep, SendStep,
};
pub use detect::is_changed;
pub use detect::spec_is_changed;
pub use dispatch::{
    lemma_failure_isolation, lemma_force_trigger_equivalence, run_cycle, spec_cycle_outcomes,
};
pub use feed::{
    extract_item, parse_feed_document, parsed_head, rfc2822_instant, spec_extract, spec_head_item,
    EntryView, ParseFail, RawEntry,
};
pub use laws::{
    lemma_checkpoint_moves_only_on_notify, lemma_equality_only_detection,
    lemma_new_feed_bootstrap, lemma_no_op_on_match, lemma_notify_failure_blocks_checkpoint,
};
pub use model::{
    new_subscription, CheckError, FeedSubscription, FetchedItem, FieldKind, ItemView,
};
pub use notify::{
    build_notification, spec_from_name, spec_html_body, spec_text_body, NotificationRecord,
};

verus! {

/// Wrapper for a static asset path, so that the serving layer can attach
/// its own response conversion to it.
pub struct StaticFile<T>(pub T);

} // verus!
