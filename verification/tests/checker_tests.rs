use feed_notifier::{
    new_subscription, run_check, run_cycle, CheckEnv, CheckError, CheckOutcome, FeedSubscription,
    FieldKind,
};

// "Wed, 18 Feb 2015 23:16:09 GMT" as seconds since the Unix epoch.
const T1: i64 = 1424301369;

fn sub(id: u32, stored: Option<i64>) -> FeedSubscription {
    let mut s = new_subscription(id, format!("Feed{}", id), format!("http://feed{}/rss", id));
    s.last_pub_date = stored;
    s
}

fn healthy_doc() -> Vec<u8> {
    let xml = "<rss version=\"2.0\"><channel><title>c</title>\
        <item><title>Hello</title><link>http://x/post</link>\
        <description>world</description>\
        <pubDate>Wed, 18 Feb 2015 23:16:09 GMT</pubDate></item>\
        </channel></rss>";
    xml.as_bytes().to_vec()
}

fn doc_without(field: &str) -> Vec<u8> {
    let title = "<title>Hello</title>";
    let link = "<link>http://x/post</link>";
    let pub_date = "<pubDate>Wed, 18 Feb 2015 23:16:09 GMT</pubDate>";
    let mut inner = String::new();
    if field != "title" {
        inner.push_str(title);
    }
    if field != "link" {
        inner.push_str(link);
    }
    if field != "pubDate" {
        inner.push_str(pub_date);
    }
    format!(
        "<rss version=\"2.0\"><channel><title>c</title><item>{}</item></channel></rss>",
        inner
    )
    .into_bytes()
}

fn env(doc: Option<Vec<u8>>, send_ok: bool, persist_ok: bool) -> CheckEnv {
    CheckEnv { fetched: doc, send_ok, persist_ok }
}

#[test]
fn new_feed_bootstrap_notifies_once_and_sets_checkpoint() {
    let s = sub(1, None);
    let r = run_check(&s, env(Some(healthy_doc()), true, true));
    assert_eq!(r.outcome, CheckOutcome::Notified { new_checkpoint: T1 });
    assert_eq!(r.checkpoint, Some(T1));
    assert_eq!(r.notifications.len(), 1);
}

#[test]
fn no_op_when_checkpoint_matches() {
    let s = sub(1, Some(T1));
    let r = run_check(&s, env(Some(healthy_doc()), true, true));
    assert_eq!(r.outcome, CheckOutcome::Skipped);
    assert_eq!(r.checkpoint, Some(T1));
    assert_eq!(r.notifications.len(), 0);
}

#[test]
fn older_item_still_counts_as_change() {
    // stored checkpoint is *later* than the fetched item's instant
    let t2 = T1 + 3600;
    let s = sub(1, Some(t2));
    let r = run_check(&s, env(Some(healthy_doc()), true, true));
    assert_eq!(r.outcome, CheckOutcome::Notified { new_checkpoint: T1 });
    assert_eq!(r.checkpoint, Some(T1));
    assert_eq!(r.notifications.len(), 1);
}

#[test]
fn send_failure_blocks_checkpoint_and_next_cycle_retries() {
    let s = sub(1, None);
    let r = run_check(&s, env(Some(healthy_doc()), false, true));
    assert_eq!(r.outcome, CheckOutcome::Failed { error: CheckError::Notify });
    assert_eq!(r.checkpoint, None);
    assert_eq!(r.notifications.len(), 1);

    // the checkpoint did not move, so the next cycle re-detects the change
    let s2 = sub(1, r.checkpoint);
    let r2 = run_check(&s2, env(Some(healthy_doc()), true, true));
    assert_eq!(r2.outcome, CheckOutcome::Notified { new_checkpoint: T1 });
    assert_eq!(r2.checkpoint, Some(T1));
    assert_eq!(r2.notifications.len(), 1);
}

#[test]
fn persist_failure_after_send_leaves_checkpoint() {
    let s = sub(1, None);
    let r = run_check(&s, env(Some(healthy_doc()), true, false));
    assert_eq!(r.outcome, CheckOutcome::Failed { error: CheckError::Persist });
    assert_eq!(r.checkpoint, None);
    // the notification had already gone out
    assert_eq!(r.notifications.len(), 1);
}

#[test]
fn fetch_failure_is_an_error() {
    let s = sub(1, Some(T1));
    let r = run_check(&s, env(None, true, true));
    assert_eq!(r.outcome, CheckOutcome::Failed { error: CheckError::Fetch });
    assert_eq!(r.checkpoint, Some(T1));
    assert_eq!(r.notifications.len(), 0);
}

#[test]
fn malformed_feed_in_cycle_is_isolated_from_healthy_feeds() {
    let subs = vec![sub(1, None), sub(2, Some(T1)), sub(3, None)];
    let envs = vec![
        env(Some(healthy_doc()), true, true),
        env(Some(doc_without("pubDate")), true, true),
        env(Some(healthy_doc()), true, true),
    ];
    let reports = run_cycle(&subs, envs);
    assert_eq!(reports.len(), 3);

    // the malformed slot: no notification, unchanged checkpoint
    assert_eq!(
        reports[1].outcome,
        CheckOutcome::Failed { error: CheckError::MissingField(FieldKind::PubDate) }
    );
    assert_eq!(reports[1].checkpoint, Some(T1));
    assert_eq!(reports[1].notifications.len(), 0);

    // the healthy slots are processed normally and independently
    assert_eq!(reports[0].outcome, CheckOutcome::Notified { new_checkpoint: T1 });
    assert_eq!(reports[0].checkpoint, Some(T1));
    assert_eq!(reports[0].notifications.len(), 1);
    assert_eq!(reports[2].outcome, CheckOutcome::Notified { new_checkpoint: T1 });
    assert_eq!(reports[2].checkpoint, Some(T1));
    assert_eq!(reports[2].notifications.len(), 1);
}

#[test]
fn empty_feed_in_cycle_is_isolated_too() {
    let empty = "<rss version=\"2.0\"><channel><title>c</title></channel></rss>"
        .as_bytes()
        .to_vec();
    let subs = vec![sub(1, Some(T1)), sub(2, None)];
    let envs = vec![env(Some(empty), true, true), env(Some(healthy_doc()), true, true)];
    let reports = run_cycle(&subs, envs);
    assert_eq!(reports[0].outcome, CheckOutcome::Failed { error: CheckError::EmptyFeed });
    assert_eq!(reports[0].checkpoint, Some(T1));
    assert_eq!(reports[0].notifications.len(), 0);
    assert_eq!(reports[1].outcome, CheckOutcome::Notified { new_checkpoint: T1 });
}

#[test]
fn force_trigger_matches_scheduled_cycle_outcome() {
    // the scheduled cycle's slot for subscription 2
    let subs = vec![sub(1, None), sub(2, Some(T1 - 60)), sub(3, Some(T1))];
    let envs = vec![
        env(Some(healthy_doc()), true, true),
        env(Some(healthy_doc()), true, true),
        env(Some(healthy_doc()), true, true),
    ];
    let reports = run_cycle(&subs, envs);

    // the forced, out-of-band check of the same subscription
    let forced = run_check(&sub(2, Some(T1 - 60)), env(Some(healthy_doc()), true, true));

    assert_eq!(forced.outcome, reports[1].outcome);
    assert_eq!(forced.checkpoint, reports[1].checkpoint);
    assert_eq!(forced.notifications.len(), reports[1].notifications.len());
}

#[test]
fn cycle_reports_one_slot_per_subscription_in_order() {
    let subs = vec![sub(7, None), sub(9, Some(T1))];
    let envs = vec![env(None, true, true), env(Some(healthy_doc()), true, true)];
    let reports = run_cycle(&subs, envs);
    assert_eq!(reports.len(), 2);
    assert_eq!(reports[0].outcome, CheckOutcome::Failed { error: CheckError::Fetch });
    assert_eq!(reports[1].outcome, CheckOutcome::Skipped);
}
