use vstd::prelude::*;

verus! {

/// One feed subscription, as the store keeps it. `last_pub_date` is the
/// checkpoint: the publish instant (seconds since the Unix epoch) of the
/// last item a notification went out for, or `None` for a feed that has
/// never notified.
#[derive(Debug)]
pub struct FeedSubscription {
    pub id: u32,
    pub name: String,
    pub feed_url: String,
    pub last_pub_date: Option<i64>,
}

/// The most recent entry of a fetched feed document, normalized: the
/// three required fields present, the optional description defaulted to
/// the empty string, and the publish instant in seconds since the epoch.
#[derive(Debug)]
pub struct FetchedItem {
    pub title: String,
    pub link: String,
    pub description: String,
    pub published_at: i64,
}

/// Mathematical image of a `FetchedItem`.
pub struct ItemView {
    pub title: Seq<char>,
    pub link: Seq<char>,
    pub description: Seq<char>,
    pub published_at: i64,
}

impl View for FetchedItem {
    type V = ItemView;

    open spec fn view(&self) -> ItemView {
        ItemView {
            title: self.title@,
            link: self.link@,
            description: self.description@,
            published_at: self.published_at,
        }
    }
}

/// The three entry fields whose absence stops a check.
#[derive(Clone, Copy, PartialEq, Eq, Structural, Debug)]
pub enum FieldKind {
    PubDate,
    Link,
    Title,
}

/// Why one check of one feed ended without advancing its checkpoint (or,
/// for `Persist`, after the notification had already gone out). Every one
/// of these is local to a single check: it is logged and swallowed there,
/// and never reaches the dispatcher or another feed's check.
#[derive(Clone, Copy, PartialEq, Eq, Structural, Debug)]
pub enum CheckError {
    /// The feed document could not be retrieved.
    Fetch,
    /// The retrieved document is not a well-formed feed.
    Parse,
    /// The document is a feed but carries no entries.
    EmptyFeed,
    /// The chosen entry lacks a required field.
    MissingField(FieldKind),
    /// The entry has a publish date, but not in RFC 2822 form.
    InvalidPubDate,
    /// The mail relay refused the connection or the message.
    Notify,
    /// The notification went out, but the checkpoint write failed.
    Persist,
}

/// A subscription as the management surface creates it: no notification
/// has happened yet, so there is no checkpoint.
pub fn new_subscription(id: u32, name: String, feed_url: String) -> (r: FeedSubscription)
    ensures
        r.id == id,
        r.name@ == name@,
        r.feed_url@ == feed_url@,
        r.last_pub_date is None,
{
    FeedSubscription { id, name, feed_url, last_pub_date: None }
}

} // verus!
