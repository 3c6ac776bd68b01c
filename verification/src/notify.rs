use vstd::prelude::*;
use vstd::string::StringExecFns;
use crate::model::{FeedSubscription, FetchedItem};

verus! {

/// One notification, ready for the relay: the display name the message
/// is sent under, its subject, and the two alternative bodies. Sender
/// and recipient addresses come from static relay configuration and are
/// attached at transmission time.
pub struct NotificationRecord {
    pub from_name: String,
    pub subject: String,
    pub text_body: String,
    pub html_body: String,
}

/// The display name the message is sent under: the feed's name behind a
/// fixed prefix.
pub open spec fn spec_from_name(name: Seq<char>) -> Seq<char> {
    "RSS "@ + name
}

/// The plain-text body: the item's title and link on one line.
pub open spec fn spec_text_body(title: Seq<char>, link: Seq<char>) -> Seq<char> {
    "Original Post: "@ + title + " - "@ + link + "\r\n"@
}

/// The HTML body: the item's title as an anchor on its link, with the
/// description appended after the paragraph.
pub open spec fn spec_html_body(title: Seq<char>, link: Seq<char>, description: Seq<char>) -> Seq<char> {
    "<p>Original Post: <a href=\""@ + link + "\">"@ + title + "</a></p>"@ + description
}

/// Builds the notification for one detected change: subject equal to the
/// item's title, both bodies carrying title and link, and the
/// description in the HTML body only.
pub fn build_notification(feed: &FeedSubscription, item: &FetchedItem) -> (r: NotificationRecord)
    ensures
        r.from_name@ == spec_from_name(feed.name@),
        r.subject@ == item.title@,
        r.text_body@ == spec_text_body(item.title@, item.link@),
        r.html_body@ == spec_html_body(item.title@, item.link@, item.description@),
{
    let mut from_name = "RSS ".to_owned();
    from_name.append(feed.name.as_str());

    let subject = item.title.clone();

    let mut text_body = "Original Post: ".to_owned();
    text_body.append(item.title.as_str());
    text_body.append(" - ");
    text_body.append(item.link.as_str());
    text_body.append("\r\n");

    let mut html_body = "<p>Original Post: <a href=\"".to_owned();
    html_body.append(item.link.as_str());
    html_body.append("\">");
    html_body.append(item.title.as_str());
    html_body.append("</a></p>");
    html_body.append(item.description.as_str());

    proof {
        assert(text_body@ =~= spec_text_body(item.title@, item.link@));
        assert(html_body@ =~= spec_html_body(item.title@, item.link@, item.description@));
    }
    NotificationRecord { from_name, subject, text_body, html_body }
}

} // verus!
