use vstd::prelude::*;
use crate::model::{CheckError, FetchedItem, FieldKind, ItemView};

verus! {

/// The head entry of a feed document exactly as the parser hands it out:
/// every field optional, nothing normalized yet.
pub struct RawEntry {
    pub title: Option<String>,
    pub link: Option<String>,
    pub description: Option<String>,
    pub pub_date: Option<String>,
}

/// Mathematical image of a `RawEntry`.
pub struct EntryView {
    pub title: Option<Seq<char>>,
    pub link: Option<Seq<char>>,
    pub description: Option<Seq<char>>,
    pub pub_date: Option<Seq<char>>,
}

impl View for RawEntry {
    type V = EntryView;

    open spec fn view(&self) -> EntryView {
        EntryView {
            title: match self.title {
                Some(s) => Some(s@),
                None => None,
            },
            link: match self.link {
                Some(s) => Some(s@),
                None => None,
            },
            description: match self.description {
                Some(s) => Some(s@),
                None => None,
            },
            pub_date: match self.pub_date {
                Some(s) => Some(s@),
                None => None,
            },
        }
    }
}

/// How reading a document can fail before any entry exists.
#[derive(Clone, Copy, PartialEq, Eq, Structural, Debug)]
pub enum ParseFail {
    /// The bytes are not a well-formed feed document.
    Malformed,
    /// The document is a feed, but its entry list is empty.
    Empty,
}

/// What the feed parser yields for a given document: the head (first,
/// assumed newest) entry of the document, or how reading it failed. The
/// parse is a function of the document bytes alone.
pub uninterp spec fn parsed_head(doc: Seq<u8>) -> Result<EntryView, ParseFail>;

/// Relies on rss::Channel::read_from: parsing is a function of the
/// document bytes alone, and the head entry's title, link, description
/// and publish-date fields are carried over unchanged.
#[verifier::external_body]
fn read_feed_head(doc: &Vec<u8>) -> (r: Result<RawEntry, ParseFail>)
    ensures
        (match r {
            Ok(e) => parsed_head(doc@) == Ok::<EntryView, ParseFail>(e@),
            Err(f) => parsed_head(doc@) == Err::<EntryView, ParseFail>(f),
        }),
{
    match rss::Channel::read_from(&doc[..]) {
        Err(_) => Err(ParseFail::Malformed),
        Ok(channel) => match channel.items.into_iter().next() {
            None => Err(ParseFail::Empty),
            Some(item) => Ok(RawEntry {
                title: item.title,
                link: item.link,
                description: item.description,
                pub_date: item.pub_date,
            }),
        },
    }
}

/// The instant (seconds since the Unix epoch) that an RFC 2822 date
/// string names, or `None` where the string is not a valid RFC 2822
/// date. A function of the characters alone.
pub uninterp spec fn rfc2822_instant(s: Seq<char>) -> Option<i64>;

/// Relies on chrono::DateTime::parse_from_rfc2822 (and its timestamp
/// accessor): whether a string is a valid RFC 2822 date, and which
/// instant it names, depend on the characters alone.
#[verifier::external_body]
fn parse_rfc2822(s: &str) -> (r: Option<i64>)
    ensures
        r == rfc2822_instant(s@),
{
    match chrono::DateTime::parse_from_rfc2822(s) {
        Ok(d) => Some(d.timestamp()),
        Err(_) => None,
    }
}

/// Normalization of a head entry: the publish date must be present and
/// in RFC 2822 form, link and title must be present; a missing
/// description defaults to the empty string.
pub open spec fn spec_extract(e: EntryView) -> Result<ItemView, CheckError> {
    match e.pub_date {
        None => Err(CheckError::MissingField(FieldKind::PubDate)),
        Some(d) => match rfc2822_instant(d) {
            None => Err(CheckError::InvalidPubDate),
            Some(t) => match e.link {
                None => Err(CheckError::MissingField(FieldKind::Link)),
                Some(link) => match e.title {
                    None => Err(CheckError::MissingField(FieldKind::Title)),
                    Some(title) => Ok(ItemView {
                        title: title,
                        link: link,
                        description: match e.description {
                            Some(d) => d,
                            None => Seq::empty(),
                        },
                        published_at: t,
                    }),
                },
            },
        },
    }
}

/// Normalizes a head entry into a `FetchedItem`, or reports which
/// required field is missing or unparseable.
pub fn extract_item(entry: RawEntry) -> (r: Result<FetchedItem, CheckError>)
    ensures
        (match r {
            Ok(item) => spec_extract(entry@) == Ok::<ItemView, CheckError>(item@),
            Err(e) => spec_extract(entry@) == Err::<ItemView, CheckError>(e),
        }),
{
    let RawEntry { title, link, description, pub_date } = entry;
    let date_str = match pub_date {
        None => {
            return Err(CheckError::MissingField(FieldKind::PubDate));
        },
        Some(d) => d,
    };
    let published_at = match parse_rfc2822(date_str.as_str()) {
        None => {
            return Err(CheckError::InvalidPubDate);
        },
        Some(t) => t,
    };
    let link = match link {
        None => {
            return Err(CheckError::MissingField(FieldKind::Link));
        },
        Some(l) => l,
    };
    let title = match title {
        None => {
            return Err(CheckError::MissingField(FieldKind::Title));
        },
        Some(t) => t,
    };
    let description = match description {
        None => String::new(),
        Some(d) => d,
    };
    Ok(FetchedItem { title, link, description, published_at })
}

/// The whole view of one fetched document: its head entry parsed and
/// normalized, or the error that stops the check.
pub open spec fn spec_head_item(doc: Seq<u8>) -> Result<ItemView, CheckError> {
    match parsed_head(doc) {
        Err(ParseFail::Malformed) => Err(CheckError::Parse),
        Err(ParseFail::Empty) => Err(CheckError::EmptyFeed),
        Ok(e) => spec_extract(e),
    }
}

/// Parses a fetched document and normalizes its head entry.
pub fn parse_feed_document(doc: &Vec<u8>) -> (r: Result<FetchedItem, CheckError>)
    ensures
        (match r {
            Ok(item) => spec_head_item(doc@) == Ok::<ItemView, CheckError>(item@),
            Err(e) => spec_head_item(doc@) == Err::<ItemView, CheckError>(e),
        }),
{
    match read_feed_head(doc) {
        Err(ParseFail::Malformed) => Err(CheckError::Parse),
        Err(ParseFail::Empty) => Err(CheckError::EmptyFeed),
        Ok(entry) => extract_item(entry),
    }
}

} // verus!
