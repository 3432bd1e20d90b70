//! The syndication feed: the site's fixed head and one entry for each item of
//! a digest, in the order of the digest.
//!
//! The feed is a `jsonfeed::Feed`. What such a feed holds is named by
//! [`feed_head`] and [`feed_items`]. The functions that fill a feed, and the
//! one that writes a date, are the only ones here that are believed and not
//! proved.

use crate::post::{address_of, views, Post, PostView};
use ::chrono::{NaiveDate, NaiveTime};
use ::jsonfeed::{Author, Content, Feed, Item};
use vstd::prelude::*;
use vstd::string::*;

verus! {

/// The picture that stands for the site and for its author.
pub const ICON: &'static str = "https://xeiaso.net/static/img/avatar.png";

/// The name of the feed.
pub const TITLE: &'static str = "Xe's Blog";

/// What the feed is about.
pub const DESCRIPTION: &'static str = "My blog posts and rants about various technology things.";

/// The name of the author.
pub const AUTHOR_NAME: &'static str = "Xe";

/// The site the feed belongs to, which is the author's page as well.
pub const HOME_PAGE_URL: &'static str = "https://xeiaso.net";

/// Where the feed itself is found.
pub const FEED_URL: &'static str = "https://xeiaso.net/blog.json";

/// What the feed tells a person who reads its source.
pub const USER_COMMENT: &'static str =
    "This is a JSON feed of my blogposts. For more information read: https://jsonfeed.org/version/1";

/// Who writes a feed.
pub struct FeedAuthor {
    pub name: String,
    pub url: String,
    pub avatar: String,
}

/// The head of a feed: what it says of itself, apart from its entries.
pub struct FeedHead {
    pub title: String,
    pub description: String,
    pub author: FeedAuthor,
    pub feed_url: String,
    pub user_comment: String,
    pub home_page_url: String,
    pub icon: String,
    pub favicon: String,
}

/// One entry of a feed.
pub struct FeedEntry {
    pub id: String,
    pub url: String,
    pub title: String,
    pub content_html: String,
    pub date_published: Option<String>,
}

/// What a `jsonfeed::Author` holds.
pub struct AuthorView {
    pub name: Option<Seq<char>>,
    pub url: Option<Seq<char>>,
    pub avatar: Option<Seq<char>>,
}

/// What a `jsonfeed::Feed` holds apart from its items, of the fields that
/// this library sets.
pub struct HeadView {
    pub title: Seq<char>,
    pub description: Option<Seq<char>>,
    pub author: Option<AuthorView>,
    pub feed_url: Option<Seq<char>>,
    pub user_comment: Option<Seq<char>>,
    pub home_page_url: Option<Seq<char>>,
    pub icon: Option<Seq<char>>,
    pub favicon: Option<Seq<char>>,
}

/// What a `jsonfeed::Item` holds, of the fields that this library sets.
pub struct ItemView {
    pub id: Seq<char>,
    pub url: Option<Seq<char>>,
    pub title: Option<Seq<char>>,
    pub content_html: Option<Seq<char>>,
    pub date_published: Option<Seq<char>>,
}

/// The view of an optional text.
pub open spec fn text_of(text: Option<String>) -> Option<Seq<char>> {
    match text {
        Some(t) => Some(t@),
        None => None,
    }
}

impl View for FeedHead {
    type V = HeadView;

    /// The head as a feed holds it: every field is there.
    open spec fn view(&self) -> HeadView {
        HeadView {
            title: self.title@,
            description: Some(self.description@),
            author: Some(
                AuthorView {
                    name: Some(self.author.name@),
                    url: Some(self.author.url@),
                    avatar: Some(self.author.avatar@),
                },
            ),
            feed_url: Some(self.feed_url@),
            user_comment: Some(self.user_comment@),
            home_page_url: Some(self.home_page_url@),
            icon: Some(self.icon@),
            favicon: Some(self.favicon@),
        }
    }
}

impl View for FeedEntry {
    type V = ItemView;

    /// The entry as a feed holds it: with an address, a title and HTML
    /// content.
    open spec fn view(&self) -> ItemView {
        ItemView {
            id: self.id@,
            url: Some(self.url@),
            title: Some(self.title@),
            content_html: Some(self.content_html@),
            date_published: text_of(self.date_published),
        }
    }
}

/// The head of the site's feed.
pub open spec fn site_head_view() -> HeadView {
    HeadView {
        title: TITLE@,
        description: Some(DESCRIPTION@),
        author: Some(
            AuthorView { name: Some(AUTHOR_NAME@), url: Some(HOME_PAGE_URL@), avatar: Some(ICON@) },
        ),
        feed_url: Some(FEED_URL@),
        user_comment: Some(USER_COMMENT@),
        home_page_url: Some(HOME_PAGE_URL@),
        icon: Some(ICON@),
        favicon: Some(ICON@),
    }
}

/// The entry that stands for `post` in the site's feed: its address as id and
/// as URL, its title, its body as HTML content, and its day as the date of
/// publication.
pub open spec fn entry_of(post: PostView) -> ItemView {
    ItemView {
        id: address_of(post.link),
        url: Some(address_of(post.link)),
        title: Some(post.title),
        content_html: Some(post.body),
        date_published: rfc3339_of_day(post.date),
    }
}

/// The entries that stand for `digest`, one for each item and in its order.
pub open spec fn entries_of(digest: Seq<PostView>) -> Seq<ItemView> {
    digest.map_values(|post: PostView| entry_of(post))
}

/// `jsonfeed::Feed`. What it holds is known by [`feed_head`] and
/// [`feed_items`] alone.
#[verifier::external_type_specification]
#[verifier::external_body]
pub struct ExFeed(Feed);

/// The items that `feed` holds, in their order, each with its id, address,
/// title, HTML content and date of publication.
pub uninterp spec fn feed_items(feed: Feed) -> Seq<ItemView>;

/// What `feed` holds apart from its items: its title, the optional texts of
/// its head, and its author.
pub uninterp spec fn feed_head(feed: Feed) -> HeadView;

/// The day `day` at midnight, UTC, as RFC 3339 text, the way `chrono` writes
/// it; `None` where the calendar of `chrono` does not reach that day.
pub uninterp spec fn rfc3339_of_day(day: int) -> Option<Seq<char>>;

/// Makes a feed with a head and no item: `Feed::builder().title(..).build()`,
/// then the optional fields of the head, the author by `Author::new()` and
/// its `name`, `url` and `avatar`.
///
/// Believed, not proved: the builder starts from a feed without items and
/// without optional fields, and each field holds the text put into it.
#[verifier::external_body]
fn new_feed(head: &FeedHead) -> (feed: Feed)
    ensures
        feed_head(feed) == head@,
        feed_items(feed) == Seq::<ItemView>::empty(),
{
    let mut feed = Feed::builder().title(head.title.clone()).build();
    feed.description = Some(head.description.clone());
    feed.author = Some(
        Author::new().name(head.author.name.clone()).url(head.author.url.clone()).avatar(
            head.author.avatar.clone(),
        ),
    );
    feed.feed_url = Some(head.feed_url.clone());
    feed.user_comment = Some(head.user_comment.clone());
    feed.home_page_url = Some(head.home_page_url.clone());
    feed.icon = Some(head.icon.clone());
    feed.favicon = Some(head.favicon.clone());
    feed
}

/// Puts an item for `entry` behind the items of `feed`: a `jsonfeed::Item`
/// with the entry's fields, HTML content, and `Item::default()` for the rest.
///
/// Believed, not proved: the head and the items that were there stay as they
/// are, and the new item holds what the entry holds.
#[verifier::external_body]
fn push_entry(feed: &mut Feed, entry: FeedEntry)
    ensures
        feed_head(*final(feed)) == feed_head(*old(feed)),
        feed_items(*final(feed)) == feed_items(*old(feed)).push(entry@),
{
    feed.items.push(
        Item {
            id: entry.id,
            url: Some(entry.url),
            title: Some(entry.title),
            content: Content::Html(entry.content_html),
            date_published: entry.date_published,
            ..Item::default()
        },
    );
}

/// Writes the day `day` at midnight, UTC, as RFC 3339 text:
/// `NaiveDate::from_num_days_from_ce_opt`, `and_time` with `NaiveTime::MIN`,
/// `and_utc`, `to_rfc3339`.
///
/// Believed, not proved: the text depends on the day alone, and so does
/// whether there is one.
#[verifier::external_body]
fn day_as_rfc3339(day: i32) -> (text: Option<String>)
    ensures
        text_of(text) == rfc3339_of_day(day as int),
{
    let date = NaiveDate::from_num_days_from_ce_opt(day)?;
    Some(date.and_time(NaiveTime::MIN).and_utc().to_rfc3339())
}

/// The head of the site's feed.
pub fn site_head() -> (head: FeedHead)
    ensures
        head@ == site_head_view(),
{
    FeedHead {
        title: String::from_str(TITLE),
        description: String::from_str(DESCRIPTION),
        author: FeedAuthor {
            name: String::from_str(AUTHOR_NAME),
            url: String::from_str(HOME_PAGE_URL),
            avatar: String::from_str(ICON),
        },
        feed_url: String::from_str(FEED_URL),
        user_comment: String::from_str(USER_COMMENT),
        home_page_url: String::from_str(HOME_PAGE_URL),
        icon: String::from_str(ICON),
        favicon: String::from_str(ICON),
    }
}

/// The entry that stands for `post` in the site's feed.
pub fn entry_for(post: &Post) -> (entry: FeedEntry)
    ensures
        entry@ == entry_of(post@),
{
    FeedEntry {
        id: post.address(),
        url: post.address(),
        title: post.title.clone(),
        content_html: post.body.clone(),
        date_published: day_as_rfc3339(post.date),
    }
}

/// Makes the site's feed for `digest`: the fixed head, and one entry for each
/// item of `digest`, in the order of `digest`.
pub fn build_feed(digest: &Vec<Post>) -> (feed: Feed)
    ensures
        feed_head(feed) == site_head_view(),
        feed_items(feed) == entries_of(views(digest@)),
{
    let head = site_head();
    let mut feed = new_feed(&head);
    let mut i: usize = 0;
    while i < digest.len()
        invariant
            i <= digest.len(),
            feed_head(feed) == site_head_view(),
            feed_items(feed) == entries_of(views(digest@.take(i as int))),
        decreases digest.len() - i,
    {
        let entry = entry_for(&digest[i]);
        push_entry(&mut feed, entry);
        i += 1;
    }
    feed
}

/// A feed has as many entries as the digest it is made from has items, and
/// its entries stand in the order of the digest: the entry at each place is
/// the entry of the digest's item at that place, under that item's address.
pub proof fn lemma_feed_follows_digest(digest: Seq<PostView>)
    ensures
        entries_of(digest).len() == digest.len(),
        forall|i: int|
            0 <= i < digest.len() ==> #[trigger] entries_of(digest)[i] == entry_of(digest[i]),
        forall|i: int|
            0 <= i < digest.len() ==> (#[trigger] entries_of(digest)[i]).id == address_of(
                digest[i].link,
            ),
{
}

} // verus!
