//! The content item that every collection holds.

use vstd::prelude::*;
use vstd::string::*;

verus! {

/// The site's origin, with the slash that parts it from an item's link.
pub const ORIGIN: &'static str = "https://xeiaso.net/";

/// One article, gallery entry or talk.
///
/// `date` is the day of publication, counted in days of the proleptic
/// Gregorian calendar with 0001-01-01 as day 1. `link` is the path of the item
/// below the site's origin, without a leading slash. `body` is the rendered
/// content.
#[derive(Debug, PartialEq, Eq)]
pub struct Post {
    pub title: String,
    pub date: i32,
    pub link: String,
    pub body: String,
}

/// What a `Post` holds, as mathematical values.
pub struct PostView {
    pub title: Seq<char>,
    pub date: int,
    pub link: Seq<char>,
    pub body: Seq<char>,
}

impl View for Post {
    type V = PostView;

    open spec fn view(&self) -> PostView {
        PostView { title: self.title@, date: self.date as int, link: self.link@, body: self.body@ }
    }
}

/// The views of `posts`, item by item.
pub open spec fn views(posts: Seq<Post>) -> Seq<PostView> {
    posts.map_values(|post: Post| post@)
}

/// The views of `strings`, one by one.
pub open spec fn texts(strings: Seq<String>) -> Seq<Seq<char>> {
    strings.map_values(|text: String| text@)
}

/// The address of the item with the link `link`: the origin, then the link.
pub open spec fn address_of(link: Seq<char>) -> Seq<char> {
    ORIGIN@ + link
}

impl Clone for Post {
    fn clone(&self) -> (copy: Post)
        ensures
            copy == *self,
    {
        Post {
            title: self.title.clone(),
            date: self.date,
            link: self.link.clone(),
            body: self.body.clone(),
        }
    }
}

impl Post {
    /// The address under which the item is found.
    pub fn address(&self) -> (url: String)
        ensures
            url@ == address_of(self.link@),
    {
        let mut url = String::from_str(ORIGIN);
        url.append(self.link.as_str());
        url
    }
}

} // verus!
