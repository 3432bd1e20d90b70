//! The sitemap: the address of every static route and of every item of every
//! collection, written out as a URL-set document.

use crate::post::{address_of, texts, views, Post, PostView};
use ::sitemap::structs::UrlEntry;
use ::sitemap::writer::SiteMapWriter;
use vstd::prelude::*;
use vstd::string::*;

verus! {

/// The addresses of `posts`, one by one.
pub open spec fn addresses_of(posts: Seq<PostView>) -> Seq<Seq<char>> {
    posts.map_values(|post: PostView| address_of(post.link))
}

/// What a sitemap lists: the static routes as they are, then the addresses of
/// the blog, of the gallery and of the talks.
pub open spec fn sitemap_locations(
    statics: Seq<Seq<char>>,
    blog: Seq<PostView>,
    gallery: Seq<PostView>,
    talks: Seq<PostView>,
) -> Seq<Seq<char>> {
    statics + addresses_of(blog) + addresses_of(gallery) + addresses_of(talks)
}

/// The routes that every sitemap of the site lists, whatever the content: the
/// resume, the contact page, the home page, the index of the blog and the
/// index of the signal boosts.
pub open spec fn static_locations() -> Seq<Seq<char>> {
    seq![
        "https://xeiaso.net/resume"@,
        "https://xeiaso.net/contact"@,
        "https://xeiaso.net/"@,
        "https://xeiaso.net/blog"@,
        "https://xeiaso.net/signalboost"@,
    ]
}

/// The routes that every sitemap of the site lists.
pub fn static_routes() -> (routes: Vec<String>)
    ensures
        texts(routes@) == static_locations(),
{
    let mut routes: Vec<String> = Vec::new();
    routes.push(String::from_str("https://xeiaso.net/resume"));
    routes.push(String::from_str("https://xeiaso.net/contact"));
    routes.push(String::from_str("https://xeiaso.net/"));
    routes.push(String::from_str("https://xeiaso.net/blog"));
    routes.push(String::from_str("https://xeiaso.net/signalboost"));
    routes
}

/// A sitemap lists every static route and every item of every collection,
/// whatever the item's date: as many locations as there are routes and items,
/// the routes first and as they are, then the addresses of the blog, of the
/// gallery and of the talks, each collection in its order.
pub proof fn lemma_sitemap_lists_everything(
    statics: Seq<Seq<char>>,
    blog: Seq<PostView>,
    gallery: Seq<PostView>,
    talks: Seq<PostView>,
)
    ensures
        sitemap_locations(statics, blog, gallery, talks).len() == statics.len() + blog.len()
            + gallery.len() + talks.len(),
        forall|i: int|
            0 <= i < statics.len() ==> sitemap_locations(statics, blog, gallery, talks)[i]
                == #[trigger] statics[i],
        forall|i: int|
            0 <= i < blog.len() ==> sitemap_locations(statics, blog, gallery, talks)[statics.len()
                + i] == address_of((#[trigger] blog[i]).link),
        forall|i: int|
            0 <= i < gallery.len() ==> sitemap_locations(
                statics,
                blog,
                gallery,
                talks,
            )[statics.len() + blog.len() + i] == address_of((#[trigger] gallery[i]).link),
        forall|i: int|
            0 <= i < talks.len() ==> sitemap_locations(statics, blog, gallery, talks)[statics.len()
                + blog.len() + gallery.len() + i] == address_of((#[trigger] talks[i]).link),
{
}

/// Appends the address of every item of `posts` to `locations`.
fn push_addresses(locations: &mut Vec<String>, posts: &Vec<Post>)
    ensures
        texts(final(locations)@) == texts(old(locations)@) + addresses_of(views(posts@)),
{
    let mut i: usize = 0;
    while i < posts.len()
        invariant
            i <= posts.len(),
            texts(locations@) == texts(old(locations)@) + addresses_of(
                views(posts@.take(i as int)),
            ),
        decreases posts.len() - i,
    {
        let url = posts[i].address();
        proof {
            assert(texts(locations@.push(url)) =~= texts(locations@).push(url@));
        }
        locations.push(url);
        i += 1;
    }
}

/// Lists what the sitemap of three collections holds: `statics` as they are,
/// then the address of every item of `blog`, of `gallery` and of `talks`,
/// whatever its date.
pub fn locations(
    statics: &Vec<String>,
    blog: &Vec<Post>,
    gallery: &Vec<Post>,
    talks: &Vec<Post>,
) -> (listed: Vec<String>)
    ensures
        texts(listed@) == sitemap_locations(
            texts(statics@),
            views(blog@),
            views(gallery@),
            views(talks@),
        ),
        listed.len() == statics.len() + blog.len() + gallery.len() + talks.len(),
{
    let mut listed: Vec<String> = Vec::new();
    let mut i: usize = 0;
    while i < statics.len()
        invariant
            i <= statics.len(),
            listed@ == statics@.take(i as int),
        decreases statics.len() - i,
    {
        listed.push(statics[i].clone());
        i += 1;
    }
    push_addresses(&mut listed, blog);
    push_addresses(&mut listed, gallery);
    push_addresses(&mut listed, talks);
    proof {
        assert(texts(listed@).len() == listed.len());
    }
    listed
}

/// Why a sitemap could not be made.
#[derive(Debug)]
pub enum SitemapError {
    /// A location is not a URL. The text is that location.
    Invalid(String),
    /// The document could not be written out. The text says why, in the words
    /// of the writer.
    Write(String),
}

impl SitemapError {
    /// The text that the error carries.
    pub open spec fn reason(&self) -> Seq<char> {
        match *self {
            SitemapError::Invalid(text) => text@,
            SitemapError::Write(text) => text@,
        }
    }

    /// The text that the error carries.
    pub fn message(&self) -> (text: String)
        ensures
            text@ == self.reason(),
    {
        match self {
            SitemapError::Invalid(text) => text.clone(),
            SitemapError::Write(text) => text.clone(),
        }
    }
}

/// `sitemap::Error`, the error of the writer. Nothing is known of what it
/// holds.
#[verifier::external_type_specification]
#[verifier::external_body]
pub struct ExSitemapError(::sitemap::Error);

/// Whether the `sitemap` crate takes `text` for the location of an entry:
/// whether it reads as a URL.
pub uninterp spec fn is_url(text: Seq<char>) -> bool;

/// The URL-set document that lists `locations` in their order, as the writer
/// of the `sitemap` crate puts it out; `None` where the writer fails.
pub uninterp spec fn urlset_document(locations: Seq<Seq<char>>) -> Option<Seq<u8>>;

/// Whether every one of `locations` is a URL.
pub open spec fn all_urls(locations: Seq<Seq<char>>) -> bool {
    forall|i: int| 0 <= i < locations.len() ==> is_url(#[trigger] locations[i])
}

/// Whether `refused` is the first of `locations` that is no URL.
pub open spec fn first_refused(locations: Seq<Seq<char>>, refused: Seq<char>) -> bool {
    exists|i: int|
        0 <= i < locations.len() && #[trigger] locations[i] == refused && !is_url(refused)
            && all_urls(locations.take(i))
}

/// Whether `made` is what comes of writing the sitemap that lists
/// `locations`: the document, where every location is a URL and the writer
/// does not fail; the first location that is no URL, where there is one; the
/// writer's failure otherwise.
pub open spec fn written_from(
    made: Result<Vec<u8>, SitemapError>,
    locations: Seq<Seq<char>>,
) -> bool {
    match made {
        Ok(document) => all_urls(locations) && urlset_document(locations) == Some(document@),
        Err(SitemapError::Invalid(refused)) => first_refused(locations, refused@),
        Err(SitemapError::Write(_)) => all_urls(locations) && urlset_document(locations) is None,
    }
}

/// Asks whether an entry can be built for `location`:
/// `UrlEntry::builder().loc(..).build()`, which fails where the location is
/// no URL.
///
/// Believed, not proved: the answer depends on the text alone.
#[verifier::external_body]
fn reads_as_url(location: &str) -> (ok: bool)
    ensures
        ok == is_url(location@),
{
    UrlEntry::builder().loc(location).build().is_ok()
}

/// Writes a URL set with one entry for each of `locations`, in their order,
/// into a buffer: `SiteMapWriter::new`, `start_urlset`, `UrlSetWriter::url`
/// for each location, and `end`.
///
/// `url` panics on a location that is no URL, so there may be none. Believed,
/// not proved: the bytes depend on the locations alone, and so does whether an
/// error comes back.
#[verifier::external_body]
fn write_urlset(locations: &Vec<String>) -> (written: Result<Vec<u8>, ::sitemap::Error>)
    requires
        all_urls(texts(locations@)),
    ensures
        match written {
            Ok(bytes) => urlset_document(texts(locations@)) == Some(bytes@),
            Err(_) => urlset_document(texts(locations@)) is None,
        },
{
    let mut document: Vec<u8> = Vec::new();
    let mut urls = SiteMapWriter::new(&mut document).start_urlset()?;
    for location in locations.iter() {
        urls.url(location.clone())?;
    }
    urls.end()?;
    Ok(document)
}

/// Says in words what an error of the `sitemap` crate is: its `to_string`.
#[verifier::external_body]
fn words_of(error: ::sitemap::Error) -> String {
    error.to_string()
}

/// Makes the sitemap of three collections: the document that lists `statics`
/// and the address of every item, whatever its date. Where a location is no
/// URL, or the document cannot be written, the error says so, and no part of
/// a document comes back.
pub fn build_sitemap(
    statics: &Vec<String>,
    blog: &Vec<Post>,
    gallery: &Vec<Post>,
    talks: &Vec<Post>,
) -> (made: Result<Vec<u8>, SitemapError>)
    ensures
        written_from(
            made,
            sitemap_locations(texts(statics@), views(blog@), views(gallery@), views(talks@)),
        ),
{
    let listed = locations(statics, blog, gallery, talks);
    let mut i: usize = 0;
    while i < listed.len()
        invariant
            i <= listed.len(),
            texts(listed@) == sitemap_locations(
                texts(statics@),
                views(blog@),
                views(gallery@),
                views(talks@),
            ),
            all_urls(texts(listed@).take(i as int)),
        decreases listed.len() - i,
    {
        if !reads_as_url(listed[i].as_str()) {
            let refused = listed[i].clone();
            proof {
                assert(texts(listed@)[i as int] == refused@);
            }
            return Err(SitemapError::Invalid(refused));
        }
        proof {
            let checked = texts(listed@).take(i as int + 1);
            assert forall|j: int| 0 <= j < checked.len() implies is_url(#[trigger] checked[j]) by {
                if j < i {
                    assert(checked[j] == texts(listed@).take(i as int)[j]);
                }
            }
        }
        i += 1;
    }
    proof {
        assert(texts(listed@).take(i as int) =~= texts(listed@));
    }
    match write_urlset(&listed) {
        Ok(document) => Ok(document),
        Err(error) => Err(SitemapError::Write(words_of(error))),
    }
}

} // verus!
